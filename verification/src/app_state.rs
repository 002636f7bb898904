//! The application's data: extracted ledger rows, formatting templates,
//! LLM connection settings and the shared state that the bridge works on.
use vstd::prelude::*;
use vstd::string::*;

verus! {

/// One invoice row as extracted from a PDF and edited by the user.
#[derive(Debug, Clone)]
pub struct EditableRow {
    pub client: String,
    pub reference: String,
    pub date: String,
    pub ttc: String,
    pub ht: String,
    pub tva: String,
}

/// Side of a ledger line.
#[derive(Debug, Clone, Copy, PartialEq, Eq, Structural)]
pub enum EntryType {
    Debit,
    Credit,
}

/// One ledger line of a template: an account, a side and the formula of its amount.
#[derive(Debug, Clone)]
pub struct TemplateRow {
    pub compte: String,
    pub entry_type: EntryType,
    pub formula: String,
}

/// A template applied to the rows whose client contains `client_key`.
#[derive(Debug, Clone)]
pub struct FormatTemplate {
    pub id: Option<i32>,
    pub client_key: String,
    pub rows: Vec<TemplateRow>,
}

/// Connection settings of the language model service.
/// (The sampling temperature, a floating-point setting, is kept by the application
/// layer, which alone sends requests.)
#[derive(Debug, Clone)]
pub struct LlmConfig {
    pub provider_name: String,
    pub endpoint_url: String,
    pub api_key: String,
    pub model_name: String,
    pub max_tokens: u32,
}

/// The state shared by the commands, the user interface and the browser bridge.
pub struct SharedAppState {
    pub csv_rows: Vec<EditableRow>,
    pub templates: Vec<FormatTemplate>,
    pub port: String,
    pub browser_path: String,
    pub incognito: bool,
    pub status: String,
    pub trigger_injection: bool,
    pub auto_detect_active: bool,
    pub is_loading: bool,
    pub llm: LlmConfig,
    pub journal_code: String,
}

/// The mathematical model of `SharedAppState`: texts as character sequences.
#[verifier::ext_equal]
pub struct AppStateView {
    pub csv_rows: Seq<EditableRow>,
    pub templates: Seq<FormatTemplate>,
    pub port: Seq<char>,
    pub browser_path: Seq<char>,
    pub incognito: bool,
    pub status: Seq<char>,
    pub trigger_injection: bool,
    pub auto_detect_active: bool,
    pub is_loading: bool,
    pub llm: LlmConfig,
    pub journal_code: Seq<char>,
}

impl View for SharedAppState {
    type V = AppStateView;

    open spec fn view(&self) -> AppStateView {
        AppStateView {
            csv_rows: self.csv_rows@,
            templates: self.templates@,
            port: self.port@,
            browser_path: self.browser_path@,
            incognito: self.incognito,
            status: self.status@,
            trigger_injection: self.trigger_injection,
            auto_detect_active: self.auto_detect_active,
            is_loading: self.is_loading,
            llm: self.llm,
            journal_code: self.journal_code@,
        }
    }
}

/// The three standard ledger lines: customer debit (`row.ttc`), sales credit
/// (`row.ht`) and VAT credit (`row.tva`).
pub open spec fn is_standard_ledger(rows: Seq<TemplateRow>) -> bool {
    &&& rows.len() == 3
    &&& rows[0].compte@ == "41100000"@
    &&& rows[0].entry_type == EntryType::Debit
    &&& rows[0].formula@ == "row.ttc"@
    &&& rows[1].compte@ == "70700000"@
    &&& rows[1].entry_type == EntryType::Credit
    &&& rows[1].formula@ == "row.ht"@
    &&& rows[2].compte@ == "43670000"@
    &&& rows[2].entry_type == EntryType::Credit
    &&& rows[2].formula@ == "row.tva"@
}

/// A fresh copy of the three standard ledger lines.
pub fn standard_ledger() -> (rows: Vec<TemplateRow>)
    ensures
        is_standard_ledger(rows@),
{
    vec![
        TemplateRow {
            compte: String::from_str("41100000"),
            entry_type: EntryType::Debit,
            formula: String::from_str("row.ttc"),
        },
        TemplateRow {
            compte: String::from_str("70700000"),
            entry_type: EntryType::Credit,
            formula: String::from_str("row.ht"),
        },
        TemplateRow {
            compte: String::from_str("43670000"),
            entry_type: EntryType::Credit,
            formula: String::from_str("row.tva"),
        },
    ]
}

/// The state the application starts in.
pub fn initial_state() -> (s: SharedAppState)
    ensures
        s@.csv_rows.len() == 0,
        s@.templates.len() == 1,
        s@.templates[0].id == Some(1i32),
        s@.templates[0].client_key@ == "PASSAGER"@,
        is_standard_ledger(s@.templates[0].rows@),
        s@.port == "9222"@,
        s@.browser_path == "chrome"@,
        s@.incognito,
        s@.status
            == "System online. Configure parameters within AI Core tab before parsing document.pdf."@,
        !s@.trigger_injection,
        !s@.auto_detect_active,
        !s@.is_loading,
        s@.llm.provider_name@ == "DeepSeek"@,
        s@.llm.endpoint_url@ == "https://api.deepseek.com/v1/chat/completions"@,
        s@.llm.api_key@ == ""@,
        s@.llm.model_name@ == "deepseek-chat"@,
        s@.llm.max_tokens == 3000,
        s@.journal_code == ""@,
{
    let template = FormatTemplate {
        id: Some(1),
        client_key: String::from_str("PASSAGER"),
        rows: standard_ledger(),
    };
    SharedAppState {
        csv_rows: Vec::new(),
        templates: vec![template],
        port: String::from_str("9222"),
        browser_path: String::from_str("chrome"),
        incognito: true,
        status: String::from_str(
            "System online. Configure parameters within AI Core tab before parsing document.pdf.",
        ),
        trigger_injection: false,
        auto_detect_active: false,
        is_loading: false,
        llm: LlmConfig {
            provider_name: String::from_str("DeepSeek"),
            endpoint_url: String::from_str("https://api.deepseek.com/v1/chat/completions"),
            api_key: String::from_str(""),
            model_name: String::from_str("deepseek-chat"),
            max_tokens: 3000,
        },
        journal_code: String::from_str(""),
    }
}

} // verus!
