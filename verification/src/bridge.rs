//! The decisions of the desktop application: its commands, the messages of the
//! browser extension, and what the WebSocket bridge does on each tick.
//!
//! Each function takes the shared state and the event, updates the state and says
//! what the caller has to perform (emit the status, send a message).
use vstd::prelude::*;
use vstd::string::*;
use crate::app_state::{AppStateView, EditableRow, LlmConfig, SharedAppState};
use crate::browser_backend::{
    build_injection_script, compile_page_detection_script, compile_payload_from_state,
    injection_script, PAGE_DETECTION_SCRIPT,
};
use crate::text::{
    bool_string, bool_text, chars_after, chars_are, chars_of, decimal, decimal_text, starts_with_chars,
    trim_seq, trim_text, white_space, law_trim_clean, has_prefix,
};
use crate::payload::{amounts_fit, law_payload_empty_iff, payload_text};

verus! {

// Status texts and messages of the bridge.
pub const NO_ROWS_LOADED: &'static str = "Error: No rows loaded. Import a PDF first.";

pub const INJECTION_TRIGGERED: &'static str = "Injection triggered.";

pub const INJECTION_TRIGGERED_BY_EXTENSION: &'static str = "Injection triggered by browser extension.";

pub const AUTO_DETECTION_ARMED: &'static str = "Auto-detection armed.";

pub const AUTO_DETECTION_STOPPED: &'static str = "Auto-detection stopped.";

pub const JOURNAL_SET_TO: &'static str = "Journal set to: ";

pub const FORM_DETECTED: &'static str = "Axeane form detected! Ready to inject.";

pub const WRONG_PAGE: &'static str = "Wrong page \u{2014} navigate to the Axeane ecriture form.";

pub const FORM_NOT_FOUND: &'static str = "Form not found on current page.";

pub const EXTENSION_PAIRED: &'static str = "Browser extension paired via WebSocket.";

pub const EXTENSION_DISCONNECTED: &'static str = "Browser extension disconnected.";

pub const SCANNING_DOM: &'static str = "Scanning browser DOM for Axeane elements...";

pub const NOTHING_TO_INJECT: &'static str = "Warning: No rows to inject. Import a PDF first.";

pub const INJECTION_DISPATCHED: &'static str = "Injection dispatched to browser.";

pub const EVAL_REQUEST: &'static str = "EVAL_REQUEST:";

pub const LLM_KEY_EMPTY: &'static str = "LLM API key is empty on backend";

/// Something the caller of a bridge step has to do, in order.
pub enum BridgeAction {
    /// Emit this status to the user interface.
    EmitStatus(String),
    /// Send this text message to the browser extension.
    Send(String),
}

/// The model of a `BridgeAction`.
pub enum ActionView {
    EmitStatus(Seq<char>),
    Send(Seq<char>),
}

impl View for BridgeAction {
    type V = ActionView;

    open spec fn view(&self) -> ActionView {
        match self {
            BridgeAction::EmitStatus(s) => ActionView::EmitStatus(s@),
            BridgeAction::Send(s) => ActionView::Send(s@),
        }
    }
}

/// A requested injection is backed by rows to inject.
pub open spec fn trigger_backed(s: AppStateView) -> bool {
    s.trigger_injection ==> s.csv_rows.len() > 0
}

/// The state after an injection is requested: refused without rows, with
/// `accepted` as the status otherwise.
pub open spec fn request_injection(s: AppStateView, accepted: Seq<char>) -> AppStateView {
    if s.csv_rows.len() == 0 {
        AppStateView { status: NO_ROWS_LOADED@, ..s }
    } else {
        AppStateView { trigger_injection: true, status: accepted, ..s }
    }
}

/// The state after the journal is set to `code` (surrounding white space removed).
pub open spec fn with_journal(s: AppStateView, code: Seq<char>) -> AppStateView {
    AppStateView {
        journal_code: trim_seq(code),
        status: JOURNAL_SET_TO@ + trim_seq(code),
        ..s
    }
}

/// The state after the page detection script answered `result`.
pub open spec fn after_eval_result(s: AppStateView, result: Seq<char>) -> AppStateView {
    if result == "READY"@ {
        AppStateView {
            status: FORM_DETECTED@,
            auto_detect_active: false,
            trigger_injection: if s.csv_rows.len() > 0 {
                true
            } else {
                s.trigger_injection
            },
            ..s
        }
    } else if result == "WRONG_PAGE"@ {
        AppStateView { status: WRONG_PAGE@, ..s }
    } else if result == "NO_FORM"@ {
        AppStateView { status: FORM_NOT_FOUND@, ..s }
    } else {
        s
    }
}

/// The state after a message `text` of the browser extension, and whether the
/// status is to be emitted.
pub open spec fn message_effect(s: AppStateView, text: Seq<char>) -> (AppStateView, bool) {
    if text == "TRIGGER_INJECTION"@ {
        (request_injection(s, INJECTION_TRIGGERED_BY_EXTENSION@), true)
    } else if text == "START_AUTO_DETECT"@ {
        (AppStateView { auto_detect_active: true, status: AUTO_DETECTION_ARMED@, ..s }, true)
    } else if has_prefix(text, "SET_JOURNAL:"@) {
        (with_journal(s, text.skip("SET_JOURNAL:"@.len() as int)), true)
    } else if text == "STOP_AUTO_DETECT"@ {
        (AppStateView { auto_detect_active: false, status: AUTO_DETECTION_STOPPED@, ..s }, true)
    } else if has_prefix(text, "EVAL_RESULT:"@) {
        (after_eval_result(s, text.skip("EVAL_RESULT:"@.len() as int)), true)
    } else {
        (s, false)
    }
}

/// The payload a tick compiles from the state's rows and templates with `amounts`.
pub open spec fn tick_payload(s: AppStateView, amounts: Seq<Vec<String>>) -> Seq<char> {
    payload_text(s.csv_rows, s.templates, amounts, true)
}

/// The state after a bridge tick; `amounts` are the amounts of the ledger lines of
/// the state's rows.
pub open spec fn tick_state(s: AppStateView, amounts: Seq<Vec<String>>) -> AppStateView {
    let s1 = if s.auto_detect_active {
        AppStateView { status: SCANNING_DOM@, ..s }
    } else {
        s
    };
    if s.trigger_injection {
        if tick_payload(s, amounts) == "[]"@ {
            AppStateView { status: NOTHING_TO_INJECT@, trigger_injection: false, ..s1 }
        } else {
            AppStateView { status: INJECTION_DISPATCHED@, trigger_injection: false, ..s1 }
        }
    } else {
        s1
    }
}

/// What a tick does for the page detection: while auto-detection is on, report the
/// scan and ask the extension to evaluate the detection script.
pub open spec fn detection_actions(s: AppStateView) -> Seq<ActionView> {
    if s.auto_detect_active {
        seq![
            ActionView::EmitStatus(SCANNING_DOM@),
            ActionView::Send(EVAL_REQUEST@ + PAGE_DETECTION_SCRIPT@),
        ]
    } else {
        Seq::empty()
    }
}

/// What a tick does for a pending injection: send the injection script of the
/// payload, or warn when there is nothing to inject.
pub open spec fn injection_actions(s: AppStateView, amounts: Seq<Vec<String>>) -> Seq<ActionView> {
    if s.trigger_injection {
        if tick_payload(s, amounts) == "[]"@ {
            seq![ActionView::EmitStatus(NOTHING_TO_INJECT@)]
        } else {
            seq![
                ActionView::Send(injection_script(tick_payload(s, amounts), s.journal_code)),
                ActionView::EmitStatus(INJECTION_DISPATCHED@),
            ]
        }
    } else {
        Seq::empty()
    }
}

/// What a bridge tick asks the caller to do, in order.
pub open spec fn tick_actions(s: AppStateView, amounts: Seq<Vec<String>>) -> Seq<ActionView> {
    detection_actions(s) + injection_actions(s, amounts)
}

/// How many of `acts` send a message.
pub open spec fn count_sends(acts: Seq<ActionView>) -> nat
    decreases acts.len(),
{
    if acts.len() == 0 {
        0
    } else {
        (if acts[0] is Send {
            1nat
        } else {
            0nat
        }) + count_sends(acts.drop_first())
    }
}

/// An event on one connection of the extension.
pub enum BridgeEvent {
    /// A tick, with the amounts of the ledger lines of the rows loaded at that time.
    Tick(Seq<Vec<String>>),
    /// A text message of the extension.
    Message(Seq<char>),
}

/// The state after `e`, how many injections `e` sent, and how many injection
/// requests `e` raised (a request is raised when none was pending).
pub open spec fn bridge_step(s: AppStateView, e: BridgeEvent) -> (AppStateView, nat, nat) {
    match e {
        BridgeEvent::Tick(amounts) => (
            tick_state(s, amounts),
            count_sends(injection_actions(s, amounts)),
            0,
        ),
        BridgeEvent::Message(text) => {
            let next = message_effect(s, text).0;
            (next, 0, if !s.trigger_injection && next.trigger_injection {
                1
            } else {
                0
            })
        },
    }
}

/// The state after `events`, the injections they sent and the requests they raised.
pub open spec fn bridge_run(s: AppStateView, events: Seq<BridgeEvent>) -> (AppStateView, nat, nat)
    decreases events.len(),
{
    if events.len() == 0 {
        (s, 0, 0)
    } else {
        let first = bridge_step(s, events[0]);
        let rest = bridge_run(first.0, events.drop_first());
        (rest.0, first.1 + rest.1, first.2 + rest.2)
    }
}

/// The status text describing a received LLM configuration.
pub open spec fn llm_config_status(c: LlmConfig) -> Seq<char> {
    "Debug: received LLM config (provider: "@ + c.provider_name@ + ", endpoint: "@
        + c.endpoint_url@ + ", api_key_set: "@ + bool_text(c.api_key@.len() > 0) + ")"@
}

/// The debug line emitted when a PDF import starts.
pub open spec fn import_start_text(c: LlmConfig) -> Seq<char> {
    "Debug: starting import_pdf with provider='"@ + c.provider_name@ + "' endpoint='"@
        + c.endpoint_url@ + "' api_key_set="@ + bool_text(c.api_key@.len() > 0)
}

proof fn lemma_eval_result_message(r: Seq<char>)
    ensures
        ({
            let text = "EVAL_RESULT:"@ + r;
            &&& text != "TRIGGER_INJECTION"@
            &&& text != "START_AUTO_DETECT"@
            &&& text != "STOP_AUTO_DETECT"@
            &&& !has_prefix(text, "SET_JOURNAL:"@)
            &&& has_prefix(text, "EVAL_RESULT:"@)
            &&& text.skip("EVAL_RESULT:"@.len() as int) == r
        }),
{
    reveal_strlit("EVAL_RESULT:");
    reveal_strlit("TRIGGER_INJECTION");
    reveal_strlit("START_AUTO_DETECT");
    reveal_strlit("STOP_AUTO_DETECT");
    reveal_strlit("SET_JOURNAL:");
    let text = "EVAL_RESULT:"@ + r;
    assert(text[0] == 'E');
    assert("TRIGGER_INJECTION"@[0] == 'T');
    assert("START_AUTO_DETECT"@[0] == 'S');
    assert("STOP_AUTO_DETECT"@[0] == 'S');
    assert("SET_JOURNAL:"@[0] == 'S');
    assert(text.take(12)[0] == 'E');
    assert(text.take(12) =~= "EVAL_RESULT:"@);
    assert(text.skip(12) =~= r);
}

/// Only a READY answer of the page detection stops the detection or requests an
/// injection: any other answer leaves both as they were, and the loaded data too.
pub proof fn law_eval_result_not_ready(s: AppStateView, r: Seq<char>)
    requires
        r != "READY"@,
    ensures
        ({
            let (next, emit) = message_effect(s, "EVAL_RESULT:"@ + r);
            &&& emit
            &&& next.auto_detect_active == s.auto_detect_active
            &&& next.trigger_injection == s.trigger_injection
            &&& next.csv_rows == s.csv_rows
            &&& next.templates == s.templates
            &&& next.journal_code == s.journal_code
        }),
{
    lemma_eval_result_message(r);
}

/// A READY answer stops the detection and, with rows loaded, requests an injection.
pub proof fn law_eval_result_ready(s: AppStateView)
    ensures
        ({
            let next = message_effect(s, "EVAL_RESULT:"@ + "READY"@).0;
            &&& !next.auto_detect_active
            &&& next.status == FORM_DETECTED@
            &&& s.csv_rows.len() > 0 ==> next.trigger_injection
            &&& next.csv_rows == s.csv_rows
        }),
{
    lemma_eval_result_message("READY"@);
}

/// A message of the extension never requests an injection without rows to inject.
pub proof fn law_messages_keep_trigger_backed(s: AppStateView, text: Seq<char>)
    requires
        trigger_backed(s),
    ensures
        trigger_backed(message_effect(s, text).0),
{
}

/// An unknown message changes nothing and is not reported.
pub proof fn law_unknown_message_ignored(s: AppStateView, text: Seq<char>)
    requires
        !message_effect(s, text).1,
    ensures
        message_effect(s, text).0 == s,
{
}

/// The journal code set by the extension is stored trimmed: it neither begins nor
/// ends with white space.
pub proof fn law_journal_trimmed(s: AppStateView, code: Seq<char>)
    ensures
        with_journal(s, code).journal_code.len() > 0 ==> !white_space(
            with_journal(s, code).journal_code[0],
        ) && !white_space(with_journal(s, code).journal_code.last()),
{
    law_trim_clean(code);
}

/// A pending injection is handled by the next tick, whatever the payload: the
/// request is cleared.
pub proof fn law_tick_clears_trigger(s: AppStateView, amounts: Seq<Vec<String>>)
    ensures
        !tick_state(s, amounts).trigger_injection,
        tick_state(s, amounts).csv_rows == s.csv_rows,
        tick_state(s, amounts).auto_detect_active == s.auto_detect_active,
{
}

/// A tick sends at most one injection, and none when no injection is pending: all
/// it sends then is the detection request.
pub proof fn law_tick_sends_at_most_one_injection(s: AppStateView, amounts: Seq<Vec<String>>)
    ensures
        count_sends(injection_actions(s, amounts)) <= 1,
        !s.trigger_injection ==> count_sends(injection_actions(s, amounts)) == 0,
        !s.trigger_injection ==> tick_actions(s, amounts) == detection_actions(s),
{
    let acts = injection_actions(s, amounts);
    let none = Seq::<ActionView>::empty();
    assert(count_sends(none) == 0);
    if s.trigger_injection {
        let last = seq![acts.last()];
        assert(last.drop_first() =~= none);
        assert(count_sends(last) == 0);
        if acts.len() == 2 {
            assert(acts.drop_first() =~= last);
        } else {
            assert(acts =~= last);
        }
    }
    assert(detection_actions(s) + Seq::<ActionView>::empty() =~= detection_actions(s));
}

proof fn lemma_messages_never_clear_trigger(s: AppStateView, text: Seq<char>)
    ensures
        s.trigger_injection ==> message_effect(s, text).0.trigger_injection,
{
}

/// On a connection, each injection request is sent at most once: the injections
/// sent, together with a request still pending at the end, never outnumber the
/// requests raised plus the one pending at the start. In particular, when at most
/// one request is ever raised and none is pending at the start, at most one
/// injection is sent.
pub proof fn law_each_request_sent_at_most_once(s: AppStateView, events: Seq<BridgeEvent>)
    ensures
        ({
            let r = bridge_run(s, events);
            r.1 + (if r.0.trigger_injection {
                1nat
            } else {
                0nat
            }) <= r.2 + (if s.trigger_injection {
                1nat
            } else {
                0nat
            })
        }),
    decreases events.len(),
{
    if events.len() > 0 {
        let first = bridge_step(s, events[0]);
        law_each_request_sent_at_most_once(first.0, events.drop_first());
        match events[0] {
            BridgeEvent::Tick(amounts) => {
                law_tick_sends_at_most_one_injection(s, amounts);
            },
            BridgeEvent::Message(text) => {
                lemma_messages_never_clear_trigger(s, text);
            },
        }
    }
}

/// With rows and templates loaded, a pending injection is sent: the tick's next to
/// last action sends the injection script of the rows' payload and the journal code.
pub proof fn law_tick_sends_loaded_rows(s: AppStateView, amounts: Seq<Vec<String>>)
    requires
        s.trigger_injection,
        s.csv_rows.len() > 0,
        s.templates.len() > 0,
    ensures
        ({
            let acts = tick_actions(s, amounts);
            &&& acts.len() >= 2
            &&& acts[acts.len() - 2] == ActionView::Send(
                injection_script(tick_payload(s, amounts), s.journal_code),
            )
            &&& tick_state(s, amounts).status == INJECTION_DISPATCHED@
        }),
{
    law_payload_empty_iff(s.csv_rows, s.templates, amounts, true);
}

/// Command: request an injection of the loaded rows.
pub fn trigger_injection(s: &mut SharedAppState)
    ensures
        final(s)@ == request_injection(old(s)@, INJECTION_TRIGGERED@),
        trigger_backed(old(s)@) ==> trigger_backed(final(s)@),
{
    if s.csv_rows.len() == 0 {
        s.status = String::from_str(NO_ROWS_LOADED);
    } else {
        s.trigger_injection = true;
        s.status = String::from_str(INJECTION_TRIGGERED);
    }
}

/// Command: arm the detection of the ledger form.
pub fn start_auto_detect(s: &mut SharedAppState)
    ensures
        final(s)@ == (AppStateView {
            auto_detect_active: true,
            status: AUTO_DETECTION_ARMED@,
            ..old(s)@
        }),
{
    s.auto_detect_active = true;
    s.status = String::from_str(AUTO_DETECTION_ARMED);
}

/// Command: stop the detection of the ledger form.
pub fn stop_auto_detect(s: &mut SharedAppState)
    ensures
        final(s)@ == (AppStateView {
            auto_detect_active: false,
            status: AUTO_DETECTION_STOPPED@,
            ..old(s)@
        }),
{
    s.auto_detect_active = false;
    s.status = String::from_str(AUTO_DETECTION_STOPPED);
}

/// Command: set the journal the invoices are entered in.
pub fn set_journal(s: &mut SharedAppState, code: &str)
    ensures
        final(s)@ == with_journal(old(s)@, code@),
{
    let trimmed = trim_text(code);
    let mut status = String::from_str(JOURNAL_SET_TO);
    status.append(trimmed.as_str());
    s.journal_code = trimmed;
    s.status = status;
}

/// A message of the browser extension; the result tells whether the status is to
/// be emitted (unknown messages change nothing).
pub fn handle_incoming_message(s: &mut SharedAppState, text: &str) -> (emit: bool)
    ensures
        (final(s)@, emit) == message_effect(old(s)@, text@),
{
    let t = chars_of(text);
    if chars_are(&t, "TRIGGER_INJECTION") {
        if s.csv_rows.len() == 0 {
            s.status = String::from_str(NO_ROWS_LOADED);
        } else {
            s.trigger_injection = true;
            s.status = String::from_str(INJECTION_TRIGGERED_BY_EXTENSION);
        }
        return true;
    }
    if chars_are(&t, "START_AUTO_DETECT") {
        s.auto_detect_active = true;
        s.status = String::from_str(AUTO_DETECTION_ARMED);
        return true;
    }
    let journal_prefix = chars_of("SET_JOURNAL:");
    if starts_with_chars(&t, &journal_prefix) {
        let code = chars_after(&t, journal_prefix.len());
        set_journal(s, code.as_str());
        return true;
    }
    if chars_are(&t, "STOP_AUTO_DETECT") {
        s.auto_detect_active = false;
        s.status = String::from_str(AUTO_DETECTION_STOPPED);
        return true;
    }
    let eval_prefix = chars_of("EVAL_RESULT:");
    if starts_with_chars(&t, &eval_prefix) {
        let result = chars_of(chars_after(&t, eval_prefix.len()).as_str());
        if chars_are(&result, "READY") {
            s.status = String::from_str(FORM_DETECTED);
            s.auto_detect_active = false;
            if s.csv_rows.len() > 0 {
                s.trigger_injection = true;
            }
        } else if chars_are(&result, "WRONG_PAGE") {
            s.status = String::from_str(WRONG_PAGE);
        } else if chars_are(&result, "NO_FORM") {
            s.status = String::from_str(FORM_NOT_FOUND);
        }
        return true;
    }
    false
}

/// The extension connected to the bridge.
pub fn bridge_connected(s: &mut SharedAppState)
    ensures
        final(s)@ == (AppStateView { status: EXTENSION_PAIRED@, ..old(s)@ }),
{
    s.status = String::from_str(EXTENSION_PAIRED);
}

/// The extension closed the connection.
pub fn bridge_disconnected(s: &mut SharedAppState)
    ensures
        final(s)@ == (AppStateView { status: EXTENSION_DISCONNECTED@, ..old(s)@ }),
{
    s.status = String::from_str(EXTENSION_DISCONNECTED);
}

/// One tick of the bridge. `amounts` are the amounts of the ledger lines of the
/// state's rows (see `compile_payload_from_state`), needed when an injection is
/// pending.
pub fn bridge_tick(s: &mut SharedAppState, amounts: &[Vec<String>]) -> (actions: Vec<BridgeAction>)
    requires
        old(s).trigger_injection ==> amounts_fit(
            old(s)@.csv_rows,
            old(s)@.templates,
            amounts@,
            true,
        ),
    ensures
        final(s)@ == tick_state(old(s)@, amounts@),
        actions@.map_values(|a: BridgeAction| a@) == tick_actions(old(s)@, amounts@),
{
    let ghost start = s@;
    let mut actions: Vec<BridgeAction> = Vec::new();
    let trigger = s.trigger_injection;
    if s.auto_detect_active {
        s.status = String::from_str(SCANNING_DOM);
        actions.push(BridgeAction::EmitStatus(String::from_str(SCANNING_DOM)));
        let mut request = String::from_str(EVAL_REQUEST);
        request.append(compile_page_detection_script().as_str());
        actions.push(BridgeAction::Send(request));
    }
    assert(actions@.map_values(|a: BridgeAction| a@) =~= detection_actions(start));
    if trigger {
        let payload = compile_payload_from_state(
            s.csv_rows.as_slice(),
            s.templates.as_slice(),
            amounts,
        );
        let pc = chars_of(payload.as_str());
        if chars_are(&pc, "[]") {
            s.status = String::from_str(NOTHING_TO_INJECT);
            s.trigger_injection = false;
            actions.push(BridgeAction::EmitStatus(String::from_str(NOTHING_TO_INJECT)));
        } else {
            let script = build_injection_script(payload.as_str(), s.journal_code.as_str());
            actions.push(BridgeAction::Send(script));
            s.trigger_injection = false;
            s.status = String::from_str(INJECTION_DISPATCHED);
            actions.push(BridgeAction::EmitStatus(String::from_str(INJECTION_DISPATCHED)));
        }
    }
    assert(actions@.map_values(|a: BridgeAction| a@) =~= tick_actions(start, amounts@));
    actions
}

/// Import step one: the LLM configuration in use is stored; the result is the
/// debug line to emit.
pub fn import_pdf_begin(s: &mut SharedAppState, config: LlmConfig) -> (line: String)
    ensures
        final(s)@ == (AppStateView { llm: config, ..old(s)@ }),
        line@ == import_start_text(config),
{
    let mut line = String::from_str("Debug: starting import_pdf with provider='");
    line.append(config.provider_name.as_str());
    line.append("' endpoint='");
    line.append(config.endpoint_url.as_str());
    line.append("' api_key_set=");
    line.append(bool_string(!config.api_key.as_str().is_empty()).as_str());
    s.llm = config;
    line
}

/// Debug command step one: the configuration is stored and described in the status;
/// an empty API key is refused.
pub fn debug_llm_begin(s: &mut SharedAppState, config: LlmConfig) -> (r: Result<(), String>)
    ensures
        final(s)@ == (AppStateView { llm: config, status: llm_config_status(config), ..old(s)@ }),
        r is Err <==> config.api_key@.len() == 0,
        r matches Err(e) ==> e@ == LLM_KEY_EMPTY@,
{
    let mut status = String::from_str("Debug: received LLM config (provider: ");
    status.append(config.provider_name.as_str());
    status.append(", endpoint: ");
    status.append(config.endpoint_url.as_str());
    status.append(", api_key_set: ");
    let key_set = !config.api_key.as_str().is_empty();
    status.append(bool_string(key_set).as_str());
    status.append(")");
    s.llm = config;
    s.status = status;
    if key_set {
        Ok(())
    } else {
        Err(String::from_str(LLM_KEY_EMPTY))
    }
}

/// The error reported when no HTTP client could be built.
pub fn http_client_failure(detail: &str) -> (r: String)
    ensures
        r@ == "Failed building HTTP client: "@ + detail@,
{
    let mut r = String::from_str("Failed building HTTP client: ");
    r.append(detail);
    r
}

/// Debug command step two: the outcome of probing the endpoint (the HTTP status
/// text, or the error text) becomes the status and the command's result.
pub fn debug_llm_probe_result(s: &mut SharedAppState, probe: Result<String, String>) -> (r: Result<
    String,
    String,
>)
    ensures
        probe matches Ok(code) ==> {
            &&& final(s)@ == (AppStateView { status: "Debug probe result: HTTP "@ + code@, ..old(s)@ })
            &&& r matches Ok(t) && t@ == "Probe HTTP "@ + code@
        },
        probe matches Err(e) ==> {
            &&& final(s)@ == (AppStateView { status: "Debug probe failed: "@ + e@, ..old(s)@ })
            &&& r matches Err(t) && t@ == "Debug probe failed: "@ + e@
        },
{
    match probe {
        Ok(code) => {
            let mut status = String::from_str("Debug probe result: HTTP ");
            status.append(code.as_str());
            s.status = status;
            let mut reply = String::from_str("Probe HTTP ");
            reply.append(code.as_str());
            Ok(reply)
        },
        Err(e) => {
            let mut msg = String::from_str("Debug probe failed: ");
            msg.append(e.as_str());
            s.status = msg.clone();
            Err(msg)
        },
    }
}

/// The error reported when the LLM could not parse the document.
pub fn llm_parse_failure(detail: &str) -> (r: String)
    ensures
        r@ == "LLM parsing failed: "@ + detail@,
{
    let mut r = String::from_str("LLM parsing failed: ");
    r.append(detail);
    r
}

/// Import step two: the parsed rows are appended to the loaded ones; the result is
/// the debug line to emit.
pub fn import_pdf_complete(s: &mut SharedAppState, rows: Vec<EditableRow>) -> (line: String)
    ensures
        final(s)@ == (AppStateView {
            csv_rows: old(s)@.csv_rows + rows@,
            status: "Imported "@ + decimal(rows@.len()) + " rows from PDF via AI."@,
            ..old(s)@
        }),
        line@ == "Debug: import_pdf completed, rows_imported="@ + decimal(rows@.len()),
        trigger_backed(old(s)@) ==> trigger_backed(final(s)@),
{
    let count = rows.len();
    let mut rows = rows;
    s.csv_rows.append(&mut rows);
    let mut status = String::from_str("Imported ");
    status.append(decimal_text(count).as_str());
    status.append(" rows from PDF via AI.");
    s.status = status;
    let mut line = String::from_str("Debug: import_pdf completed, rows_imported=");
    line.append(decimal_text(count).as_str());
    line
}

} // verus!
