//! Decisions of the editing panels: new rows and templates, the auto-detection
//! toggle, the document import, and the removal of the entries a user deleted.
use vstd::prelude::*;
use vstd::string::*;
use crate::app_state::{
    is_standard_ledger, standard_ledger, AppStateView, EditableRow, EntryType, FormatTemplate,
    SharedAppState, TemplateRow,
};

verus! {

/// The panels of the main window.
#[derive(Debug, Clone, Copy, PartialEq, Eq, Structural)]
pub enum ActiveTab {
    CsvEditor,
    FormatTemplates,
    BrowserSettings,
    LlmSettings,
}

// Status texts of the editing panels.
pub const EMPTY_GRID: &'static str =
    "Error: Cannot start automation tracking with an empty spreadsheet grid.";

pub const LISTENER_ARMED: &'static str =
    "Automation listener armed. Navigate to your Axeane ledger sheet to begin.";

pub const MONITORING_SUSPENDED: &'static str = "Auto-detection monitoring suspended manually.";

pub const IMPORT_STARTING: &'static str =
    "Initializing non-blocking background runtime parser token pipelines...";

pub const IMPORT_DONE: &'static str = "Inference complete! Table populated successfully.";

pub const AI_FAILURE: &'static str = "AI Parsing Core Failure: ";

pub const PDF_FAILURE: &'static str = "PDF Ripping Error: ";

/// How a background document import ended.
pub enum ImportOutcome {
    /// The rows the model extracted.
    Rows(Vec<EditableRow>),
    /// The text of the PDF could not be extracted.
    PdfError(String),
    /// The model's answer could not be obtained or read.
    AiError(String),
}

/// The row added by "Insert Custom Row".
pub fn new_custom_row() -> (r: EditableRow)
    ensures
        r.client@ == "PASSAGER"@,
        r.reference@ == "FC/2026"@,
        r.date@ == "08/06/2026"@,
        r.ttc@ == "0.0"@,
        r.ht@ == "0.0"@,
        r.tva@ == "0.0"@,
{
    EditableRow {
        client: String::from_str("PASSAGER"),
        reference: String::from_str("FC/2026"),
        date: String::from_str("08/06/2026"),
        ttc: String::from_str("0.0"),
        ht: String::from_str("0.0"),
        tva: String::from_str("0.0"),
    }
}

/// The template added by "Generate Client Template Mapping Card".
pub fn new_template_card() -> (t: FormatTemplate)
    ensures
        t.id is None,
        t.client_key@ == "NEW COMPANY IDENTIFIER"@,
        is_standard_ledger(t.rows@),
{
    FormatTemplate {
        id: None,
        client_key: String::from_str("NEW COMPANY IDENTIFIER"),
        rows: standard_ledger(),
    }
}

/// The ledger line added by "Add Ledger Row".
pub fn new_ledger_row() -> (r: TemplateRow)
    ensures
        r.compte@ == ""@,
        r.entry_type == EntryType::Debit,
        r.formula@ == "0.0"@,
{
    TemplateRow {
        compte: String::from_str(""),
        entry_type: EntryType::Debit,
        formula: String::from_str("0.0"),
    }
}

/// The state after the auto-detection button: refused on an empty grid, else the
/// detection is switched over.
pub open spec fn toggled_detection(s: AppStateView) -> AppStateView {
    if s.csv_rows.len() == 0 {
        AppStateView { status: EMPTY_GRID@, ..s }
    } else {
        AppStateView {
            auto_detect_active: !s.auto_detect_active,
            status: if s.auto_detect_active {
                MONITORING_SUSPENDED@
            } else {
                LISTENER_ARMED@
            },
            ..s
        }
    }
}

/// The auto-detection button of the editor.
pub fn toggle_auto_detection(s: &mut SharedAppState)
    ensures
        final(s)@ == toggled_detection(old(s)@),
{
    if s.csv_rows.len() == 0 {
        s.status = String::from_str(EMPTY_GRID);
    } else {
        s.auto_detect_active = !s.auto_detect_active;
        if s.auto_detect_active {
            s.status = String::from_str(LISTENER_ARMED);
        } else {
            s.status = String::from_str(MONITORING_SUSPENDED);
        }
    }
}

/// Pressing the auto-detection button twice on a non-empty grid leaves the
/// detection as it was.
pub proof fn law_toggle_twice(s: AppStateView)
    requires
        s.csv_rows.len() > 0,
    ensures
        toggled_detection(toggled_detection(s)).auto_detect_active == s.auto_detect_active,
        toggled_detection(toggled_detection(s)).csv_rows == s.csv_rows,
{
}

/// The import button: the import runs in the background from now on.
pub fn begin_document_import(s: &mut SharedAppState)
    ensures
        final(s)@ == (AppStateView { is_loading: true, status: IMPORT_STARTING@, ..old(s)@ }),
{
    s.is_loading = true;
    s.status = String::from_str(IMPORT_STARTING);
}

/// The end of a background import: the extracted rows replace the grid, or the
/// failure is reported; the import is no longer running either way.
pub fn finish_document_import(s: &mut SharedAppState, outcome: ImportOutcome)
    ensures
        outcome matches ImportOutcome::Rows(rows) ==> final(s)@ == (AppStateView {
            csv_rows: rows@,
            is_loading: false,
            status: IMPORT_DONE@,
            ..old(s)@
        }),
        outcome matches ImportOutcome::PdfError(e) ==> final(s)@ == (AppStateView {
            is_loading: false,
            status: PDF_FAILURE@ + e@,
            ..old(s)@
        }),
        outcome matches ImportOutcome::AiError(e) ==> final(s)@ == (AppStateView {
            is_loading: false,
            status: AI_FAILURE@ + e@,
            ..old(s)@
        }),
{
    match outcome {
        ImportOutcome::Rows(rows) => {
            s.csv_rows = rows;
            s.is_loading = false;
            s.status = String::from_str(IMPORT_DONE);
        },
        ImportOutcome::PdfError(e) => {
            let mut status = String::from_str(PDF_FAILURE);
            status.append(e.as_str());
            s.is_loading = false;
            s.status = status;
        },
        ImportOutcome::AiError(e) => {
            let mut status = String::from_str(AI_FAILURE);
            status.append(e.as_str());
            s.is_loading = false;
            s.status = status;
        },
    }
}

/// Position `i` is listed in `drop`.
pub open spec fn listed(drop: Seq<usize>, i: int) -> bool {
    exists|k: int| 0 <= k < drop.len() && drop[k] == i
}

/// The elements of `s` whose positions are not listed in `drop`, in order.
pub open spec fn kept<T>(s: Seq<T>, drop: Seq<usize>) -> Seq<T>
    decreases s.len(),
{
    if s.len() == 0 {
        s
    } else if listed(drop, s.len() - 1) {
        kept(s.drop_last(), drop)
    } else {
        kept(s.drop_last(), drop).push(s.last())
    }
}

proof fn lemma_kept_all<T>(s: Seq<T>, drop: Seq<usize>)
    requires
        forall|k: int| 0 <= k < drop.len() ==> drop[k] >= s.len(),
    ensures
        kept(s, drop) == s,
    decreases s.len(),
{
    if s.len() > 0 {
        lemma_kept_all(s.drop_last(), drop);
        assert(s.drop_last().push(s.last()) =~= s);
    }
}

proof fn lemma_kept_prefix<T>(s: Seq<T>, drop: Seq<usize>, p: int)
    requires
        0 <= p < s.len(),
        forall|k: int| 0 <= k < drop.len() ==> drop[k] > p,
    ensures
        kept(s, drop).len() > p,
        kept(s, drop).take(p + 1) == s.take(p + 1),
    decreases s.len(),
{
    if s.len() - 1 == p {
        lemma_kept_all(s, drop);
    } else {
        let t = s.drop_last();
        lemma_kept_prefix(t, drop, p);
        assert(t.take(p + 1) =~= s.take(p + 1));
        if !listed(drop, s.len() - 1) {
            assert(kept(t, drop).push(s.last()).take(p + 1) =~= kept(t, drop).take(p + 1));
        }
    }
}

proof fn lemma_kept_remove<T>(s: Seq<T>, drop: Seq<usize>, p: usize)
    requires
        p < s.len(),
        forall|k: int| 0 <= k < drop.len() ==> drop[k] > p,
    ensures
        kept(s, drop).len() > p,
        kept(s, drop).remove(p as int) == kept(s, seq![p] + drop),
    decreases s.len(),
{
    let d2 = seq![p] + drop;
    lemma_kept_prefix(s, drop, p as int);
    let t = s.drop_last();
    if s.len() - 1 == p as int {
        assert(!listed(drop, s.len() - 1));
        assert(listed(d2, s.len() - 1)) by {
            assert(d2[0] == p);
        }
        lemma_kept_all(t, drop);
        assert forall|k: int| 0 <= k < d2.len() implies d2[k] >= t.len() by {
            if k > 0 {
                assert(d2[k] == drop[k - 1]);
            }
        }
        lemma_kept_all(t, d2);
        assert(t.push(s.last()).remove(p as int) =~= t);
    } else {
        lemma_kept_remove(t, drop, p);
        let last_listed = listed(drop, s.len() - 1);
        assert(listed(d2, s.len() - 1) == last_listed) by {
            if listed(drop, s.len() - 1) {
                let k = choose|k: int| 0 <= k < drop.len() && drop[k] == s.len() - 1;
                assert(d2[k + 1] == drop[k]);
            }
            if listed(d2, s.len() - 1) {
                let k = choose|k: int| 0 <= k < d2.len() && d2[k] == s.len() - 1;
                assert(k > 0);
                assert(drop[k - 1] == d2[k]);
            }
        }
        if !last_listed {
            let a = kept(t, drop);
            assert(a.push(s.last()).remove(p as int) =~= a.remove(p as int).push(s.last()));
        }
    }
}

proof fn lemma_increasing_gap(ps: Seq<usize>, i: int, j: int)
    requires
        forall|a: int, b: int| 0 <= a < b < ps.len() ==> ps[a] < ps[b],
        0 <= i <= j < ps.len(),
    ensures
        ps[j] - ps[i] >= j - i,
    decreases j - i,
{
    if i < j {
        lemma_increasing_gap(ps, i + 1, j);
    }
}

/// `positions` are positions below `len`, listed in increasing order (as the panels
/// collect the entries whose delete button was pressed).
pub open spec fn positions_valid(positions: Seq<usize>, len: int) -> bool {
    &&& forall|a: int, b: int| 0 <= a < b < positions.len() ==> positions[a] < positions[b]
    &&& positions.len() > 0 ==> positions.last() < len
}

/// Removes the entries at `positions` (listed in increasing order), as the panels
/// do with the rows and templates whose delete button was pressed.
pub fn remove_positions<T>(v: &mut Vec<T>, positions: &Vec<usize>)
    requires
        positions_valid(positions@, old(v)@.len() as int),
    ensures
        final(v)@ == kept(old(v)@, positions@),
        final(v)@.len() == old(v)@.len() - positions@.len(),
{
    let ghost start = v@;
    let n = positions.len();
    let mut k: usize = n;
    proof {
        assert(positions@.skip(n as int) =~= Seq::<usize>::empty());
        lemma_kept_all(start, positions@.skip(n as int));
    }
    while k > 0
        invariant
            n == positions@.len(),
            k <= n,
            forall|a: int, b: int| 0 <= a < b < positions@.len() ==> positions@[a] < positions@[b],
            n > 0 ==> positions@.last() < start.len(),
            v@ == kept(start, positions@.skip(k as int)),
            v@.len() == start.len() - (n - k),
        decreases k,
    {
        k = k - 1;
        let p = positions[k];
        proof {
            lemma_increasing_gap(positions@, k as int, n - 1);
            let rest = positions@.skip(k + 1);
            assert forall|j: int| 0 <= j < rest.len() implies rest[j] > p by {
                assert(rest[j] == positions@[k + 1 + j]);
            }
            lemma_kept_remove(start, rest, p);
            assert(seq![p] + rest =~= positions@.skip(k as int));
        }
        v.remove(p);
    }
    assert(positions@.skip(0) =~= positions@);
}

/// A control of the editor panel that the user pressed.
pub enum EditorAction {
    /// "Import document.pdf": starts a background import.
    ImportDocument,
    /// "Insert Custom Row".
    InsertCustomRow,
    /// The auto-detection button.
    ToggleAutoDetection,
    /// The delete buttons of these rows (positions in increasing order).
    DeleteRows(Vec<usize>),
}

/// `r` is the row that "Insert Custom Row" adds.
pub open spec fn is_custom_row(r: EditableRow) -> bool {
    &&& r.client@ == "PASSAGER"@
    &&& r.reference@ == "FC/2026"@
    &&& r.date@ == "08/06/2026"@
    &&& r.ttc@ == "0.0"@
    &&& r.ht@ == "0.0"@
    &&& r.tva@ == "0.0"@
}

/// The editor panel: while an import runs it shows only its progress, so no control
/// acts; otherwise the pressed control takes effect. The result tells whether a
/// background import is to be started.
pub fn editor_action(s: &mut SharedAppState, action: EditorAction) -> (start_import: bool)
    requires
        action matches EditorAction::DeleteRows(p) ==> positions_valid(
            p@,
            old(s)@.csv_rows.len() as int,
        ),
    ensures
        old(s)@.is_loading ==> final(s)@ == old(s)@ && !start_import,
        !old(s)@.is_loading ==> match action {
            EditorAction::ImportDocument => start_import && final(s)@ == (AppStateView {
                is_loading: true,
                status: IMPORT_STARTING@,
                ..old(s)@
            }),
            EditorAction::InsertCustomRow => {
                &&& !start_import
                &&& final(s)@.csv_rows.len() == old(s)@.csv_rows.len() + 1
                &&& is_custom_row(final(s)@.csv_rows.last())
                &&& final(s)@ == (AppStateView {
                    csv_rows: old(s)@.csv_rows.push(final(s)@.csv_rows.last()),
                    ..old(s)@
                })
            },
            EditorAction::ToggleAutoDetection => !start_import && final(s)@ == toggled_detection(
                old(s)@,
            ),
            EditorAction::DeleteRows(p) => !start_import && final(s)@ == (AppStateView {
                csv_rows: kept(old(s)@.csv_rows, p@),
                ..old(s)@
            }),
        },
{
    if s.is_loading {
        return false;
    }
    match action {
        EditorAction::ImportDocument => {
            begin_document_import(s);
            true
        },
        EditorAction::InsertCustomRow => {
            s.csv_rows.push(new_custom_row());
            false
        },
        EditorAction::ToggleAutoDetection => {
            toggle_auto_detection(s);
            false
        },
        EditorAction::DeleteRows(p) => {
            remove_positions(&mut s.csv_rows, &p);
            false
        },
    }
}

/// A control of the templates panel that the user pressed.
pub enum FormatsAction {
    /// "Generate Client Template Mapping Card".
    NewTemplate,
    /// "Add Ledger Row" of the template at this position.
    AddLedgerRow(usize),
    /// The delete buttons of these ledger lines (increasing positions) of a template.
    DeleteLedgerRows(usize, Vec<usize>),
    /// "Remove Template" of these templates (positions in increasing order).
    DeleteTemplates(Vec<usize>),
}

/// `t` is the template that "Generate Client Template Mapping Card" adds.
pub open spec fn is_new_template_card(t: FormatTemplate) -> bool {
    &&& t.id is None
    &&& t.client_key@ == "NEW COMPANY IDENTIFIER"@
    &&& is_standard_ledger(t.rows@)
}

/// `r` is the ledger line that "Add Ledger Row" adds.
pub open spec fn is_new_ledger_row(r: TemplateRow) -> bool {
    &&& r.compte@ == ""@
    &&& r.entry_type == EntryType::Debit
    &&& r.formula@ == "0.0"@
}

/// `after` is `before` where only the ledger lines of the template at `t` changed,
/// into `rows`.
pub open spec fn ledger_changed(
    before: Seq<FormatTemplate>,
    after: Seq<FormatTemplate>,
    t: int,
    rows: Seq<TemplateRow>,
) -> bool {
    &&& after.len() == before.len()
    &&& forall|i: int| 0 <= i < before.len() && i != t ==> #[trigger] after[i] == before[i]
    &&& after[t].id == before[t].id
    &&& after[t].client_key == before[t].client_key
    &&& after[t].rows@ == rows
}

/// Takes the template at `t` out of the state.
fn take_template(s: &mut SharedAppState, t: usize) -> (tpl: FormatTemplate)
    requires
        t < old(s)@.templates.len(),
    ensures
        tpl == old(s)@.templates[t as int],
        final(s)@ == (AppStateView { templates: old(s)@.templates.remove(t as int), ..old(s)@ }),
{
    s.templates.remove(t)
}

/// Puts `tpl`, with the ledger lines `rows`, back at `t`.
fn put_template(s: &mut SharedAppState, t: usize, tpl: FormatTemplate, rows: Vec<TemplateRow>)
    requires
        t <= old(s)@.templates.len(),
    ensures
        final(s)@.templates.len() == old(s)@.templates.len() + 1,
        final(s)@.templates[t as int].id == tpl.id,
        final(s)@.templates[t as int].client_key == tpl.client_key,
        final(s)@.templates[t as int].rows@ == rows@,
        final(s)@ == (AppStateView {
            templates: old(s)@.templates.insert(t as int, final(s)@.templates[t as int]),
            ..old(s)@
        }),
{
    let updated = FormatTemplate { id: tpl.id, client_key: tpl.client_key, rows };
    s.templates.insert(t, updated);
}

/// The templates panel: the pressed control takes effect.
pub fn formats_action(s: &mut SharedAppState, action: FormatsAction)
    requires
        action matches FormatsAction::AddLedgerRow(t) ==> t < old(s)@.templates.len(),
        action matches FormatsAction::DeleteLedgerRows(t, p) ==> t < old(s)@.templates.len()
            && positions_valid(p@, old(s)@.templates[t as int].rows@.len() as int),
        action matches FormatsAction::DeleteTemplates(p) ==> positions_valid(
            p@,
            old(s)@.templates.len() as int,
        ),
    ensures
        final(s)@ == (AppStateView { templates: final(s)@.templates, ..old(s)@ }),
        match action {
            FormatsAction::NewTemplate => {
                &&& final(s)@.templates.len() == old(s)@.templates.len() + 1
                &&& is_new_template_card(final(s)@.templates.last())
                &&& final(s)@.templates == old(s)@.templates.push(final(s)@.templates.last())
            },
            FormatsAction::AddLedgerRow(t) => {
                let rows = final(s)@.templates[t as int].rows@;
                &&& rows.len() == old(s)@.templates[t as int].rows@.len() + 1
                &&& is_new_ledger_row(rows.last())
                &&& ledger_changed(
                    old(s)@.templates,
                    final(s)@.templates,
                    t as int,
                    old(s)@.templates[t as int].rows@.push(rows.last()),
                )
            },
            FormatsAction::DeleteLedgerRows(t, p) => ledger_changed(
                old(s)@.templates,
                final(s)@.templates,
                t as int,
                kept(old(s)@.templates[t as int].rows@, p@),
            ),
            FormatsAction::DeleteTemplates(p) => final(s)@.templates == kept(
                old(s)@.templates,
                p@,
            ),
        },
{
    match action {
        FormatsAction::NewTemplate => {
            s.templates.push(new_template_card());
        },
        FormatsAction::AddLedgerRow(t) => {
            let ghost before = s@.templates;
            let mut tpl = take_template(s, t);
            let mut rows = Vec::new();
            std::mem::swap(&mut rows, &mut tpl.rows);
            rows.push(new_ledger_row());
            put_template(s, t, tpl, rows);
            assert(s@.templates.len() == before.len());
            assert forall|i: int| 0 <= i < before.len() && i != t implies #[trigger] s@.templates[i]
                == before[i] by {
                if i < t {
                    assert(s@.templates[i] == before.remove(t as int)[i]);
                } else {
                    assert(s@.templates[i] == before.remove(t as int)[i - 1]);
                }
            }
        },
        FormatsAction::DeleteLedgerRows(t, p) => {
            let ghost before = s@.templates;
            let mut tpl = take_template(s, t);
            let mut rows = Vec::new();
            std::mem::swap(&mut rows, &mut tpl.rows);
            remove_positions(&mut rows, &p);
            put_template(s, t, tpl, rows);
            assert forall|i: int| 0 <= i < before.len() && i != t implies #[trigger] s@.templates[i]
                == before[i] by {
                if i < t {
                    assert(s@.templates[i] == before.remove(t as int)[i]);
                } else {
                    assert(s@.templates[i] == before.remove(t as int)[i - 1]);
                }
            }
        },
        FormatsAction::DeleteTemplates(p) => {
            remove_positions(&mut s.templates, &p);
        },
    }
}

} // verus!
