//! The scripts and payload of the first, webview-based edition of the bridge.
//! Its payload matches template keys with the exact case of the client name.
use vstd::prelude::*;
use vstd::string::*;
use crate::app_state::{EditableRow, FormatTemplate};
use crate::payload::{amounts_fit, payload_text, render_payload};

verus! {

/// The page detection script of this edition: it evaluates to `"READY"`,
/// `"WRONG_PAGE"` or `"NO_FORM"`.
pub const PAGE_DETECTION_SCRIPT: &'static str = r#"
    (function() {
        const form = document.getElementById('ecritureForm');
        if (!form) {
            return "NO_FORM";
        }
        
        // Look for signature Axeane structural landmarks
        const hasDateInput = document.querySelector('input[id*="ec-date-creation"]') !== null;
        const hasJournalSelect = document.querySelector('select[id*="jo-eav"]') !== null;
        const hasRowFields = document.querySelector('[id*="cc_0_3"], [id*="exlibelle0"]') !== null;
        
        // If the main form is there along with signature transaction fields, we are on the target page
        if (hasDateInput || hasJournalSelect || hasRowFields) {
            return "READY";
        } else {
            return "WRONG_PAGE";
        }
    })();
    "#;

/// The page detection script sent with `EVAL_REQUEST:`.
pub fn compile_page_detection_script() -> (r: String)
    ensures
        r@ == PAGE_DETECTION_SCRIPT@,
{
    String::from_str(PAGE_DETECTION_SCRIPT)
}

/// The JSON payload of the rows: each row goes with the first template whose key
/// occurs in its client name (same case), else with the `DEFAULT` template, else
/// with the first template; `[]` when there is no template.
/// `amounts[i][k]` is the JSON number text of the `k`-th ledger line of row `i`.
pub fn compile_payload_from_state(
    rows: &[EditableRow],
    templates: &[FormatTemplate],
    amounts: &[Vec<String>],
) -> (r: String)
    requires
        amounts_fit(rows@, templates@, amounts@, false),
    ensures
        r@ == payload_text(rows@, templates@, amounts@, false),
{
    render_payload(rows, templates, amounts, false)
}

} // verus!
