//! Scripts and payload exchanged with the browser extension.
use vstd::prelude::*;
use vstd::string::*;
use crate::app_state::{EditableRow, FormatTemplate};
use crate::payload::{amounts_fit, payload_text, render_payload};
use crate::text::{chars_of, push_char};

verus! {

/// The script that tells whether the current page is the ledger entry form:
/// it evaluates to `"READY"`, `"WRONG_PAGE"` or `"NO_FORM"`.
pub const PAGE_DETECTION_SCRIPT: &'static str = r#"
    (function() {
        const root = document.querySelector('.td-root');
        if (!root) return "NO_FORM";

        const form = document.getElementById('ecritureForm');
        if (!form) return "NO_FORM";

        const hasDateInput    = !!document.getElementById('ec-date-creation');
        const hasJournalSel   = !!document.getElementById('jo-eav');
        const hasPieceInput   = !!document.getElementById('idDocumentInputMD2');
        const hasLibelleInput = !!document.getElementById('inputLibelleIdMD2');
        const hasLineInput    = !!document.getElementById('cc_0_3');

        if (hasDateInput && hasJournalSel && hasPieceInput) {
            try {
                const $scope = angular.element(root).scope();
                if (!$scope || !$scope.ecritureGrouping) return "WRONG_PAGE";
            } catch(e) {
                return "WRONG_PAGE";
            }
            return "READY";
        }

        return "WRONG_PAGE";
    })();
    "#;

/// The injection script up to the payload.
pub const INJECTION_HEAD: &'static str = r#"(function() {
    'use strict';

    const payloadData = "#;

/// The injection script between the payload and the journal code.
pub const INJECTION_MIDDLE: &'static str = r#";
    const journalCode = '"#;

/// The injection script after the journal code.
pub const INJECTION_TAIL: &'static str = r#"';

    if (!payloadData || payloadData.length === 0) {
        console.warn('[Axeane Bridge] Empty payload.');
        return;
    }

    const rootEl = document.querySelector('.td-root');
    if (!rootEl) { alert('[Axeane Bridge] Not on Saisie des ecritures page.'); return; }
    const $scope = angular.element(rootEl).scope();
    if (!$scope) { alert('[Axeane Bridge] Angular scope not found.'); return; }

    function apply(fn) { $scope.$apply(fn); }

    function resolveJournal() {
        const eid = $scope.contextComptable &&
            $scope.contextComptable.currentEntreprise &&
            $scope.contextComptable.currentEntreprise.entrepriseId;
        if (!eid) return null;
        const map = $scope.model && $scope.model.mapCodeJournauxEntreprise;
        if (!map || !map[eid]) return null;
        return map[eid].find(j => j.code === journalCode) || null;
    }

    function resolveCompte(compte) {
        const eid = $scope.contextComptable &&
            $scope.contextComptable.currentEntreprise &&
            $scope.contextComptable.currentEntreprise.entrepriseId;
        if (!eid) return null;
        const map = $scope.model &&
            $scope.model.mapComptesComptableEntreprise &&
            $scope.model.mapComptesComptableEntreprise[eid];
        if (!map) return null;
        return map.find(c =>
            c.compteComptable === compte ||
            (c.dernierCompteLibelle && c.dernierCompteLibelle.startsWith(compte))
        ) || null;
    }

    let invoiceIdx = 0;

    function nextInvoice() {
        if (invoiceIdx >= payloadData.length) {
            console.log('[Axeane Bridge] Done - ' + payloadData.length + ' invoices injected.');
            return;
        }
        const entry = payloadData[invoiceIdx];
        console.log('[Bridge] Invoice ' + (invoiceIdx+1) + '/' + payloadData.length + ' - ' + entry.ref);

        apply(function() {
            if (typeof $scope.resetEcritures === 'function') $scope.resetEcritures();
        });

        setTimeout(function() {
            apply(function() {
                $scope.ecritureGrouping.dateOperation = entry.date;
                $scope.ecritureGrouping.piece         = entry.ref;
                $scope.ecritureGrouping.libelle       = ('FACTURE ' + entry.ref + ' ' + entry.client)
                                                          .toUpperCase().substring(0, 120);
                const j = resolveJournal();
                if (j) {
                    $scope.ecritureGrouping.journal = j;
                    if (typeof $scope.JournalCodeChanges === 'function') $scope.JournalCodeChanges();
                } else {
                    console.warn('[Bridge] Journal not found: ' + journalCode);
                }
            });

            setTimeout(function() { fillLines(entry, 0, function() {
                apply(function() {
                    if (typeof $scope.saveEcriture === 'function') $scope.saveEcriture();
                });
                invoiceIdx++;
                setTimeout(nextInvoice, 2200);
            }); }, 400);
        }, 300);
    }

    function fillLines(entry, lineIdx, onDone) {
        if (lineIdx >= entry.lignes.length) { onDone(); return; }
        const ligne = entry.lignes[lineIdx];

        apply(function() {
            const existing = ($scope.ecritureGrouping.ecritureComptables || []).length;
            if (existing <= lineIdx) {
                if (typeof $scope.ajouterEcriture === 'function') $scope.ajouterEcriture();
            }
        });

        setTimeout(function() {
            apply(function() {
                const ecs = $scope.ecritureGrouping.ecritureComptables;
                if (!ecs || !ecs[lineIdx]) {
                    console.warn('[Bridge] Missing line slot ' + lineIdx);
                    fillLines(entry, lineIdx + 1, onDone);
                    return;
                }
                const ec = ecs[lineIdx];

                const compteObj = resolveCompte(ligne.compte);
                if (compteObj) {
                    ec.comptesComptable = compteObj.dernierCompteLibelle || ligne.compte;
                    if (typeof $scope.onSelectCompteComptable === 'function') {
                        $scope.onSelectCompteComptable(
                            compteObj, compteObj.dernierCompteLibelle,
                            compteObj.dernierCompteLibelle, lineIdx, ec
                        );
                        if (typeof $scope.noNeedTreasuryOperation === 'function')
                            $scope.noNeedTreasuryOperation(ec, lineIdx);
                    }
                } else {
                    ec.comptesComptable = ligne.compte;
                }

                ec.extraLibelle = ('FAC ' + entry.ref).toUpperCase().substring(0, 40);

                const amt = ligne.amount.toFixed(3);
                if (ligne.type === 'debit') {
                    ec.debit  = amt;
                    ec.credit = '0,000';
                } else {
                    ec.credit = amt;
                    ec.debit  = '0,000';
                }

                if (typeof $scope.calculateTotalDebit  === 'function') $scope.calculateTotalDebit(true, ec, false);
                if (typeof $scope.calculateTotalCredit === 'function') $scope.calculateTotalCredit(true, ec, false);
            });

            setTimeout(function() { fillLines(entry, lineIdx + 1, onDone); }, 350);
        }, 250);
    }

    nextInvoice();
})();"#;

/// How one character of the journal code is written inside a single-quoted
/// JavaScript string: backslash and quote get a backslash in front.
pub open spec fn js_escape_char(c: char) -> Seq<char> {
    if c == '\\' {
        seq!['\\', '\\']
    } else if c == '\'' {
        seq!['\\', '\'']
    } else {
        seq![c]
    }
}

/// `s` written inside a single-quoted JavaScript string.
pub open spec fn js_escape(s: Seq<char>) -> Seq<char>
    decreases s.len(),
{
    if s.len() == 0 {
        Seq::empty()
    } else {
        js_escape_char(s[0]) + js_escape(s.drop_first())
    }
}

/// How a single-quoted JavaScript string body reads back text that `js_escape`
/// wrote: a backslash takes the next character literally. This is how JavaScript
/// reads an escaped backslash and an escaped quote, the only escapes that
/// `js_escape` produces; other JavaScript escapes (a backslash before `n`, say,
/// which JavaScript reads as a line feed) are not decoded here.
pub open spec fn js_unescape(s: Seq<char>) -> Seq<char>
    decreases s.len(),
{
    if s.len() == 0 {
        Seq::empty()
    } else if s[0] == '\\' && s.len() >= 2 {
        seq![s[1]] + js_unescape(s.skip(2))
    } else {
        seq![s[0]] + js_unescape(s.drop_first())
    }
}

/// `s` can stand between single quotes without ending the string early: every
/// quote is taken by a preceding backslash, and no backslash is left dangling.
pub open spec fn js_quote_safe(s: Seq<char>) -> bool
    decreases s.len(),
{
    if s.len() == 0 {
        true
    } else if s[0] == '\\' {
        s.len() >= 2 && js_quote_safe(s.skip(2))
    } else {
        s[0] != '\'' && js_quote_safe(s.drop_first())
    }
}

/// The injection script for `payload` and `journal` (see `build_injection_script`).
pub open spec fn injection_script(payload: Seq<char>, journal: Seq<char>) -> Seq<char> {
    INJECTION_HEAD@ + payload + INJECTION_MIDDLE@ + js_escape(journal) + INJECTION_TAIL@
}

proof fn lemma_js_escape_append(a: Seq<char>, b: Seq<char>)
    ensures
        js_escape(a + b) == js_escape(a) + js_escape(b),
    decreases a.len(),
{
    if a.len() == 0 {
        assert(a + b =~= b);
        assert(js_escape(a) + js_escape(b) =~= js_escape(b));
    } else {
        assert((a + b).drop_first() =~= a.drop_first() + b);
        lemma_js_escape_append(a.drop_first(), b);
        assert(js_escape(a + b) =~= js_escape_char(a[0]) + (js_escape(a.drop_first()) + js_escape(b)));
    }
}

/// Escaping changes only backslashes and quotes: a journal code free of both is
/// written as it is.
pub proof fn law_js_escape_plain(s: Seq<char>)
    requires
        forall|i: int| 0 <= i < s.len() ==> s[i] != '\\' && s[i] != '\'',
    ensures
        js_escape(s) == s,
    decreases s.len(),
{
    if s.len() > 0 {
        let t = s.drop_first();
        assert forall|i: int| 0 <= i < t.len() implies t[i] != '\\' && t[i] != '\'' by {
            assert(t[i] == s[i + 1]);
        }
        law_js_escape_plain(t);
        assert(js_escape(s) =~= seq![s[0]] + t);
        assert(seq![s[0]] + t =~= s);
    }
}

/// A journal code free of backslashes and quotes stands verbatim between the
/// quotes of the injection script.
pub proof fn law_plain_journal_verbatim(payload: Seq<char>, journal: Seq<char>)
    requires
        forall|i: int| 0 <= i < journal.len() ==> journal[i] != '\\' && journal[i] != '\'',
    ensures
        injection_script(payload, journal) == INJECTION_HEAD@ + payload + INJECTION_MIDDLE@
            + journal + INJECTION_TAIL@,
{
    law_js_escape_plain(journal);
}

/// Escaping works character by character: the escape of two texts one after the
/// other is the escape of the first followed by the escape of the second.
pub proof fn law_js_escape_concat(a: Seq<char>, b: Seq<char>)
    ensures
        js_escape(a + b) == js_escape(a) + js_escape(b),
{
    lemma_js_escape_append(a, b);
}

/// Escaping loses nothing: reading the escaped journal code back as a
/// single-quoted JavaScript string gives the journal code.
pub proof fn law_js_escape_roundtrip(s: Seq<char>)
    ensures
        js_unescape(js_escape(s)) == s,
    decreases s.len(),
{
    if s.len() > 0 {
        let rest = js_escape(s.drop_first());
        law_js_escape_roundtrip(s.drop_first());
        let e = js_escape(s);
        assert(e == js_escape_char(s[0]) + rest);
        if s[0] == '\\' || s[0] == '\'' {
            assert(e.skip(2) =~= rest);
        } else {
            assert(e.drop_first() =~= rest);
        }
        assert(js_unescape(e) =~= seq![s[0]] + s.drop_first());
    }
}

/// Escaping keeps the journal code inside its quotes: the escaped text never ends
/// the single-quoted string it is placed in.
pub proof fn law_js_escape_quote_safe(s: Seq<char>)
    ensures
        js_quote_safe(js_escape(s)),
    decreases s.len(),
{
    if s.len() > 0 {
        let rest = js_escape(s.drop_first());
        law_js_escape_quote_safe(s.drop_first());
        let e = js_escape(s);
        assert(e == js_escape_char(s[0]) + rest);
        if s[0] == '\\' || s[0] == '\'' {
            assert(e.skip(2) =~= rest);
        } else {
            assert(e.drop_first() =~= rest);
        }
    }
}

/// `s` with backslashes doubled and quotes preceded by a backslash
/// (`s.replace('\\', "\\\\").replace('\'', "\\'")`).
pub fn escape_js_single_quoted(s: &str) -> (r: String)
    ensures
        r@ == js_escape(s@),
{
    let cs = chars_of(s);
    let mut out = String::new();
    let n = cs.len();
    let mut i: usize = 0;
    while i < n
        invariant
            n == cs.len(),
            cs@ == s@,
            i <= n,
            out@ == js_escape(s@.take(i as int)),
        decreases n - i,
    {
        let c = cs[i];
        if c == '\\' {
            push_char(&mut out, '\\');
            push_char(&mut out, '\\');
        } else if c == '\'' {
            push_char(&mut out, '\\');
            push_char(&mut out, '\'');
        } else {
            push_char(&mut out, c);
        }
        proof {
            let one = seq![c];
            assert(s@.take(i + 1) =~= s@.take(i as int) + one);
            lemma_js_escape_append(s@.take(i as int), one);
            assert(js_escape(one) =~= js_escape_char(c)) by {
                assert(one.drop_first() =~= Seq::<char>::empty());
                assert(js_escape(one.drop_first()) =~= Seq::<char>::empty());
                assert(one[0] == c);
            }
            assert(out@ =~= js_escape(s@.take(i as int)) + js_escape_char(c));
        }
        i = i + 1;
    }
    assert(s@.take(n as int) =~= s@);
    out
}

/// The page detection script sent with `EVAL_REQUEST:`.
pub fn compile_page_detection_script() -> (r: String)
    ensures
        r@ == PAGE_DETECTION_SCRIPT@,
{
    String::from_str(PAGE_DETECTION_SCRIPT)
}

/// The script that fills the ledger form with the invoices of `json_payload`, one
/// after the other, in journal `journal_code`.
pub fn build_injection_script(json_payload: &str, journal_code: &str) -> (r: String)
    ensures
        r@ == injection_script(json_payload@, journal_code@),
{
    let mut out = String::from_str(INJECTION_HEAD);
    out.append(json_payload);
    out.append(INJECTION_MIDDLE);
    out.append(escape_js_single_quoted(journal_code).as_str());
    out.append(INJECTION_TAIL);
    out
}

/// The JSON payload of the rows: each row goes with the first template whose key
/// occurs in its client name (ignoring case), else with the `DEFAULT` template,
/// else with the first template; `[]` when there is no template.
/// `amounts[i][k]` is the JSON number text of the `k`-th ledger line of row `i`,
/// the value of that line's formula for the row's amounts (decimal commas read as dots).
pub fn compile_payload_from_state(
    rows: &[EditableRow],
    templates: &[FormatTemplate],
    amounts: &[Vec<String>],
) -> (r: String)
    requires
        amounts_fit(rows@, templates@, amounts@, true),
    ensures
        r@ == payload_text(rows@, templates@, amounts@, true),
{
    render_payload(rows, templates, amounts, true)
}

} // verus!
