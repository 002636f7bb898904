//! The decisions of the first, webview-based edition of the application: the local
//! web front end it starts, and what its WebSocket bridge does on each tick.
use vstd::prelude::*;
use vstd::string::*;
use crate::app_state::{AppStateView, SharedAppState};
use crate::bridge::EVAL_REQUEST;
use crate::payload::{amounts_fit, payload_text};
use crate::webview_backend::{
    compile_page_detection_script, compile_payload_from_state, PAGE_DETECTION_SCRIPT,
};

verus! {

// Address of the front end and status texts of this edition.
pub const FRONTEND_URL: &'static str = "http://127.0.0.1:3000";

pub const TAB_PAIRED: &'static str =
    "Isolated workflow target tab paired via background WebSocket channel.";

pub const SCANNING_FORM: &'static str =
    "Scanning browser DOM for Axeane elements (ecritureForm, cc_0_3)...";

pub const LAYOUT_DETECTED: &'static str =
    "Axeane layout detected! Initiating automation sync inject loop...";

pub const MACROS_DISPATCHED: &'static str =
    "Injection transaction block macros dispatched downstream.";

/// The injection script of this edition up to the payload.
pub const INJECTION_HEAD: &'static str = r#"
                                (function() {
                                    const payloadData = "#;

/// The injection script of this edition after the payload.
pub const INJECTION_TAIL: &'static str = r#";
                                    const form = document.getElementById('ecritureForm');
                                    if(!form) { alert('Form viewport targets not visible.'); return; }
                                    const $scope = angular.element(form).scope();
                                    if($scope) {
                                        let idx = 0;
                                        function pushLoop() {
                                            if(idx >= payloadData.length) return;
                                            const entry = payloadData[idx];
                                            $scope.$apply(function() {
                                                if(!$scope.ecritureGrouping) $scope.ecritureGrouping = {};
                                                $scope.ecritureGrouping.dateOperation = entry.date;
                                                $scope.ecritureGrouping.libelle = "Facture Ref: " + entry.ref;
                                                if(!$scope.ecritureGrouping.lignes) $scope.ecritureGrouping.lignes = [];
                                                $scope.ecritureGrouping.lignes = entry.lignes.map(l => ({
                                                    compte: l.compte,
                                                    libelle: "Facture Ref: " + entry.ref,
                                                    montantDebit: l.type === 'debit' ? l.amount : 0,
                                                    montantCredit: l.type === 'credit' ? l.amount : 0
                                                }));
                                            });
                                            idx++;
                                            setTimeout(pushLoop, 1100);
                                        }
                                        pushLoop();
                                    }
                                })();
                                "#;

/// The npm script that serves the front end: `start` when a production build
/// exists, else `dev`.
pub open spec fn frontend_script(built: bool) -> Seq<char> {
    if built {
        "start"@
    } else {
        "dev"@
    }
}

/// The arguments of `npm.cmd` that serve the front end on 127.0.0.1:3000.
pub open spec fn frontend_args(built: bool) -> Seq<Seq<char>> {
    seq!["run"@, frontend_script(built), "--"@, "--hostname"@, "127.0.0.1"@, "--port"@, "3000"@]
}

/// The command that serves the front end (`npm.cmd` and its arguments), given whether
/// a production build (`.next`) exists.
pub fn frontend_command(built: bool) -> (r: (String, Vec<String>))
    ensures
        r.0@ == "npm.cmd"@,
        r.1@.map_values(|a: String| a@) == frontend_args(built),
{
    let script = if built {
        String::from_str("start")
    } else {
        String::from_str("dev")
    };
    let args: Vec<String> = vec![
        String::from_str("run"),
        script,
        String::from_str("--"),
        String::from_str("--hostname"),
        String::from_str("127.0.0.1"),
        String::from_str("--port"),
        String::from_str("3000"),
    ];
    assert(args@.map_values(|a: String| a@) =~= frontend_args(built));
    (String::from_str("npm.cmd"), args)
}

/// The injection script of this edition for `payload`.
pub open spec fn injection_script(payload: Seq<char>) -> Seq<char> {
    INJECTION_HEAD@ + payload + INJECTION_TAIL@
}

/// The injection script of this edition for `payload`.
pub fn build_injection_payload(payload: &str) -> (r: String)
    ensures
        r@ == injection_script(payload@),
{
    let mut out = String::from_str(INJECTION_HEAD);
    out.append(payload);
    out.append(INJECTION_TAIL);
    out
}

/// The state after a tick: a detected form requests the injection at once, and a
/// requested injection is sent.
pub open spec fn tick_state(s: AppStateView) -> AppStateView {
    let s1 = if s.auto_detect_active {
        AppStateView {
            status: LAYOUT_DETECTED@,
            auto_detect_active: false,
            trigger_injection: true,
            ..s
        }
    } else {
        s
    };
    if s1.trigger_injection {
        AppStateView { trigger_injection: false, status: MACROS_DISPATCHED@, ..s1 }
    } else {
        s1
    }
}

/// The messages a tick sends to the browser tab, in order; `amounts` are the amounts
/// of the ledger lines of the state's rows.
pub open spec fn tick_messages(s: AppStateView, amounts: Seq<Vec<String>>) -> Seq<Seq<char>> {
    let payload = payload_text(s.csv_rows, s.templates, amounts, false);
    let detect = if s.auto_detect_active {
        seq![EVAL_REQUEST@ + PAGE_DETECTION_SCRIPT@]
    } else {
        Seq::empty()
    };
    if s.auto_detect_active || s.trigger_injection {
        detect.push(injection_script(payload))
    } else {
        detect
    }
}

/// After a tick neither a detection nor an injection is pending: a detected form is
/// injected within the same tick.
pub proof fn law_tick_settles(s: AppStateView)
    ensures
        !tick_state(s).trigger_injection,
        !tick_state(s).auto_detect_active,
{
}

/// The browser tab connected to the bridge.
pub fn tab_connected(s: &mut SharedAppState)
    ensures
        final(s)@ == (AppStateView { status: TAB_PAIRED@, ..old(s)@ }),
{
    s.status = String::from_str(TAB_PAIRED);
}

/// One tick of the bridge; `amounts` are the amounts of the ledger lines of the
/// state's rows, needed when an injection is pending or a detection is under way.
pub fn bridge_tick(s: &mut SharedAppState, amounts: &[Vec<String>]) -> (messages: Vec<String>)
    requires
        old(s).auto_detect_active || old(s).trigger_injection ==> amounts_fit(
            old(s)@.csv_rows,
            old(s)@.templates,
            amounts@,
            false,
        ),
    ensures
        final(s)@ == tick_state(old(s)@),
        messages@.map_values(|m: String| m@) == tick_messages(old(s)@, amounts@),
{
    let ghost start = s@;
    let mut messages: Vec<String> = Vec::new();
    if s.auto_detect_active {
        s.status = String::from_str(SCANNING_FORM);
        let mut request = String::from_str(EVAL_REQUEST);
        request.append(compile_page_detection_script().as_str());
        messages.push(request);
        s.status = String::from_str(LAYOUT_DETECTED);
        s.auto_detect_active = false;
        s.trigger_injection = true;
    }
    if s.trigger_injection {
        let payload = compile_payload_from_state(
            s.csv_rows.as_slice(),
            s.templates.as_slice(),
            amounts,
        );
        messages.push(build_injection_payload(payload.as_str()));
        s.trigger_injection = false;
        s.status = String::from_str(MACROS_DISPATCHED);
    }
    assert(messages@.map_values(|m: String| m@) =~= tick_messages(start, amounts@));
    messages
}

/// What to do after the `attempt`-th try (counted from 0) to reach the front end.
pub enum FrontendWait {
    /// The front end answered.
    Ready,
    /// Wait `FRONTEND_RETRY_MILLIS`, then try again.
    SleepThenRetry,
    /// Wait `FRONTEND_RETRY_MILLIS`, then give up waiting.
    SleepThenStop,
}

/// How many times the front end is tried before the window opens anyway.
pub const FRONTEND_ATTEMPTS: u32 = 60;

/// The pause between two tries, in milliseconds.
pub const FRONTEND_RETRY_MILLIS: u64 = 500;

/// The next step of waiting for the front end after try number `attempt` (from 0):
/// done when it answered, else a pause and, up to `FRONTEND_ATTEMPTS` tries, another try.
pub fn frontend_wait_step(attempt: u32, connected: bool) -> (w: FrontendWait)
    ensures
        connected ==> w is Ready,
        !connected && attempt + 1 < FRONTEND_ATTEMPTS ==> w is SleepThenRetry,
        !connected && attempt + 1 >= FRONTEND_ATTEMPTS ==> w is SleepThenStop,
{
    if connected {
        FrontendWait::Ready
    } else if attempt < FRONTEND_ATTEMPTS - 1 {
        FrontendWait::SleepThenRetry
    } else {
        FrontendWait::SleepThenStop
    }
}

} // verus!
