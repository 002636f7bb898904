//! Launching the browser with remote debugging: the command line, and the status
//! that reports how the launch went.
use vstd::prelude::*;
use vstd::string::*;
use crate::app_state::{AppStateView, SharedAppState};
use crate::text::chars_are;

verus! {

// Command-line pieces and status texts of a browser launch.
pub const DEBUG_PORT_FLAG: &'static str = "--remote-debugging-port=";

pub const LEDGER_URL: &'static str = "https://kompta.axeane.com/";

pub const INCOGNITO_FLAG: &'static str = "--incognito";

pub const DEFAULT_BROWSER: &'static str = "chrome";

pub const FALLBACK_BROWSER: &'static str = "msedge";

pub const BOTH_BROWSERS_FAILED: &'static str =
    "Failed to launch Chrome or Edge. Try browsing for your browser executable.";

pub const CUSTOM_BROWSER_FAILED: &'static str = "Failed to launch custom browser: ";

pub const LAUNCH_SUCCEEDED: &'static str = "Browser sub-instance successfully bound to debug port: ";

pub const LAUNCH_INITIALIZING: &'static str = "Initializing tracking engine flags...";

/// A browser process to start.
pub struct BrowserLaunch {
    pub executable: String,
    pub args: Vec<String>,
}

/// The browser arguments: the debugging port, the ledger site, and private mode
/// when asked for.
pub open spec fn launch_args(port: Seq<char>, incognito: bool) -> Seq<Seq<char>> {
    let base = seq![DEBUG_PORT_FLAG@ + port, LEDGER_URL@];
    if incognito {
        base.push(INCOGNITO_FLAG@)
    } else {
        base
    }
}

/// The executable: the configured path, or `chrome` when none is configured.
pub open spec fn launch_executable(path: Seq<char>) -> Seq<char> {
    if path.len() == 0 {
        DEFAULT_BROWSER@
    } else {
        path
    }
}

/// The status after a launch attempt on `port` with `executable`: success if the
/// browser or (for the default browser) its fallback started.
pub open spec fn launch_status(
    port: Seq<char>,
    executable: Seq<char>,
    started: bool,
    fallback_started: bool,
) -> Seq<char> {
    let success = LAUNCH_SUCCEEDED@ + port + "."@;
    if started {
        success
    } else if executable == DEFAULT_BROWSER@ {
        if fallback_started {
            success
        } else {
            BOTH_BROWSERS_FAILED@
        }
    } else {
        CUSTOM_BROWSER_FAILED@ + executable
    }
}

/// A browser that started is reported as launched on the port, whatever its
/// executable and whatever became of a fallback.
pub proof fn law_started_is_success(
    port: Seq<char>,
    executable: Seq<char>,
    fallback_started: bool,
)
    ensures
        launch_status(port, executable, true, fallback_started) == LAUNCH_SUCCEEDED@ + port
            + "."@,
{
}

/// A custom browser that did not start is reported as failed, with its path; the
/// fallback plays no part for it.
pub proof fn law_custom_browser_failure(port: Seq<char>, executable: Seq<char>, fallback_started: bool)
    requires
        executable != DEFAULT_BROWSER@,
    ensures
        launch_status(port, executable, false, fallback_started) == CUSTOM_BROWSER_FAILED@
            + executable,
{
}

/// The default browser that did not start is reported as launched exactly when its
/// fallback started.
pub proof fn law_default_browser_fallback(port: Seq<char>, fallback_started: bool)
    ensures
        launch_status(port, DEFAULT_BROWSER@, false, fallback_started) == if fallback_started {
            LAUNCH_SUCCEEDED@ + port + "."@
        } else {
            BOTH_BROWSERS_FAILED@
        },
{
}

/// The browser process for the state's settings.
pub fn launch_plan(s: &SharedAppState) -> (l: BrowserLaunch)
    ensures
        l.executable@ == launch_executable(s@.browser_path),
        l.args@.map_values(|a: String| a@) == launch_args(s@.port, s@.incognito),
{
    let mut port_flag = String::from_str(DEBUG_PORT_FLAG);
    port_flag.append(s.port.as_str());
    let mut args: Vec<String> = Vec::new();
    args.push(port_flag);
    args.push(String::from_str(LEDGER_URL));
    if s.incognito {
        args.push(String::from_str(INCOGNITO_FLAG));
    }
    let executable = if s.browser_path.as_str().is_empty() {
        String::from_str(DEFAULT_BROWSER)
    } else {
        s.browser_path.clone()
    };
    assert(args@.map_values(|a: String| a@) =~= launch_args(s@.port, s@.incognito));
    BrowserLaunch { executable, args }
}

/// Command: store the browser settings and give the browser process to start.
pub fn launch_browser(s: &mut SharedAppState, port: String, browser_path: String, incognito: bool) -> (l:
    BrowserLaunch)
    ensures
        final(s)@ == (AppStateView {
            port: port@,
            browser_path: browser_path@,
            incognito: incognito,
            ..old(s)@
        }),
        l.executable@ == launch_executable(browser_path@),
        l.args@.map_values(|a: String| a@) == launch_args(port@, incognito),
{
    s.port = port;
    s.browser_path = browser_path;
    s.incognito = incognito;
    launch_plan(s)
}

/// Settings panel: the launch starts from the stored settings, reporting that it
/// initialises.
pub fn launch_from_settings(s: &mut SharedAppState) -> (l: BrowserLaunch)
    ensures
        final(s)@ == (AppStateView { status: LAUNCH_INITIALIZING@, ..old(s)@ }),
        l.executable@ == launch_executable(old(s)@.browser_path),
        l.args@.map_values(|a: String| a@) == launch_args(old(s)@.port, old(s)@.incognito),
{
    s.status = String::from_str(LAUNCH_INITIALIZING);
    launch_plan(s)
}

/// The browser to try when `l` did not start: Edge, for the default browser only.
pub fn fallback_browser(l: &BrowserLaunch) -> (r: Option<String>)
    ensures
        r is Some <==> l.executable@ == DEFAULT_BROWSER@,
        r matches Some(e) ==> e@ == FALLBACK_BROWSER@,
{
    let exe = crate::text::chars_of(l.executable.as_str());
    if chars_are(&exe, DEFAULT_BROWSER) {
        Some(String::from_str(FALLBACK_BROWSER))
    } else {
        None
    }
}

/// Reports how the launch of `l` went: whether it started and, when it did not,
/// whether the fallback browser started.
pub fn record_launch_outcome(
    s: &mut SharedAppState,
    l: &BrowserLaunch,
    started: bool,
    fallback_started: bool,
) -> (status: String)
    ensures
        status@ == launch_status(old(s)@.port, l.executable@, started, fallback_started),
        final(s)@ == (AppStateView { status: status@, ..old(s)@ }),
{
    let mut success = String::from_str(LAUNCH_SUCCEEDED);
    success.append(s.port.as_str());
    success.append(".");
    let status = if started {
        success
    } else if fallback_browser(l).is_some() {
        if fallback_started {
            success
        } else {
            String::from_str(BOTH_BROWSERS_FAILED)
        }
    } else {
        let mut failed = String::from_str(CUSTOM_BROWSER_FAILED);
        failed.append(l.executable.as_str());
        failed
    };
    s.status = status.clone();
    status
}

} // verus!
