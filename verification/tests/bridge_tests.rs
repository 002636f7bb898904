use axeane_bridge::app_state::{initial_state, EditableRow, LlmConfig, SharedAppState};
use axeane_bridge::bridge::{
    bridge_connected, bridge_disconnected, bridge_tick, debug_llm_begin, debug_llm_probe_result,
    handle_incoming_message, http_client_failure, import_pdf_begin, import_pdf_complete,
    llm_parse_failure, set_journal, start_auto_detect, stop_auto_detect, trigger_injection,
    BridgeAction,
};
use axeane_bridge::browser_backend::{
    build_injection_script, compile_page_detection_script, compile_payload_from_state, INJECTION_HEAD, INJECTION_MIDDLE,
    INJECTION_TAIL,
};

fn sample_row() -> EditableRow {
    EditableRow {
        client: "PASSAGER".to_string(),
        reference: "FC/1".to_string(),
        date: "01/01/2026".to_string(),
        ttc: "1.0".to_string(),
        ht: "1.0".to_string(),
        tva: "0.0".to_string(),
    }
}

fn loaded_state() -> SharedAppState {
    let mut s = initial_state();
    s.csv_rows.push(sample_row());
    s
}

fn config(key: &str) -> LlmConfig {
    LlmConfig {
        provider_name: "DeepSeek".to_string(),
        endpoint_url: "https://example.test/v1".to_string(),
        api_key: key.to_string(),
        model_name: "m".to_string(),
        max_tokens: 10,
    }
}

#[test]
fn trigger_without_rows_is_refused() {
    let mut s = initial_state();
    trigger_injection(&mut s);
    assert!(!s.trigger_injection);
    assert_eq!(s.status, "Error: No rows loaded. Import a PDF first.");
}

#[test]
fn trigger_with_rows_is_accepted() {
    let mut s = loaded_state();
    trigger_injection(&mut s);
    assert!(s.trigger_injection);
    assert_eq!(s.status, "Injection triggered.");
}

#[test]
fn auto_detect_commands() {
    let mut s = initial_state();
    start_auto_detect(&mut s);
    assert!(s.auto_detect_active);
    assert_eq!(s.status, "Auto-detection armed.");
    stop_auto_detect(&mut s);
    assert!(!s.auto_detect_active);
    assert_eq!(s.status, "Auto-detection stopped.");
}

#[test]
fn set_journal_trims_the_code() {
    let mut s = initial_state();
    set_journal(&mut s, "  VT\t\n");
    assert_eq!(s.journal_code, "VT");
    assert_eq!(s.status, "Journal set to: VT");
    set_journal(&mut s, "\u{3000}AC HA\u{a0}");
    assert_eq!(s.journal_code, "AC HA");
}

#[test]
fn extension_messages() {
    let mut s = initial_state();
    assert!(handle_incoming_message(&mut s, "TRIGGER_INJECTION"));
    assert!(!s.trigger_injection);
    assert_eq!(s.status, "Error: No rows loaded. Import a PDF first.");

    let mut s = loaded_state();
    assert!(handle_incoming_message(&mut s, "TRIGGER_INJECTION"));
    assert!(s.trigger_injection);
    assert_eq!(s.status, "Injection triggered by browser extension.");

    assert!(handle_incoming_message(&mut s, "START_AUTO_DETECT"));
    assert!(s.auto_detect_active);
    assert_eq!(s.status, "Auto-detection armed.");

    assert!(handle_incoming_message(&mut s, "SET_JOURNAL: ACH "));
    assert_eq!(s.journal_code, "ACH");
    assert_eq!(s.status, "Journal set to: ACH");

    assert!(handle_incoming_message(&mut s, "STOP_AUTO_DETECT"));
    assert!(!s.auto_detect_active);
    assert_eq!(s.status, "Auto-detection stopped.");
}

#[test]
fn evaluation_results() {
    let mut s = loaded_state();
    s.auto_detect_active = true;
    assert!(handle_incoming_message(&mut s, "EVAL_RESULT:WRONG_PAGE"));
    assert_eq!(s.status, "Wrong page \u{2014} navigate to the Axeane ecriture form.");
    assert!(s.auto_detect_active);
    assert!(handle_incoming_message(&mut s, "EVAL_RESULT:NO_FORM"));
    assert_eq!(s.status, "Form not found on current page.");
    assert!(handle_incoming_message(&mut s, "EVAL_RESULT:SOMETHING"));
    assert_eq!(s.status, "Form not found on current page.");
    assert!(handle_incoming_message(&mut s, "EVAL_RESULT:READY"));
    assert_eq!(s.status, "Axeane form detected! Ready to inject.");
    assert!(!s.auto_detect_active);
    assert!(s.trigger_injection);

    let mut empty = initial_state();
    empty.auto_detect_active = true;
    assert!(handle_incoming_message(&mut empty, "EVAL_RESULT:READY"));
    assert!(!empty.auto_detect_active);
    assert!(!empty.trigger_injection);
}

#[test]
fn unknown_messages_change_nothing() {
    let mut s = loaded_state();
    let before = s.status.clone();
    assert!(!handle_incoming_message(&mut s, "HELLO"));
    assert!(!handle_incoming_message(&mut s, "trigger_injection"));
    assert!(!handle_incoming_message(&mut s, "SET_JOURNAL"));
    assert_eq!(s.status, before);
    assert!(!s.trigger_injection);
    assert!(!s.auto_detect_active);
}

#[test]
fn connection_statuses() {
    let mut s = initial_state();
    bridge_connected(&mut s);
    assert_eq!(s.status, "Browser extension paired via WebSocket.");
    bridge_disconnected(&mut s);
    assert_eq!(s.status, "Browser extension disconnected.");
}

#[test]
fn idle_tick_does_nothing() {
    let mut s = initial_state();
    let actions = bridge_tick(&mut s, &[]);
    assert!(actions.is_empty());
}

#[test]
fn detection_tick_requests_evaluation() {
    let mut s = initial_state();
    s.auto_detect_active = true;
    let actions = bridge_tick(&mut s, &[]);
    assert_eq!(actions.len(), 2);
    match &actions[0] {
        BridgeAction::EmitStatus(t) => assert_eq!(t, "Scanning browser DOM for Axeane elements..."),
        _ => panic!("expected a status"),
    }
    match &actions[1] {
        BridgeAction::Send(t) => {
            assert_eq!(t, &format!("EVAL_REQUEST:{}", compile_page_detection_script()))
        }
        _ => panic!("expected a message"),
    }
    assert!(s.auto_detect_active);
}

#[test]
fn empty_payload_is_not_injected() {
    // rows loaded but no template: the payload is `[]`
    let mut s = loaded_state();
    s.templates.clear();
    s.trigger_injection = true;
    let actions = bridge_tick(&mut s, &[]);
    assert_eq!(actions.len(), 1);
    match &actions[0] {
        BridgeAction::EmitStatus(t) => {
            assert_eq!(t, "Warning: No rows to inject. Import a PDF first.")
        }
        _ => panic!("expected a status"),
    }
    assert!(!s.trigger_injection);
}

#[test]
fn pending_injection_is_sent_once() {
    let mut s = loaded_state();
    s.trigger_injection = true;
    s.journal_code = "VT".to_string();
    let amounts = vec![vec!["1.0".to_string(), "1.0".to_string(), "0.0".to_string()]];
    let payload = compile_payload_from_state(&s.csv_rows, &s.templates, &amounts);
    let actions = bridge_tick(&mut s, &amounts);
    assert_eq!(actions.len(), 2);
    match &actions[0] {
        BridgeAction::Send(t) => assert_eq!(t, &build_injection_script(&payload, "VT")),
        _ => panic!("expected a message"),
    }
    match &actions[1] {
        BridgeAction::EmitStatus(t) => assert_eq!(t, "Injection dispatched to browser."),
        _ => panic!("expected a status"),
    }
    assert!(!s.trigger_injection);
    assert_eq!(s.status, "Injection dispatched to browser.");
    assert!(bridge_tick(&mut s, &[]).is_empty());
}

#[test]
fn injection_script_embeds_payload_and_escaped_journal() {
    let script = build_injection_script("[{\"a\":1}]", "O'K\\");
    assert!(script.contains("const payloadData = [{\"a\":1}];"));
    assert!(script.contains("const journalCode = 'O\\'K\\\\';"));
    assert_eq!(
        script,
        format!("{}[{{\"a\":1}}]{}O\\'K\\\\{}", INJECTION_HEAD, INJECTION_MIDDLE, INJECTION_TAIL)
    );
    assert!(script.starts_with("(function() {\n    'use strict';"));
    assert!(script.ends_with("nextInvoice();\n})();"));
}

#[test]
fn detection_script_reports_three_answers() {
    let script = compile_page_detection_script();
    assert!(script.starts_with("\n    (function() {\n        const root = document.querySelector('.td-root');"));
    assert!(script.contains("return \"READY\";"));
    assert!(script.contains("return \"WRONG_PAGE\";"));
    assert!(script.contains("return \"NO_FORM\";"));
}

#[test]
fn import_appends_rows_and_counts_them() {
    let mut s = loaded_state();
    let line = import_pdf_begin(&mut s, config("secret"));
    assert_eq!(
        line,
        "Debug: starting import_pdf with provider='DeepSeek' endpoint='https://example.test/v1' api_key_set=true"
    );
    assert_eq!(s.llm.endpoint_url, "https://example.test/v1");
    let rows: Vec<EditableRow> = (0..12).map(|_| sample_row()).collect();
    let done = import_pdf_complete(&mut s, rows);
    assert_eq!(done, "Debug: import_pdf completed, rows_imported=12");
    assert_eq!(s.csv_rows.len(), 13);
    assert_eq!(s.status, "Imported 12 rows from PDF via AI.");
    assert_eq!(llm_parse_failure("bad json"), "LLM parsing failed: bad json");
}

#[test]
fn debug_command_reports_configuration_and_probe() {
    let mut s = initial_state();
    assert_eq!(debug_llm_begin(&mut s, config("")), Err("LLM API key is empty on backend".to_string()));
    assert_eq!(
        s.status,
        "Debug: received LLM config (provider: DeepSeek, endpoint: https://example.test/v1, api_key_set: false)"
    );
    assert_eq!(debug_llm_begin(&mut s, config("k")), Ok(()));
    assert!(s.status.ends_with("api_key_set: true)"));
    assert_eq!(
        debug_llm_probe_result(&mut s, Ok("405 Method Not Allowed".to_string())),
        Ok("Probe HTTP 405 Method Not Allowed".to_string())
    );
    assert_eq!(s.status, "Debug probe result: HTTP 405 Method Not Allowed");
    assert_eq!(
        debug_llm_probe_result(&mut s, Err("timeout".to_string())),
        Err("Debug probe failed: timeout".to_string())
    );
    assert_eq!(s.status, "Debug probe failed: timeout");
    assert_eq!(http_client_failure("x"), "Failed building HTTP client: x");
}

#[test]
fn each_request_is_sent_once_per_connection() {
    let mut s = loaded_state();
    let amounts = vec![vec!["1.0".to_string(), "1.0".to_string(), "0.0".to_string()]];
    let mut sent = 0;
    let count = |actions: &[BridgeAction]| {
        actions.iter().filter(|a| matches!(a, BridgeAction::Send(t) if !t.starts_with("EVAL_REQUEST:"))).count()
    };
    // a tick without a pending request sends no injection
    sent += count(&bridge_tick(&mut s, &amounts));
    assert_eq!(sent, 0);
    assert!(handle_incoming_message(&mut s, "TRIGGER_INJECTION"));
    for _ in 0..5 {
        sent += count(&bridge_tick(&mut s, &amounts));
    }
    assert_eq!(sent, 1);
    // a second request gives one more injection
    assert!(handle_incoming_message(&mut s, "TRIGGER_INJECTION"));
    assert!(handle_incoming_message(&mut s, "TRIGGER_INJECTION"));
    for _ in 0..3 {
        sent += count(&bridge_tick(&mut s, &amounts));
    }
    assert_eq!(sent, 2);
}
