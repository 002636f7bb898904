use axeane_bridge::app_state::{initial_state, EditableRow};
use axeane_bridge::bridge::{bridge_tick, handle_incoming_message, BridgeAction};
use axeane_bridge::browser_backend::{build_injection_script, compile_payload_from_state, escape_js_single_quoted};
use axeane_bridge::payload::plan_payload;
use axeane_bridge::text::trim_text;

/// Reads a single-quoted JavaScript string body: a backslash takes the next character.
fn js_unescape(s: &str) -> String {
    let mut out = String::new();
    let mut chars = s.chars();
    while let Some(c) = chars.next() {
        if c == '\\' {
            if let Some(n) = chars.next() {
                out.push(n);
                continue;
            }
        }
        out.push(c);
    }
    out
}

#[test]
fn escaped_journal_reads_back_unchanged() {
    for code in ["VT", "O'Brien", "a\\b", "'\\'", "", "\\\\''"] {
        let e = escape_js_single_quoted(code);
        assert_eq!(js_unescape(&e), code);
        // no quote ends the string early
        let mut escaped = false;
        for c in e.chars() {
            if escaped {
                escaped = false;
            } else if c == '\\' {
                escaped = true;
            } else {
                assert_ne!(c, '\'');
            }
        }
        assert!(!escaped);
    }
    assert_eq!(escape_js_single_quoted("O'K\\"), "O\\'K\\\\");
}

#[test]
fn trimming_is_idempotent_and_clean() {
    for s in ["  a b  ", "\t\n", "x", " \u{85}y\u{200a} "] {
        let t = trim_text(s);
        assert_eq!(trim_text(&t), t);
        assert!(!t.starts_with(char::is_whitespace));
        assert!(!t.ends_with(char::is_whitespace));
    }
}

#[test]
fn loaded_rows_are_sent_on_the_next_tick() {
    let mut s = initial_state();
    s.csv_rows.push(EditableRow {
        client: "PASSAGER".to_string(),
        reference: "F-9".to_string(),
        date: "02/02/2026".to_string(),
        ttc: "12".to_string(),
        ht: "10".to_string(),
        tva: "2".to_string(),
    });
    assert!(handle_incoming_message(&mut s, "SET_JOURNAL:VT"));
    assert!(handle_incoming_message(&mut s, "TRIGGER_INJECTION"));
    let plan = plan_payload(&s.csv_rows, &s.templates, true).unwrap();
    assert_eq!(plan, vec![0]);
    let amounts = vec![vec!["12.0".to_string(), "10.0".to_string(), "2.0".to_string()]];
    let payload = compile_payload_from_state(&s.csv_rows, &s.templates, &amounts);
    assert_ne!(payload, "[]");
    let actions = bridge_tick(&mut s, &amounts);
    match &actions[actions.len() - 2] {
        BridgeAction::Send(t) => assert_eq!(t, &build_injection_script(&payload, "VT")),
        _ => panic!("expected the injection"),
    }
    assert!(!s.trigger_injection);
    assert_eq!(s.status, "Injection dispatched to browser.");
}

#[test]
fn payload_is_compiled_row_by_row() {
    let templates = initial_state().templates;
    let row = |c: &str, r: &str| EditableRow {
        client: c.to_string(),
        reference: r.to_string(),
        date: "d".to_string(),
        ttc: "1".to_string(),
        ht: "1".to_string(),
        tva: "0".to_string(),
    };
    let am = || vec!["1.0".to_string(), "1.0".to_string(), "0.0".to_string()];
    let a = vec![row("A", "1"), row("B", "2")];
    let b = vec![row("C", "3")];
    let pa = compile_payload_from_state(&a, &templates, &[am(), am()]);
    let pb = compile_payload_from_state(&b, &templates, &[am()]);
    let ab: Vec<EditableRow> = a.iter().chain(b.iter()).cloned().collect();
    let pab = compile_payload_from_state(&ab, &templates, &[am(), am(), am()]);
    assert_eq!(pab, format!("{},{}", &pa[..pa.len() - 1], &pb[1..]));
    let parse = |x: &str| serde_json::from_str::<Vec<serde_json::Value>>(x).unwrap();
    let mut joined = parse(&pa);
    joined.extend(parse(&pb));
    assert_eq!(parse(&pab), joined);
}
