use axeane_bridge::app_state::{initial_state, EditableRow, EntryType, FormatTemplate, TemplateRow};
use axeane_bridge::browser_backend;
use axeane_bridge::payload::{
    default_template_index, json_quote, plan_payload, render_payload, template_index_for,
};
use axeane_bridge::text::normalize_decimal_comma;
use axeane_bridge::webview_backend;
use evalexpr::ContextWithMutableVariables;
use serde_json::Value;

fn row(client: &str, reference: &str, date: &str, ttc: &str, ht: &str, tva: &str) -> EditableRow {
    EditableRow {
        client: client.to_string(),
        reference: reference.to_string(),
        date: date.to_string(),
        ttc: ttc.to_string(),
        ht: ht.to_string(),
        tva: tva.to_string(),
    }
}

fn line(compte: &str, entry_type: EntryType, formula: &str) -> TemplateRow {
    TemplateRow { compte: compte.to_string(), entry_type, formula: formula.to_string() }
}

fn template(key: &str, rows: Vec<TemplateRow>) -> FormatTemplate {
    FormatTemplate { id: None, client_key: key.to_string(), rows }
}

fn amount(formula: &str, ttc: f64, ht: f64, tva: f64) -> f64 {
    let mut context = evalexpr::HashMapContext::new();
    context.set_value("row.ttc".into(), evalexpr::Value::from(ttc)).unwrap();
    context.set_value("row.ht".into(), evalexpr::Value::from(ht)).unwrap();
    context.set_value("row.tva".into(), evalexpr::Value::from(tva)).unwrap();
    evalexpr::eval_with_context(formula, &context)
        .unwrap_or(evalexpr::Value::from(0.0))
        .as_number()
        .unwrap_or(0.0)
}

/// The amounts of every ledger line, evaluated as the desktop application does.
fn amounts_for(rows: &[EditableRow], templates: &[FormatTemplate], fold_case: bool) -> Vec<Vec<String>> {
    let plan = plan_payload(rows, templates, fold_case).unwrap();
    let mut out = Vec::new();
    for (i, r) in rows.iter().enumerate() {
        let read = |s: &str| -> f64 {
            let text = if fold_case { normalize_decimal_comma(s) } else { s.to_string() };
            text.parse().unwrap_or(0.0)
        };
        let (ttc, ht, tva) = (read(&r.ttc), read(&r.ht), read(&r.tva));
        let mut per_line = Vec::new();
        for t in &templates[plan[i]].rows {
            let a = amount(&t.formula, ttc, ht, tva);
            per_line.push(serde_json::to_string(&Value::from(a)).unwrap());
        }
        out.push(per_line);
    }
    out
}

/// The payload built with serde_json values, key by key.
fn reference_payload(rows: &[EditableRow], templates: &[FormatTemplate], fold_case: bool) -> String {
    let plan = match plan_payload(rows, templates, fold_case) {
        Some(p) => p,
        None => return "[]".to_string(),
    };
    let amounts = amounts_for(rows, templates, fold_case);
    let mut entries = Vec::new();
    for (i, r) in rows.iter().enumerate() {
        let mut lignes = Vec::new();
        for (k, t) in templates[plan[i]].rows.iter().enumerate() {
            let mut m = serde_json::Map::new();
            m.insert("compte".to_string(), Value::String(t.compte.clone()));
            let side = if t.entry_type == EntryType::Debit { "debit" } else { "credit" };
            m.insert("type".to_string(), Value::String(side.to_string()));
            m.insert("amount".to_string(), serde_json::from_str(&amounts[i][k]).unwrap());
            lignes.push(Value::Object(m));
        }
        let mut e = serde_json::Map::new();
        e.insert("client".to_string(), Value::String(r.client.clone()));
        e.insert("ref".to_string(), Value::String(r.reference.clone()));
        e.insert("date".to_string(), Value::String(r.date.clone()));
        e.insert("lignes".to_string(), Value::Array(lignes));
        entries.push(Value::Object(e));
    }
    serde_json::to_string(&entries).unwrap()
}

#[test]
fn payload_of_one_row_with_standard_template() {
    let templates = initial_state().templates;
    let rows = vec![row("Passager Sarl", "F-1", "01/02/2026", "120,5", "100", "20.5")];
    let amounts = amounts_for(&rows, &templates, true);
    assert_eq!(amounts, vec![vec!["120.5".to_string(), "100.0".to_string(), "20.5".to_string()]]);
    let payload = browser_backend::compile_payload_from_state(&rows, &templates, &amounts);
    assert_eq!(
        payload,
        "[{\"client\":\"Passager Sarl\",\"date\":\"01/02/2026\",\"lignes\":[\
         {\"amount\":120.5,\"compte\":\"41100000\",\"type\":\"debit\"},\
         {\"amount\":100.0,\"compte\":\"70700000\",\"type\":\"credit\"},\
         {\"amount\":20.5,\"compte\":\"43670000\",\"type\":\"credit\"}],\"ref\":\"F-1\"}]"
    );
    assert_eq!(payload, reference_payload(&rows, &templates, true));
}

#[test]
fn payload_is_empty_array_without_templates() {
    let rows = vec![row("X", "R", "D", "1", "1", "1")];
    assert_eq!(plan_payload(&rows, &[], true), None);
    assert_eq!(browser_backend::compile_payload_from_state(&rows, &[], &[]), "[]");
    assert_eq!(webview_backend::compile_payload_from_state(&rows, &[], &[]), "[]");
}

#[test]
fn payload_is_empty_array_without_rows() {
    let templates = initial_state().templates;
    assert_eq!(browser_backend::compile_payload_from_state(&[], &templates, &[]), "[]");
}

#[test]
fn default_template_is_keyed_default_else_first() {
    let a = template("ALPHA", vec![]);
    let d = template("DEFAULT", vec![]);
    let b = template("BETA", vec![]);
    assert_eq!(default_template_index(&[a.clone(), d.clone(), b.clone()]), Some(1));
    assert_eq!(default_template_index(&[a.clone(), b.clone()]), Some(0));
    assert_eq!(default_template_index(&[]), None);
    // the key must be exactly DEFAULT
    assert_eq!(default_template_index(&[a, template("default", vec![])]), Some(0));
}

#[test]
fn first_matching_template_wins_ignoring_case() {
    let ts = vec![
        template("DEFAULT", vec![]),
        template("ACME", vec![]),
        template("ACME SARL", vec![]),
    ];
    assert_eq!(template_index_for(&ts, "Acme Sarl Tunis", true, 0), 1);
    assert_eq!(template_index_for(&ts, "Unknown", true, 0), 0);
    // without case folding the lower-case name matches nothing
    assert_eq!(template_index_for(&ts, "acme sarl", false, 0), 0);
    assert_eq!(template_index_for(&ts, "ACME SARL", false, 0), 1);
}

#[test]
fn rows_without_match_use_the_default_template() {
    let ts = vec![
        template("SPECIAL", vec![line("1", EntryType::Debit, "row.ttc")]),
        template("DEFAULT", vec![line("2", EntryType::Credit, "row.ht * 2")]),
    ];
    let rows = vec![row("special client", "A", "d1", "10", "4", "6"), row("other", "B", "d2", "10", "4,5", "6")];
    let plan = plan_payload(&rows, &ts, true).unwrap();
    assert_eq!(plan, vec![0, 1]);
    let amounts = amounts_for(&rows, &ts, true);
    assert_eq!(amounts, vec![vec!["10.0".to_string()], vec!["9.0".to_string()]]);
    let payload = browser_backend::compile_payload_from_state(&rows, &ts, &amounts);
    assert_eq!(payload, reference_payload(&rows, &ts, true));
    assert_eq!(
        payload,
        "[{\"client\":\"special client\",\"date\":\"d1\",\"lignes\":[{\"amount\":10.0,\"compte\":\"1\",\"type\":\"debit\"}],\"ref\":\"A\"},\
         {\"client\":\"other\",\"date\":\"d2\",\"lignes\":[{\"amount\":9.0,\"compte\":\"2\",\"type\":\"credit\"}],\"ref\":\"B\"}]"
    );
}

#[test]
fn legacy_payload_matches_case_sensitively() {
    let ts = vec![
        template("DEFAULT", vec![line("9", EntryType::Credit, "0.0")]),
        template("Acme", vec![line("1", EntryType::Debit, "row.tva")]),
    ];
    let rows = vec![row("ACME", "R", "D", "1", "2", "3"), row("Acme Ltd", "S", "E", "1", "2", "3")];
    assert_eq!(plan_payload(&rows, &ts, false).unwrap(), vec![0, 1]);
    let amounts = amounts_for(&rows, &ts, false);
    let payload = webview_backend::compile_payload_from_state(&rows, &ts, &amounts);
    assert_eq!(payload, reference_payload(&rows, &ts, false));
}

#[test]
fn texts_are_escaped_as_json_strings() {
    assert_eq!(json_quote("say \"hi\"\\\n"), "\"say \\\"hi\\\"\\\\\\n\"");
    let templates = initial_state().templates;
    let rows = vec![row("PASSAGER \"Q\"", "F\\1", "d", "0", "0", "0")];
    let amounts = amounts_for(&rows, &templates, true);
    let payload = browser_backend::compile_payload_from_state(&rows, &templates, &amounts);
    assert_eq!(payload, reference_payload(&rows, &templates, true));
    assert!(payload.starts_with("[{\"client\":\"PASSAGER \\\"Q\\\"\",\"date\":\"d\""));
}

#[test]
fn render_payload_inserts_the_given_amounts() {
    let ts = vec![template("K", vec![line("7", EntryType::Debit, "whatever")])];
    let rows = vec![row("K", "r", "d", "", "", "")];
    let text = render_payload(&rows, &ts, &[vec!["null".to_string()]], true);
    assert_eq!(
        text,
        "[{\"client\":\"K\",\"date\":\"d\",\"lignes\":[{\"amount\":null,\"compte\":\"7\",\"type\":\"debit\"}],\"ref\":\"r\"}]"
    );
}

#[test]
fn decimal_commas_become_dots() {
    assert_eq!(normalize_decimal_comma("1,234,5"), "1.234.5");
    assert_eq!(normalize_decimal_comma("981,293"), "981.293");
    assert_eq!(normalize_decimal_comma(""), "");
}
