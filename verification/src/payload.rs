//! The injection payload: which template applies to each extracted row, and the
//! JSON text that lists, per row, the ledger lines to fill in.
//!
//! The amounts of the ledger lines are floating-point results of evaluating the
//! template formulas; they are computed outside this crate and handed in as their
//! JSON number text, one per ledger line.
use vstd::prelude::*;
use vstd::string::*;
use crate::app_state::{EditableRow, EntryType, FormatTemplate, TemplateRow};
use crate::text::{contains_seq, text_contains, to_upper, upper_case};

verus! {

/// The lower-case hexadecimal digit of `d < 16`.
pub open spec fn hex_digit(d: int) -> char {
    if d < 10 {
        ('0' as int + d) as char
    } else {
        ('a' as int + d - 10) as char
    }
}

/// How `serde_json` writes one character inside a JSON string: quote and backslash
/// get a backslash, the control characters below U+0020 get their short escape
/// (`\b`, `\t`, `\n`, `\f`, `\r`) or `\u00XX`, every other character stands as is.
pub open spec fn json_escape_char(c: char) -> Seq<char> {
    if c == '"' {
        seq!['\\', '"']
    } else if c == '\\' {
        seq!['\\', '\\']
    } else if c == '\u{8}' {
        seq!['\\', 'b']
    } else if c == '\t' {
        seq!['\\', 't']
    } else if c == '\n' {
        seq!['\\', 'n']
    } else if c == '\u{c}' {
        seq!['\\', 'f']
    } else if c == '\r' {
        seq!['\\', 'r']
    } else if (c as int) < 0x20 {
        seq!['\\', 'u', '0', '0', hex_digit((c as int) / 16), hex_digit((c as int) % 16)]
    } else {
        seq![c]
    }
}

/// The characters of `s`, each written as inside a JSON string.
pub open spec fn json_escape(s: Seq<char>) -> Seq<char>
    decreases s.len(),
{
    if s.len() == 0 {
        Seq::empty()
    } else {
        json_escape_char(s[0]) + json_escape(s.drop_first())
    }
}

/// The JSON string literal of `s`, as `serde_json::to_string` writes it.
pub open spec fn json_string(s: Seq<char>) -> Seq<char> {
    seq!['"'] + json_escape(s) + seq!['"']
}

/// `serde_json::to_string` on a string slice (the string is written between quotes,
/// escaped by the table of `format_escaped_str_contents`). Serialising a `str` into
/// memory cannot fail, so the `Ok` value is taken.
#[verifier::external_body]
pub fn json_quote(s: &str) -> (r: String)
    ensures
        r@ == json_string(s@),
{
    serde_json::to_string(s).unwrap()
}

/// `i` is the first position at which `flags` holds.
pub open spec fn is_first_true(flags: Seq<bool>, i: int) -> bool {
    &&& 0 <= i < flags.len()
    &&& flags[i]
    &&& forall|j: int| 0 <= j < i ==> !flags[j]
}

/// The first position at which `flags` holds, if any.
pub open spec fn first_true(flags: Seq<bool>) -> Option<int> {
    if exists|i: int| is_first_true(flags, i) {
        Some(choose|i: int| is_first_true(flags, i))
    } else {
        None
    }
}

/// Which templates are keyed `DEFAULT`.
pub open spec fn default_flags(ts: Seq<FormatTemplate>) -> Seq<bool> {
    Seq::new(ts.len(), |i: int| ts[i].client_key@ == "DEFAULT"@)
}

/// The fallback template: the first one keyed `DEFAULT`, else the first one;
/// `None` when there is no template at all.
pub open spec fn default_template(ts: Seq<FormatTemplate>) -> Option<int> {
    match first_true(default_flags(ts)) {
        Some(i) => Some(i),
        None => if ts.len() > 0 {
            Some(0)
        } else {
            None
        },
    }
}

/// Whether a row of client `client` falls under a template keyed `key`: the key
/// occurs in the client name, compared in upper case when `fold_case` holds.
pub open spec fn client_matches(client: Seq<char>, key: Seq<char>, fold_case: bool) -> bool {
    if fold_case {
        contains_seq(upper_case(client), upper_case(key))
    } else {
        contains_seq(client, key)
    }
}

/// Which templates a row of client `client` falls under.
pub open spec fn match_flags(ts: Seq<FormatTemplate>, client: Seq<char>, fold_case: bool) -> Seq<
    bool,
> {
    Seq::new(ts.len(), |i: int| client_matches(client, ts[i].client_key@, fold_case))
}

/// The template applied to a row of client `client`: the first one it falls
/// under, else the fallback `fallback`.
pub open spec fn template_for(
    ts: Seq<FormatTemplate>,
    client: Seq<char>,
    fold_case: bool,
    fallback: int,
) -> int {
    match first_true(match_flags(ts, client, fold_case)) {
        Some(i) => i,
        None => fallback,
    }
}

/// The JSON text of a ledger side.
pub open spec fn side_json(e: EntryType) -> Seq<char> {
    match e {
        EntryType::Debit => "\"debit\""@,
        EntryType::Credit => "\"credit\""@,
    }
}

/// `items` joined with commas.
pub open spec fn join_comma(items: Seq<Seq<char>>) -> Seq<char>
    decreases items.len(),
{
    if items.len() == 0 {
        Seq::empty()
    } else if items.len() == 1 {
        items[0]
    } else {
        join_comma(items.drop_last()) + ","@ + items.last()
    }
}

/// The JSON object of one ledger line (keys in the sorted order of `serde_json`'s
/// default map).
pub open spec fn line_text(t: TemplateRow, amount: Seq<char>) -> Seq<char> {
    "{\"amount\":"@ + amount + ",\"compte\":"@ + json_string(t.compte@) + ",\"type\":"@ + side_json(
        t.entry_type,
    ) + "}"@
}

/// The JSON objects of the ledger lines of template `t`, with their amounts.
pub open spec fn lines_of(t: FormatTemplate, amounts: Seq<String>) -> Seq<Seq<char>> {
    Seq::new(t.rows@.len(), |k: int| line_text(t.rows@[k], amounts[k]@))
}

/// The JSON object of one extracted row with its ledger lines (keys in the sorted
/// order of `serde_json`'s default map).
pub open spec fn entry_text(r: EditableRow, lines: Seq<Seq<char>>) -> Seq<char> {
    "{\"client\":"@ + json_string(r.client@) + ",\"date\":"@ + json_string(r.date@)
        + ",\"lignes\":["@ + join_comma(lines) + "],\"ref\":"@ + json_string(r.reference@) + "}"@
}

/// The JSON objects of all rows, each with the ledger lines of its template.
pub open spec fn entries_of(
    rows: Seq<EditableRow>,
    ts: Seq<FormatTemplate>,
    amounts: Seq<Vec<String>>,
    fold_case: bool,
    fallback: int,
) -> Seq<Seq<char>> {
    Seq::new(
        rows.len(),
        |i: int|
            entry_text(
                rows[i],
                lines_of(ts[template_for(ts, rows[i].client@, fold_case, fallback)], amounts[i]@),
            ),
    )
}

/// The payload: `[]` without templates, else the JSON array of the rows' entries.
pub open spec fn payload_text(
    rows: Seq<EditableRow>,
    ts: Seq<FormatTemplate>,
    amounts: Seq<Vec<String>>,
    fold_case: bool,
) -> Seq<char> {
    match default_template(ts) {
        None => "[]"@,
        Some(d) => "["@ + join_comma(entries_of(rows, ts, amounts, fold_case, d)) + "]"@,
    }
}

/// `amounts` holds one amount text per ledger line of the template of each row.
pub open spec fn amounts_fit(
    rows: Seq<EditableRow>,
    ts: Seq<FormatTemplate>,
    amounts: Seq<Vec<String>>,
    fold_case: bool,
) -> bool {
    default_template(ts) matches Some(d) ==> {
        &&& amounts.len() == rows.len()
        &&& forall|i: int|
            0 <= i < rows.len() ==> #[trigger] amounts[i]@.len() == ts[template_for(
                ts,
                rows[i].client@,
                fold_case,
                d,
            )].rows@.len()
    }
}

proof fn lemma_join_comma_nonempty(items: Seq<Seq<char>>)
    requires
        items.len() >= 1,
        items.last().len() > 0,
    ensures
        join_comma(items).len() > 0,
{
}

/// The payload is `[]` exactly when there is no template or no row: with a template,
/// every row yields one entry.
pub proof fn law_payload_empty_iff(
    rows: Seq<EditableRow>,
    ts: Seq<FormatTemplate>,
    amounts: Seq<Vec<String>>,
    fold_case: bool,
)
    ensures
        (payload_text(rows, ts, amounts, fold_case) == "[]"@) <==> (ts.len() == 0 || rows.len()
            == 0),
{
    reveal_strlit("[]");
    reveal_strlit("[");
    reveal_strlit("]");
    reveal_strlit("}");
    if ts.len() == 0 {
        assert(!exists|i: int| is_first_true(default_flags(ts), i));
    } else {
        assert(default_template(ts) is Some);
        let d = default_template(ts)->0;
        let entries = entries_of(rows, ts, amounts, fold_case, d);
        assert(payload_text(rows, ts, amounts, fold_case) == "["@ + join_comma(entries) + "]"@);
        if rows.len() == 0 {
            assert(entries =~= Seq::<Seq<char>>::empty());
            assert("["@ + join_comma(entries) + "]"@ =~= "[]"@);
        } else {
            assert(entries.last().len() > 0);
            lemma_join_comma_nonempty(entries);
            let p = "["@ + join_comma(entries) + "]"@;
            assert(p.len() > 2);
            assert(p != "[]"@);
        }
    }
}

proof fn lemma_join_comma_append(x: Seq<Seq<char>>, y: Seq<Seq<char>>)
    requires
        x.len() > 0,
        y.len() > 0,
    ensures
        join_comma(x + y) == join_comma(x) + ","@ + join_comma(y),
    decreases y.len(),
{
    let xy = x + y;
    assert(xy.drop_last() =~= x + y.drop_last());
    assert(xy.last() == y.last());
    if y.len() == 1 {
        assert(y.drop_last() =~= Seq::<Seq<char>>::empty());
        assert(x + y.drop_last() =~= x);
    } else {
        lemma_join_comma_append(x, y.drop_last());
        assert(join_comma(xy) =~= join_comma(x) + ","@ + (join_comma(y.drop_last()) + ","@
            + y.last()));
    }
}

/// Rows are compiled one by one: the entries of two lists of rows, one after the
/// other, are the entries of the first list followed by those of the second.
pub proof fn law_entries_rowwise(
    a: Seq<EditableRow>,
    b: Seq<EditableRow>,
    ts: Seq<FormatTemplate>,
    amounts_a: Seq<Vec<String>>,
    amounts_b: Seq<Vec<String>>,
    fold_case: bool,
    fallback: int,
)
    requires
        amounts_a.len() == a.len(),
        amounts_b.len() == b.len(),
    ensures
        entries_of(a + b, ts, amounts_a + amounts_b, fold_case, fallback) == entries_of(
            a,
            ts,
            amounts_a,
            fold_case,
            fallback,
        ) + entries_of(b, ts, amounts_b, fold_case, fallback),
{
    let left = entries_of(a + b, ts, amounts_a + amounts_b, fold_case, fallback);
    let right = entries_of(a, ts, amounts_a, fold_case, fallback) + entries_of(
        b,
        ts,
        amounts_b,
        fold_case,
        fallback,
    );
    assert forall|i: int| 0 <= i < left.len() implies left[i] == right[i] by {
        if i < a.len() {
            assert((a + b)[i] == a[i]);
            assert((amounts_a + amounts_b)[i] == amounts_a[i]);
        } else {
            assert((a + b)[i] == b[i - a.len()]);
            assert((amounts_a + amounts_b)[i] == amounts_b[i - a.len()]);
        }
    }
    assert(left =~= right);
}

/// The payload of two non-empty lists of rows, one after the other, is the array
/// of the first list's payload continued by the entries of the second's: the first
/// payload without its closing bracket, a comma, and the second without its opening
/// bracket.
pub proof fn law_payload_rowwise(
    a: Seq<EditableRow>,
    b: Seq<EditableRow>,
    ts: Seq<FormatTemplate>,
    amounts_a: Seq<Vec<String>>,
    amounts_b: Seq<Vec<String>>,
    fold_case: bool,
)
    requires
        ts.len() > 0,
        a.len() > 0,
        b.len() > 0,
        amounts_a.len() == a.len(),
        amounts_b.len() == b.len(),
    ensures
        payload_text(a + b, ts, amounts_a + amounts_b, fold_case) == payload_text(
            a,
            ts,
            amounts_a,
            fold_case,
        ).drop_last() + ","@ + payload_text(b, ts, amounts_b, fold_case).drop_first(),
{
    reveal_strlit("[");
    reveal_strlit("]");
    assert(default_template(ts) is Some);
    let d = default_template(ts)->0;
    let ea = entries_of(a, ts, amounts_a, fold_case, d);
    let eb = entries_of(b, ts, amounts_b, fold_case, d);
    law_entries_rowwise(a, b, ts, amounts_a, amounts_b, fold_case, d);
    lemma_join_comma_append(ea, eb);
    let pa = "["@ + join_comma(ea) + "]"@;
    let pb = "["@ + join_comma(eb) + "]"@;
    assert(pa.drop_last() =~= "["@ + join_comma(ea));
    assert(pb.drop_first() =~= join_comma(eb) + "]"@);
    assert("["@ + join_comma(ea + eb) + "]"@ =~= pa.drop_last() + ","@ + pb.drop_first());
}

/// A key selects a template wherever it occurs in the client name, not only at the
/// start: any text before and after it is allowed.
pub proof fn law_key_occurs_anywhere(p: Seq<char>, key: Seq<char>, q: Seq<char>)
    ensures
        client_matches(p + key + q, key, false),
{
    let c = p + key + q;
    assert(c.subrange(p.len() as int, (p.len() + key.len()) as int) =~= key);
}

/// Ignoring case, a key selects a template when its upper-case form occurs anywhere
/// in the upper-case client name.
pub proof fn law_key_occurs_anywhere_ignoring_case(
    client: Seq<char>,
    key: Seq<char>,
    p: Seq<char>,
    q: Seq<char>,
)
    requires
        upper_case(client) == p + upper_case(key) + q,
    ensures
        client_matches(client, key, true),
{
    law_key_occurs_anywhere(p, upper_case(key), q);
}

/// A key selects a template only where it occurs: the client name then splits
/// into a text before the key, the key, and a text after it.
pub proof fn law_match_is_occurrence(client: Seq<char>, key: Seq<char>) -> (at: int)
    requires
        client_matches(client, key, false),
    ensures
        0 <= at <= client.len(),
        client == client.take(at) + key + client.skip(at + key.len()),
{
    let at = choose|i: int|
        0 <= i && i + key.len() <= client.len() && #[trigger] client.subrange(i, i + key.len())
            == key;
    assert(client =~= client.take(at) + client.subrange(at, at + key.len()) + client.skip(
        at + key.len(),
    ));
    at
}

/// A row goes to the first template whose key occurs in its client name, even
/// when the key stands after other words; earlier templates whose keys do not
/// occur are passed over.
pub proof fn law_first_occurring_key_selects(
    ts: Seq<FormatTemplate>,
    i: int,
    p: Seq<char>,
    q: Seq<char>,
    fallback: int,
)
    requires
        0 <= i < ts.len(),
        forall|j: int|
            0 <= j < i ==> !client_matches(p + ts[i].client_key@ + q, ts[j].client_key@, false),
    ensures
        template_for(ts, p + ts[i].client_key@ + q, false, fallback) == i,
{
    let client = p + ts[i].client_key@ + q;
    law_key_occurs_anywhere(p, ts[i].client_key@, q);
    let flags = match_flags(ts, client, false);
    assert(is_first_true(flags, i));
}

/// Ignoring case, a row goes to the first template whose upper-case key occurs
/// anywhere in its upper-case client name; earlier templates whose keys do not
/// occur are passed over.
pub proof fn law_first_occurring_key_selects_ignoring_case(
    ts: Seq<FormatTemplate>,
    i: int,
    client: Seq<char>,
    p: Seq<char>,
    q: Seq<char>,
    fallback: int,
)
    requires
        0 <= i < ts.len(),
        upper_case(client) == p + upper_case(ts[i].client_key@) + q,
        forall|j: int| 0 <= j < i ==> !client_matches(client, ts[j].client_key@, true),
    ensures
        template_for(ts, client, true, fallback) == i,
{
    law_key_occurs_anywhere_ignoring_case(client, ts[i].client_key@, p, q);
    let flags = match_flags(ts, client, true);
    assert(is_first_true(flags, i));
}

/// A row whose client name contains no template key goes to the fallback template.
pub proof fn law_no_key_gives_fallback(
    ts: Seq<FormatTemplate>,
    client: Seq<char>,
    fold_case: bool,
    fallback: int,
)
    requires
        forall|j: int| 0 <= j < ts.len() ==> !client_matches(client, ts[j].client_key@, fold_case),
    ensures
        template_for(ts, client, fold_case, fallback) == fallback,
{
    assert(!exists|i: int| is_first_true(match_flags(ts, client, fold_case), i));
}

/// Each row's entry carries one ledger line object per line of its template, in
/// the template's order, each with that line's amount.
pub proof fn law_one_line_object_per_template_line(t: FormatTemplate, amounts: Seq<String>)
    ensures
        lines_of(t, amounts).len() == t.rows@.len(),
        forall|k: int|
            0 <= k < t.rows@.len() ==> #[trigger] lines_of(t, amounts)[k] == line_text(
                t.rows@[k],
                amounts[k]@,
            ),
{
}

/// A ledger line added at the end of a template adds its object at the end of the
/// lines of every entry under that template, and keeps the others.
pub proof fn law_added_line_is_carried(
    t: FormatTemplate,
    t2: FormatTemplate,
    amounts: Seq<String>,
    r: TemplateRow,
    x: String,
)
    requires
        t2.rows@ == t.rows@.push(r),
        amounts.len() == t.rows@.len(),
    ensures
        lines_of(t2, amounts.push(x)) == lines_of(t, amounts).push(line_text(r, x@)),
{
    assert(lines_of(t2, amounts.push(x)) =~= lines_of(t, amounts).push(line_text(r, x@)));
}

/// The fallback template (see `default_template`).
pub fn default_template_index(ts: &[FormatTemplate]) -> (r: Option<usize>)
    ensures
        r matches Some(i) ==> default_template(ts@) == Some(i as int),
        r is None ==> default_template(ts@) is None,
{
    let key = String::from_str("DEFAULT");
    let ghost flags = default_flags(ts@);
    let n = ts.len();
    let mut i: usize = 0;
    while i < n
        invariant
            n == ts@.len(),
            key@ == "DEFAULT"@,
            flags == default_flags(ts@),
            i <= n,
            forall|j: int| 0 <= j < i ==> !flags[j],
        decreases n - i,
    {
        if ts[i].client_key == key {
            assert(is_first_true(flags, i as int));
            return Some(i);
        }
        i = i + 1;
    }
    assert(!exists|j: int| is_first_true(flags, j));
    if n > 0 {
        Some(0)
    } else {
        None
    }
}

/// Whether a row of client `client` falls under a template keyed `key`.
pub fn client_key_matches(client: &str, key: &str, fold_case: bool) -> (r: bool)
    ensures
        r == client_matches(client@, key@, fold_case),
{
    if fold_case {
        let c = to_upper(client);
        let k = to_upper(key);
        text_contains(c.as_str(), k.as_str())
    } else {
        text_contains(client, key)
    }
}

/// The template applied to a row of client `client` (see `template_for`).
pub fn template_index_for(ts: &[FormatTemplate], client: &str, fold_case: bool, fallback: usize) -> (r:
    usize)
    requires
        fallback < ts@.len(),
    ensures
        r == template_for(ts@, client@, fold_case, fallback as int),
        r < ts@.len(),
{
    let ghost flags = match_flags(ts@, client@, fold_case);
    let n = ts.len();
    let mut i: usize = 0;
    while i < n
        invariant
            n == ts@.len(),
            flags == match_flags(ts@, client@, fold_case),
            i <= n,
            forall|j: int| 0 <= j < i ==> !flags[j],
        decreases n - i,
    {
        if client_key_matches(client, ts[i].client_key.as_str(), fold_case) {
            assert(is_first_true(flags, i as int));
            return i;
        }
        i = i + 1;
    }
    assert(!exists|j: int| is_first_true(flags, j));
    fallback
}

/// For each row, the template that applies to it; `None` when there is no template.
pub fn plan_payload(rows: &[EditableRow], ts: &[FormatTemplate], fold_case: bool) -> (r: Option<
    Vec<usize>,
>)
    ensures
        r is None <==> default_template(ts@) is None,
        r matches Some(v) ==> {
            &&& v@.len() == rows@.len()
            &&& forall|i: int|
                0 <= i < rows@.len() ==> #[trigger] v@[i] == template_for(
                    ts@,
                    rows@[i].client@,
                    fold_case,
                    default_template(ts@)->0,
                )
            &&& forall|i: int| 0 <= i < rows@.len() ==> #[trigger] v@[i] < ts@.len()
        },
{
    let d = match default_template_index(ts) {
        Some(d) => d,
        None => {
            return None;
        },
    };
    let mut v: Vec<usize> = Vec::new();
    let n = rows.len();
    for i in 0..n
        invariant
            n == rows@.len(),
            default_template(ts@) == Some(d as int),
            d < ts@.len(),
            v@.len() == i,
            forall|j: int|
                0 <= j < i ==> #[trigger] v@[j] == template_for(
                    ts@,
                    rows@[j].client@,
                    fold_case,
                    d as int,
                ),
            forall|j: int| 0 <= j < i ==> #[trigger] v@[j] < ts@.len(),
    {
        let t = template_index_for(ts, rows[i].client.as_str(), fold_case, d);
        v.push(t);
    }
    Some(v)
}

/// `items` joined with commas.
pub fn join_with_commas(items: &Vec<String>) -> (r: String)
    ensures
        r@ == join_comma(items@.map_values(|s: String| s@)),
{
    let ghost views = items@.map_values(|s: String| s@);
    let mut out = String::new();
    let n = items.len();
    let mut i: usize = 0;
    while i < n
        invariant
            n == items@.len(),
            views == items@.map_values(|s: String| s@),
            i <= n,
            out@ == join_comma(views.take(i as int)),
        decreases n - i,
    {
        assert(views.take(i + 1).drop_last() =~= views.take(i as int));
        if i > 0 {
            out.append(",");
        }
        out.append(items[i].as_str());
        i = i + 1;
    }
    assert(views.take(n as int) =~= views);
    out
}

/// The JSON object of one ledger line with amount text `amount`.
pub fn line_json(t: &TemplateRow, amount: &String) -> (r: String)
    ensures
        r@ == line_text(*t, amount@),
{
    let mut out = String::from_str("{\"amount\":");
    out.append(amount.as_str());
    out.append(",\"compte\":");
    out.append(json_quote(t.compte.as_str()).as_str());
    out.append(",\"type\":");
    match t.entry_type {
        EntryType::Debit => out.append("\"debit\""),
        EntryType::Credit => out.append("\"credit\""),
    }
    out.append("}");
    out
}

/// The JSON object of one extracted row with the given ledger line objects.
pub fn entry_json(r: &EditableRow, lines: &Vec<String>) -> (out: String)
    ensures
        out@ == entry_text(*r, lines@.map_values(|s: String| s@)),
{
    let mut out = String::from_str("{\"client\":");
    out.append(json_quote(r.client.as_str()).as_str());
    out.append(",\"date\":");
    out.append(json_quote(r.date.as_str()).as_str());
    out.append(",\"lignes\":[");
    out.append(join_with_commas(lines).as_str());
    out.append("],\"ref\":");
    out.append(json_quote(r.reference.as_str()).as_str());
    out.append("}");
    out
}

/// The payload text (see `payload_text`), given the amount text of every ledger line.
pub fn render_payload(
    rows: &[EditableRow],
    ts: &[FormatTemplate],
    amounts: &[Vec<String>],
    fold_case: bool,
) -> (r: String)
    requires
        amounts_fit(rows@, ts@, amounts@, fold_case),
    ensures
        r@ == payload_text(rows@, ts@, amounts@, fold_case),
{
    let d = match default_template_index(ts) {
        Some(d) => d,
        None => {
            return String::from_str("[]");
        },
    };
    let ghost want = entries_of(rows@, ts@, amounts@, fold_case, d as int);
    let mut entries: Vec<String> = Vec::new();
    let n = rows.len();
    for i in 0..n
        invariant
            n == rows@.len(),
            default_template(ts@) == Some(d as int),
            d < ts@.len(),
            amounts_fit(rows@, ts@, amounts@, fold_case),
            want == entries_of(rows@, ts@, amounts@, fold_case, d as int),
            entries@.len() == i,
            forall|j: int| 0 <= j < i ==> #[trigger] entries@[j]@ == want[j],
    {
        let ti = template_index_for(ts, rows[i].client.as_str(), fold_case, d);
        let t = &ts[ti];
        let am = &amounts[i];
        assert(am@.len() == t.rows@.len());
        let ghost want_lines = lines_of(*t, am@);
        let mut lines: Vec<String> = Vec::new();
        let m = t.rows.len();
        for k in 0..m
            invariant
                m == t.rows@.len(),
                am@.len() == m,
                want_lines == lines_of(*t, am@),
                lines@.len() == k,
                forall|j: int| 0 <= j < k ==> #[trigger] lines@[j]@ == want_lines[j],
        {
            lines.push(line_json(&t.rows[k], &am[k]));
        }
        assert(lines@.map_values(|s: String| s@) =~= want_lines);
        entries.push(entry_json(&rows[i], &lines));
    }
    assert(entries@.map_values(|s: String| s@) =~= want);
    let mut out = String::from_str("[");
    out.append(join_with_commas(&entries).as_str());
    out.append("]");
    out
}

} // verus!
