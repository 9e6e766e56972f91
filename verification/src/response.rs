use vstd::prelude::*;
use vstd::string::StrSliceExecFns;
use vstd::string::StringExecFns;

use crate::json::{
    spec_as_str, spec_get, spec_get2_str, spec_get3_str, spec_get_arr, spec_get_bool,
    spec_get_i64, spec_get_str, spec_render, render_json, Json,
};
use crate::strutil::{
    first_line, i64_to_string, join, push_part, remove_newlines, short7, spec_first_line,
    spec_i64_string, spec_join, spec_remove_newlines, spec_short7, str_eq,
};
use crate::trusted::{b64_decode, b64_decode_of, utf8_of, utf8_string};

verus! {

/// One `**key:** text` display line.
pub open spec fn spec_kv(key: Seq<char>, text: Seq<char>) -> Seq<char> {
    "**"@ + key + ":** "@ + text
}

/// The display text of a boolean.
pub open spec fn spec_bool_text(b: bool) -> Seq<char> {
    if b {
        "true"@
    } else {
        "false"@
    }
}

fn bool_text(b: bool) -> (r: &'static str)
    ensures
        r@ == spec_bool_text(b),
{
    if b {
        "true"
    } else {
        "false"
    }
}

fn kv_line(key: &str, text: &str) -> (r: String)
    ensures
        r@ == spec_kv(key@, text@),
{
    let mut s = String::from_str("**");
    s.append(key);
    s.append(":** ");
    s.append(text);
    s
}

/// The identifying text of an object that stands inside an array: its
/// `name`, `title` or `login` string, in that preference order.
pub open spec fn spec_item_name(v: Json) -> Option<Seq<char>> {
    if spec_get_str(v, "name"@) is Some {
        spec_get_str(v, "name"@)
    } else if spec_get_str(v, "title"@) is Some {
        spec_get_str(v, "title"@)
    } else {
        spec_get_str(v, "login"@)
    }
}

/// A subtlety the original lookup order carries: a `name`, `title` or
/// `login` field bound to a non-string hides nothing; only string values
/// are taken, each falling through to the next key.
fn item_name<'a>(v: &'a Json) -> (r: Option<&'a String>)
    ensures
        match r {
            Some(s) => spec_item_name(*v) == Some(s@),
            None => spec_item_name(*v) is None,
        },
{
    match v.get_str("name") {
        Some(s) => Some(s),
        None => match v.get_str("title") {
            Some(s) => Some(s),
            None => v.get_str("login"),
        },
    }
}

/// The identifying text of a nested object value: its `login`, `name`,
/// `title` or `full_name` string, in that preference order.
pub open spec fn spec_nested_name(v: Json) -> Option<Seq<char>> {
    if spec_get_str(v, "login"@) is Some {
        spec_get_str(v, "login"@)
    } else if spec_get_str(v, "name"@) is Some {
        spec_get_str(v, "name"@)
    } else if spec_get_str(v, "title"@) is Some {
        spec_get_str(v, "title"@)
    } else {
        spec_get_str(v, "full_name"@)
    }
}

fn nested_name<'a>(v: &'a Json) -> (r: Option<&'a String>)
    ensures
        match r {
            Some(s) => spec_nested_name(*v) == Some(s@),
            None => spec_nested_name(*v) is None,
        },
{
    match v.get_str("login") {
        Some(s) => Some(s),
        None => match v.get_str("name") {
            Some(s) => Some(s),
            None => match v.get_str("title") {
                Some(s) => Some(s),
                None => v.get_str("full_name"),
            },
        },
    }
}

/// How one array element appears in an inline list: a string verbatim, an
/// object through its identifying field (or not at all), anything else as
/// JSON text.
pub open spec fn spec_inline_item(v: Json) -> Option<Seq<char>> {
    match v {
        Json::Str(s) => Some(s@),
        Json::Obj(_) => spec_item_name(v),
        _ => Some(spec_render(v)),
    }
}

/// The inline texts of the elements of an array, elements without one
/// omitted.
pub open spec fn spec_inline_items(items: Seq<Json>) -> Seq<Seq<char>>
    decreases items.len(),
{
    if items.len() == 0 {
        Seq::empty()
    } else {
        let init = spec_inline_items(items.subrange(0, items.len() - 1));
        match spec_inline_item(items[items.len() - 1]) {
            Some(t) => init.push(t),
            None => init,
        }
    }
}

fn inline_items(items: &Vec<Json>) -> (r: Vec<String>)
    ensures
        r.deep_view() == spec_inline_items(items@),
{
    let mut out: Vec<String> = Vec::new();
    let n = items.len();
    let mut i: usize = 0;
    while i < n
        invariant
            0 <= i <= n,
            n == items@.len(),
            out.deep_view() == spec_inline_items(items@.subrange(0, i as int)),
        decreases n - i,
    {
        let ghost pre = out.deep_view();
        let item = &items[i];
        match item {
            Json::Str(s) => {
                out.push(s.clone());
            },
            Json::Obj(_) => {
                match item_name(item) {
                    Some(s) => {
                        out.push(s.clone());
                    },
                    None => {},
                }
            },
            _ => {
                out.push(render_json(item));
            },
        }
        proof {
            let now = items@.subrange(0, i + 1);
            assert(now.subrange(0, now.len() - 1) =~= items@.subrange(0, i as int));
            assert(now[now.len() - 1] == items@[i as int]);
            assert(out.deep_view() =~= spec_inline_items(now));
        }
        i += 1;
    }
    proof {
        assert(items@.subrange(0, items@.len() as int) =~= items@);
    }
    out
}

/// How a single field renders: null and empty strings vanish, scalars
/// become one `key: value` line, arrays become one inline list line (or
/// vanish when nothing in them renders), nested objects render only
/// through an identifying field.
pub open spec fn spec_format_field(key: Seq<char>, v: Json) -> Seq<char> {
    match v {
        Json::Null => Seq::empty(),
        Json::Str(s) => if s@.len() == 0 {
            Seq::empty()
        } else {
            spec_kv(key, s@)
        },
        Json::Int(n) => spec_kv(key, spec_i64_string(n as int)),
        Json::Num(s) => spec_kv(key, s@),
        Json::Bool(b) => spec_kv(key, spec_bool_text(b)),
        Json::Arr(items) => if items@.len() == 0 {
            Seq::empty()
        } else {
            let ts = spec_inline_items(items@);
            if ts.len() == 0 {
                Seq::empty()
            } else {
                spec_kv(key, spec_join(ts, ", "@))
            }
        },
        Json::Obj(_) => match spec_nested_name(v) {
            Some(n) => spec_kv(key, n),
            None => Seq::empty(),
        },
    }
}

fn format_field(key: &str, v: &Json) -> (r: String)
    ensures
        r@ == spec_format_field(key@, *v),
{
    match v {
        Json::Null => String::new(),
        Json::Str(s) => {
            if s.as_str().is_empty() {
                String::new()
            } else {
                kv_line(key, s.as_str())
            }
        },
        Json::Int(n) => {
            let text = i64_to_string(*n);
            kv_line(key, text.as_str())
        },
        Json::Num(s) => kv_line(key, s.as_str()),
        Json::Bool(b) => kv_line(key, bool_text(*b)),
        Json::Arr(items) => {
            if items.len() == 0 {
                String::new()
            } else {
                let ts = inline_items(items);
                if ts.len() == 0 {
                    assert(ts.deep_view().len() == 0);
                    String::new()
                } else {
                    assert(ts.deep_view().len() > 0);
                    let text = join(&ts, ", ");
                    kv_line(key, text.as_str())
                }
            }
        },
        Json::Obj(_) => {
            match nested_name(v) {
                Some(n) => kv_line(key, n.as_str()),
                None => String::new(),
            }
        },
    }
}

/// The display lines of an object's fields, fields that render as nothing
/// omitted.
pub open spec fn spec_field_lines(fields: Seq<(String, Json)>) -> Seq<Seq<char>>
    decreases fields.len(),
{
    if fields.len() == 0 {
        Seq::empty()
    } else {
        let init = spec_field_lines(fields.subrange(0, fields.len() - 1));
        let last = fields[fields.len() - 1];
        let line = spec_format_field(last.0@, last.1);
        if line.len() == 0 {
            init
        } else {
            init.push(line)
        }
    }
}

/// An object renders as its field lines joined by newlines; anything else
/// renders as JSON text.
pub open spec fn spec_format_object(v: Json) -> Seq<char> {
    match v {
        Json::Obj(fields) => spec_join(spec_field_lines(fields@), "\n"@),
        _ => spec_render(v),
    }
}

/// Render a JSON object as `key: value` lines, other values as JSON text.
pub fn format_object(v: &Json) -> (r: String)
    ensures
        r@ == spec_format_object(*v),
{
    match v {
        Json::Obj(fields) => {
            let mut lines: Vec<String> = Vec::new();
            let n = fields.len();
            let mut i: usize = 0;
            while i < n
                invariant
                    0 <= i <= n,
                    n == fields@.len(),
                    lines.deep_view() == spec_field_lines(fields@.subrange(0, i as int)),
                decreases n - i,
            {
                let line = format_field(fields[i].0.as_str(), &fields[i].1);
                if !line.as_str().is_empty() {
                    lines.push(line);
                }
                proof {
                    let now = fields@.subrange(0, i + 1);
                    assert(now.subrange(0, now.len() - 1) =~= fields@.subrange(0, i as int));
                    assert(now[now.len() - 1] == fields@[i as int]);
                    assert(lines.deep_view() =~= spec_field_lines(now));
                }
                i += 1;
            }
            proof {
                assert(fields@.subrange(0, fields@.len() as int) =~= fields@);
            }
            join(&lines, "\n")
        },
        _ => render_json(v),
    }
}

/// The object texts of the elements of an array.
pub open spec fn spec_object_texts(items: Seq<Json>) -> Seq<Seq<char>>
    decreases items.len(),
{
    if items.len() == 0 {
        Seq::empty()
    } else {
        spec_object_texts(items.subrange(0, items.len() - 1)).push(
            spec_format_object(items[items.len() - 1]),
        )
    }
}

/// What the normalizer renders for any JSON value. It is total: null, empty
/// arrays and objects with nothing to show all become fixed placeholder
/// text, never nothing.
pub open spec fn spec_format_value(v: Json) -> Seq<char> {
    match v {
        Json::Null => "No data returned."@,
        Json::Arr(items) => if items@.len() == 0 {
            "No items found."@
        } else {
            spec_join(spec_object_texts(items@), "\n---\n"@)
        },
        Json::Obj(_) => {
            let t = spec_format_object(v);
            if t.len() == 0 {
                "No displayable fields."@
            } else {
                t
            }
        },
        _ => spec_render(v),
    }
}

/// Render any JSON value as readable text for agent consumption.
pub fn format_value(v: &Json) -> (r: String)
    ensures
        r@ == spec_format_value(*v),
{
    match v {
        Json::Null => String::from_str("No data returned."),
        Json::Arr(items) => {
            if items.len() == 0 {
                String::from_str("No items found.")
            } else {
                let mut texts: Vec<String> = Vec::new();
                let n = items.len();
                let mut i: usize = 0;
                while i < n
                    invariant
                        0 <= i <= n,
                        n == items@.len(),
                        texts.deep_view() == spec_object_texts(items@.subrange(0, i as int)),
                    decreases n - i,
                {
                    texts.push(format_object(&items[i]));
                    proof {
                        let now = items@.subrange(0, i + 1);
                        assert(now.subrange(0, now.len() - 1) =~= items@.subrange(0, i as int));
                        assert(now[now.len() - 1] == items@[i as int]);
                        assert(texts.deep_view() =~= spec_object_texts(now));
                    }
                    i += 1;
                }
                proof {
                    assert(items@.subrange(0, items@.len() as int) =~= items@);
                }
                join(&texts, "\n---\n")
            }
        },
        Json::Obj(_) => {
            let t = format_object(v);
            if t.as_str().is_empty() {
                String::from_str("No displayable fields.")
            } else {
                t
            }
        },
        _ => render_json(v),
    }
}

/// `o` when present, `d` otherwise.
pub open spec fn spec_or(o: Option<Seq<char>>, d: Seq<char>) -> Seq<char> {
    match o {
        Some(t) => t,
        None => d,
    }
}

/// A display part for an optional `**label:** text` line.
pub open spec fn spec_kv_part(o: Option<Seq<char>>, label: Seq<char>) -> Seq<Seq<char>> {
    match o {
        Some(t) => seq![spec_kv(label, t)],
        None => Seq::empty(),
    }
}

/// The strings bound to `key` across an array of objects, elements without
/// one omitted.
pub open spec fn spec_collect_strs(items: Seq<Json>, key: Seq<char>) -> Seq<Seq<char>>
    decreases items.len(),
{
    if items.len() == 0 {
        Seq::empty()
    } else {
        let init = spec_collect_strs(items.subrange(0, items.len() - 1), key);
        match spec_get_str(items[items.len() - 1], key) {
            Some(t) => init.push(t),
            None => init,
        }
    }
}

fn collect_strs(items: &Vec<Json>, key: &str) -> (r: Vec<String>)
    ensures
        r.deep_view() == spec_collect_strs(items@, key@),
{
    let mut out: Vec<String> = Vec::new();
    let n = items.len();
    let mut i: usize = 0;
    while i < n
        invariant
            0 <= i <= n,
            n == items@.len(),
            out.deep_view() == spec_collect_strs(items@.subrange(0, i as int), key@),
        decreases n - i,
    {
        match items[i].get_str(key) {
            Some(s) => {
                out.push(s.clone());
            },
            None => {},
        }
        proof {
            let now = items@.subrange(0, i + 1);
            assert(now.subrange(0, now.len() - 1) =~= items@.subrange(0, i as int));
            assert(now[now.len() - 1] == items@[i as int]);
            assert(out.deep_view() =~= spec_collect_strs(now, key@));
        }
        i += 1;
    }
    proof {
        assert(items@.subrange(0, items@.len() as int) =~= items@);
    }
    out
}

/// A display part for an optional comma-joined name list, drawn from the
/// array bound to `arr_key` through each element's `name_key` string.
pub open spec fn spec_names_part(
    j: Json,
    arr_key: Seq<char>,
    name_key: Seq<char>,
    label: Seq<char>,
) -> Seq<Seq<char>> {
    match spec_get_arr(j, arr_key) {
        Some(items) => {
            let ns = spec_collect_strs(items, name_key);
            if ns.len() == 0 {
                Seq::empty()
            } else {
                seq![spec_kv(label, spec_join(ns, ", "@))]
            }
        },
        None => Seq::empty(),
    }
}

fn push_names_part(parts: &mut Vec<String>, j: &Json, arr_key: &str, name_key: &str, label: &str)
    ensures
        final(parts).deep_view() == old(parts).deep_view() + spec_names_part(
            *j,
            arr_key@,
            name_key@,
            label@,
        ),
{
    let ghost pre = parts.deep_view();
    match j.get_arr(arr_key) {
        Some(items) => {
            let ns = collect_strs(items, name_key);
            if ns.len() > 0 {
                let text = join(&ns, ", ");
                push_part(parts, kv_line(label, text.as_str()));
            }
        },
        None => {},
    }
    proof {
        assert(parts.deep_view() =~= pre + spec_names_part(*j, arr_key@, name_key@, label@));
    }
}

/// The leading `## #number title [state]` part of an issue, present exactly
/// when the issue carries a number.
pub open spec fn spec_issue_header(j: Json, prefix: Seq<char>) -> Seq<Seq<char>> {
    match spec_get_i64(j, "number"@) {
        Some(number) => seq![
            prefix + spec_i64_string(number as int) + " "@ + spec_or(
                spec_get_str(j, "title"@),
                "(untitled)"@,
            ) + " ["@ + spec_or(spec_get_str(j, "state"@), "unknown"@) + "]"@,
        ],
        None => Seq::empty(),
    }
}

fn push_issue_header(parts: &mut Vec<String>, j: &Json, prefix: &str)
    ensures
        final(parts).deep_view() == old(parts).deep_view() + spec_issue_header(*j, prefix@),
{
    let ghost pre = parts.deep_view();
    match j.get_i64("number") {
        Some(number) => {
            let mut line = String::from_str(prefix);
            let num = i64_to_string(number);
            line.append(num.as_str());
            line.append(" ");
            match j.get_str("title") {
                Some(t) => line.append(t.as_str()),
                None => line.append("(untitled)"),
            }
            line.append(" [");
            match j.get_str("state") {
                Some(t) => line.append(t.as_str()),
                None => line.append("unknown"),
            }
            line.append("]");
            push_part(parts, line);
        },
        None => {},
    }
    proof {
        assert(parts.deep_view() =~= pre + spec_issue_header(*j, prefix@));
    }
}

/// A trailing body part: a blank separator line and the body, present
/// exactly when the body is a non-empty string.
pub open spec fn spec_body_part(j: Json) -> Seq<Seq<char>> {
    match spec_get_str(j, "body"@) {
        Some(b) => if b.len() == 0 {
            Seq::empty()
        } else {
            seq![seq!['\n'] + b]
        },
        None => Seq::empty(),
    }
}

fn push_body_part(parts: &mut Vec<String>, j: &Json)
    ensures
        final(parts).deep_view() == old(parts).deep_view() + spec_body_part(*j),
{
    let ghost pre = parts.deep_view();
    match j.get_str("body") {
        Some(b) => {
            if !b.as_str().is_empty() {
                let mut line = String::from_str("\n");
                line.append(b.as_str());
                proof {
                    reveal_strlit("\n");
                    assert("\n"@ =~= seq!['\n']);
                }
                push_part(parts, line);
            }
        },
        None => {},
    }
    proof {
        assert(parts.deep_view() =~= pre + spec_body_part(*j));
    }
}

/// The display parts of an issue, in their fixed order.
pub open spec fn spec_issue_parts(j: Json) -> Seq<Seq<char>> {
    spec_issue_header(j, "## #"@) + spec_kv_part(spec_get2_str(j, "user"@, "login"@), "Author"@)
        + spec_names_part(j, "labels"@, "name"@, "Labels"@) + spec_names_part(
        j,
        "assignees"@,
        "login"@,
        "Assignees"@,
    ) + spec_kv_part(spec_get2_str(j, "milestone"@, "title"@), "Milestone"@) + spec_kv_part(
        spec_get_str(j, "created_at"@),
        "Created"@,
    ) + spec_kv_part(spec_get_str(j, "updated_at"@), "Updated"@) + spec_body_part(j)
}

/// What the normalizer renders for one issue.
pub open spec fn spec_format_issue(j: Json) -> Seq<char> {
    spec_join(spec_issue_parts(j), "\n"@)
}

/// Render an issue with its fixed field order and fallback texts.
pub fn format_issue(issue: &Json) -> (r: String)
    ensures
        r@ == spec_format_issue(*issue),
{
    let mut parts: Vec<String> = Vec::new();
    push_issue_header(&mut parts, issue, "## #");
    match issue.get2_str("user", "login") {
        Some(u) => push_part(&mut parts, kv_line("Author", u.as_str())),
        None => {},
    }
    push_names_part(&mut parts, issue, "labels", "name", "Labels");
    push_names_part(&mut parts, issue, "assignees", "login", "Assignees");
    match issue.get2_str("milestone", "title") {
        Some(m) => push_part(&mut parts, kv_line("Milestone", m.as_str())),
        None => {},
    }
    match issue.get_str("created_at") {
        Some(c) => push_part(&mut parts, kv_line("Created", c.as_str())),
        None => {},
    }
    match issue.get_str("updated_at") {
        Some(u) => push_part(&mut parts, kv_line("Updated", u.as_str())),
        None => {},
    }
    push_body_part(&mut parts, issue);
    proof {
        assert(parts.deep_view() =~= spec_issue_parts(*issue));
    }
    join(&parts, "\n")
}

/// One line of an issue listing.
pub open spec fn spec_issue_line(j: Json) -> Seq<char> {
    let number = match spec_get_i64(j, "number"@) {
        Some(n) => n as int,
        None => 0,
    };
    let title = spec_or(spec_get_str(j, "title"@), "(untitled)"@);
    let state = spec_or(spec_get_str(j, "state"@), "unknown"@);
    let labels = match spec_get_arr(j, "labels"@) {
        Some(items) => spec_join(spec_collect_strs(items, "name"@), ", "@),
        None => Seq::empty(),
    };
    let label_str = if labels.len() == 0 {
        Seq::<char>::empty()
    } else {
        " ["@ + labels + "]"@
    };
    "- #"@ + spec_i64_string(number) + " "@ + title + " ("@ + state + ")"@ + label_str
}

pub fn issue_line_text(j: &Json) -> (r: String)
    ensures
        r@ == spec_issue_line(*j),
{
    let number = match j.get_i64("number") {
        Some(n) => n,
        None => 0,
    };
    let mut line = String::from_str("- #");
    let num = i64_to_string(number);
    line.append(num.as_str());
    line.append(" ");
    match j.get_str("title") {
        Some(t) => line.append(t.as_str()),
        None => line.append("(untitled)"),
    }
    line.append(" (");
    match j.get_str("state") {
        Some(t) => line.append(t.as_str()),
        None => line.append("unknown"),
    }
    line.append(")");
    let labels = match j.get_arr("labels") {
        Some(items) => {
            let ns = collect_strs(items, "name");
            join(&ns, ", ")
        },
        None => String::new(),
    };
    if !labels.as_str().is_empty() {
        line.append(" [");
        line.append(labels.as_str());
        line.append("]");
    }
    line
}

/// The lines of an issue listing.
pub open spec fn spec_issue_lines(items: Seq<Json>) -> Seq<Seq<char>>
    decreases items.len(),
{
    if items.len() == 0 {
        Seq::empty()
    } else {
        spec_issue_lines(items.subrange(0, items.len() - 1)).push(
            spec_issue_line(items[items.len() - 1]),
        )
    }
}

/// What the normalizer renders for an issue listing.
pub open spec fn spec_format_issue_list(items: Seq<Json>) -> Seq<char> {
    if items.len() == 0 {
        "No issues found."@
    } else {
        spec_join(spec_issue_lines(items), "\n"@)
    }
}

/// Render a list of issues as one summary line each.
pub fn format_issue_list(issues: &Vec<Json>) -> (r: String)
    ensures
        r@ == spec_format_issue_list(issues@),
{
    if issues.len() == 0 {
        return String::from_str("No issues found.");
    }
    let mut lines: Vec<String> = Vec::new();
    let n = issues.len();
    let mut i: usize = 0;
    while i < n
        invariant
            0 <= i <= n,
            n == issues@.len(),
            lines.deep_view() == spec_issue_lines(issues@.subrange(0, i as int)),
        decreases n - i,
    {
        push_part(&mut lines, issue_line_text(&issues[i]));
        proof {
            let now = issues@.subrange(0, i + 1);
            assert(now.subrange(0, now.len() - 1) =~= issues@.subrange(0, i as int));
            assert(now[now.len() - 1] == issues@[i as int]);
            assert(lines.deep_view() =~= spec_issue_lines(now));
        }
        i += 1;
    }
    proof {
        assert(issues@.subrange(0, issues@.len() as int) =~= issues@);
    }
    join(&lines, "\n")
}

/// The `head -> base` branch part of a pull request, present exactly when
/// the head label is present.
pub open spec fn spec_branch_part(j: Json) -> Seq<Seq<char>> {
    match spec_get2_str(j, "head"@, "label"@) {
        Some(head) => seq![
            "**Branch:** "@ + head + " -> "@ + spec_or(spec_get2_str(j, "base"@, "label"@), "?"@),
        ],
        None => Seq::empty(),
    }
}

/// The display parts of a pull request, in their fixed order.
pub open spec fn spec_pr_parts(j: Json) -> Seq<Seq<char>> {
    spec_issue_header(j, "## PR #"@) + spec_kv_part(spec_get2_str(j, "user"@, "login"@), "Author"@)
        + spec_branch_part(j) + (match spec_get_bool(j, "mergeable"@) {
        Some(m) => seq![spec_kv("Mergeable"@, spec_bool_text(m))],
        None => Seq::<Seq<char>>::empty(),
    }) + spec_names_part(j, "labels"@, "name"@, "Labels"@) + spec_kv_part(
        spec_get_str(j, "created_at"@),
        "Created"@,
    ) + spec_body_part(j)
}

/// What the normalizer renders for one pull request.
pub open spec fn spec_format_pull_request(j: Json) -> Seq<char> {
    spec_join(spec_pr_parts(j), "\n"@)
}

/// Render a pull request with its fixed field order and fallback texts.
pub fn format_pull_request(pr: &Json) -> (r: String)
    ensures
        r@ == spec_format_pull_request(*pr),
{
    let mut parts: Vec<String> = Vec::new();
    push_issue_header(&mut parts, pr, "## PR #");
    match pr.get2_str("user", "login") {
        Some(u) => push_part(&mut parts, kv_line("Author", u.as_str())),
        None => {},
    }
    match pr.get2_str("head", "label") {
        Some(head) => {
            let mut line = String::from_str("**Branch:** ");
            line.append(head.as_str());
            line.append(" -> ");
            match pr.get2_str("base", "label") {
                Some(base) => line.append(base.as_str()),
                None => line.append("?"),
            }
            push_part(&mut parts, line);
        },
        None => {},
    }
    match pr.get_bool("mergeable") {
        Some(m) => push_part(&mut parts, kv_line("Mergeable", bool_text(m))),
        None => {},
    }
    push_names_part(&mut parts, pr, "labels", "name", "Labels");
    match pr.get_str("created_at") {
        Some(c) => push_part(&mut parts, kv_line("Created", c.as_str())),
        None => {},
    }
    push_body_part(&mut parts, pr);
    proof {
        assert(parts.deep_view() =~= spec_pr_parts(*pr));
    }
    join(&parts, "\n")
}

/// One line of a pull request listing.
pub open spec fn spec_pr_line(j: Json) -> Seq<char> {
    let number = match spec_get_i64(j, "number"@) {
        Some(n) => n as int,
        None => 0,
    };
    "- PR #"@ + spec_i64_string(number) + " "@ + spec_or(spec_get_str(j, "title"@), "(untitled)"@)
        + " ("@ + spec_or(spec_get_str(j, "state"@), "unknown"@) + ")"@
}

/// The lines of a pull request listing.
pub open spec fn spec_pr_lines(items: Seq<Json>) -> Seq<Seq<char>>
    decreases items.len(),
{
    if items.len() == 0 {
        Seq::empty()
    } else {
        spec_pr_lines(items.subrange(0, items.len() - 1)).push(
            spec_pr_line(items[items.len() - 1]),
        )
    }
}

/// What the normalizer renders for a pull request listing.
pub open spec fn spec_format_pr_list(items: Seq<Json>) -> Seq<char> {
    if items.len() == 0 {
        "No pull requests found."@
    } else {
        spec_join(spec_pr_lines(items), "\n"@)
    }
}

/// Render a list of pull requests as one summary line each.
pub fn format_pr_list(prs: &Vec<Json>) -> (r: String)
    ensures
        r@ == spec_format_pr_list(prs@),
{
    if prs.len() == 0 {
        return String::from_str("No pull requests found.");
    }
    let mut lines: Vec<String> = Vec::new();
    let n = prs.len();
    let mut i: usize = 0;
    while i < n
        invariant
            0 <= i <= n,
            n == prs@.len(),
            lines.deep_view() == spec_pr_lines(prs@.subrange(0, i as int)),
        decreases n - i,
    {
        let j = &prs[i];
        let number = match j.get_i64("number") {
            Some(n2) => n2,
            None => 0,
        };
        let mut line = String::from_str("- PR #");
        let num = i64_to_string(number);
        line.append(num.as_str());
        line.append(" ");
        match j.get_str("title") {
            Some(t) => line.append(t.as_str()),
            None => line.append("(untitled)"),
        }
        line.append(" (");
        match j.get_str("state") {
            Some(t) => line.append(t.as_str()),
            None => line.append("unknown"),
        }
        line.append(")");
        push_part(&mut lines, line);
        proof {
            let now = prs@.subrange(0, i + 1);
            assert(now.subrange(0, now.len() - 1) =~= prs@.subrange(0, i as int));
            assert(now[now.len() - 1] == prs@[i as int]);
            assert(lines.deep_view() =~= spec_pr_lines(now));
        }
        i += 1;
    }
    proof {
        assert(prs@.subrange(0, prs@.len() as int) =~= prs@);
    }
    join(&lines, "\n")
}

/// What the normalizer renders for one comment.
pub open spec fn spec_format_comment(j: Json) -> Seq<char> {
    "**Comment #"@ + spec_i64_string(
        match spec_get_i64(j, "id"@) {
            Some(n) => n as int,
            None => 0,
        },
    ) + "** by "@ + spec_or(spec_get2_str(j, "user"@, "login"@), "unknown"@) + " ("@ + spec_or(
        spec_get_str(j, "created_at"@),
        Seq::empty(),
    ) + "):\n"@ + spec_or(spec_get_str(j, "body"@), Seq::empty())
}

/// Render a comment with author, timestamp and body.
pub fn format_comment(comment: &Json) -> (r: String)
    ensures
        r@ == spec_format_comment(*comment),
{
    let id = match comment.get_i64("id") {
        Some(n) => n,
        None => 0,
    };
    let mut line = String::from_str("**Comment #");
    let num = i64_to_string(id);
    line.append(num.as_str());
    line.append("** by ");
    match comment.get2_str("user", "login") {
        Some(u) => line.append(u.as_str()),
        None => line.append("unknown"),
    }
    line.append(" (");
    match comment.get_str("created_at") {
        Some(c) => line.append(c.as_str()),
        None => {},
    }
    line.append("):\n");
    match comment.get_str("body") {
        Some(b) => line.append(b.as_str()),
        None => {},
    }
    line
}

/// The texts of a comment listing.
pub open spec fn spec_comment_texts(items: Seq<Json>) -> Seq<Seq<char>>
    decreases items.len(),
{
    if items.len() == 0 {
        Seq::empty()
    } else {
        spec_comment_texts(items.subrange(0, items.len() - 1)).push(
            spec_format_comment(items[items.len() - 1]),
        )
    }
}

/// What the normalizer renders for a comment listing.
pub open spec fn spec_format_comment_list(items: Seq<Json>) -> Seq<char> {
    if items.len() == 0 {
        "No comments found."@
    } else {
        spec_join(spec_comment_texts(items), "\n\n---\n\n"@)
    }
}

/// Render a list of comments separated by rules.
pub fn format_comment_list(comments: &Vec<Json>) -> (r: String)
    ensures
        r@ == spec_format_comment_list(comments@),
{
    if comments.len() == 0 {
        return String::from_str("No comments found.");
    }
    let mut texts: Vec<String> = Vec::new();
    let n = comments.len();
    let mut i: usize = 0;
    while i < n
        invariant
            0 <= i <= n,
            n == comments@.len(),
            texts.deep_view() == spec_comment_texts(comments@.subrange(0, i as int)),
        decreases n - i,
    {
        push_part(&mut texts, format_comment(&comments[i]));
        proof {
            let now = comments@.subrange(0, i + 1);
            assert(now.subrange(0, now.len() - 1) =~= comments@.subrange(0, i as int));
            assert(now[now.len() - 1] == comments@[i as int]);
            assert(texts.deep_view() =~= spec_comment_texts(now));
        }
        i += 1;
    }
    proof {
        assert(comments@.subrange(0, comments@.len() as int) =~= comments@);
    }
    join(&texts, "\n\n---\n\n")
}

/// The display parts of a commit.
pub open spec fn spec_commit_parts(j: Json) -> Seq<Seq<char>> {
    seq![spec_kv("Commit"@, spec_or(spec_get_str(j, "sha"@), "unknown"@))] + spec_kv_part(
        spec_get2_str(j, "commit"@, "message"@),
        "Message"@,
    ) + (match spec_get3_str(j, "commit"@, "author"@, "name"@) {
        Some(author) => seq![
            "**Author:** "@ + author + " ("@ + spec_or(
                spec_get3_str(j, "commit"@, "author"@, "date"@),
                Seq::empty(),
            ) + ")"@,
        ],
        None => Seq::<Seq<char>>::empty(),
    })
}

/// What the normalizer renders for one commit.
pub open spec fn spec_format_commit(j: Json) -> Seq<char> {
    spec_join(spec_commit_parts(j), "\n"@)
}

/// Render a commit with hash, message and author.
pub fn format_commit(commit: &Json) -> (r: String)
    ensures
        r@ == spec_format_commit(*commit),
{
    let mut parts: Vec<String> = Vec::new();
    match commit.get_str("sha") {
        Some(s) => push_part(&mut parts, kv_line("Commit", s.as_str())),
        None => push_part(&mut parts, kv_line("Commit", "unknown")),
    }
    match commit.get2_str("commit", "message") {
        Some(m) => push_part(&mut parts, kv_line("Message", m.as_str())),
        None => {},
    }
    match commit.get3_str("commit", "author", "name") {
        Some(author) => {
            let mut line = String::from_str("**Author:** ");
            line.append(author.as_str());
            line.append(" (");
            match commit.get3_str("commit", "author", "date") {
                Some(d) => line.append(d.as_str()),
                None => {},
            }
            line.append(")");
            push_part(&mut parts, line);
        },
        None => {},
    }
    proof {
        assert(parts.deep_view() =~= spec_commit_parts(*commit));
    }
    join(&parts, "\n")
}

/// One line of a commit listing: abbreviated hash and first message line.
pub open spec fn spec_commit_line(j: Json) -> Seq<char> {
    let sha = match spec_get_str(j, "sha"@) {
        Some(s) => spec_short7(s),
        None => "???????"@,
    };
    let msg = match spec_get2_str(j, "commit"@, "message"@) {
        Some(m) => spec_first_line(m),
        None => Seq::empty(),
    };
    "- `"@ + sha + "` "@ + msg
}

/// The lines of a commit listing.
pub open spec fn spec_commit_lines(items: Seq<Json>) -> Seq<Seq<char>>
    decreases items.len(),
{
    if items.len() == 0 {
        Seq::empty()
    } else {
        spec_commit_lines(items.subrange(0, items.len() - 1)).push(
            spec_commit_line(items[items.len() - 1]),
        )
    }
}

/// What the normalizer renders for a commit listing.
pub open spec fn spec_format_commit_list(items: Seq<Json>) -> Seq<char> {
    if items.len() == 0 {
        "No commits found."@
    } else {
        spec_join(spec_commit_lines(items), "\n"@)
    }
}

/// Render a list of commits as one summary line each.
pub fn format_commit_list(commits: &Vec<Json>) -> (r: String)
    ensures
        r@ == spec_format_commit_list(commits@),
{
    if commits.len() == 0 {
        return String::from_str("No commits found.");
    }
    let mut lines: Vec<String> = Vec::new();
    let n = commits.len();
    let mut i: usize = 0;
    while i < n
        invariant
            0 <= i <= n,
            n == commits@.len(),
            lines.deep_view() == spec_commit_lines(commits@.subrange(0, i as int)),
        decreases n - i,
    {
        let j = &commits[i];
        let mut line = String::from_str("- `");
        match j.get_str("sha") {
            Some(s) => line.append(short7(s.as_str())),
            None => line.append("???????"),
        }
        line.append("` ");
        match j.get2_str("commit", "message") {
            Some(m) => line.append(first_line(m.as_str())),
            None => {},
        }
        push_part(&mut lines, line);
        proof {
            let now = commits@.subrange(0, i + 1);
            assert(now.subrange(0, now.len() - 1) =~= commits@.subrange(0, i as int));
            assert(now[now.len() - 1] == commits@[i as int]);
            assert(lines.deep_view() =~= spec_commit_lines(now));
        }
        i += 1;
    }
    proof {
        assert(commits@.subrange(0, commits@.len() as int) =~= commits@);
    }
    join(&lines, "\n")
}

/// The commit hash a branch object points at: its `commit.id`, else
/// `commit.sha`, when that value is a string.
pub open spec fn spec_branch_sha(j: Json) -> Option<Seq<char>> {
    match spec_get(j, "commit"@) {
        Some(c) => {
            let v = match spec_get(c, "id"@) {
                Some(x) => Some(x),
                None => spec_get(c, "sha"@),
            };
            match v {
                Some(x) => spec_as_str(x),
                None => None,
            }
        },
        None => None,
    }
}

/// What the normalizer renders for one branch.
pub open spec fn spec_format_branch(j: Json) -> Seq<char> {
    let name = spec_or(spec_get_str(j, "name"@), "unknown"@);
    let protected = match spec_get_bool(j, "protected"@) {
        Some(b) => b,
        None => false,
    };
    let sha = match spec_branch_sha(j) {
        Some(s) => spec_short7(s),
        None => "???????"@,
    };
    "- "@ + name + " (`"@ + sha + "`)"@ + (if protected {
        " [protected]"@
    } else {
        Seq::<char>::empty()
    })
}

/// Render a branch with its abbreviated head commit and protection mark.
pub fn format_branch(branch: &Json) -> (r: String)
    ensures
        r@ == spec_format_branch(*branch),
{
    let mut line = String::from_str("- ");
    match branch.get_str("name") {
        Some(s) => line.append(s.as_str()),
        None => line.append("unknown"),
    }
    line.append(" (`");
    let sha_val = match branch.get("commit") {
        Some(c) => match c.get("id") {
            Some(x) => Some(x),
            None => c.get("sha"),
        },
        None => None,
    };
    let sha_str = match sha_val {
        Some(x) => x.as_str(),
        None => None,
    };
    match sha_str {
        Some(s) => line.append(short7(s.as_str())),
        None => line.append("???????"),
    }
    line.append("`)");
    let protected = match branch.get_bool("protected") {
        Some(b) => b,
        None => false,
    };
    if protected {
        line.append(" [protected]");
    }
    line
}

/// How a file's base64 content renders: empty content is a placeholder,
/// undecodable or non-UTF-8 content is a placeholder, anything else is the
/// decoded text. Line breaks inside the transmitted base64 are ignored.
pub open spec fn spec_decoded_content(content: Seq<char>) -> Seq<char> {
    if content.len() == 0 {
        "(empty file)"@
    } else {
        match b64_decode_of(spec_remove_newlines(content)) {
            Some(bytes) => match utf8_of(bytes) {
                Some(text) => text,
                None => "(binary content)"@,
            },
            None => "(binary content)"@,
        }
    }
}

fn decoded_content(content: &str) -> (r: String)
    ensures
        r@ == spec_decoded_content(content@),
{
    if content.is_empty() {
        return String::from_str("(empty file)");
    }
    let clean = remove_newlines(content);
    match b64_decode(clean.as_str()) {
        Some(bytes) => match utf8_string(&bytes) {
            Some(text) => text,
            None => String::from_str("(binary content)"),
        },
        None => String::from_str("(binary content)"),
    }
}

/// What the normalizer renders for a file content response.
pub open spec fn spec_format_file_content(j: Json) -> Seq<char> {
    let name = spec_or(spec_get_str(j, "name"@), "unknown"@);
    let path = spec_or(spec_get_str(j, "path"@), name);
    let file_type = spec_or(spec_get_str(j, "type"@), "file"@);
    if file_type == "dir"@ {
        "**"@ + path + "/** (directory)"@
    } else {
        let size = match spec_get_i64(j, "size"@) {
            Some(n) => n as int,
            None => 0,
        };
        let sha_line = match spec_get_str(j, "sha"@) {
            Some(s) => "\n**SHA:** "@ + s,
            None => Seq::<char>::empty(),
        };
        "**File:** "@ + path + " ("@ + spec_i64_string(size) + " bytes)"@ + sha_line
            + "\n\n```\n"@ + spec_decoded_content(spec_or(spec_get_str(j, "content"@), Seq::empty()))
            + "\n```"@
    }
}

/// Render a file content response, decoding base64 content best-effort.
pub fn format_file_content(file: &Json) -> (r: String)
    ensures
        r@ == spec_format_file_content(*file),
{
    let name: &str = match file.get_str("name") {
        Some(s) => s.as_str(),
        None => "unknown",
    };
    let path: &str = match file.get_str("path") {
        Some(s) => s.as_str(),
        None => name,
    };
    let file_type: &str = match file.get_str("type") {
        Some(s) => s.as_str(),
        None => "file",
    };
    if str_eq(file_type, "dir") {
        let mut line = String::from_str("**");
        line.append(path);
        line.append("/** (directory)");
        return line;
    }
    let size = match file.get_i64("size") {
        Some(n) => n,
        None => 0,
    };
    let mut line = String::from_str("**File:** ");
    line.append(path);
    line.append(" (");
    let num = i64_to_string(size);
    line.append(num.as_str());
    line.append(" bytes)");
    match file.get_str("sha") {
        Some(s) => {
            line.append("\n**SHA:** ");
            line.append(s.as_str());
        },
        None => {},
    }
    line.append("\n\n```\n");
    let decoded = match file.get_str("content") {
        Some(c) => decoded_content(c.as_str()),
        None => decoded_content(""),
    };
    line.append(decoded.as_str());
    line.append("\n```");
    proof {
        reveal_strlit("");
        assert(""@ =~= Seq::<char>::empty());
    }
    line
}

/// One line of a directory listing: the entry name, directories marked
/// with a trailing slash.
pub open spec fn spec_file_line(j: Json) -> Seq<char> {
    let name = spec_or(spec_get_str(j, "name"@), "?"@);
    let file_type = spec_or(spec_get_str(j, "type"@), "file"@);
    "- "@ + name + (if file_type == "dir"@ {
        "/"@
    } else {
        Seq::<char>::empty()
    })
}

/// The lines of a directory listing.
pub open spec fn spec_file_lines(items: Seq<Json>) -> Seq<Seq<char>>
    decreases items.len(),
{
    if items.len() == 0 {
        Seq::empty()
    } else {
        spec_file_lines(items.subrange(0, items.len() - 1)).push(
            spec_file_line(items[items.len() - 1]),
        )
    }
}

/// What the normalizer renders for a directory listing.
pub open spec fn spec_format_file_list(items: Seq<Json>) -> Seq<char> {
    if items.len() == 0 {
        "No files found."@
    } else {
        spec_join(spec_file_lines(items), "\n"@)
    }
}

/// Render a directory listing as one line per entry.
pub fn format_file_list(entries: &Vec<Json>) -> (r: String)
    ensures
        r@ == spec_format_file_list(entries@),
{
    if entries.len() == 0 {
        return String::from_str("No files found.");
    }
    let mut lines: Vec<String> = Vec::new();
    let n = entries.len();
    let mut i: usize = 0;
    while i < n
        invariant
            0 <= i <= n,
            n == entries@.len(),
            lines.deep_view() == spec_file_lines(entries@.subrange(0, i as int)),
        decreases n - i,
    {
        let j = &entries[i];
        let mut line = String::from_str("- ");
        match j.get_str("name") {
            Some(s) => line.append(s.as_str()),
            None => line.append("?"),
        }
        let file_type: &str = match j.get_str("type") {
            Some(s) => s.as_str(),
            None => "file",
        };
        if str_eq(file_type, "dir") {
            line.append("/");
        }
        push_part(&mut lines, line);
        proof {
            let now = entries@.subrange(0, i + 1);
            assert(now.subrange(0, now.len() - 1) =~= entries@.subrange(0, i as int));
            assert(now[now.len() - 1] == entries@[i as int]);
            assert(lines.deep_view() =~= spec_file_lines(now));
        }
        i += 1;
    }
    proof {
        assert(entries@.subrange(0, entries@.len() as int) =~= entries@);
    }
    join(&lines, "\n")
}

/// Append one `prefix + text` line when the text is present.
pub fn push_opt_line(parts: &mut Vec<String>, prefix: &str, o: Option<&String>)
    ensures
        final(parts).deep_view() == old(parts).deep_view() + (match o {
            Some(s) => seq![prefix@ + s@],
            None => Seq::<Seq<char>>::empty(),
        }),
{
    let ghost pre = parts.deep_view();
    match o {
        Some(s) => {
            let mut line = String::from_str(prefix);
            line.append(s.as_str());
            push_part(parts, line);
        },
        None => {},
    }
    proof {
        assert(parts.deep_view() =~= pre + (match o {
            Some(s) => seq![prefix@ + s@],
            None => Seq::<Seq<char>>::empty(),
        }));
    }
}

/// Append one `prefix + text` line when the text is present and non-empty.
pub fn push_nonempty_line(parts: &mut Vec<String>, prefix: &str, o: Option<&String>)
    ensures
        final(parts).deep_view() == old(parts).deep_view() + (match o {
            Some(s) => if s@.len() > 0 {
                seq![prefix@ + s@]
            } else {
                Seq::<Seq<char>>::empty()
            },
            None => Seq::<Seq<char>>::empty(),
        }),
{
    let ghost pre = parts.deep_view();
    match o {
        Some(s) => {
            if !s.as_str().is_empty() {
                let mut line = String::from_str(prefix);
                line.append(s.as_str());
                push_part(parts, line);
            }
        },
        None => {},
    }
    proof {
        assert(parts.deep_view() =~= pre + (match o {
            Some(s) => if s@.len() > 0 {
                seq![prefix@ + s@]
            } else {
                Seq::<Seq<char>>::empty()
            },
            None => Seq::<Seq<char>>::empty(),
        }));
    }
}

/// What a raw diff response renders: a fixed placeholder when empty, the
/// diff fenced as a diff code block otherwise.
pub open spec fn spec_format_diff(diff: Seq<char>) -> Seq<char> {
    if diff.len() == 0 {
        "No diff content."@
    } else {
        "```diff\n"@ + diff + "\n```"@
    }
}

/// Render a raw unified diff.
pub fn format_diff(diff: &str) -> (r: String)
    ensures
        r@ == spec_format_diff(diff@),
{
    if diff.is_empty() {
        return String::from_str("No diff content.");
    }
    let mut s = String::from_str("```diff\n");
    s.append(diff);
    s.append("\n```");
    s
}

/// What a raw log response renders: a fixed placeholder when empty, the
/// logs fenced as a code block otherwise.
pub open spec fn spec_format_logs(logs: Seq<char>) -> Seq<char> {
    if logs.len() == 0 {
        "No logs available."@
    } else {
        "```\n"@ + logs + "\n```"@
    }
}

/// Render raw job logs.
pub fn format_logs(logs: &str) -> (r: String)
    ensures
        r@ == spec_format_logs(logs@),
{
    if logs.is_empty() {
        return String::from_str("No logs available.");
    }
    let mut s = String::from_str("```\n");
    s.append(logs);
    s.append("\n```");
    s
}

/// The normalizer is a function of the value alone: two renderings of the
/// same JSON value are the same text. This is what every verified caller of
/// format_value relies on across repeated calls.
pub proof fn lemma_format_value_deterministic(v: Json, r1: Seq<char>, r2: Seq<char>)
    requires
        r1 == spec_format_value(v),
        r2 == spec_format_value(v),
    ensures
        r1 == r2,
{
}

/// The normalizer never renders nothing for a null value, an empty array,
/// or any object, however deeply nested or unfamiliar its fields.
pub proof fn lemma_format_value_total(v: Json)
    requires
        v is Null || v is Obj || (v matches Json::Arr(items) && items@.len() == 0),
    ensures
        spec_format_value(v).len() > 0,
{
    reveal_strlit("No data returned.");
    reveal_strlit("No items found.");
    reveal_strlit("No displayable fields.");
}

} // verus!
