use vstd::prelude::*;

use crate::chars::joined;
use crate::chars::push_all;
use crate::discovery::same_text;

verus! {

/// A JSON value as the settings display reads it. Arrays and objects also
/// carry their compact JSON text, which is shown where they are nested too
/// deep to be laid out.
#[derive(Debug, PartialEq, Eq)]
pub enum JsonValue {
    Null,
    Bool(bool),
    /// A number, as its JSON text.
    Number(String),
    Text(String),
    /// The items, and the array's compact JSON text.
    Array(Vec<JsonValue>, String),
    /// The members in order, and the object's compact JSON text.
    Object(Vec<(String, JsonValue)>, String),
}

/// A settings file: its label, where it lies, and what it holds.
#[derive(Debug)]
pub struct SettingsFile {
    pub label: String,
    pub path: String,
    pub value: JsonValue,
}

/// The settings files found, in the order they are shown.
#[derive(Debug, Default)]
pub struct SettingsCollection {
    pub files: Vec<SettingsFile>,
}

/// The character sequences that a list of strings holds.
pub open spec fn texts(v: Seq<String>) -> Seq<Seq<char>> {
    v.map_values(|s: String| s@)
}

/// A value shown on its own: a string as it is, other scalars as JSON, and
/// arrays and objects as compact JSON.
pub open spec fn scalar_text(v: JsonValue) -> Seq<char> {
    match v {
        JsonValue::Null => "null"@,
        JsonValue::Bool(b) => if b {
            "true"@
        } else {
            "false"@
        },
        JsonValue::Number(n) => n@,
        JsonValue::Text(s) => s@,
        JsonValue::Array(_, compact) => compact@,
        JsonValue::Object(_, compact) => compact@,
    }
}

/// The parts joined with `sep` between each two of them.
pub open spec fn joined_with(parts: Seq<Seq<char>>, sep: Seq<char>) -> Seq<char>
    decreases parts.len(),
{
    if parts.len() == 0 {
        Seq::<char>::empty()
    } else if parts.len() == 1 {
        parts[0]
    } else {
        joined_with(parts.drop_last(), sep) + sep + parts.last()
    }
}

pub open spec fn scalar_texts(items: Seq<JsonValue>) -> Seq<Seq<char>> {
    items.map_values(|v: JsonValue| scalar_text(v))
}

/// A value shown inline: like `scalar_text`, but an array lists its items
/// between brackets, separated by commas.
pub open spec fn inline_text(v: JsonValue) -> Seq<char> {
    match v {
        JsonValue::Array(items, _) => "["@ + joined_with(scalar_texts(items@), ", "@) + "]"@,
        _ => scalar_text(v),
    }
}

/// The value of the first member named `key`.
pub open spec fn lookup(entries: Seq<(String, JsonValue)>, key: Seq<char>) -> Option<JsonValue>
    decreases entries.len(),
{
    if entries.len() == 0 {
        None
    } else if entries[0].0@ == key {
        Some(entries[0].1)
    } else {
        lookup(entries.drop_first(), key)
    }
}

/// The member `key` of an object; nothing for other values.
pub open spec fn member(v: JsonValue, key: Seq<char>) -> Option<JsonValue> {
    match v {
        JsonValue::Object(entries, _) => lookup(entries@, key),
        _ => None,
    }
}

proof fn lemma_lookup_from(entries: Seq<(String, JsonValue)>, key: Seq<char>, i: int)
    requires
        0 <= i <= entries.len(),
        forall|k: int| 0 <= k < i ==> (#[trigger] entries[k]).0@ != key,
    ensures
        lookup(entries, key) == lookup(entries.subrange(i, entries.len() as int), key),
    decreases i,
{
    if i > 0 {
        assert(entries.drop_first().subrange(i - 1, entries.drop_first().len() as int)
            =~= entries.subrange(i, entries.len() as int));
        lemma_lookup_from(entries.drop_first(), key, i - 1);
    } else {
        assert(entries.subrange(0, entries.len() as int) =~= entries);
    }
}

/// Finds the first member named `key`.
pub fn lookup_member<'a>(entries: &'a Vec<(String, JsonValue)>, key: &str) -> (r: Option<
    &'a JsonValue,
>)
    ensures
        match r {
            Some(v) => lookup(entries@, key@) == Some(*v),
            None => lookup(entries@, key@) is None,
        },
{
    let mut i: usize = 0;
    while i < entries.len()
        invariant
            i <= entries.len(),
            forall|k: int| 0 <= k < i ==> (#[trigger] entries@[k]).0@ != key@,
        decreases entries.len() - i,
    {
        if same_text(entries[i].0.as_str(), key) {
            proof {
                lemma_lookup_from(entries@, key@, i as int);
            }
            return Some(&entries[i].1);
        }
        i = i + 1;
    }
    proof {
        lemma_lookup_from(entries@, key@, i as int);
    }
    None
}

/// Finds the member `key` of an object.
pub fn get_member<'a>(v: &'a JsonValue, key: &str) -> (r: Option<&'a JsonValue>)
    ensures
        match r {
            Some(m) => member(*v, key@) == Some(*m),
            None => member(*v, key@) is None,
        },
{
    match v {
        JsonValue::Object(entries, _) => lookup_member(entries, key),
        _ => None,
    }
}

/// Shows a value on its own.
pub fn display_scalar(v: &JsonValue) -> (r: String)
    ensures
        r@ == scalar_text(*v),
{
    match v {
        JsonValue::Null => "null".to_string(),
        JsonValue::Bool(b) => if *b {
            "true".to_string()
        } else {
            "false".to_string()
        },
        JsonValue::Number(n) => n.clone(),
        JsonValue::Text(s) => s.clone(),
        JsonValue::Array(_, compact) => compact.clone(),
        JsonValue::Object(_, compact) => compact.clone(),
    }
}

/// The items shown on their own, joined with `sep`.
pub fn join_scalars(items: &Vec<JsonValue>, sep: &str) -> (r: String)
    ensures
        r@ == joined_with(scalar_texts(items@), sep@),
{
    let mut out = String::new();
    let mut i: usize = 0;
    proof {
        assert(scalar_texts(items@).take(0) =~= Seq::<Seq<char>>::empty());
    }
    while i < items.len()
        invariant
            i <= items.len(),
            out@ == joined_with(scalar_texts(items@).take(i as int), sep@),
        decreases items.len() - i,
    {
        let ghost before = out@;
        if i > 0 {
            push_all(&mut out, sep);
        }
        let text = display_scalar(&items[i]);
        push_all(&mut out, text.as_str());
        proof {
            let parts = scalar_texts(items@).take(i + 1);
            assert(parts.drop_last() =~= scalar_texts(items@).take(i as int));
            if i == 0 {
                assert(out@ =~= parts[0]);
            } else {
                assert(out@ =~= before + sep@ + parts.last());
            }
        }
        i = i + 1;
    }
    proof {
        assert(scalar_texts(items@).take(items.len() as int) =~= scalar_texts(items@));
    }
    out
}

/// Shows a value inline.
pub fn format_inline(v: &JsonValue) -> (r: String)
    ensures
        r@ == inline_text(*v),
{
    match v {
        JsonValue::Array(items, _) => {
            let mut out = String::new();
            push_all(&mut out, "[");
            let inner = join_scalars(items, ", ");
            push_all(&mut out, inner.as_str());
            push_all(&mut out, "]");
            out
        },
        _ => display_scalar(v),
    }
}

/// Each item on a line of its own, indented by four spaces.
pub open spec fn indented_scalars(items: Seq<JsonValue>) -> Seq<Seq<char>> {
    items.map_values(|v: JsonValue| "    "@ + scalar_text(v))
}

/// The permission categories that are listed item by item.
pub open spec fn is_category(k: Seq<char>) -> bool {
    k == "allow"@ || k == "ask"@ || k == "deny"@
}

/// A category that holds a non-empty list: a header, then its items.
pub open spec fn category_lines(entries: Seq<(String, JsonValue)>, category: Seq<char>) -> Seq<
    Seq<char>,
> {
    match lookup(entries, category) {
        Some(JsonValue::Array(items, _)) => if items@.len() > 0 {
            seq!["  Permissions ("@ + category + "):"@] + indented_scalars(items@)
        } else {
            Seq::<Seq<char>>::empty()
        },
        _ => Seq::<Seq<char>>::empty(),
    }
}

/// Every member that is not a category, inline.
pub open spec fn other_permission_lines(entries: Seq<(String, JsonValue)>) -> Seq<Seq<char>>
    decreases entries.len(),
{
    if entries.len() == 0 {
        Seq::<Seq<char>>::empty()
    } else {
        other_permission_lines(entries.drop_last()) + if is_category(entries.last().0@) {
            Seq::<Seq<char>>::empty()
        } else {
            seq!["  Permissions ("@ + entries.last().0@ + "): "@ + inline_text(entries.last().1)]
        }
    }
}

pub open spec fn permissions_lines(v: JsonValue) -> Seq<Seq<char>> {
    match v {
        JsonValue::Object(entries, _) => category_lines(entries@, "allow"@) + category_lines(
            entries@,
            "ask"@,
        ) + category_lines(entries@, "deny"@) + other_permission_lines(entries@),
        _ => seq!["  Permissions: "@ + inline_text(v)],
    }
}

/// The arguments of a server, shown on their own and joined by spaces.
pub open spec fn args_text(config: JsonValue) -> Seq<char> {
    match member(config, "args"@) {
        Some(JsonValue::Array(items, _)) => joined_with(scalar_texts(items@), " "@),
        _ => Seq::<char>::empty(),
    }
}

/// A server: its command and arguments when it names a command, else its
/// configuration inline.
pub open spec fn server_line(name: Seq<char>, config: JsonValue) -> Seq<char> {
    match member(config, "command"@) {
        Some(cmd) => if args_text(config).len() == 0 {
            "    "@ + name + ": "@ + scalar_text(cmd)
        } else {
            "    "@ + name + ": "@ + scalar_text(cmd) + " "@ + args_text(config)
        },
        None => "    "@ + name + ": "@ + inline_text(config),
    }
}

pub open spec fn mcp_servers_lines(v: JsonValue) -> Seq<Seq<char>> {
    match v {
        JsonValue::Object(entries, _) => seq!["  MCP Servers:"@] + entries@.map_values(
            |e: (String, JsonValue)| server_line(e.0@, e.1),
        ),
        _ => seq!["  MCP Servers: "@ + inline_text(v)],
    }
}

/// A hook: its command when it names one, else the hook inline.
pub open spec fn hook_command(h: JsonValue) -> Seq<char> {
    match member(h, "command"@) {
        Some(c) => scalar_text(c),
        None => inline_text(h),
    }
}

/// An event: one line per hook of a list, else its configuration inline.
pub open spec fn event_lines(event: Seq<char>, config: JsonValue) -> Seq<Seq<char>> {
    match config {
        JsonValue::Array(hooks, _) => hooks@.map_values(
            |h: JsonValue| "    "@ + event + ": "@ + hook_command(h),
        ),
        _ => seq!["    "@ + event + ": "@ + inline_text(config)],
    }
}

pub open spec fn all_event_lines(entries: Seq<(String, JsonValue)>) -> Seq<Seq<char>>
    decreases entries.len(),
{
    if entries.len() == 0 {
        Seq::<Seq<char>>::empty()
    } else {
        all_event_lines(entries.drop_last()) + event_lines(entries.last().0@, entries.last().1)
    }
}

pub open spec fn hooks_lines(v: JsonValue) -> Seq<Seq<char>> {
    match v {
        JsonValue::Object(entries, _) => seq!["  Hooks:"@] + all_event_lines(entries@),
        _ => seq!["  Hooks: "@ + inline_text(v)],
    }
}

pub open spec fn plugins_lines(v: JsonValue) -> Seq<Seq<char>> {
    match v {
        JsonValue::Array(items, _) => seq!["  Plugins:"@] + indented_scalars(items@),
        _ => seq!["  Plugins: "@ + inline_text(v)],
    }
}

pub open spec fn env_lines(v: JsonValue) -> Seq<Seq<char>> {
    match v {
        JsonValue::Object(entries, _) => seq!["  Env:"@] + entries@.map_values(
            |e: (String, JsonValue)| "    "@ + e.0@ + "="@ + scalar_text(e.1),
        ),
        _ => seq!["  Env: "@ + inline_text(v)],
    }
}

/// Appends a line.
fn push_line(lines: &mut Vec<String>, line: String)
    ensures
        texts(final(lines)@) == texts(old(lines)@).push(line@),
{
    lines.push(line);
    proof {
        assert(texts(lines@) =~= texts(old(lines)@).push(line@));
    }
}

/// Appends `prefix` followed by `text` as a line.
fn push_labelled(lines: &mut Vec<String>, prefix: &str, text: &str)
    ensures
        texts(final(lines)@) == texts(old(lines)@).push(prefix@ + text@),
{
    let line = joined(prefix, text);
    push_line(lines, line);
}

/// Appends each item on a line of its own, indented by four spaces.
fn push_indented_scalars(items: &Vec<JsonValue>, lines: &mut Vec<String>)
    ensures
        texts(final(lines)@) == texts(old(lines)@) + indented_scalars(items@),
{
    let mut i: usize = 0;
    proof {
        assert(texts(lines@) =~= texts(old(lines)@) + indented_scalars(items@.take(0)));
    }
    while i < items.len()
        invariant
            i <= items.len(),
            texts(lines@) == texts(old(lines)@) + indented_scalars(items@.take(i as int)),
        decreases items.len() - i,
    {
        let text = display_scalar(&items[i]);
        push_labelled(lines, "    ", text.as_str());
        proof {
            assert(indented_scalars(items@.take(i + 1)) =~= indented_scalars(items@.take(i as int)).push(
                "    "@ + scalar_text(items@[i as int]),
            ));
            assert(texts(lines@) =~= texts(old(lines)@) + indented_scalars(items@.take(i + 1)));
        }
        i = i + 1;
    }
    proof {
        assert(items@.take(items.len() as int) =~= items@);
    }
}

fn is_category_name(k: &str) -> (r: bool)
    ensures
        r == is_category(k@),
{
    same_text(k, "allow") || same_text(k, "ask") || same_text(k, "deny")
}

fn push_category(entries: &Vec<(String, JsonValue)>, category: &str, lines: &mut Vec<String>)
    ensures
        texts(final(lines)@) == texts(old(lines)@) + category_lines(entries@, category@),
{
    if let Some(JsonValue::Array(items, _)) = lookup_member(entries, category) {
        if items.len() > 0 {
            let mut head = joined("  Permissions (", category);
            push_all(&mut head, "):");
            push_line(lines, head);
            push_indented_scalars(items, lines);
            proof {
                assert(texts(lines@) =~= texts(old(lines)@) + category_lines(entries@, category@));
            }
        } else {
            proof {
                assert(texts(lines@) =~= texts(old(lines)@) + category_lines(entries@, category@));
            }
        }
    } else {
        proof {
            assert(texts(lines@) =~= texts(old(lines)@) + category_lines(entries@, category@));
        }
    }
}

/// Lists permissions: the allow, ask and deny lists item by item, then every
/// other member inline.
pub fn format_permissions(val: &JsonValue, lines: &mut Vec<String>)
    ensures
        texts(final(lines)@) == texts(old(lines)@) + permissions_lines(*val),
{
    let entries = match val {
        JsonValue::Object(entries, _) => entries,
        _ => {
            let text = format_inline(val);
            push_labelled(lines, "  Permissions: ", text.as_str());
            proof {
                assert(texts(lines@) =~= texts(old(lines)@) + permissions_lines(*val));
            }
            return;
        },
    };
    push_category(entries, "allow", lines);
    push_category(entries, "ask", lines);
    push_category(entries, "deny", lines);
    let ghost head = texts(lines@);
    let mut i: usize = 0;
    proof {
        assert(entries@.take(0) =~= Seq::<(String, JsonValue)>::empty());
        assert(texts(lines@) =~= head + other_permission_lines(entries@.take(0)));
    }
    while i < entries.len()
        invariant
            i <= entries.len(),
            texts(lines@) == head + other_permission_lines(entries@.take(i as int)),
        decreases entries.len() - i,
    {
        let key = &entries[i].0;
        proof {
            assert(entries@.take(i + 1).drop_last() =~= entries@.take(i as int));
        }
        if !is_category_name(key.as_str()) {
            let mut line = joined("  Permissions (", key.as_str());
            push_all(&mut line, "): ");
            let text = format_inline(&entries[i].1);
            push_all(&mut line, text.as_str());
            push_line(lines, line);
        }
        proof {
            assert(texts(lines@) =~= head + other_permission_lines(entries@.take(i + 1)));
        }
        i = i + 1;
    }
    proof {
        assert(entries@.take(entries.len() as int) =~= entries@);
        assert(texts(lines@) =~= texts(old(lines)@) + permissions_lines(*val));
    }
}

/// The line for one server.
pub fn server_text(name: &str, config: &JsonValue) -> (r: String)
    ensures
        r@ == server_line(name@, *config),
{
    let mut line = joined("    ", name);
    push_all(&mut line, ": ");
    match get_member(config, "command") {
        Some(cmd) => {
            let args = match get_member(config, "args") {
                Some(JsonValue::Array(items, _)) => join_scalars(items, " "),
                _ => String::new(),
            };
            let cmd_text = display_scalar(cmd);
            push_all(&mut line, cmd_text.as_str());
            if args.unicode_len() > 0 {
                push_all(&mut line, " ");
                push_all(&mut line, args.as_str());
            }
        },
        None => {
            let text = format_inline(config);
            push_all(&mut line, text.as_str());
        },
    }
    line
}

/// Lists the MCP servers, one line each.
pub fn format_mcp_servers(val: &JsonValue, lines: &mut Vec<String>)
    ensures
        texts(final(lines)@) == texts(old(lines)@) + mcp_servers_lines(*val),
{
    let entries = match val {
        JsonValue::Object(entries, _) => entries,
        _ => {
            let text = format_inline(val);
            push_labelled(lines, "  MCP Servers: ", text.as_str());
            proof {
                assert(texts(lines@) =~= texts(old(lines)@) + mcp_servers_lines(*val));
            }
            return;
        },
    };
    push_line(lines, "  MCP Servers:".to_string());
    let ghost head = texts(lines@);
    let ghost f = |e: (String, JsonValue)| server_line(e.0@, e.1);
    let mut i: usize = 0;
    proof {
        assert(texts(lines@) =~= head + entries@.take(0).map_values(f));
    }
    while i < entries.len()
        invariant
            i <= entries.len(),
            f == (|e: (String, JsonValue)| server_line(e.0@, e.1)),
            texts(lines@) == head + entries@.take(i as int).map_values(f),
        decreases entries.len() - i,
    {
        let line = server_text(entries[i].0.as_str(), &entries[i].1);
        push_line(lines, line);
        proof {
            assert(entries@.take(i + 1).map_values(f) =~= entries@.take(i as int).map_values(
                f,
            ).push(f(entries@[i as int])));
            assert(texts(lines@) =~= head + entries@.take(i + 1).map_values(f));
        }
        i = i + 1;
    }
    proof {
        assert(entries@.take(entries.len() as int) =~= entries@);
        assert(texts(lines@) =~= texts(old(lines)@) + mcp_servers_lines(*val));
    }
}

/// The lines for one hook event.
fn push_event(event: &str, config: &JsonValue, lines: &mut Vec<String>)
    ensures
        texts(final(lines)@) == texts(old(lines)@) + event_lines(event@, *config),
{
    let mut prefix = joined("    ", event);
    push_all(&mut prefix, ": ");
    match config {
        JsonValue::Array(hooks, _) => {
            let ghost f = |h: JsonValue| "    "@ + event@ + ": "@ + hook_command(h);
            let mut i: usize = 0;
            proof {
                assert(texts(lines@) =~= texts(old(lines)@) + hooks@.take(0).map_values(f));
            }
            while i < hooks.len()
                invariant
                    i <= hooks.len(),
                    prefix@ == "    "@ + event@ + ": "@,
                    f == (|h: JsonValue| "    "@ + event@ + ": "@ + hook_command(h)),
                    texts(lines@) == texts(old(lines)@) + hooks@.take(i as int).map_values(f),
                decreases hooks.len() - i,
            {
                let hook = &hooks[i];
                let cmd = match get_member(hook, "command") {
                    Some(c) => display_scalar(c),
                    None => format_inline(hook),
                };
                push_labelled(lines, prefix.as_str(), cmd.as_str());
                proof {
                    assert(hooks@.take(i + 1).map_values(f) =~= hooks@.take(i as int).map_values(
                        f,
                    ).push(f(hooks@[i as int])));
                    assert(texts(lines@) =~= texts(old(lines)@) + hooks@.take(i + 1).map_values(f));
                }
                i = i + 1;
            }
            proof {
                assert(hooks@.take(hooks.len() as int) =~= hooks@);
            }
        },
        _ => {
            let text = format_inline(config);
            push_labelled(lines, prefix.as_str(), text.as_str());
            proof {
                assert(texts(lines@) =~= texts(old(lines)@) + event_lines(event@, *config));
            }
        },
    }
}

/// Lists the hooks: one line per hook of each event.
pub fn format_hooks(val: &JsonValue, lines: &mut Vec<String>)
    ensures
        texts(final(lines)@) == texts(old(lines)@) + hooks_lines(*val),
{
    let entries = match val {
        JsonValue::Object(entries, _) => entries,
        _ => {
            let text = format_inline(val);
            push_labelled(lines, "  Hooks: ", text.as_str());
            proof {
                assert(texts(lines@) =~= texts(old(lines)@) + hooks_lines(*val));
            }
            return;
        },
    };
    push_line(lines, "  Hooks:".to_string());
    let ghost head = texts(lines@);
    let mut i: usize = 0;
    proof {
        assert(entries@.take(0) =~= Seq::<(String, JsonValue)>::empty());
        assert(texts(lines@) =~= head + all_event_lines(entries@.take(0)));
    }
    while i < entries.len()
        invariant
            i <= entries.len(),
            texts(lines@) == head + all_event_lines(entries@.take(i as int)),
        decreases entries.len() - i,
    {
        proof {
            assert(entries@.take(i + 1).drop_last() =~= entries@.take(i as int));
        }
        push_event(entries[i].0.as_str(), &entries[i].1, lines);
        proof {
            assert(texts(lines@) =~= head + all_event_lines(entries@.take(i + 1)));
        }
        i = i + 1;
    }
    proof {
        assert(entries@.take(entries.len() as int) =~= entries@);
        assert(texts(lines@) =~= texts(old(lines)@) + hooks_lines(*val));
    }
}

/// Lists the plugins, one per line.
pub fn format_plugins(val: &JsonValue, lines: &mut Vec<String>)
    ensures
        texts(final(lines)@) == texts(old(lines)@) + plugins_lines(*val),
{
    match val {
        JsonValue::Array(items, _) => {
            push_line(lines, "  Plugins:".to_string());
            push_indented_scalars(items, lines);
        },
        _ => {
            let text = format_inline(val);
            push_labelled(lines, "  Plugins: ", text.as_str());
        },
    }
    proof {
        assert(texts(lines@) =~= texts(old(lines)@) + plugins_lines(*val));
    }
}

/// Lists the environment variables as `name=value`.
pub fn format_env(val: &JsonValue, lines: &mut Vec<String>)
    ensures
        texts(final(lines)@) == texts(old(lines)@) + env_lines(*val),
{
    let entries = match val {
        JsonValue::Object(entries, _) => entries,
        _ => {
            let text = format_inline(val);
            push_labelled(lines, "  Env: ", text.as_str());
            proof {
                assert(texts(lines@) =~= texts(old(lines)@) + env_lines(*val));
            }
            return;
        },
    };
    push_line(lines, "  Env:".to_string());
    let ghost head = texts(lines@);
    let ghost f = |e: (String, JsonValue)| "    "@ + e.0@ + "="@ + scalar_text(e.1);
    let mut i: usize = 0;
    proof {
        assert(texts(lines@) =~= head + entries@.take(0).map_values(f));
    }
    while i < entries.len()
        invariant
            i <= entries.len(),
            f == (|e: (String, JsonValue)| "    "@ + e.0@ + "="@ + scalar_text(e.1)),
            texts(lines@) == head + entries@.take(i as int).map_values(f),
        decreases entries.len() - i,
    {
        let mut line = joined("    ", entries[i].0.as_str());
        push_all(&mut line, "=");
        let text = display_scalar(&entries[i].1);
        push_all(&mut line, text.as_str());
        push_line(lines, line);
        proof {
            assert(entries@.take(i + 1).map_values(f) =~= entries@.take(i as int).map_values(
                f,
            ).push(f(entries@[i as int])));
            assert(texts(lines@) =~= head + entries@.take(i + 1).map_values(f));
        }
        i = i + 1;
    }
    proof {
        assert(entries@.take(entries.len() as int) =~= entries@);
        assert(texts(lines@) =~= texts(old(lines)@) + env_lines(*val));
    }
}

/// The lines for one setting: the known keys each in their own way, any
/// other key inline.
pub open spec fn key_value_lines(key: Seq<char>, v: JsonValue) -> Seq<Seq<char>> {
    if key == "model"@ {
        seq!["  Model: "@ + scalar_text(v)]
    } else if key == "defaultMode"@ {
        seq!["  Default Mode: "@ + scalar_text(v)]
    } else if key == "thinking"@ {
        seq!["  Thinking: "@ + scalar_text(v)]
    } else if key == "permissions"@ {
        permissions_lines(v)
    } else if key == "mcpServers"@ {
        mcp_servers_lines(v)
    } else if key == "hooks"@ {
        hooks_lines(v)
    } else if key == "plugins"@ {
        plugins_lines(v)
    } else if key == "env"@ {
        env_lines(v)
    } else {
        seq!["  "@ + key + ": "@ + inline_text(v)]
    }
}

pub fn format_key_value(key: &str, val: &JsonValue, lines: &mut Vec<String>)
    ensures
        texts(final(lines)@) == texts(old(lines)@) + key_value_lines(key@, *val),
{
    if same_text(key, "model") {
        let text = display_scalar(val);
        push_labelled(lines, "  Model: ", text.as_str());
    } else if same_text(key, "defaultMode") {
        let text = display_scalar(val);
        push_labelled(lines, "  Default Mode: ", text.as_str());
    } else if same_text(key, "thinking") {
        let text = display_scalar(val);
        push_labelled(lines, "  Thinking: ", text.as_str());
    } else if same_text(key, "permissions") {
        format_permissions(val, lines);
    } else if same_text(key, "mcpServers") {
        format_mcp_servers(val, lines);
    } else if same_text(key, "hooks") {
        format_hooks(val, lines);
    } else if same_text(key, "plugins") {
        format_plugins(val, lines);
    } else if same_text(key, "env") {
        format_env(val, lines);
    } else {
        let mut line = joined("  ", key);
        push_all(&mut line, ": ");
        let text = format_inline(val);
        push_all(&mut line, text.as_str());
        push_line(lines, line);
    }
    proof {
        assert(texts(lines@) =~= texts(old(lines)@) + key_value_lines(key@, *val));
    }
}

/// The keys shown first, in this order.
pub open spec fn ordered_keys() -> Seq<Seq<char>> {
    seq![
        "model"@,
        "defaultMode"@,
        "thinking"@,
        "permissions"@,
        "mcpServers"@,
        "hooks"@,
        "plugins"@,
        "env"@,
    ]
}

/// The settings of the keys in `keys` that the object has, in that order.
pub open spec fn ordered_lines(entries: Seq<(String, JsonValue)>, keys: Seq<Seq<char>>) -> Seq<
    Seq<char>,
>
    decreases keys.len(),
{
    if keys.len() == 0 {
        Seq::<Seq<char>>::empty()
    } else {
        ordered_lines(entries, keys.drop_last()) + match lookup(entries, keys.last()) {
            Some(v) => key_value_lines(keys.last(), v),
            None => Seq::<Seq<char>>::empty(),
        }
    }
}

/// The settings of every other member, in the object's order.
pub open spec fn rest_lines(entries: Seq<(String, JsonValue)>) -> Seq<Seq<char>>
    decreases entries.len(),
{
    if entries.len() == 0 {
        Seq::<Seq<char>>::empty()
    } else {
        rest_lines(entries.drop_last()) + if ordered_keys().contains(entries.last().0@) {
            Seq::<Seq<char>>::empty()
        } else {
            key_value_lines(entries.last().0@, entries.last().1)
        }
    }
}

/// A file's settings: a string (what stands for a file that did not parse)
/// as it is, an object key by key, anything else as a note.
pub open spec fn body_lines(v: JsonValue) -> Seq<Seq<char>> {
    match v {
        JsonValue::Text(s) => seq!["  "@ + s@],
        JsonValue::Object(entries, _) => ordered_lines(entries@, ordered_keys()) + rest_lines(
            entries@,
        ),
        _ => seq!["  (not a JSON object)"@],
    }
}

pub open spec fn file_block(f: SettingsFile) -> Seq<Seq<char>> {
    seq!["\u{25be} "@ + f.label@ + " ("@ + f.path@ + ")"@] + body_lines(f.value)
}

/// Every file's block, with an empty line between each two.
pub open spec fn settings_lines(files: Seq<SettingsFile>) -> Seq<Seq<char>>
    decreases files.len(),
{
    if files.len() == 0 {
        Seq::<Seq<char>>::empty()
    } else {
        settings_lines(files.drop_last()) + (if files.len() > 1 {
            seq![Seq::<char>::empty()]
        } else {
            Seq::<Seq<char>>::empty()
        }) + file_block(files.last())
    }
}

fn is_ordered_key(key: &str) -> (r: bool)
    ensures
        r == ordered_keys().contains(key@),
{
    let keys = ["model", "defaultMode", "thinking", "permissions", "mcpServers", "hooks", "plugins", "env"];
    let mut i: usize = 0;
    while i < keys.len()
        invariant
            i <= keys.len(),
            keys@.len() == ordered_keys().len(),
            forall|k: int| 0 <= k < keys@.len() ==> (#[trigger] keys@[k])@ == ordered_keys()[k],
            forall|k: int| 0 <= k < i ==> ordered_keys()[k] != key@,
        decreases keys.len() - i,
    {
        if same_text(keys[i], key) {
            return true;
        }
        i = i + 1;
    }
    false
}

fn push_body(v: &JsonValue, lines: &mut Vec<String>)
    ensures
        texts(final(lines)@) == texts(old(lines)@) + body_lines(*v),
{
    let entries = match v {
        JsonValue::Text(s) => {
            push_labelled(lines, "  ", s.as_str());
            proof {
                assert(texts(lines@) =~= texts(old(lines)@) + body_lines(*v));
            }
            return;
        },
        JsonValue::Object(entries, _) => entries,
        _ => {
            push_line(lines, "  (not a JSON object)".to_string());
            proof {
                assert(texts(lines@) =~= texts(old(lines)@) + body_lines(*v));
            }
            return;
        },
    };
    let keys = ["model", "defaultMode", "thinking", "permissions", "mcpServers", "hooks", "plugins", "env"];
    let mut k: usize = 0;
    proof {
        assert(ordered_keys().take(0) =~= Seq::<Seq<char>>::empty());
        assert(texts(lines@) =~= texts(old(lines)@) + ordered_lines(entries@, ordered_keys().take(0)));
    }
    while k < keys.len()
        invariant
            k <= keys.len(),
            keys@.len() == ordered_keys().len(),
            forall|j: int| 0 <= j < keys@.len() ==> (#[trigger] keys@[j])@ == ordered_keys()[j],
            texts(lines@) == texts(old(lines)@) + ordered_lines(
                entries@,
                ordered_keys().take(k as int),
            ),
        decreases keys.len() - k,
    {
        let key = keys[k];
        proof {
            assert(ordered_keys().take(k + 1).drop_last() =~= ordered_keys().take(k as int));
        }
        if let Some(val) = lookup_member(entries, key) {
            format_key_value(key, val, lines);
        }
        proof {
            assert(texts(lines@) =~= texts(old(lines)@) + ordered_lines(
                entries@,
                ordered_keys().take(k + 1),
            ));
        }
        k = k + 1;
    }
    proof {
        assert(ordered_keys().take(keys.len() as int) =~= ordered_keys());
    }
    let ghost head = texts(lines@);
    let mut i: usize = 0;
    proof {
        assert(entries@.take(0) =~= Seq::<(String, JsonValue)>::empty());
        assert(texts(lines@) =~= head + rest_lines(entries@.take(0)));
    }
    while i < entries.len()
        invariant
            i <= entries.len(),
            texts(lines@) == head + rest_lines(entries@.take(i as int)),
        decreases entries.len() - i,
    {
        proof {
            assert(entries@.take(i + 1).drop_last() =~= entries@.take(i as int));
        }
        if !is_ordered_key(entries[i].0.as_str()) {
            format_key_value(entries[i].0.as_str(), &entries[i].1, lines);
        }
        proof {
            assert(texts(lines@) =~= head + rest_lines(entries@.take(i + 1)));
        }
        i = i + 1;
    }
    proof {
        assert(entries@.take(entries.len() as int) =~= entries@);
        assert(texts(lines@) =~= texts(old(lines)@) + body_lines(*v));
    }
}

/// The display lines of the settings files: for each, a header with its
/// label and path and then its settings, with an empty line between files.
pub fn format_settings(collection: &SettingsCollection) -> (r: Vec<String>)
    ensures
        texts(r@) == settings_lines(collection.files@),
{
    let mut lines: Vec<String> = Vec::new();
    let files = &collection.files;
    let mut i: usize = 0;
    proof {
        assert(files@.take(0) =~= Seq::<SettingsFile>::empty());
        assert(texts(lines@) =~= settings_lines(files@.take(0)));
    }
    while i < files.len()
        invariant
            i <= files.len(),
            texts(lines@) == settings_lines(files@.take(i as int)),
        decreases files.len() - i,
    {
        let ghost before = texts(lines@);
        proof {
            assert(files@.take(i + 1).drop_last() =~= files@.take(i as int));
        }
        if i > 0 {
            push_line(&mut lines, String::new());
        }
        let file = &files[i];
        let mut header = joined("\u{25be} ", file.label.as_str());
        push_all(&mut header, " (");
        push_all(&mut header, file.path.as_str());
        push_all(&mut header, ")");
        push_line(&mut lines, header);
        push_body(&file.value, &mut lines);
        proof {
            assert(texts(lines@) =~= settings_lines(files@.take(i + 1)));
        }
        i = i + 1;
    }
    proof {
        assert(files@.take(files.len() as int) =~= files@);
    }
    lines
}

/// A settings file as it is shown: what it holds when it parsed, else a note
/// that it is not valid JSON.
pub fn settings_file(label: &str, path: &str, parsed: Option<JsonValue>) -> (r: SettingsFile)
    ensures
        r.label@ == label@,
        r.path@ == path@,
        parsed matches Some(v) ==> r.value == v,
        parsed is None ==> (r.value matches JsonValue::Text(t) && t@ == "(invalid JSON: "@
            + path@ + ")"@),
{
    let value = match parsed {
        Some(v) => v,
        None => {
            let mut note = joined("(invalid JSON: ", path);
            push_all(&mut note, ")");
            JsonValue::Text(note)
        },
    };
    SettingsFile { label: label.to_string(), path: path.to_string(), value }
}

} // verus!
