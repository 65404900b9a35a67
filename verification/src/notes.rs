//! What an event tells about the work that a session is doing: the text of a
//! message, and notes on tool calls, searches and reasoning.

use vstd::prelude::*;

use crate::json::{parse_json, Json};
#[allow(unused_imports)]
use crate::json::{items_view, json_of_text, lemma_items_view, JsonView};
use crate::snippet::{format_reasoning_note, format_snippet, SUMMARY_MAX_CHARS};
#[allow(unused_imports)]
use crate::snippet::{reasoning_note, snippet};
use crate::text::{append_chars, chars_of, join_two, string_of, trim_chars, CharClass};
#[allow(unused_imports)]
use crate::text::{join, opt_text, trim};

verus! {

/// The rendering of `text` as a summary or a note.
pub open spec fn summary_line(text: Seq<char>) -> Option<Seq<char>> {
    snippet(text, SUMMARY_MAX_CHARS as nat)
}

/// The rendering of an optional text.
pub open spec fn summary_line_of(text: Option<Seq<char>>) -> Option<Seq<char>> {
    match text {
        Some(t) => summary_line(t),
        None => None,
    }
}

/// The texts of the entries that have one which is not blank, trimmed.
pub open spec fn entry_texts(entries: Seq<JsonView>) -> Seq<Seq<char>>
    decreases entries.len(),
{
    if entries.len() == 0 {
        seq![]
    } else {
        let before = entry_texts(entries.drop_last());
        match entries.last().text_at("text"@) {
            Some(text) => if trim(text).len() > 0 {
                before.push(trim(text))
            } else {
                before
            },
            None => before,
        }
    }
}

/// The text of a message: its content, or the texts of the entries of its
/// content, joined by spaces.
pub open spec fn message_text(payload: JsonView) -> Option<Seq<char>> {
    match payload.get("content"@) {
        Some(content) => match content.items() {
            Some(entries) => if entry_texts(entries).len() == 0 {
                None
            } else {
                Some(join(entry_texts(entries)))
            },
            None => content.text(),
        },
        None => None,
    }
}

/// The rendering of the first of the members `command`, `query`, `path`,
/// `input` and `code` that is a string.
pub open spec fn detail_in(parsed: JsonView) -> Option<Seq<char>> {
    if parsed.text_at("command"@) is Some {
        summary_line_of(parsed.text_at("command"@))
    } else if parsed.text_at("query"@) is Some {
        summary_line_of(parsed.text_at("query"@))
    } else if parsed.text_at("path"@) is Some {
        summary_line_of(parsed.text_at("path"@))
    } else if parsed.text_at("input"@) is Some {
        summary_line_of(parsed.text_at("input"@))
    } else {
        summary_line_of(parsed.text_at("code"@))
    }
}

/// What the arguments of a tool call tell, given what they are as JSON: a
/// detail from it, or their own rendering where they are not JSON.
pub open spec fn detail_of_arguments(args: Seq<char>, parsed: Option<JsonView>) -> Option<
    Seq<char>,
> {
    match parsed {
        Some(value) => detail_in(value),
        None => summary_line(args),
    }
}

/// What a tool call tells beyond its name.
pub open spec fn tool_detail(payload: JsonView) -> Option<Seq<char>> {
    match payload.text_at("arguments"@) {
        Some(args) => detail_of_arguments(args, json_of_text(args)),
        None => summary_line_of(payload.text_at("input"@)),
    }
}

/// The note for a call of the tool `name`.
pub open spec fn tool_note_text(name: Seq<char>, detail: Option<Seq<char>>) -> Seq<char> {
    match detail {
        Some(d) => "tool: "@ + name + " ("@ + d + ")"@,
        None => "tool: "@ + name,
    }
}

/// The note for the tool call in `payload`; none where it has no name.
pub open spec fn tool_call_note_in(payload: JsonView) -> Option<Seq<char>> {
    match payload.text_at("name"@) {
        Some(name) => Some(tool_note_text(name, tool_detail(payload))),
        None => None,
    }
}

/// The note for the web search in `payload`.
pub open spec fn web_search_note_in(payload: JsonView) -> Seq<char> {
    match summary_line_of(payload.text_at2("action"@, "query"@)) {
        Some(line) => "web_search: "@ + line,
        None => "web_search"@,
    }
}

/// The rendering of one entry of a reasoning summary: of its text, or of the
/// entry itself where that is a string.
pub open spec fn summary_entry_line(entry: JsonView) -> Option<Seq<char>> {
    match summary_line_of(entry.text_at("text"@)) {
        Some(line) => Some(line),
        None => summary_line_of(entry.text()),
    }
}

/// The first rendering that an entry of a reasoning summary has.
pub open spec fn first_summary_line(entries: Seq<JsonView>) -> Option<Seq<char>>
    decreases entries.len(),
{
    if entries.len() == 0 {
        None
    } else {
        match summary_entry_line(entries[0]) {
            Some(line) => Some(line),
            None => first_summary_line(entries.skip(1)),
        }
    }
}

/// The first rendering that the text of an entry has.
pub open spec fn first_content_line(entries: Seq<JsonView>) -> Option<Seq<char>>
    decreases entries.len(),
{
    if entries.len() == 0 {
        None
    } else {
        match summary_line_of(entries[0].text_at("text"@)) {
            Some(line) => Some(line),
            None => first_content_line(entries.skip(1)),
        }
    }
}

/// The line that stands for the reasoning in `payload`: from its summary, or
/// else from its content.
pub open spec fn reasoning_line(payload: JsonView) -> Option<Seq<char>> {
    let from_summary = match payload.items_at("summary"@) {
        Some(entries) => first_summary_line(entries),
        None => None,
    };
    let from_content = match payload.items_at("content"@) {
        Some(entries) => first_content_line(entries),
        None => None,
    };
    match from_summary {
        Some(line) => Some(line),
        None => from_content,
    }
}

/// The note for the reasoning in `payload`.
pub open spec fn reasoning_note_in(payload: JsonView) -> Option<Seq<char>> {
    match reasoning_line(payload) {
        Some(line) => Some(reasoning_note(line)),
        None => None,
    }
}

/// The rendering of an optional text.
fn format_optional(text: Option<&str>) -> (line: Option<String>)
    ensures
        opt_text(line) == summary_line_of(
            match text {
                Some(t) => Some(t@),
                None => None,
            },
        ),
{
    match text {
        Some(t) => format_snippet(t, SUMMARY_MAX_CHARS),
        None => None,
    }
}

/// The text of a message: its content, or the texts of the entries of its
/// content, joined by spaces.
pub fn extract_message_text(payload: &Json) -> (text: Option<String>)
    ensures
        opt_text(text) == message_text(payload@),
{
    let content: &Json = match payload.get("content") {
        Some(content) => content,
        None => return None,
    };
    let entries: &Vec<Json> = match content.as_array() {
        Some(entries) => entries,
        None => return match content.as_str() {
            Some(text) => Some(text.to_owned()),
            None => None,
        },
    };
    let ghost views = items_view(entries@);
    proof {
        lemma_items_view(entries@);
    }
    let mut acc: Vec<char> = Vec::new();
    let mut blank: bool = true;
    let mut i: usize = 0;
    while i < entries.len()
        invariant
            i <= entries@.len(),
            views == items_view(entries@),
            views.len() == entries@.len(),
            forall|k: int| 0 <= k < entries@.len() ==> #[trigger] views[k] == entries@[k]@,
            acc@ == join(entry_texts(views.take(i as int))),
            blank == (entry_texts(views.take(i as int)).len() == 0),
        decreases entries.len() - i,
    {
        let ghost before = entry_texts(views.take(i as int));
        assert(views.take(i + 1).drop_last() == views.take(i as int));
        assert(views.take(i + 1).last() == views[i as int]);
        if let Some(text) = entries[i].str_at("text") {
            let trimmed: Vec<char> = trim_chars(&chars_of(text), CharClass::WhiteSpace);
            if trimmed.len() > 0 {
                if !blank {
                    acc.push(' ');
                }
                append_chars(&mut acc, &trimmed);
                assert(before.push(trimmed@).drop_last() == before);
                assert(acc@ =~= join(before.push(trimmed@)));
                blank = false;
            }
        }
        i = i + 1;
    }
    assert(views.take(views.len() as int) == views);
    if blank {
        None
    } else {
        Some(string_of(&acc))
    }
}

/// What the arguments of a tool call tell, given what they are as JSON.
pub fn argument_detail(args: &str, parsed: &Option<Json>) -> (detail: Option<String>)
    ensures
        opt_text(detail) == detail_of_arguments(
            args@,
            match parsed {
                Some(value) => Some(value@),
                None => None,
            },
        ),
{
    match parsed {
        Some(value) => {
            if let Some(command) = value.str_at("command") {
                format_snippet(command, SUMMARY_MAX_CHARS)
            } else if let Some(query) = value.str_at("query") {
                format_snippet(query, SUMMARY_MAX_CHARS)
            } else if let Some(path) = value.str_at("path") {
                format_snippet(path, SUMMARY_MAX_CHARS)
            } else if let Some(input) = value.str_at("input") {
                format_snippet(input, SUMMARY_MAX_CHARS)
            } else {
                format_optional(value.str_at("code"))
            }
        },
        None => format_snippet(args, SUMMARY_MAX_CHARS),
    }
}

/// The note for a call of the tool `name`.
pub fn tool_note(name: &str, detail: &Option<String>) -> (note: String)
    ensures
        note@ == tool_note_text(name@, opt_text(*detail)),
{
    let head: String = join_two("tool: ", name);
    match detail {
        Some(d) => {
            let open: String = join_two(head.as_str(), " (");
            let inner: String = join_two(open.as_str(), d.as_str());
            join_two(inner.as_str(), ")")
        },
        None => head,
    }
}

/// The note for the tool call in `payload`; none where it has no name.
pub fn tool_call_note(payload: &Json) -> (note: Option<String>)
    ensures
        opt_text(note) == tool_call_note_in(payload@),
{
    let name: &str = match payload.str_at("name") {
        Some(name) => name,
        None => return None,
    };
    let detail: Option<String> = match payload.str_at("arguments") {
        Some(args) => argument_detail(args, &parse_json(args)),
        None => format_optional(payload.str_at("input")),
    };
    Some(tool_note(name, &detail))
}

/// The note for the web search in `payload`.
pub fn web_search_note(payload: &Json) -> (note: Option<String>)
    ensures
        opt_text(note) == Some(web_search_note_in(payload@)),
{
    match format_optional(payload.str_at2("action", "query")) {
        Some(line) => Some(join_two("web_search: ", line.as_str())),
        None => Some("web_search".to_owned()),
    }
}

/// The first rendering that an entry of a reasoning summary has.
fn find_summary_line(entries: &Vec<Json>) -> (line: Option<String>)
    ensures
        opt_text(line) == first_summary_line(items_view(entries@)),
{
    let ghost views = items_view(entries@);
    proof {
        lemma_items_view(entries@);
        assert(views.skip(0) == views);
    }
    let mut i: usize = 0;
    while i < entries.len()
        invariant
            i <= entries@.len(),
            views == items_view(entries@),
            views.len() == entries@.len(),
            forall|k: int| 0 <= k < entries@.len() ==> #[trigger] views[k] == entries@[k]@,
            first_summary_line(views) == first_summary_line(views.skip(i as int)),
        decreases entries.len() - i,
    {
        assert(views.skip(i as int)[0] == views[i as int]);
        assert(views.skip(i as int).skip(1) == views.skip(i + 1));
        let line: Option<String> = format_optional(entries[i].str_at("text"));
        if line.is_some() {
            return line;
        }
        let whole: Option<String> = format_optional(entries[i].as_str());
        if whole.is_some() {
            return whole;
        }
        i = i + 1;
    }
    None
}

/// The first rendering that the text of an entry has.
fn find_content_line(entries: &Vec<Json>) -> (line: Option<String>)
    ensures
        opt_text(line) == first_content_line(items_view(entries@)),
{
    let ghost views = items_view(entries@);
    proof {
        lemma_items_view(entries@);
        assert(views.skip(0) == views);
    }
    let mut i: usize = 0;
    while i < entries.len()
        invariant
            i <= entries@.len(),
            views == items_view(entries@),
            views.len() == entries@.len(),
            forall|k: int| 0 <= k < entries@.len() ==> #[trigger] views[k] == entries@[k]@,
            first_content_line(views) == first_content_line(views.skip(i as int)),
        decreases entries.len() - i,
    {
        assert(views.skip(i as int)[0] == views[i as int]);
        assert(views.skip(i as int).skip(1) == views.skip(i + 1));
        let line: Option<String> = format_optional(entries[i].str_at("text"));
        if line.is_some() {
            return line;
        }
        i = i + 1;
    }
    None
}

/// The note for the reasoning in `payload`: from the first entry of its
/// summary that has a rendering, or else of its content.
pub fn reasoning_summary_note(payload: &Json) -> (note: Option<String>)
    ensures
        opt_text(note) == reasoning_note_in(payload@),
{
    if let Some(entries) = payload.array_at("summary") {
        if let Some(line) = find_summary_line(entries) {
            return Some(format_reasoning_note(line.as_str()));
        }
    }
    if let Some(entries) = payload.array_at("content") {
        if let Some(line) = find_content_line(entries) {
            return Some(format_reasoning_note(line.as_str()));
        }
    }
    None
}

/// The text of a message that is a string is that string. Of any content that
/// is neither a string nor a list there is none.
pub proof fn law_plain_messages(payload: JsonView)
    ensures
        payload.get("content"@) is None ==> message_text(payload) is None,
        payload.text_at("content"@) matches Some(text) ==> message_text(payload) == Some(text),
        payload.text_at("content"@) is None && payload.items_at("content"@) is None
            ==> message_text(payload) is None,
{
}

/// The text of a message with a list for content is made of the texts of its
/// entries, each trimmed, with one space between them. Entries without a text,
/// and blank ones, have no part in it.
pub proof fn law_listed_messages(
    payload: JsonView,
    entry: JsonView,
    a: Seq<JsonView>,
    b: Seq<JsonView>,
)
    ensures
        payload.items_at("content"@) matches Some(entries) ==> message_text(payload) == if entry_texts(
            entries,
        ).len() == 0 {
            None
        } else {
            Some(join(entry_texts(entries)))
        },
        entry_texts(a + b) == entry_texts(a) + entry_texts(b),
        entry_texts(seq![entry]) == match entry.text_at("text"@) {
            Some(text) => if trim(text).len() > 0 {
                seq![trim(text)]
            } else {
                Seq::<Seq<char>>::empty()
            },
            None => Seq::<Seq<char>>::empty(),
        },
    decreases b.len(),
{
    let one = seq![entry];
    assert(one.drop_last() =~= seq![]);
    assert(one.last() == entry);
    assert(entry_texts(one.drop_last()) =~= seq![]);
    if let Some(text) = entry.text_at("text"@) {
        if trim(text).len() > 0 {
            assert(entry_texts(one) =~= seq![trim(text)]);
        }
    }
    let both = a + b;
    if b.len() == 0 {
        assert(both =~= a);
        assert(entry_texts(a) + entry_texts(b) =~= entry_texts(a));
    } else {
        law_listed_messages(payload, entry, a, b.drop_last());
        assert(both.drop_last() =~= a + b.drop_last());
        assert(both.last() == b.last());
        assert(entry_texts(both) =~= entry_texts(a) + entry_texts(b));
    }
}

/// A tool call is noted by its name, and by a detail in brackets where it has
/// one. Without a name there is no note.
pub proof fn law_tool_calls_are_noted(payload: JsonView, name: Seq<char>, detail: Seq<char>)
    ensures
        payload.text_at("name"@) is None ==> tool_call_note_in(payload) is None,
        payload.text_at("name"@) == Some(name) && tool_detail(payload) is None
            ==> tool_call_note_in(payload) == Some("tool: "@ + name),
        payload.text_at("name"@) == Some(name) && tool_detail(payload) == Some(detail)
            ==> tool_call_note_in(payload) == Some("tool: "@ + name + " ("@ + detail + ")"@),
        tool_note_text(name, Some(detail)) == "tool: "@ + name + " ("@ + detail + ")"@,
        tool_note_text(name, None) == "tool: "@ + name,
{
}

/// The detail of a tool call is a snippet of what it is called with: of its
/// arguments where they are not JSON, and of its input where it has no
/// arguments.
pub proof fn law_details_of_plain_calls(payload: JsonView, args: Seq<char>)
    ensures
        payload.text_at("arguments"@) == Some(args) && json_of_text(args) is None ==> tool_detail(
            payload,
        ) == snippet(args, 160),
        detail_of_arguments(args, None) == snippet(args, 160),
        payload.text_at("arguments"@) is None && payload.text_at("input"@) is None
            ==> tool_detail(payload) is None,
        payload.text_at("arguments"@) is None ==> (payload.text_at("input"@) matches Some(input)
            ==> tool_detail(payload) == snippet(input, 160)),
{
}

/// The names of the members that tell most about a tool call, from the first to
/// the last choice.
pub open spec fn telling_members() -> Seq<Seq<char>> {
    seq!["command"@, "query"@, "path"@, "input"@, "code"@]
}

/// The detail of a tool call whose arguments are JSON is a snippet of the first
/// telling member that is a string, even a blank one. Without one there is
/// none.
pub proof fn law_details_of_parsed_calls(
    payload: JsonView,
    args: Seq<char>,
    parsed: JsonView,
    k: int,
    text: Seq<char>,
)
    requires
        0 <= k < 5,
    ensures
        payload.text_at("arguments"@) == Some(args) && json_of_text(args) == Some(parsed)
            ==> tool_detail(payload) == detail_of_arguments(args, Some(parsed)),
        parsed.text_at(telling_members()[k]) == Some(text) && (forall|i: int|
            0 <= i < k ==> parsed.text_at(#[trigger] telling_members()[i]) is None)
            ==> detail_of_arguments(args, Some(parsed)) == snippet(text, 160),
        (forall|i: int| 0 <= i < 5 ==> parsed.text_at(#[trigger] telling_members()[i]) is None)
            ==> detail_of_arguments(args, Some(parsed)) is None,
{
    let names = telling_members();
    assert(names[0] == "command"@ && names[1] == "query"@ && names[2] == "path"@);
    assert(names[3] == "input"@ && names[4] == "code"@);
}

/// A web search is noted by a snippet of its query, or without one where it has
/// none.
pub proof fn law_searches_are_noted(payload: JsonView, query: Seq<char>, line: Seq<char>)
    ensures
        payload.text_at2("action"@, "query"@) is None ==> web_search_note_in(payload)
            == "web_search"@,
        payload.text_at2("action"@, "query"@) == Some(query) && snippet(query, 160) is None
            ==> web_search_note_in(payload) == "web_search"@,
        payload.text_at2("action"@, "query"@) == Some(query) && snippet(query, 160) == Some(line)
            ==> web_search_note_in(payload) == "web_search: "@ + line,
{
}

/// Reasoning is noted by the first entry of its summary that has a snippet, or
/// else by the first such entry of its content.
pub proof fn law_reasoning_is_noted(payload: JsonView, line: Seq<char>)
    ensures
        ({
            let from_summary = match payload.items_at("summary"@) {
                Some(entries) => first_summary_line(entries),
                None => None,
            };
            let from_content = match payload.items_at("content"@) {
                Some(entries) => first_content_line(entries),
                None => None,
            };
            &&& from_summary == Some(line) ==> reasoning_note_in(payload) == Some(
                reasoning_note(line),
            )
            &&& from_summary is None && from_content == Some(line) ==> reasoning_note_in(payload)
                == Some(reasoning_note(line))
            &&& from_summary is None && from_content is None ==> reasoning_note_in(payload) is None
        }),
{
}

/// The first entry that has a snippet is found, past all that have none. An
/// entry of a summary has that of its text or, where the entry itself is a
/// string, its own. An entry of the content has that of its text.
pub proof fn law_first_entry_with_a_snippet(
    before: Seq<JsonView>,
    entry: JsonView,
    after: Seq<JsonView>,
    text: Seq<char>,
)
    ensures
        first_summary_line(before) is None ==> first_summary_line(before + seq![entry] + after)
            == if summary_entry_line(entry) is Some {
            summary_entry_line(entry)
        } else {
            first_summary_line(after)
        },
        first_content_line(before) is None ==> first_content_line(before + seq![entry] + after)
            == if entry.text_at("text"@) is Some && snippet(entry.text_at("text"@)->0, 160) is Some {
            snippet(entry.text_at("text"@)->0, 160)
        } else {
            first_content_line(after)
        },
        first_summary_line(Seq::<JsonView>::empty()) is None,
        first_content_line(Seq::<JsonView>::empty()) is None,
        entry.text_at("text"@) == Some(text) ==> summary_entry_line(entry) == snippet(text, 160),
        entry.text() == Some(text) ==> summary_entry_line(entry) == snippet(text, 160),
        entry.text_at("text"@) is None && entry.text() is None ==> summary_entry_line(
            entry,
        ) is None,
    decreases before.len(),
{
    let whole = before + seq![entry] + after;
    if before.len() == 0 {
        assert(whole[0] == entry);
        assert(whole.skip(1) =~= after);
    } else {
        assert(whole[0] == before[0]);
        assert(whole.skip(1) =~= before.skip(1) + seq![entry] + after);
        law_first_entry_with_a_snippet(before.skip(1), entry, after, text);
    }
}

/// A line for a summary or a note is a snippet of at most 160 characters.
pub proof fn law_summary_lines(text: Seq<char>)
    ensures
        summary_line(text) == snippet(text, 160),
        summary_line_of(Some(text)) == snippet(text, 160),
        summary_line_of(None) is None,
{
}

} // verus!
