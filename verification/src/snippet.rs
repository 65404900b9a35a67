//! Short one-line renderings of messages, and the clean-up of model names.

use vstd::prelude::*;

use crate::text::{
    chars_of, collapse_chars, contains_text, join_two, lower_chars, slice_of, stands_at,
    string_of, trim_chars, trim_end_chars, CharClass,
};
#[allow(unused_imports)]
use crate::text::{
    collapse, contains, is_white_space, join, law_contains, law_trim_keeps_the_core,
    lemma_ends_after_trim, lemma_nothing_to_trim, lemma_trim_end_after, lemma_trim_end_shape,
    lemma_trim_of_padded, lemma_trim_of_trimmed_end, lemma_trim_start_shape, lemma_word_len_bound,
    lower, occurs_at, opt_text, repeated, trim, trim_class, trim_end, trim_start, word_len, words,
};

verus! {

/// The longest title, in characters.
pub const TITLE_MAX_CHARS: usize = 200;

/// The longest summary or note, in characters.
pub const SUMMARY_MAX_CHARS: usize = 160;

/// Whether `text` carries context that a tool put in front of the user's own
/// words: one of the markers below, in any ASCII case.
pub open spec fn is_injected_context(text: Seq<char>) -> bool {
    let small = lower(text);
    ||| contains(small, "<environment_context>"@)
    ||| contains(small, "# agents.md instructions"@)
    ||| contains(small, "<instructions>"@)
    ||| contains(small, "<user_instructions>"@)
    ||| contains(small, "<system_instructions>"@)
    ||| contains(small, "<developer_instructions>"@)
    ||| contains(small, "<system>"@)
}

/// `text` itself if it has at most `max_chars` characters; otherwise its first
/// `max_chars - 1` characters without trailing white space, and an ellipsis.
pub open spec fn shorten(text: Seq<char>, max_chars: nat) -> Seq<char> {
    if text.len() <= max_chars {
        text
    } else {
        let kept = if max_chars == 0 { 0 } else { max_chars - 1 };
        trim_end(text.take(kept), CharClass::WhiteSpace).push('…')
    }
}

/// The one-line rendering of `text` in at most `max_chars` characters; none
/// for blank text and for injected context.
pub open spec fn snippet(text: Seq<char>, max_chars: nat) -> Option<Seq<char>> {
    let trimmed = trim(text);
    if trimmed.len() == 0 || is_injected_context(trimmed) {
        None
    } else {
        Some(shorten(collapse(trimmed), max_chars))
    }
}

/// Whether `text` is one trimmed line whose only white space is single spaces.
pub open spec fn is_single_spaced(text: Seq<char>) -> bool {
    &&& text.len() > 0 ==> !is_white_space(text[0]) && !is_white_space(text.last())
    &&& forall|i: int|
        0 <= i < text.len() && is_white_space(#[trigger] text[i]) ==> text[i] == ' ' && (i + 1
            < text.len() ==> !is_white_space(text[i + 1]))
}

/// The model name without surrounding white space and provider prefix.
pub open spec fn model_id(model: Seq<char>) -> Seq<char> {
    let trimmed = trim(model);
    if occurs_at(trimmed, "openai/"@, 0) {
        trim(trimmed.skip("openai/"@.len() as int))
    } else if occurs_at(trimmed, "openai."@, 0) {
        trim(trimmed.skip("openai."@.len() as int))
    } else {
        trimmed
    }
}

/// `text` without the white space, asterisks and underscores around it.
pub open spec fn without_emphasis(text: Seq<char>) -> Seq<char> {
    trim(trim_class(trim_class(trim(text), CharClass::Only('*')), CharClass::Only('_')))
}

/// The note for a piece of reasoning.
pub open spec fn reasoning_note(text: Seq<char>) -> Seq<char> {
    let stripped = without_emphasis(text);
    "reasoning: "@ + (if stripped.len() == 0 {
        trim(text)
    } else {
        stripped
    })
}

/// A non-empty run of characters that are not white space.
spec fn is_word(w: Seq<char>) -> bool {
    w.len() > 0 && forall|i: int| 0 <= i < w.len() ==> !is_white_space(#[trigger] w[i])
}

proof fn lemma_words_are_words(s: Seq<char>)
    ensures
        forall|k: int| 0 <= k < words(s).len() ==> is_word(#[trigger] words(s)[k]),
        trim_start(s, CharClass::WhiteSpace).len() > 0 ==> words(s).len() > 0,
    decreases s.len(),
{
    let t = trim_start(s, CharClass::WhiteSpace);
    lemma_trim_start_shape(s, CharClass::WhiteSpace);
    lemma_word_len_bound(t);
    if t.len() > 0 {
        let rest = t.skip(word_len(t) as int);
        lemma_words_are_words(rest);
        assert(words(s) == seq![t.take(word_len(t) as int)] + words(rest));
        assert(is_word(t.take(word_len(t) as int)));
        assert forall|k: int| 0 <= k < words(s).len() implies is_word(#[trigger] words(s)[k]) by {
            if k > 0 {
                assert(words(s)[k] == words(rest)[k - 1]);
            }
        }
    }
}

proof fn lemma_join_is_single_spaced(parts: Seq<Seq<char>>)
    requires
        forall|k: int| 0 <= k < parts.len() ==> is_word(#[trigger] parts[k]),
    ensures
        is_single_spaced(join(parts)),
        parts.len() > 0 ==> join(parts).len() > 0,
    decreases parts.len(),
{
    if parts.len() == 1 {
        assert(is_word(parts[0]));
    } else if parts.len() > 1 {
        let front = parts.drop_last();
        assert forall|k: int| 0 <= k < front.len() implies is_word(#[trigger] front[k]) by {
            assert(front[k] == parts[k]);
        }
        lemma_join_is_single_spaced(front);
        assert(is_word(parts[parts.len() - 1]));
        let head = join(front);
        let whole = join(parts);
        let last = parts.last();
        assert(whole == head + seq![' '] + last);
        assert forall|i: int|
            0 <= i < whole.len() && is_white_space(#[trigger] whole[i]) implies whole[i] == ' ' && (i
            + 1 < whole.len() ==> !is_white_space(whole[i + 1])) by {
            if i < head.len() {
                assert(whole[i] == head[i]);
                assert(i + 1 < head.len());
                assert(whole[i + 1] == head[i + 1]);
            } else if i == head.len() {
                assert(whole[i + 1] == last[0]);
            } else {
                assert(whole[i] == last[i - head.len() - 1]);
            }
        }
        assert(whole[0] == head[0]);
        assert(whole.last() == last.last());
    }
}

proof fn lemma_shorten_is_single_spaced(text: Seq<char>, max_chars: nat)
    requires
        is_single_spaced(text),
        text.len() > 0,
    ensures
        is_single_spaced(shorten(text, max_chars)),
        shorten(text, max_chars).len() > 0,
        max_chars > 0 ==> shorten(text, max_chars).len() <= max_chars,
        max_chars == 0 ==> shorten(text, max_chars).len() == 1,
{
    if text.len() > max_chars {
        let kept = if max_chars == 0 { 0 } else { max_chars - 1 };
        let cut = text.take(kept);
        let body = trim_end(cut, CharClass::WhiteSpace);
        lemma_trim_end_shape(cut, CharClass::WhiteSpace);
        let whole = body.push('…');
        assert(whole == shorten(text, max_chars));
        assert forall|i: int| 0 <= i < body.len() implies #[trigger] body[i] == text[i] by {
            assert(body[i] == cut[i]);
        }
        assert forall|i: int|
            0 <= i < whole.len() && is_white_space(#[trigger] whole[i]) implies whole[i] == ' ' && (i
            + 1 < whole.len() ==> !is_white_space(whole[i + 1])) by {
            assert(i < body.len());
            assert(whole[i] == body[i]);
            assert(body[i] == text[i]);
            if i + 1 < body.len() {
                assert(whole[i + 1] == body[i + 1]);
                assert(body[i + 1] == text[i + 1]);
            }
        }
        if body.len() > 0 {
            assert(whole[0] == body[0]);
            assert(body[0] == text[0]);
        }
    }
}

proof fn lemma_collapse_of_trimmed(text: Seq<char>)
    requires
        trim(text).len() > 0,
    ensures
        is_single_spaced(collapse(trim(text))),
        collapse(trim(text)).len() > 0,
{
    let start = trim_start(text, CharClass::WhiteSpace);
    let trimmed = trim(text);
    lemma_trim_start_shape(text, CharClass::WhiteSpace);
    lemma_trim_end_shape(start, CharClass::WhiteSpace);
    assert(trimmed[0] == start[0]);
    assert(trim_start(trimmed, CharClass::WhiteSpace) == trimmed);
    lemma_words_are_words(trimmed);
    lemma_join_is_single_spaced(words(trimmed));
}

/// A snippet is one non-empty line: it neither starts nor ends with white
/// space, its only white space is single spaces, and it has at most
/// `max_chars` characters (one, the ellipsis, where `max_chars` is zero).
pub proof fn law_snippet_is_one_short_line(text: Seq<char>, max_chars: nat)
    ensures
        snippet(text, max_chars) matches Some(line) ==> {
            &&& is_single_spaced(line)
            &&& 0 < line.len()
            &&& line.len() <= if max_chars == 0 { 1 } else { max_chars }
        },
{
    if trim(text).len() > 0 {
        lemma_collapse_of_trimmed(text);
        lemma_shorten_is_single_spaced(collapse(trim(text)), max_chars);
    }
}

/// A snippet that is not cut keeps every word of the text, in order.
pub proof fn law_short_text_keeps_its_words(text: Seq<char>, max_chars: nat)
    requires
        trim(text).len() > 0,
        !is_injected_context(trim(text)),
        collapse(trim(text)).len() <= max_chars,
    ensures
        snippet(text, max_chars) == Some(join(words(trim(text)))),
{
}

proof fn lemma_join_first(first: Seq<char>, rest: Seq<Seq<char>>)
    requires
        rest.len() > 0,
    ensures
        join(seq![first] + rest) == first + seq![' '] + join(rest),
    decreases rest.len(),
{
    let parts = seq![first] + rest;
    assert(parts.last() == rest.last());
    if rest.len() == 1 {
        assert(parts.drop_last() =~= seq![first]);
        assert(join(seq![first]) == first);
    } else {
        lemma_join_first(first, rest.drop_last());
        assert(parts.drop_last() =~= seq![first] + rest.drop_last());
        assert(join(parts) =~= first + seq![' '] + join(rest));
    }
}

proof fn lemma_collapse_of_single_spaced(text: Seq<char>)
    requires
        is_single_spaced(text),
        text.len() > 0,
    ensures
        collapse(text) == text,
        words(text).len() > 0,
    decreases text.len(),
{
    let class = CharClass::WhiteSpace;
    let n = word_len(text) as int;
    lemma_word_len_bound(text);
    assert(trim_start(text, class) == text);
    let first = text.take(n);
    let rest = text.skip(n);
    assert(words(text) == seq![first] + words(rest));
    if n == text.len() {
        assert(rest =~= seq![]);
        assert(words(rest) =~= seq![]);
        assert(words(text) =~= seq![first]);
        assert(first =~= text);
    } else {
        let tail = text.skip(n + 1);
        assert(text[n] == ' ');
        assert(n + 1 < text.len());
        assert(tail[0] == text[n + 1]);
        assert(tail.last() == text.last());
        assert forall|i: int|
            0 <= i < tail.len() && is_white_space(#[trigger] tail[i]) implies tail[i] == ' ' && (i
            + 1 < tail.len() ==> !is_white_space(tail[i + 1])) by {
            assert(tail[i] == text[i + n + 1]);
            if i + 1 < tail.len() {
                assert(tail[i + 1] == text[i + n + 2]);
            }
        }
        lemma_collapse_of_single_spaced(tail);
        assert(rest[0] == text[n]);
        assert(rest.skip(1) =~= tail);
        assert(trim_start(tail, class) == tail);
        assert(trim_start(rest, class) == tail);
        assert(words(rest) == words(tail));
        lemma_join_first(first, words(tail));
        assert(first + seq![' '] + tail =~= text);
    }
}

/// A snippet that is made into a snippet again, with the same limit, stays as
/// it is, unless its words, now on one line, read as injected context.
pub proof fn law_snippet_stays_as_it_is(text: Seq<char>, max_chars: nat)
    ensures
        snippet(text, max_chars) matches Some(line) ==> snippet(line, max_chars)
            == if is_injected_context(line) { None } else { Some(line) },
{
    law_snippet_is_one_short_line(text, max_chars);
    if let Some(line) = snippet(text, max_chars) {
        lemma_nothing_to_trim(line, CharClass::WhiteSpace);
        lemma_collapse_of_single_spaced(line);
        if max_chars == 0 {
            let whole = collapse(trim(text));
            lemma_collapse_of_trimmed(text);
            assert(line == trim_end(whole.take(0), CharClass::WhiteSpace).push('…'));
            assert(whole.take(0) =~= line.take(0));
        }
    }
}

/// Asterisks around a piece of reasoning make no difference to its note, as
/// long as anything else is left of it. Otherwise it is kept with them, and so
/// are asterisks alone.
pub proof fn law_asterisks_make_no_difference(text: Seq<char>, before: nat, after: nat)
    ensures
        ({
            let starred = repeated('*', before) + trim(text) + repeated('*', after);
            &&& without_emphasis(starred) == without_emphasis(text)
            &&& without_emphasis(text).len() > 0 ==> reasoning_note(starred) == reasoning_note(text)
            &&& without_emphasis(text).len() == 0 ==> reasoning_note(starred) == "reasoning: "@
                + starred
        }),
        reasoning_note(repeated('*', before)) == "reasoning: "@ + repeated('*', before),
{
    let blank = CharClass::WhiteSpace;
    let star = CharClass::Only('*');
    let bare = trim(text);
    lemma_ends_after_trim(text, blank);
    let starred = repeated('*', before) + bare + repeated('*', after);
    if starred.len() > 0 {
        assert(starred[0] == '*' || starred[0] == bare[0]);
        assert(starred.last() == '*' || starred.last() == bare.last());
    }
    lemma_nothing_to_trim(starred, blank);
    lemma_trim_of_padded('*', before, bare, after);
    let stars = repeated('*', before);
    let none = Seq::<char>::empty();
    if stars.len() > 0 {
        assert(stars[0] == '*' && stars.last() == '*');
    }
    lemma_nothing_to_trim(stars, blank);
    lemma_trim_of_padded('*', before, none, 0);
    assert(stars + none + repeated('*', 0) =~= stars);
    assert(trim_class(none, star) == none);
}

/// A provider prefix is dropped from any name, in either form, and a name
/// without one is only trimmed: so the prefix makes no difference to it.
pub proof fn law_provider_prefix_makes_no_difference(model: Seq<char>)
    ensures
        model_id("openai/"@ + model) == trim(model),
        model_id("openai."@ + model) == trim(model),
        !occurs_at(trim(model), "openai/"@, 0) && !occurs_at(trim(model), "openai."@, 0)
            ==> model_id(model) == trim(model),
{
    let rest = trim_end(model, CharClass::WhiteSpace);
    reveal_strlit("openai/");
    reveal_strlit("openai.");
    lemma_trim_of_trimmed_end(model);
    lemma_trim_end_after("openai/"@, model);
    lemma_trim_end_after("openai."@, model);
    let slash = "openai/"@ + rest;
    let dot = "openai."@ + rest;
    assert(("openai/"@ + model)[0] == 'o' && ("openai."@ + model)[0] == 'o');
    assert(trim("openai/"@ + model) == slash);
    assert(trim("openai."@ + model) == dot);
    assert(slash.subrange(0, 7) =~= "openai/"@);
    assert(dot.subrange(0, 7) =~= "openai."@);
    assert(dot.subrange(0, 7)[6] == '.');
    assert("openai/"@[6] == '/');
    assert(slash.skip(7) =~= rest);
    assert(dot.skip(7) =~= rest);
}

/// `text` itself, unless it carries injected context.
pub fn filter_title_candidate(text: &str) -> (kept: Option<String>)
    ensures
        opt_text(kept) == if is_injected_context(text@) { None } else { Some(text@) },
{
    let small: Vec<char> = lower_chars(&chars_of(text));
    if contains_text(&small, "<environment_context>") || contains_text(
        &small,
        "# agents.md instructions",
    ) || contains_text(&small, "<instructions>") || contains_text(&small, "<user_instructions>")
        || contains_text(&small, "<system_instructions>") || contains_text(
        &small,
        "<developer_instructions>",
    ) || contains_text(&small, "<system>") {
        return None;
    }
    Some(text.to_owned())
}

/// The one-line rendering of `text` in at most `max_chars` characters; none
/// for blank text and for injected context.
pub fn format_snippet(text: &str, max_chars: usize) -> (line: Option<String>)
    ensures
        opt_text(line) == snippet(text@, max_chars as nat),
{
    let trimmed: Vec<char> = trim_chars(&chars_of(text), CharClass::WhiteSpace);
    if trimmed.len() == 0 {
        return None;
    }
    if filter_title_candidate(string_of(&trimmed).as_str()).is_none() {
        return None;
    }
    let collapsed: Vec<char> = collapse_chars(&trimmed);
    if collapsed.len() <= max_chars {
        return Some(string_of(&collapsed));
    }
    let kept: usize = max_chars.saturating_sub(1);
    let truncated: Vec<char> = slice_of(&collapsed, 0, kept);
    let mut result: Vec<char> = trim_end_chars(&truncated, CharClass::WhiteSpace);
    result.push('…');
    Some(string_of(&result))
}

/// The model name without surrounding white space and provider prefix.
pub fn normalize_model_id(model: &str) -> (id: String)
    ensures
        id@ == model_id(model@),
{
    let trimmed: Vec<char> = trim_chars(&chars_of(model), CharClass::WhiteSpace);
    let slash: Vec<char> = chars_of("openai/");
    let dot: Vec<char> = chars_of("openai.");
    if stands_at(&trimmed, &slash, 0) {
        let rest: Vec<char> = slice_of(&trimmed, slash.len(), trimmed.len());
        string_of(&trim_chars(&rest, CharClass::WhiteSpace))
    } else if stands_at(&trimmed, &dot, 0) {
        let rest: Vec<char> = slice_of(&trimmed, dot.len(), trimmed.len());
        string_of(&trim_chars(&rest, CharClass::WhiteSpace))
    } else {
        string_of(&trimmed)
    }
}

/// The note for a piece of reasoning.
pub fn format_reasoning_note(text: &str) -> (note: String)
    ensures
        note@ == reasoning_note(text@),
{
    let trimmed: Vec<char> = trim_chars(&chars_of(text), CharClass::WhiteSpace);
    let bare: Vec<char> = trim_chars(
        &trim_chars(&trimmed, CharClass::Only('*')),
        CharClass::Only('_'),
    );
    let stripped: Vec<char> = trim_chars(&bare, CharClass::WhiteSpace);
    if stripped.len() == 0 {
        join_two("reasoning: ", string_of(&trimmed).as_str())
    } else {
        join_two("reasoning: ", string_of(&stripped).as_str())
    }
}

/// The longest title has 200 characters, the longest summary 160.
pub proof fn law_limits()
    ensures
        TITLE_MAX_CHARS == 200,
        SUMMARY_MAX_CHARS == 160,
{
}

/// The marks of injected context, in small letters.
pub open spec fn is_mark(mark: Seq<char>) -> bool {
    ||| mark == "<environment_context>"@
    ||| mark == "# agents.md instructions"@
    ||| mark == "<instructions>"@
    ||| mark == "<user_instructions>"@
    ||| mark == "<system_instructions>"@
    ||| mark == "<developer_instructions>"@
    ||| mark == "<system>"@
}

proof fn lemma_lower_of_both(a: Seq<char>, b: Seq<char>)
    ensures
        lower(a + b) == lower(a) + lower(b),
{
    assert(lower(a + b) =~= lower(a) + lower(b));
}

/// A text is injected context wherever one of the marks stands in it, in any
/// case, and nowhere else.
pub proof fn law_injected_context_has_a_mark(
    before: Seq<char>,
    mark: Seq<char>,
    after: Seq<char>,
    text: Seq<char>,
)
    ensures
        is_mark(lower(mark)) ==> is_injected_context(before + mark + after),
        is_injected_context(text) ==> exists|i: int, j: int|
            0 <= i <= j <= text.len() && is_mark(#[trigger] lower(text.subrange(i, j))),
{
    lemma_lower_of_both(before, mark);
    lemma_lower_of_both(before + mark, after);
    law_contains(lower(before), lower(mark), lower(after), lower(text));
    if is_injected_context(text) {
        let found = choose|m: Seq<char>| is_mark(m) && #[trigger] contains(lower(text), m);
        assert(exists|m: Seq<char>| is_mark(m) && #[trigger] contains(lower(text), m)) by {
            assert(is_mark("<environment_context>"@) && is_mark("# agents.md instructions"@));
            assert(is_mark("<instructions>"@) && is_mark("<user_instructions>"@));
            assert(is_mark("<system_instructions>"@) && is_mark("<developer_instructions>"@));
            assert(is_mark("<system>"@));
        }
        let i = choose|at: int| occurs_at(lower(text), found, at);
        let j = i + found.len();
        assert(lower(text.subrange(i, j)) =~= lower(text).subrange(i, j));
        assert(is_mark(lower(text.subrange(i, j))));
    }
}

/// What a snippet is. There is none exactly for blank text and for injected
/// context. Where the words of the text, joined, fit into the limit, they are
/// the snippet. Otherwise it is an ellipsis after the longest part of them that
/// leaves room for it and does not end with a space.
pub proof fn law_snippet_shows_the_words(text: Seq<char>, max_chars: nat)
    ensures
        snippet(text, max_chars) is None <==> trim(text).len() == 0 || is_injected_context(
            trim(text),
        ),
        snippet(text, max_chars) matches Some(line) ==> {
            let whole = join(words(trim(text)));
            &&& whole.len() <= max_chars ==> line == whole
            &&& whole.len() > max_chars && max_chars > 0 ==> {
                &&& 0 < line.len() <= max_chars
                &&& line == whole.take(line.len() - 1).push('…')
                &&& line.len() > 1 ==> !is_white_space(whole[line.len() - 2])
                &&& forall|i: int|
                    line.len() - 1 <= i < max_chars - 1 ==> is_white_space(#[trigger] whole[i])
            }
            &&& whole.len() > max_chars && max_chars == 0 ==> line == seq!['…']
        },
{
    let whole = collapse(trim(text));
    if trim(text).len() > 0 && whole.len() > max_chars {
        let kept: int = if max_chars == 0 { 0 } else { max_chars - 1 };
        let cut = whole.take(kept);
        let body = trim_end(cut, CharClass::WhiteSpace);
        lemma_trim_end_shape(cut, CharClass::WhiteSpace);
        let line = body.push('…');
        assert(line == shorten(whole, max_chars));
        assert(body =~= whole.take(body.len() as int));
        assert forall|i: int| line.len() - 1 <= i < kept implies is_white_space(
            #[trigger] whole[i],
        ) by {
            assert(cut[i] == whole[i]);
        }
        if body.len() > 0 {
            assert(body.last() == whole[body.len() - 1]);
        }
        if max_chars == 0 {
            assert(line =~= seq!['…']);
        }
    }
}

/// White space around a text makes no difference to its model name, its note
/// and its emphasis.
pub proof fn law_white_space_around_makes_no_difference(text: Seq<char>)
    ensures
        model_id(text) == model_id(trim(text)),
        without_emphasis(text) == without_emphasis(trim(text)),
        reasoning_note(text) == reasoning_note(trim(text)),
{
    lemma_ends_after_trim(text, CharClass::WhiteSpace);
    lemma_nothing_to_trim(trim(text), CharClass::WhiteSpace);
}

/// Asterisks, and inside of them underscores, are taken from around a text,
/// each as many as there are, and then white space.
pub proof fn law_emphasis_is_taken_off(
    blank: Seq<char>,
    a: nat,
    b: nat,
    inner: Seq<char>,
    c: nat,
    d: nat,
    space: Seq<char>,
)
    requires
        forall|i: int| 0 <= i < blank.len() ==> is_white_space(#[trigger] blank[i]),
        forall|i: int| 0 <= i < space.len() ==> is_white_space(#[trigger] space[i]),
        inner.len() > 0 ==> inner[0] != '_' && inner.last() != '_',
        inner.len() > 0 && b == 0 ==> inner[0] != '*',
        inner.len() > 0 && c == 0 ==> inner.last() != '*',
        inner.len() > 0 && a == 0 && b == 0 ==> !is_white_space(inner[0]),
        inner.len() > 0 && c == 0 && d == 0 ==> !is_white_space(inner.last()),
    ensures
        without_emphasis(
            blank + (repeated('*', a) + (repeated('_', b) + inner + repeated('_', c)) + repeated(
                '*',
                d,
            )) + space,
        ) == trim(inner),
{
    let bare = repeated('_', b) + inner + repeated('_', c);
    let starred = repeated('*', a) + bare + repeated('*', d);
    if bare.len() > 0 {
        assert(bare[0] == '_' || bare[0] == inner[0]);
        assert(bare.last() == '_' || bare.last() == inner.last());
        assert(b == 0 && inner.len() > 0 ==> bare[0] == inner[0]);
        assert(c == 0 && inner.len() > 0 ==> bare.last() == inner.last());
    }
    if starred.len() > 0 {
        assert(a > 0 ==> starred[0] == '*');
        assert(a == 0 && bare.len() > 0 ==> starred[0] == bare[0]);
        assert(a == 0 && bare.len() == 0 ==> starred[0] == '*');
        assert(d > 0 ==> starred.last() == '*');
        assert(d == 0 && bare.len() > 0 ==> starred.last() == bare.last());
        assert(d == 0 && bare.len() == 0 ==> starred.last() == '*');
        assert(b > 0 ==> bare[0] == '_');
        assert(c > 0 ==> bare.last() == '_');
    }
    law_trim_keeps_the_core(CharClass::WhiteSpace, blank, starred, space);
    law_trim_keeps_the_core(CharClass::Only('*'), repeated('*', a), bare, repeated('*', d));
    law_trim_keeps_the_core(CharClass::Only('_'), repeated('_', b), inner, repeated('_', c));
}

/// The note for a piece of reasoning is what is left of it without emphasis,
/// or all of it where nothing is left.
pub proof fn law_reasoning_note(text: Seq<char>)
    ensures
        without_emphasis(text).len() > 0 ==> reasoning_note(text) == "reasoning: "@
            + without_emphasis(text),
        without_emphasis(text).len() == 0 ==> reasoning_note(text) == "reasoning: "@ + trim(text),
{
}

} // verus!
