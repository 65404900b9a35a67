//! Character-level text operations: trimming, word splitting, ASCII case
//! folding and substring search, all stated over sequences of characters.

use vstd::prelude::*;

verus! {

/// `String::push` appends one character to the end of the string.
pub assume_specification[ String::push ](s: &mut String, c: char)
    ensures
        final(s)@ == old(s)@.push(c),
;

/// The characters with the Unicode `White_Space` property.
pub open spec fn is_white_space(c: char) -> bool {
    let n = c as u32;
    ||| 0x9 <= n <= 0xd
    ||| n == 0x20
    ||| n == 0x85
    ||| n == 0xa0
    ||| n == 0x1680
    ||| 0x2000 <= n <= 0x200a
    ||| n == 0x2028
    ||| n == 0x2029
    ||| n == 0x202f
    ||| n == 0x205f
    ||| n == 0x3000
}

/// Whether `c` is white space.
pub fn is_whitespace(c: char) -> (white: bool)
    ensures
        white == is_white_space(c),
{
    let n: u32 = c as u32;
    (0x9 <= n && n <= 0xd) || n == 0x20 || n == 0x85 || n == 0xa0 || n == 0x1680 || (0x2000 <= n
        && n <= 0x200a) || n == 0x2028 || n == 0x2029 || n == 0x202f || n == 0x205f || n == 0x3000
}

/// The characters that a trim removes.
#[derive(Clone, Copy, Debug)]
pub enum CharClass {
    WhiteSpace,
    Only(char),
}

impl CharClass {
    /// Whether `c` belongs to the class.
    pub open spec fn has(self, c: char) -> bool {
        match self {
            CharClass::WhiteSpace => is_white_space(c),
            CharClass::Only(d) => c == d,
        }
    }

    /// Whether `c` belongs to the class.
    pub fn matches(self, c: char) -> (found: bool)
        ensures
            found == self.has(c),
    {
        match self {
            CharClass::WhiteSpace => is_whitespace(c),
            CharClass::Only(d) => c == d,
        }
    }
}

/// `s` without its leading characters of `class`.
pub open spec fn trim_start(s: Seq<char>, class: CharClass) -> Seq<char>
    decreases s.len(),
{
    if s.len() > 0 && class.has(s[0]) {
        trim_start(s.skip(1), class)
    } else {
        s
    }
}

/// `s` without its trailing characters of `class`.
pub open spec fn trim_end(s: Seq<char>, class: CharClass) -> Seq<char>
    decreases s.len(),
{
    if s.len() > 0 && class.has(s.last()) {
        trim_end(s.drop_last(), class)
    } else {
        s
    }
}

/// `s` without its leading and trailing characters of `class`.
pub open spec fn trim_class(s: Seq<char>, class: CharClass) -> Seq<char> {
    trim_end(trim_start(s, class), class)
}

/// `s` without leading and trailing white space.
pub open spec fn trim(s: Seq<char>) -> Seq<char> {
    trim_class(s, CharClass::WhiteSpace)
}

/// The number of characters before the first white space of `s`.
pub open spec fn word_len(s: Seq<char>) -> nat
    decreases s.len(),
{
    if s.len() == 0 || is_white_space(s[0]) {
        0
    } else {
        1 + word_len(s.skip(1))
    }
}

/// What is left of `s` after white space and then one word.
pub open spec fn after_word(s: Seq<char>) -> Seq<char> {
    let t = trim_start(s, CharClass::WhiteSpace);
    t.skip(word_len(t) as int)
}

/// The maximal runs of characters of `s` that are not white space, in order.
pub open spec fn words(s: Seq<char>) -> Seq<Seq<char>>
    decreases s.len(),
    via words_decreases
{
    let t = trim_start(s, CharClass::WhiteSpace);
    if t.len() == 0 {
        seq![]
    } else {
        seq![t.take(word_len(t) as int)] + words(after_word(s))
    }
}

#[via_fn]
proof fn words_decreases(s: Seq<char>) {
    lemma_trim_start_shape(s, CharClass::WhiteSpace);
    lemma_word_len_bound(trim_start(s, CharClass::WhiteSpace));
}

/// The parts, one after another, with one space between neighbours.
pub open spec fn join(parts: Seq<Seq<char>>) -> Seq<char>
    decreases parts.len(),
{
    if parts.len() == 0 {
        seq![]
    } else if parts.len() == 1 {
        parts[0]
    } else {
        join(parts.drop_last()) + seq![' '] + parts.last()
    }
}

/// The words of `s`, joined by single spaces.
pub open spec fn collapse(s: Seq<char>) -> Seq<char> {
    join(words(s))
}

/// `c` with an ASCII capital letter made small.
pub open spec fn ascii_lower(c: char) -> char {
    if 'A' <= c && c <= 'Z' {
        (c as u32 + 32) as char
    } else {
        c
    }
}

/// `s` with every ASCII capital letter made small.
pub open spec fn lower(s: Seq<char>) -> Seq<char> {
    Seq::new(s.len(), |i: int| ascii_lower(s[i]))
}

/// Whether `part` stands in `s` at position `at`.
pub open spec fn occurs_at(s: Seq<char>, part: Seq<char>, at: int) -> bool {
    0 <= at && at + part.len() <= s.len() && s.subrange(at, at + part.len()) == part
}

/// Whether `part` stands somewhere in `s`.
pub open spec fn contains(s: Seq<char>, part: Seq<char>) -> bool {
    exists|at: int| occurs_at(s, part, at)
}

pub proof fn lemma_trim_start_shape(s: Seq<char>, class: CharClass)
    ensures
        trim_start(s, class).len() <= s.len(),
        trim_start(s, class) == s.skip(s.len() - trim_start(s, class).len()),
        trim_start(s, class).len() > 0 ==> !class.has(trim_start(s, class)[0]),
        forall|i: int| 0 <= i < s.len() - trim_start(s, class).len() ==> class.has(#[trigger] s[i]),
    decreases s.len(),
{
    if s.len() > 0 && class.has(s[0]) {
        lemma_trim_start_shape(s.skip(1), class);
        let t = trim_start(s, class);
        assert(t == s.skip(s.len() - t.len()));
        assert forall|i: int| 0 <= i < s.len() - t.len() implies class.has(#[trigger] s[i]) by {
            if i > 0 {
                assert(s[i] == s.skip(1)[i - 1]);
            }
        }
    } else {
        assert(s == s.skip(0));
    }
}

pub proof fn lemma_trim_end_shape(s: Seq<char>, class: CharClass)
    ensures
        trim_end(s, class).len() <= s.len(),
        trim_end(s, class) == s.take(trim_end(s, class).len() as int),
        trim_end(s, class).len() > 0 ==> !class.has(trim_end(s, class).last()),
        forall|i: int| trim_end(s, class).len() <= i < s.len() ==> class.has(#[trigger] s[i]),
    decreases s.len(),
{
    if s.len() > 0 && class.has(s.last()) {
        lemma_trim_end_shape(s.drop_last(), class);
        let t = trim_end(s, class);
        assert(t == s.take(t.len() as int));
        assert forall|i: int| t.len() <= i < s.len() implies class.has(#[trigger] s[i]) by {
            if i < s.len() - 1 {
                assert(s[i] == s.drop_last()[i]);
            }
        }
    } else {
        assert(s == s.take(s.len() as int));
    }
}

/// A suffix that starts outside the class, after characters of the class, is
/// the trimmed text.
proof fn lemma_trim_start_is(s: Seq<char>, class: CharClass, k: int)
    requires
        0 <= k <= s.len(),
        forall|i: int| 0 <= i < k ==> class.has(#[trigger] s[i]),
        k < s.len() ==> !class.has(s[k]),
    ensures
        trim_start(s, class) == s.skip(k),
    decreases s.len(),
{
    if k > 0 {
        assert forall|i: int| 0 <= i < k - 1 implies class.has(#[trigger] s.skip(1)[i]) by {
            assert(s.skip(1)[i] == s[i + 1]);
        }
        lemma_trim_start_is(s.skip(1), class, k - 1);
        assert(s.skip(1).skip(k - 1) == s.skip(k));
    } else {
        assert(s == s.skip(0));
    }
}

/// A prefix that ends outside the class, before characters of the class, is
/// the trimmed text.
proof fn lemma_trim_end_is(s: Seq<char>, class: CharClass, k: int)
    requires
        0 <= k <= s.len(),
        forall|i: int| k <= i < s.len() ==> class.has(#[trigger] s[i]),
        k > 0 ==> !class.has(s[k - 1]),
    ensures
        trim_end(s, class) == s.take(k),
    decreases s.len(),
{
    if k < s.len() {
        assert(class.has(s[s.len() - 1]));
        assert forall|i: int| k <= i < s.drop_last().len() implies class.has(
            #[trigger] s.drop_last()[i],
        ) by {
            assert(s.drop_last()[i] == s[i]);
        }
        lemma_trim_end_is(s.drop_last(), class, k);
        assert(s.drop_last().take(k) == s.take(k));
    } else {
        assert(s == s.take(k));
    }
}

/// White space at the end makes no difference to what is left after a trim.
pub proof fn lemma_trim_of_trimmed_end(s: Seq<char>)
    ensures
        trim(trim_end(s, CharClass::WhiteSpace)) == trim(s),
{
    let class = CharClass::WhiteSpace;
    let ended = trim_end(s, class);
    let started = trim_start(s, class);
    let k = ended.len() as int;
    let j = s.len() - started.len();
    lemma_trim_end_shape(s, class);
    lemma_trim_start_shape(s, class);
    if k == 0 {
        assert forall|i: int| 0 <= i < started.len() implies class.has(#[trigger] started[i]) by {
            assert(started[i] == s[i + j]);
        }
        lemma_trim_end_is(started, class, 0);
        assert(trim(ended) =~= started.take(0));
    } else {
        assert(!class.has(s[k - 1])) by {
            assert(ended.last() == s[k - 1]);
        }
        assert(j < k);
        assert(started[0] == s[j]);
        assert(ended[j] == s[j]);
        assert forall|i: int| 0 <= i < j implies class.has(#[trigger] ended[i]) by {
            assert(ended[i] == s[i]);
        }
        lemma_trim_start_is(ended, class, j);
        let inner = ended.skip(j);
        assert(inner.last() == s[k - 1]);
        assert(trim(ended) == inner);
        assert forall|i: int| k - j <= i < started.len() implies class.has(
            #[trigger] started[i],
        ) by {
            assert(started[i] == s[i + j]);
        }
        assert(started[k - j - 1] == s[k - 1]);
        lemma_trim_end_is(started, class, k - j);
        assert(started.take(k - j) =~= inner);
    }
}

/// A trim changes nothing where neither end belongs to the class.
pub proof fn lemma_nothing_to_trim(s: Seq<char>, class: CharClass)
    requires
        s.len() > 0 ==> !class.has(s[0]) && !class.has(s.last()),
    ensures
        trim_class(s, class) == s,
{
}

/// After a trim neither end belongs to the class.
pub proof fn lemma_ends_after_trim(s: Seq<char>, class: CharClass)
    ensures
        trim_class(s, class).len() > 0 ==> !class.has(trim_class(s, class)[0]) && !class.has(
            trim_class(s, class).last(),
        ),
{
    let started = trim_start(s, class);
    lemma_trim_start_shape(s, class);
    lemma_trim_end_shape(started, class);
    if trim_class(s, class).len() > 0 {
        assert(trim_class(s, class)[0] == started[0]);
    }
}

/// `n` times the character `c`.
pub open spec fn repeated(c: char, n: nat) -> Seq<char> {
    Seq::new(n, |i: int| c)
}

proof fn lemma_trim_start_before(c: char, n: nat, s: Seq<char>)
    ensures
        trim_start(repeated(c, n) + s, CharClass::Only(c)) == trim_start(s, CharClass::Only(c)),
    decreases n,
{
    let whole = repeated(c, n) + s;
    if n == 0 {
        assert(whole =~= s);
    } else {
        assert(whole[0] == c);
        assert(whole.skip(1) =~= repeated(c, (n - 1) as nat) + s);
        lemma_trim_start_before(c, (n - 1) as nat, s);
    }
}

proof fn lemma_trim_end_of_padded(c: char, n: nat, s: Seq<char>)
    ensures
        trim_end(s + repeated(c, n), CharClass::Only(c)) == trim_end(s, CharClass::Only(c)),
    decreases n,
{
    let whole = s + repeated(c, n);
    if n == 0 {
        assert(whole =~= s);
    } else {
        assert(whole.last() == c);
        assert(whole.drop_last() =~= s + repeated(c, (n - 1) as nat));
        lemma_trim_end_of_padded(c, (n - 1) as nat, s);
    }
}

proof fn lemma_trim_of_padded_end(c: char, n: nat, s: Seq<char>)
    ensures
        trim_class(s + repeated(c, n), CharClass::Only(c)) == trim_class(s, CharClass::Only(c)),
    decreases s.len(),
{
    let whole = s + repeated(c, n);
    if s.len() == 0 {
        assert(whole =~= repeated(c, n) + s);
        lemma_trim_start_before(c, n, s);
    } else if s[0] == c {
        assert(whole[0] == c);
        assert(whole.skip(1) =~= s.skip(1) + repeated(c, n));
        lemma_trim_of_padded_end(c, n, s.skip(1));
    } else {
        assert(whole[0] == s[0]);
        lemma_trim_end_of_padded(c, n, s);
    }
}

/// What a trim removes makes no difference around a text.
pub proof fn lemma_trim_of_padded(c: char, before: nat, s: Seq<char>, after: nat)
    ensures
        trim_class(repeated(c, before) + s + repeated(c, after), CharClass::Only(c))
            == trim_class(s, CharClass::Only(c)),
{
    let rest = s + repeated(c, after);
    assert(repeated(c, before) + s + repeated(c, after) =~= repeated(c, before) + rest);
    lemma_trim_start_before(c, before, rest);
    lemma_trim_of_padded_end(c, after, s);
}

/// A trim at the end leaves what stands before a text and does not end with
/// white space.
pub proof fn lemma_trim_end_after(head: Seq<char>, s: Seq<char>)
    requires
        head.len() > 0,
        !is_white_space(head.last()),
    ensures
        trim_end(head + s, CharClass::WhiteSpace) == head + trim_end(s, CharClass::WhiteSpace),
    decreases s.len(),
{
    let whole = head + s;
    if s.len() == 0 {
        assert(whole =~= head);
        assert(head + s =~= head);
    } else {
        assert(whole.last() == s.last());
        assert(whole.drop_last() =~= head + s.drop_last());
        lemma_trim_end_after(head, s.drop_last());
    }
}

pub proof fn lemma_word_len_bound(s: Seq<char>)
    ensures
        word_len(s) <= s.len(),
        s.len() > 0 && !is_white_space(s[0]) ==> word_len(s) > 0,
        word_len(s) < s.len() ==> is_white_space(s[word_len(s) as int]),
        forall|i: int| 0 <= i < word_len(s) ==> !is_white_space(#[trigger] s[i]),
    decreases s.len(),
{
    if s.len() == 0 || is_white_space(s[0]) {
    } else {
        lemma_word_len_bound(s.skip(1));
        assert forall|i: int| 0 <= i < word_len(s) implies !is_white_space(#[trigger] s[i]) by {
            if i > 0 {
                assert(s[i] == s.skip(1)[i - 1]);
            }
        }
    }
}

/// A run without white space that white space or the end follows is the word.
proof fn lemma_word_len_is(s: Seq<char>, k: int)
    requires
        0 <= k <= s.len(),
        forall|i: int| 0 <= i < k ==> !is_white_space(#[trigger] s[i]),
        k < s.len() ==> is_white_space(s[k]),
    ensures
        word_len(s) == k,
    decreases s.len(),
{
    if k > 0 {
        assert forall|i: int| 0 <= i < k - 1 implies !is_white_space(#[trigger] s.skip(1)[i]) by {
            assert(s.skip(1)[i] == s[i + 1]);
        }
        lemma_word_len_is(s.skip(1), k - 1);
    }
}

/// The text of an optional string.
pub open spec fn opt_text(text: Option<String>) -> Option<Seq<char>> {
    match text {
        Some(t) => Some(t@),
        None => None,
    }
}

/// A copy of an optional string.
pub fn copy_text(text: &Option<String>) -> (copy: Option<String>)
    ensures
        opt_text(copy) == opt_text(*text),
{
    match text {
        Some(t) => Some(t.clone()),
        None => None,
    }
}

/// The characters of `s`.
pub fn chars_of(s: &str) -> (chars: Vec<char>)
    ensures
        chars@ == s@,
{
    let mut chars: Vec<char> = Vec::new();
    for c in it: s.chars()
        invariant
            it.seq() == s@,
            chars@ == s@.take(it.index()),
    {
        chars.push(c);
        assert(chars@ == s@.take(it.index() + 1));
    }
    assert(s@.take(s@.len() as int) == s@);
    chars
}

/// The string made of `chars`.
pub fn string_of(chars: &Vec<char>) -> (s: String)
    ensures
        s@ == chars@,
{
    let mut s: String = String::new();
    let mut i: usize = 0;
    while i < chars.len()
        invariant
            i <= chars.len(),
            s@ == chars@.take(i as int),
        decreases chars.len() - i,
    {
        s.push(chars[i]);
        i = i + 1;
        assert(chars@.take(i as int) == chars@.take(i - 1).push(chars@[i - 1]));
    }
    assert(chars@.take(chars@.len() as int) == chars@);
    s
}

/// The characters of `chars` from `from` up to `to`.
pub fn slice_of(chars: &Vec<char>, from: usize, to: usize) -> (part: Vec<char>)
    requires
        from <= to <= chars@.len(),
    ensures
        part@ == chars@.subrange(from as int, to as int),
{
    let mut part: Vec<char> = Vec::new();
    let mut i: usize = from;
    while i < to
        invariant
            from <= i <= to <= chars@.len(),
            part@ == chars@.subrange(from as int, i as int),
        decreases to - i,
    {
        part.push(chars[i]);
        i = i + 1;
        assert(chars@.subrange(from as int, i as int) == chars@.subrange(
            from as int,
            i - 1,
        ).push(chars@[i - 1]));
    }
    part
}

/// `chars` without trailing characters of `class`.
pub fn trim_end_chars(chars: &Vec<char>, class: CharClass) -> (trimmed: Vec<char>)
    ensures
        trimmed@ == trim_end(chars@, class),
{
    let mut end: usize = chars.len();
    while end > 0 && class.matches(chars[end - 1])
        invariant
            end <= chars.len(),
            forall|i: int| end <= i < chars@.len() ==> class.has(#[trigger] chars@[i]),
        decreases end,
    {
        end = end - 1;
    }
    proof {
        lemma_trim_end_is(chars@, class, end as int);
    }
    slice_of(chars, 0, end)
}

/// `chars` without leading and trailing characters of `class`.
pub fn trim_chars(chars: &Vec<char>, class: CharClass) -> (trimmed: Vec<char>)
    ensures
        trimmed@ == trim_class(chars@, class),
{
    let mut start: usize = 0;
    while start < chars.len() && class.matches(chars[start])
        invariant
            start <= chars.len(),
            forall|i: int| 0 <= i < start ==> class.has(#[trigger] chars@[i]),
        decreases chars.len() - start,
    {
        start = start + 1;
    }
    proof {
        lemma_trim_start_is(chars@, class, start as int);
    }
    let rest: Vec<char> = slice_of(chars, start, chars.len());
    trim_end_chars(&rest, class)
}

/// `s` without leading and trailing white space.
pub fn trim_str(s: &str) -> (trimmed: String)
    ensures
        trimmed@ == trim(s@),
{
    string_of(&trim_chars(&chars_of(s), CharClass::WhiteSpace))
}

/// Appends `more` to `chars`.
pub fn append_chars(chars: &mut Vec<char>, more: &Vec<char>)
    ensures
        final(chars)@ == old(chars)@ + more@,
{
    let mut i: usize = 0;
    while i < more.len()
        invariant
            i <= more.len(),
            chars@ == old(chars)@ + more@.take(i as int),
        decreases more.len() - i,
    {
        chars.push(more[i]);
        i = i + 1;
        assert(more@.take(i as int) == more@.take(i - 1).push(more@[i - 1]));
    }
    assert(more@.take(more@.len() as int) == more@);
}

/// The two texts, one after the other.
pub fn join_two(first: &str, second: &str) -> (text: String)
    ensures
        text@ == first@ + second@,
{
    let mut chars: Vec<char> = chars_of(first);
    append_chars(&mut chars, &chars_of(second));
    string_of(&chars)
}

/// Whether the two texts are the same.
pub fn same_chars(a: &Vec<char>, b: &Vec<char>) -> (same: bool)
    ensures
        same == (a@ == b@),
{
    if a.len() != b.len() {
        return false;
    }
    let mut i: usize = 0;
    while i < a.len()
        invariant
            i <= a.len(),
            a.len() == b.len(),
            forall|j: int| 0 <= j < i ==> a@[j] == b@[j],
        decreases a.len() - i,
    {
        if a[i] != b[i] {
            return false;
        }
        i = i + 1;
    }
    assert(a@ =~= b@);
    true
}

/// Whether the two texts are the same.
pub fn same_text(a: &str, b: &str) -> (same: bool)
    ensures
        same == (a@ == b@),
{
    same_chars(&chars_of(a), &chars_of(b))
}

/// `c` with an ASCII capital letter made small.
pub fn lower_char(c: char) -> (small: char)
    ensures
        small == ascii_lower(c),
{
    if 'A' <= c && c <= 'Z' {
        ((c as u8) + 32) as char
    } else {
        c
    }
}

/// `chars` with every ASCII capital letter made small.
pub fn lower_chars(chars: &Vec<char>) -> (small: Vec<char>)
    ensures
        small@ == lower(chars@),
{
    let mut small: Vec<char> = Vec::new();
    let mut i: usize = 0;
    while i < chars.len()
        invariant
            i <= chars.len(),
            small@ == lower(chars@).take(i as int),
        decreases chars.len() - i,
    {
        small.push(lower_char(chars[i]));
        i = i + 1;
        assert(lower(chars@).take(i as int) == lower(chars@).take(i - 1).push(
            lower(chars@)[i - 1],
        ));
    }
    assert(lower(chars@).take(chars@.len() as int) == lower(chars@));
    small
}

/// Whether the two texts differ at most in the case of ASCII letters.
pub fn same_ignoring_ascii_case(a: &str, b: &str) -> (same: bool)
    ensures
        same == (lower(a@) == lower(b@)),
{
    same_chars(&lower_chars(&chars_of(a)), &lower_chars(&chars_of(b)))
}

/// Whether `part` stands in `s` at position `at`.
pub fn stands_at(s: &Vec<char>, part: &Vec<char>, at: usize) -> (found: bool)
    ensures
        found == occurs_at(s@, part@, at as int),
{
    if at > s.len() || part.len() > s.len() - at {
        return false;
    }
    let mut i: usize = 0;
    while i < part.len()
        invariant
            i <= part.len(),
            at + part.len() <= s.len(),
            forall|j: int| 0 <= j < i ==> s@[at + j] == part@[j],
        decreases part.len() - i,
    {
        if s[at + i] != part[i] {
            assert(s@.subrange(at as int, at + part@.len())[i as int] != part@[i as int]);
            return false;
        }
        i = i + 1;
    }
    assert(s@.subrange(at as int, at + part@.len()) =~= part@);
    true
}

/// Whether `part` stands somewhere in `s`.
pub fn contains_text(s: &Vec<char>, part: &str) -> (found: bool)
    ensures
        found == contains(s@, part@),
{
    let wanted: Vec<char> = chars_of(part);
    let mut at: usize = 0;
    while at < s.len() && wanted.len() <= s.len() - at
        invariant
            wanted@ == part@,
            at <= s.len(),
            forall|j: int| 0 <= j < at ==> !occurs_at(s@, part@, j),
        decreases s.len() - at,
    {
        if stands_at(s, &wanted, at) {
            return true;
        }
        at = at + 1;
    }
    if stands_at(s, &wanted, at) {
        return true;
    }
    assert forall|j: int| !occurs_at(s@, part@, j) by {}
    false
}

/// The words of `chars`, joined by single spaces.
pub fn collapse_chars(chars: &Vec<char>) -> (collapsed: Vec<char>)
    ensures
        collapsed@ == collapse(chars@),
{
    let mut collapsed: Vec<char> = Vec::new();
    let mut first: bool = true;
    let mut at: usize = 0;
    let ghost mut done: Seq<Seq<char>> = seq![];
    assert(chars@.skip(0) == chars@);
    assert(done + words(chars@) =~= words(chars@));
    while at < chars.len()
        invariant
            at <= chars.len(),
            collapsed@ == join(done),
            first == (done.len() == 0),
            words(chars@) == done + words(chars@.skip(at as int)),
        decreases chars.len() - at,
    {
        let ghost from = at as int;
        let ghost rest = chars@.skip(from);
        let mut start: usize = at;
        while start < chars.len() && is_whitespace(chars[start])
            invariant
                from == at <= start <= chars.len(),
                forall|i: int| from <= i < start ==> is_white_space(#[trigger] chars@[i]),
            decreases chars.len() - start,
        {
            start = start + 1;
        }
        let ghost blank = CharClass::WhiteSpace;
        proof {
            assert forall|i: int| 0 <= i < start - from implies blank.has(#[trigger] rest[i]) by {
                assert(rest[i] == chars@[from + i]);
            }
            lemma_trim_start_is(rest, blank, start - from);
            assert(rest.skip(start - from) == chars@.skip(start as int));
        }
        if start == chars.len() {
            assert(words(rest) =~= seq![]);
            assert(words(chars@) =~= done);
            return collapsed;
        }
        let mut end: usize = start;
        while end < chars.len() && !is_whitespace(chars[end])
            invariant
                start <= end <= chars.len(),
                forall|i: int| start <= i < end ==> !is_white_space(#[trigger] chars@[i]),
            decreases chars.len() - end,
        {
            end = end + 1;
        }
        let word: Vec<char> = slice_of(chars, start, end);
        proof {
            let t = chars@.skip(start as int);
            assert forall|i: int| 0 <= i < end - start implies !is_white_space(
                #[trigger] t[i],
            ) by {
                assert(t[i] == chars@[start + i]);
            }
            lemma_word_len_is(t, end - start);
            assert(t.take(end - start) == word@);
            assert(t.skip(end - start) == chars@.skip(end as int));
            assert(words(rest) == seq![word@] + words(chars@.skip(end as int)));
            assert(done + words(rest) =~= done.push(word@) + words(chars@.skip(end as int)));
            assert(done.push(word@).drop_last() == done);
        }
        if !first {
            collapsed.push(' ');
        }
        append_chars(&mut collapsed, &word);
        proof {
            assert(collapsed@ =~= join(done.push(word@)));
            done = done.push(word@);
        }
        first = false;
        at = end;
    }
    assert(words(chars@.skip(at as int)) =~= seq![]);
    assert(words(chars@) =~= done);
    collapsed
}

/// Exactly the characters with the Unicode `White_Space` property are white
/// space: the twenty-five code points named here.
pub proof fn law_white_space(c: char)
    ensures
        is_white_space(c) <==> seq![
            0x9u32, 0xa, 0xb, 0xc, 0xd, 0x20, 0x85, 0xa0, 0x1680, 0x2000, 0x2001, 0x2002, 0x2003,
            0x2004, 0x2005, 0x2006, 0x2007, 0x2008, 0x2009, 0x200a, 0x2028, 0x2029, 0x202f, 0x205f,
            0x3000,
        ].contains(c as u32),
{
    let all = seq![
        0x9u32, 0xa, 0xb, 0xc, 0xd, 0x20, 0x85, 0xa0, 0x1680, 0x2000, 0x2001, 0x2002, 0x2003,
        0x2004, 0x2005, 0x2006, 0x2007, 0x2008, 0x2009, 0x200a, 0x2028, 0x2029, 0x202f, 0x205f,
        0x3000,
    ];
    let n = c as u32;
    assert(all[0] == 0x9 && all[1] == 0xa && all[2] == 0xb && all[3] == 0xc && all[4] == 0xd);
    assert(all[5] == 0x20 && all[6] == 0x85 && all[7] == 0xa0 && all[8] == 0x1680);
    assert(all[9] == 0x2000 && all[10] == 0x2001 && all[11] == 0x2002 && all[12] == 0x2003);
    assert(all[13] == 0x2004 && all[14] == 0x2005 && all[15] == 0x2006 && all[16] == 0x2007);
    assert(all[17] == 0x2008 && all[18] == 0x2009 && all[19] == 0x200a && all[20] == 0x2028);
    assert(all[21] == 0x2029 && all[22] == 0x202f && all[23] == 0x205f && all[24] == 0x3000);
}

/// A trim removes what stands around a text and belongs to the class, and
/// nothing of the text itself.
pub proof fn law_trim_keeps_the_core(
    class: CharClass,
    before: Seq<char>,
    core: Seq<char>,
    after: Seq<char>,
)
    requires
        forall|i: int| 0 <= i < before.len() ==> class.has(#[trigger] before[i]),
        forall|i: int| 0 <= i < after.len() ==> class.has(#[trigger] after[i]),
        core.len() > 0 ==> !class.has(core[0]) && !class.has(core.last()),
    ensures
        trim_class(before + core + after, class) == core,
        trim_end(core + after, class) == core,
{
    let whole = before + core + after;
    let rest = core + after;
    assert forall|i: int| core.len() <= i < rest.len() implies class.has(#[trigger] rest[i]) by {
        assert(rest[i] == after[i - core.len()]);
    }
    lemma_trim_end_is(rest, class, core.len() as int);
    assert(rest.take(core.len() as int) =~= core);
    if core.len() > 0 {
        assert forall|i: int| 0 <= i < before.len() implies class.has(#[trigger] whole[i]) by {
            assert(whole[i] == before[i]);
        }
        assert(whole[before.len() as int] == core[0]);
        lemma_trim_start_is(whole, class, before.len() as int);
        assert(whole.skip(before.len() as int) =~= rest);
    } else {
        assert forall|i: int| 0 <= i < whole.len() implies class.has(#[trigger] whole[i]) by {
            if i < before.len() {
                assert(whole[i] == before[i]);
            } else {
                assert(whole[i] == after[i - before.len()]);
            }
        }
        lemma_trim_start_is(whole, class, whole.len() as int);
        assert(whole.skip(whole.len() as int) =~= seq![]);
        assert(core =~= seq![]);
    }
}

/// A trim removes the white space around a text, and nothing of the text
/// itself.
pub proof fn law_trim_removes_white_space(before: Seq<char>, core: Seq<char>, after: Seq<char>)
    requires
        forall|i: int| 0 <= i < before.len() ==> is_white_space(#[trigger] before[i]),
        forall|i: int| 0 <= i < after.len() ==> is_white_space(#[trigger] after[i]),
        core.len() > 0 ==> !is_white_space(core[0]) && !is_white_space(core.last()),
    ensures
        trim(before + core + after) == core,
{
    law_trim_keeps_the_core(CharClass::WhiteSpace, before, core, after);
}

/// A trim of white space goes by white space, and one of a character by that
/// character alone.
pub proof fn law_classes(c: char, d: char)
    ensures
        CharClass::WhiteSpace.has(c) == is_white_space(c),
        CharClass::Only(d).has(c) == (c == d),
{
}

proof fn lemma_trim_start_of_both(a: Seq<char>, b: Seq<char>, class: CharClass)
    ensures
        trim_start(a + b, class) == if trim_start(a, class).len() == 0 {
            trim_start(b, class)
        } else {
            trim_start(a, class) + b
        },
    decreases a.len(),
{
    let both = a + b;
    if a.len() == 0 {
        assert(both =~= b);
    } else if class.has(a[0]) {
        assert(both[0] == a[0]);
        assert(both.skip(1) =~= a.skip(1) + b);
        lemma_trim_start_of_both(a.skip(1), b, class);
    } else {
        assert(both[0] == a[0]);
    }
}

/// A text without white space is one word, and an empty one has none.
pub proof fn law_a_run_is_one_word(run: Seq<char>)
    requires
        forall|i: int| 0 <= i < run.len() ==> !is_white_space(#[trigger] run[i]),
    ensures
        words(run) == if run.len() == 0 { Seq::<Seq<char>>::empty() } else { seq![run] },
{
    if run.len() > 0 {
        lemma_word_len_is(run, run.len() as int);
        assert(run.take(run.len() as int) =~= run);
        assert(run.skip(run.len() as int) =~= seq![]);
        assert(words(after_word(run)) =~= seq![]);
        assert(words(run) =~= seq![run]);
    } else {
        assert(words(run) =~= seq![]);
    }
}

/// White space parts words: the words of a text are those before it and those
/// after it.
pub proof fn law_white_space_parts_words(a: Seq<char>, space: char, b: Seq<char>)
    requires
        is_white_space(space),
    ensures
        words(a + seq![space] + b) == words(a) + words(b),
    decreases a.len(),
{
    let class = CharClass::WhiteSpace;
    let tail = seq![space] + b;
    let whole = a + seq![space] + b;
    assert(whole =~= a + tail);
    lemma_trim_start_of_both(a, tail, class);
    assert(tail.skip(1) =~= b);
    let t = trim_start(a, class);
    if t.len() == 0 {
        assert(trim_start(whole, class) == trim_start(b, class));
        assert(after_word(whole) == after_word(b));
        assert(words(a) =~= seq![]);
        assert(words(whole) == words(b));
        assert(words(a) + words(b) =~= words(b));
    } else {
        let n = word_len(t) as int;
        lemma_trim_start_shape(a, class);
        lemma_word_len_bound(t);
        let long = t + tail;
        assert(trim_start(whole, class) == long);
        assert forall|i: int| 0 <= i < n implies !is_white_space(#[trigger] long[i]) by {
            assert(long[i] == t[i]);
        }
        assert(long[n] == if n < t.len() { t[n] } else { space });
        lemma_word_len_is(long, n);
        assert(long.take(n) =~= t.take(n));
        let rest = t.skip(n);
        assert(long.skip(n) =~= rest + seq![space] + b);
        law_white_space_parts_words(rest, space, b);
        assert(words(whole) =~= words(a) + words(b));
    }
}

/// Joining puts one space between neighbours and nothing else anywhere.
pub proof fn law_join(a: Seq<Seq<char>>, b: Seq<Seq<char>>, part: Seq<char>)
    ensures
        join(Seq::<Seq<char>>::empty()) == Seq::<char>::empty(),
        join(seq![part]) == part,
        a.len() > 0 && b.len() > 0 ==> join(a + b) == join(a) + seq![' '] + join(b),
    decreases b.len(),
{
    let both = a + b;
    if a.len() > 0 && b.len() == 1 {
        assert(both.drop_last() =~= a);
        assert(both.last() == b[0]);
    } else if a.len() > 0 && b.len() > 1 {
        law_join(a, b.drop_last(), part);
        assert(both.drop_last() =~= a + b.drop_last());
        assert(both.last() == b.last());
        assert(join(both) =~= join(a) + seq![' '] + join(b));
    }
    assert(join(Seq::<Seq<char>>::empty()) =~= Seq::<char>::empty());
}

/// Collapsing a text joins its words.
pub proof fn law_collapse_joins_the_words(text: Seq<char>)
    ensures
        collapse(text) == join(words(text)),
{
}

/// Making letters small changes the twenty-six ASCII capitals and no other
/// character.
pub proof fn law_lower(s: Seq<char>)
    ensures
        lower(s).len() == s.len(),
        forall|i: int|
            0 <= i < s.len() ==> (#[trigger] lower(s)[i]) as u32 == if 65 <= s[i] as u32 <= 90 {
                s[i] as u32 + 32
            } else {
                s[i] as u32 as int
            },
{
}

/// A text contains each of its parts, and what it contains is a part of it.
pub proof fn law_contains(a: Seq<char>, part: Seq<char>, b: Seq<char>, text: Seq<char>)
    ensures
        contains(a + part + b, part),
        occurs_at(part + b, part, 0),
        occurs_at(a + part + b, part, a.len() as int),
        occurs_at(text, part, 0) ==> text == part + text.skip(part.len() as int),
        contains(text, part) ==> exists|before: Seq<char>, after: Seq<char>|
            text == #[trigger] (before + part + after),
{
    let whole = a + part + b;
    assert(whole.subrange(a.len() as int, a.len() as int + part.len()) =~= part);
    assert(occurs_at(whole, part, a.len() as int));
    assert((part + b).subrange(0, part.len() as int) =~= part);
    if occurs_at(text, part, 0) {
        assert(text =~= text.subrange(0, part.len() as int) + text.skip(part.len() as int));
    }
    if contains(text, part) {
        let at = choose|at: int| occurs_at(text, part, at);
        let before = text.take(at);
        let after = text.skip(at + part.len());
        assert(text =~= before + text.subrange(at, at + part.len()) + after);
    }
}

/// A part stands where its characters are, one by one.
pub proof fn law_parts_stand_where_their_characters_are(s: Seq<char>, part: Seq<char>, at: int)
    ensures
        occurs_at(s, part, at) <==> 0 <= at && at + part.len() <= s.len() && (forall|i: int|
            0 <= i < part.len() ==> s[at + i] == #[trigger] part[i]),
{
    if 0 <= at && at + part.len() <= s.len() {
        let cut = s.subrange(at, at + part.len());
        if cut == part {
            assert forall|i: int| 0 <= i < part.len() implies s[at + i] == #[trigger] part[i] by {
                assert(cut[i] == part[i]);
            }
        }
        if forall|i: int| 0 <= i < part.len() ==> s[at + i] == #[trigger] part[i] {
            assert(cut =~= part);
        }
    }
}

} // verus!
