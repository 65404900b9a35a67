//! The complete lines of a log that is still being written.

use vstd::prelude::*;

#[allow(unused_imports)]
use vstd::utf8::{decode_utf8, valid_utf8};

verus! {

/// The byte that ends a line.
pub const NEWLINE: u8 = 10;

/// The number of bytes before the first newline.
pub open spec fn line_end(bytes: Seq<u8>) -> nat
    decreases bytes.len(),
{
    if bytes.len() == 0 || bytes[0] == NEWLINE {
        0
    } else {
        1 + line_end(bytes.skip(1))
    }
}

/// The lines that a newline ends, in order, without their newlines.
pub open spec fn complete_lines(bytes: Seq<u8>) -> Seq<Seq<u8>>
    decreases bytes.len(),
{
    let n = line_end(bytes) as int;
    if n >= bytes.len() {
        seq![]
    } else {
        seq![bytes.take(n)] + complete_lines(bytes.skip(n + 1))
    }
}

/// The number of bytes up to the last newline, which counts.
pub open spec fn complete_len(bytes: Seq<u8>) -> nat
    decreases bytes.len(),
{
    if bytes.len() == 0 || bytes.last() == NEWLINE {
        bytes.len()
    } else {
        complete_len(bytes.drop_last())
    }
}

/// The text that `String::from_utf8_lossy` reads in bytes, with replacement
/// characters where they are not UTF-8.
pub uninterp spec fn lossy_text(bytes: Seq<u8>) -> Seq<char>;

/// The texts of the complete lines. A newline is no part of any longer
/// character, so that each line can be decoded by itself.
pub open spec fn line_texts(bytes: Seq<u8>) -> Seq<Seq<char>> {
    complete_lines(bytes).map_values(|line: Seq<u8>| lossy_text(line))
}

/// What a list of strings holds.
pub open spec fn texts(lines: Seq<String>) -> Seq<Seq<char>> {
    lines.map_values(|line: String| line@)
}

/// What a list of byte strings holds.
pub open spec fn byte_texts(lines: Seq<Vec<u8>>) -> Seq<Seq<u8>> {
    lines.map_values(|line: Vec<u8>| line@)
}

/// `String::from_utf8_lossy`. Bytes that are UTF-8 are decoded as they are.
/// Where they are not, the text is named, not described: which replacement
/// characters it has is left unsaid.
#[verifier::external_body]
fn decode_lossily(bytes: &Vec<u8>) -> (text: String)
    ensures
        text@ == lossy_text(bytes@),
        valid_utf8(bytes@) ==> text@ == decode_utf8(bytes@),
{
    String::from_utf8_lossy(bytes.as_slice()).into_owned()
}

proof fn lemma_line_end_is(bytes: Seq<u8>, k: int)
    requires
        0 <= k <= bytes.len(),
        forall|i: int| 0 <= i < k ==> #[trigger] bytes[i] != NEWLINE,
        k < bytes.len() ==> bytes[k] == NEWLINE,
    ensures
        line_end(bytes) == k,
    decreases bytes.len(),
{
    if k > 0 {
        assert forall|i: int| 0 <= i < k - 1 implies #[trigger] bytes.skip(1)[i] != NEWLINE by {
            assert(bytes.skip(1)[i] == bytes[i + 1]);
        }
        lemma_line_end_is(bytes.skip(1), k - 1);
    }
}

proof fn lemma_line_end(bytes: Seq<u8>)
    ensures
        line_end(bytes) <= bytes.len(),
        line_end(bytes) < bytes.len() ==> bytes[line_end(bytes) as int] == NEWLINE,
        forall|i: int| 0 <= i < line_end(bytes) ==> #[trigger] bytes[i] != NEWLINE,
    decreases bytes.len(),
{
    if bytes.len() > 0 && bytes[0] != NEWLINE {
        lemma_line_end(bytes.skip(1));
        assert forall|i: int| 0 <= i < line_end(bytes) implies #[trigger] bytes[i] != NEWLINE by {
            if i > 0 {
                assert(bytes[i] == bytes.skip(1)[i - 1]);
            }
        }
    }
}

proof fn lemma_complete_len_is(bytes: Seq<u8>, k: int)
    requires
        0 <= k <= bytes.len(),
        forall|i: int| k <= i < bytes.len() ==> #[trigger] bytes[i] != NEWLINE,
        k > 0 ==> bytes[k - 1] == NEWLINE,
    ensures
        complete_len(bytes) == k,
    decreases bytes.len(),
{
    if k < bytes.len() {
        assert(bytes[bytes.len() - 1] != NEWLINE);
        assert forall|i: int| k <= i < bytes.drop_last().len() implies #[trigger] bytes.drop_last()[i]
            != NEWLINE by {
            assert(bytes.drop_last()[i] == bytes[i]);
        }
        lemma_complete_len_is(bytes.drop_last(), k);
    }
}

proof fn lemma_complete_len(bytes: Seq<u8>)
    ensures
        complete_len(bytes) <= bytes.len(),
        complete_len(bytes) > 0 ==> bytes[complete_len(bytes) - 1] == NEWLINE,
        forall|i: int| complete_len(bytes) <= i < bytes.len() ==> #[trigger] bytes[i] != NEWLINE,
    decreases bytes.len(),
{
    if bytes.len() > 0 && bytes.last() != NEWLINE {
        lemma_complete_len(bytes.drop_last());
        assert forall|i: int| complete_len(bytes) <= i < bytes.len() implies #[trigger] bytes[i]
            != NEWLINE by {
            if i < bytes.len() - 1 {
                assert(bytes[i] == bytes.drop_last()[i]);
            }
        }
    }
}

/// Without a complete line no bytes are complete.
pub proof fn lemma_no_lines(bytes: Seq<u8>)
    requires
        line_texts(bytes).len() == 0,
    ensures
        complete_len(bytes) == 0,
{
    lemma_line_end(bytes);
    assert(complete_lines(bytes).len() == 0);
    lemma_complete_len_is(bytes, 0);
}

/// The complete bytes after the first line are those of the rest.
proof fn lemma_complete_len_after_line(bytes: Seq<u8>)
    requires
        line_end(bytes) < bytes.len(),
    ensures
        complete_len(bytes) == line_end(bytes) + 1 + complete_len(
            bytes.skip(line_end(bytes) as int + 1),
        ),
{
    let n = line_end(bytes) as int;
    let rest = bytes.skip(n + 1);
    let k = n + 1 + complete_len(rest) as int;
    lemma_line_end(bytes);
    lemma_complete_len(rest);
    assert forall|i: int| k <= i < bytes.len() implies #[trigger] bytes[i] != NEWLINE by {
        assert(bytes[i] == rest[i - (n + 1)]);
    }
    if complete_len(rest) > 0 {
        assert(bytes[k - 1] == rest[complete_len(rest) - 1]);
    }
    lemma_complete_len_is(bytes, k);
}

/// A log that is read, grows by `more`, and is read on from where the first
/// reading stopped, gives the same lines, and stops at the same place, as the
/// grown log read at once.
pub proof fn law_reading_in_parts(bytes: Seq<u8>, more: Seq<u8>)
    ensures
        complete_len(bytes) <= bytes.len(),
        ({
            let rest = bytes.skip(complete_len(bytes) as int) + more;
            &&& complete_lines(bytes + more) == complete_lines(bytes) + complete_lines(rest)
            &&& line_texts(bytes + more) == line_texts(bytes) + line_texts(rest)
            &&& complete_len(bytes + more) == complete_len(bytes) + complete_len(rest)
        }),
    decreases bytes.len(),
{
    lemma_complete_len(bytes);
    lemma_line_end(bytes);
    let n = line_end(bytes) as int;
    let whole = bytes + more;
    let rest = bytes.skip(complete_len(bytes) as int) + more;
    if n >= bytes.len() {
        lemma_complete_len_is(bytes, 0);
        assert(rest == whole);
        assert(complete_lines(bytes) + complete_lines(rest) =~= complete_lines(rest));
    } else {
        let tail = bytes.skip(n + 1);
        assert forall|i: int| 0 <= i < n implies #[trigger] whole[i] != NEWLINE by {
            assert(whole[i] == bytes[i]);
        }
        lemma_line_end_is(whole, n);
        assert(whole.skip(n + 1) == tail + more);
        assert(whole.take(n) == bytes.take(n));
        law_reading_in_parts(tail, more);
        lemma_complete_len_after_line(bytes);
        lemma_complete_len_after_line(whole);
        assert(tail.skip(complete_len(tail) as int) == bytes.skip(complete_len(bytes) as int));
        assert(complete_lines(whole) =~= complete_lines(bytes) + complete_lines(rest));
    }
    assert(line_texts(whole) =~= line_texts(bytes) + line_texts(rest));
}

/// The lines of a log that ends with a newline, put together again, each with
/// its newline.
pub open spec fn unsplit(lines: Seq<Seq<u8>>) -> Seq<u8>
    decreases lines.len(),
{
    if lines.len() == 0 {
        seq![]
    } else {
        lines[0] + seq![NEWLINE] + unsplit(lines.skip(1))
    }
}

/// No byte up to the last newline is lost: the complete lines, each with its
/// newline, are the bytes that count as read.
pub proof fn law_lines_lose_nothing(bytes: Seq<u8>)
    ensures
        complete_len(bytes) <= bytes.len(),
        unsplit(complete_lines(bytes)) == bytes.take(complete_len(bytes) as int),
    decreases bytes.len(),
{
    lemma_complete_len(bytes);
    lemma_line_end(bytes);
    let n = line_end(bytes) as int;
    if n >= bytes.len() {
        lemma_complete_len_is(bytes, 0);
        assert(bytes.take(0) =~= seq![]);
    } else {
        let tail = bytes.skip(n + 1);
        law_lines_lose_nothing(tail);
        lemma_complete_len_after_line(bytes);
        let lines = complete_lines(bytes);
        assert(lines.skip(1) =~= complete_lines(tail));
        assert(unsplit(lines) =~= bytes.take(complete_len(bytes) as int));
    }
}

/// The bytes of `buf` from `from` up to `to`.
fn bytes_between(buf: &Vec<u8>, from: usize, to: usize) -> (part: Vec<u8>)
    requires
        from <= to <= buf@.len(),
    ensures
        part@ == buf@.subrange(from as int, to as int),
{
    let mut part: Vec<u8> = Vec::new();
    let mut i: usize = from;
    while i < to
        invariant
            from <= i <= to <= buf@.len(),
            part@ == buf@.subrange(from as int, i as int),
        decreases to - i,
    {
        part.push(buf[i]);
        i = i + 1;
        assert(buf@.subrange(from as int, i as int) == buf@.subrange(from as int, i - 1).push(
            buf@[i - 1],
        ));
    }
    part
}

/// The complete lines of `buf`, and the number of bytes that they take up.
pub fn split_lines(buf: &Vec<u8>) -> (split: (Vec<Vec<u8>>, usize))
    ensures
        byte_texts(split.0@) == complete_lines(buf@),
        split.1 == complete_len(buf@),
        split.1 <= buf@.len(),
{
    let mut lines: Vec<Vec<u8>> = Vec::new();
    let mut start: usize = 0;
    let mut i: usize = 0;
    assert(buf@.skip(0) == buf@);
    assert(byte_texts(lines@) + complete_lines(buf@) =~= complete_lines(buf@));
    while i < buf.len()
        invariant
            start <= i <= buf@.len(),
            start > 0 ==> buf@[start - 1] == NEWLINE,
            forall|j: int| start <= j < i ==> #[trigger] buf@[j] != NEWLINE,
            complete_lines(buf@) == byte_texts(lines@) + complete_lines(buf@.skip(start as int)),
        decreases buf.len() - i,
    {
        if buf[i] == NEWLINE {
            let line: Vec<u8> = bytes_between(buf, start, i);
            proof {
                let rest = buf@.skip(start as int);
                assert forall|j: int| 0 <= j < i - start implies #[trigger] rest[j] != NEWLINE by {
                    assert(rest[j] == buf@[start + j]);
                }
                lemma_line_end_is(rest, i - start);
                assert(rest.take(i - start) == line@);
                assert(rest.skip(i - start + 1) == buf@.skip(i + 1));
                let before = byte_texts(lines@);
                assert(byte_texts(lines@.push(line)) =~= before.push(line@));
                assert(before + complete_lines(rest) =~= before.push(line@) + complete_lines(
                    buf@.skip(i + 1),
                ));
            }
            lines.push(line);
            start = i + 1;
        }
        i = i + 1;
    }
    proof {
        let rest = buf@.skip(start as int);
        assert forall|j: int| 0 <= j < rest.len() implies #[trigger] rest[j] != NEWLINE by {
            assert(rest[j] == buf@[start + j]);
        }
        lemma_line_end_is(rest, rest.len() as int);
        assert(complete_lines(buf@) =~= byte_texts(lines@));
        lemma_complete_len_is(buf@, start as int);
    }
    (lines, start)
}

/// The texts of the complete lines in `buf`, which was read from `offset` on,
/// and the offset from which to read the next time.
pub fn read_new_lines(buf: &Vec<u8>, offset: u64) -> (read: (Vec<String>, u64))
    requires
        offset + buf.len() <= u64::MAX,
    ensures
        texts(read.0@) == line_texts(buf@),
        read.1 == offset + complete_len(buf@),
        forall|i: int|
            0 <= i < complete_lines(buf@).len() && valid_utf8(complete_lines(buf@)[i])
                ==> #[trigger] texts(read.0@)[i] == decode_utf8(complete_lines(buf@)[i]),
{
    let (parts, taken) = split_lines(buf);
    let ghost split = complete_lines(buf@);
    let mut lines: Vec<String> = Vec::new();
    let mut i: usize = 0;
    while i < parts.len()
        invariant
            i <= parts@.len(),
            byte_texts(parts@) == split,
            lines@.len() == i,
            forall|k: int| 0 <= k < i ==> #[trigger] lines@[k]@ == lossy_text(split[k]),
            forall|k: int|
                0 <= k < i && valid_utf8(split[k]) ==> #[trigger] lines@[k]@ == decode_utf8(
                    split[k],
                ),
        decreases parts.len() - i,
    {
        assert(split[i as int] == parts@[i as int]@);
        let line: String = decode_lossily(&parts[i]);
        lines.push(line);
        i = i + 1;
    }
    assert(texts(lines@) =~= line_texts(buf@));
    let new_offset: u64 = offset + taken as u64;
    (lines, new_offset)
}

/// What is read ends with the last newline: it is the whole up to and with it,
/// and nothing where there is none.
pub proof fn law_reading_stops_after_the_last_newline(before: Seq<u8>, after: Seq<u8>)
    requires
        forall|i: int| 0 <= i < after.len() ==> #[trigger] after[i] != NEWLINE,
    ensures
        complete_len(before + seq![NEWLINE] + after) == before.len() + 1,
        complete_len(after) == 0,
        complete_lines(after) == Seq::<Seq<u8>>::empty(),
{
    let whole = before + seq![NEWLINE] + after;
    let k = before.len() as int + 1;
    assert forall|i: int| k <= i < whole.len() implies #[trigger] whole[i] != NEWLINE by {
        assert(whole[i] == after[i - k]);
    }
    assert(whole[k - 1] == NEWLINE);
    lemma_complete_len_is(whole, k);
    lemma_complete_len_is(after, 0);
    lemma_line_end_is(after, after.len() as int);
}

/// A line and its newline in front of a log make the first of its lines, and
/// leave the others as they are. The text of each line is that of its bytes.
pub proof fn law_a_newline_ends_a_line(line: Seq<u8>, rest: Seq<u8>)
    requires
        forall|i: int| 0 <= i < line.len() ==> #[trigger] line[i] != NEWLINE,
    ensures
        complete_lines(line + seq![NEWLINE] + rest) == seq![line] + complete_lines(rest),
        line_texts(line + seq![NEWLINE] + rest) == seq![lossy_text(line)] + line_texts(rest),
        NEWLINE == 0x0a,
{
    let whole = line + seq![NEWLINE] + rest;
    let n = line.len() as int;
    assert forall|i: int| 0 <= i < n implies #[trigger] whole[i] != NEWLINE by {
        assert(whole[i] == line[i]);
    }
    assert(whole[n] == NEWLINE);
    lemma_line_end_is(whole, n);
    assert(whole.take(n) =~= line);
    assert(whole.skip(n + 1) =~= rest);
    assert(line_texts(whole) =~= seq![lossy_text(line)] + line_texts(rest));
}

} // verus!
