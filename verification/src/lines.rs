//! Cutting a byte stream into newline-delimited lines.
//!
//! A line ends at a line feed. The line feed is not part of the line, nor
//! is a carriage return that stands directly in front of it. Bytes after
//! the last line feed form an unfinished line, which becomes a line of its
//! own, unchanged, when the stream ends.

use vstd::prelude::*;

verus! {

/// The line feed byte.
pub const LINE_FEED: u8 = 10;

/// The carriage return byte.
pub const CARRIAGE_RETURN: u8 = 13;

/// `line` without the carriage return at its end, if it has one.
pub open spec fn strip_cr(line: Seq<u8>) -> Seq<u8> {
    if line.len() > 0 && line.last() == CARRIAGE_RETURN {
        line.drop_last()
    } else {
        line
    }
}

/// Reads `bytes` after an unfinished line `pending`: the lines that
/// `bytes` completes, and the line left unfinished after them.
pub open spec fn scan(pending: Seq<u8>, bytes: Seq<u8>) -> (Seq<Seq<u8>>, Seq<u8>)
    decreases bytes.len(),
{
    if bytes.len() == 0 {
        (Seq::empty(), pending)
    } else {
        let (lines, rest) = scan(pending, bytes.drop_last());
        if bytes.last() == LINE_FEED {
            (lines.push(strip_cr(rest)), Seq::empty())
        } else {
            (lines, rest.push(bytes.last()))
        }
    }
}

/// The lines of `bytes` that a line feed ends.
pub open spec fn complete_lines(bytes: Seq<u8>) -> Seq<Seq<u8>> {
    scan(Seq::empty(), bytes).0
}

/// What follows the last line feed of `bytes`.
pub open spec fn unfinished(bytes: Seq<u8>) -> Seq<u8> {
    scan(Seq::empty(), bytes).1
}

/// The last line of a stream that ended with `pending` unfinished: none
/// if nothing is pending.
pub open spec fn last_line(pending: Seq<u8>) -> Seq<Seq<u8>> {
    if pending.len() > 0 {
        seq![pending]
    } else {
        Seq::empty()
    }
}

/// All lines of the finished stream `bytes`.
pub open spec fn lines_of(bytes: Seq<u8>) -> Seq<Seq<u8>> {
    complete_lines(bytes) + last_line(unfinished(bytes))
}

/// The byte sequences held by a sequence of vectors, in order.
pub open spec fn byte_lines(v: Seq<Vec<u8>>) -> Seq<Seq<u8>> {
    Seq::new(v.len(), |i: int| v[i]@)
}

/// Reading `a` and then `b` is reading `a + b`.
pub proof fn lemma_scan_concat(pending: Seq<u8>, a: Seq<u8>, b: Seq<u8>)
    ensures
        scan(pending, a + b).0 == scan(pending, a).0 + scan(scan(pending, a).1, b).0,
        scan(pending, a + b).1 == scan(scan(pending, a).1, b).1,
    decreases b.len(),
{
    if b.len() == 0 {
        assert(a + b =~= a);
        assert(scan(pending, a).0 + Seq::<Seq<u8>>::empty() =~= scan(pending, a).0);
    } else {
        lemma_scan_concat(pending, a, b.drop_last());
        assert((a + b).drop_last() =~= a + b.drop_last());
        assert((a + b).last() == b.last());
        let mid = scan(pending, a).1;
        let (l1, r1) = scan(pending, a + b.drop_last());
        let (l2, r2) = scan(mid, b.drop_last());
        if b.last() == LINE_FEED {
            assert(l1.push(strip_cr(r1)) =~= scan(pending, a).0 + l2.push(strip_cr(r2)));
        }
    }
}

/// Whether no byte of `bytes` is a line feed.
pub open spec fn no_line_feed(bytes: Seq<u8>) -> bool {
    forall|i: int| 0 <= i < bytes.len() ==> bytes[i] != LINE_FEED
}

/// No line holds a line feed, and neither does the unfinished line, as
/// long as the line that was pending at the start held none.
pub proof fn law_lines_hold_no_line_feed(pending: Seq<u8>, bytes: Seq<u8>)
    requires
        no_line_feed(pending),
    ensures
        forall|i: int|
            0 <= i < scan(pending, bytes).0.len() ==> no_line_feed(
                #[trigger] scan(pending, bytes).0[i],
            ),
        no_line_feed(scan(pending, bytes).1),
    decreases bytes.len(),
{
    if bytes.len() > 0 {
        law_lines_hold_no_line_feed(pending, bytes.drop_last());
    }
}

/// Where the first of two streams ends on a line boundary, the lines of
/// both read in a row are the lines of the first followed by the lines of
/// the second.
pub proof fn lemma_lines_of_concat(a: Seq<u8>, b: Seq<u8>)
    requires
        unfinished(a).len() == 0,
    ensures
        lines_of(a + b) == lines_of(a) + lines_of(b),
{
    let nothing = Seq::<u8>::empty();
    lemma_scan_concat(nothing, a, b);
    assert(unfinished(a) =~= nothing);
    assert(lines_of(a) =~= complete_lines(a));
    assert(lines_of(a + b) =~= lines_of(a) + lines_of(b));
}

/// Cuts the next chunk of a stream: appends to `lines` the lines that
/// `chunk` completes and leaves in `pending` the line that is unfinished
/// after it.
pub fn split_chunk(pending: &mut Vec<u8>, chunk: &[u8], lines: &mut Vec<Vec<u8>>)
    ensures
        byte_lines(final(lines)@) == byte_lines(old(lines)@) + scan(old(pending)@, chunk@).0,
        final(pending)@ == scan(old(pending)@, chunk@).1,
{
    let mut i: usize = 0;
    assert(chunk@.take(0) =~= Seq::<u8>::empty());
    assert(byte_lines(lines@) =~= byte_lines(old(lines)@) + Seq::<Seq<u8>>::empty());
    while i < chunk.len()
        invariant
            i <= chunk.len(),
            byte_lines(lines@) == byte_lines(old(lines)@) + scan(
                old(pending)@,
                chunk@.take(i as int),
            ).0,
            pending@ == scan(old(pending)@, chunk@.take(i as int)).1,
        decreases chunk.len() - i,
    {
        let byte = chunk[i];
        let ghost seen = chunk@.take(i as int);
        let ghost next = chunk@.take(i + 1);
        let ghost had = lines@;
        let ghost rest = pending@;
        assert(next.drop_last() =~= seen);
        assert(next.last() == byte);
        if byte == LINE_FEED {
            let mut line: Vec<u8> = Vec::new();
            core::mem::swap(pending, &mut line);
            let n = line.len();
            if n > 0 && line[n - 1] == CARRIAGE_RETURN {
                line.pop();
            }
            assert(line@ =~= strip_cr(rest));
            lines.push(line);
            assert(byte_lines(lines@) =~= byte_lines(had).push(strip_cr(rest)));
            assert(byte_lines(lines@) =~= byte_lines(old(lines)@) + scan(old(pending)@, next).0);
            assert(pending@ =~= scan(old(pending)@, next).1);
        } else {
            pending.push(byte);
        }
        i = i + 1;
    }
    assert(chunk@.take(chunk.len() as int) =~= chunk@);
}

} // verus!
