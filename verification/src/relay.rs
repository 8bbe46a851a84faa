//! Relaying the tool's output to the log channel, and stopping on request.
//!
//! The worker of a run reads the tool's standard output to its end and
//! then its standard error to its end. The bytes of both are cut into
//! lines as one stream, so every line of standard output is relayed before
//! any line of standard error, whenever the bytes arrived. Before a line
//! is relayed the stop flag is looked at: once it is raised the tool is
//! killed and nothing more is relayed. A line that is not UTF-8 ends the
//! run with a failure; it is not skipped.
//!
//! [`Relay`] decides what is read next and cuts the lines; [`decide`] says
//! what is done with one line. The worker itself, which owns the pipes and
//! the process, lives with the embedding program.

use vstd::prelude::*;
use vstd::utf8::{decode_utf8, valid_utf8};
use crate::lines::{
    byte_lines,
    last_line,
    lemma_lines_of_concat,
    lemma_scan_concat,
    lines_of,
    scan,
    split_chunk,
    unfinished,
};

verus! {

/// Name of the event under which every relayed line is emitted.
pub const LOG_EVENT: &'static str = "esp-tool-log";

/// One of the tool's two output streams.
#[derive(Clone, Copy, Debug, PartialEq, Eq, Structural)]
pub enum Source {
    Stdout,
    Stderr,
}

/// Mathematical value of a [`Relay`]: the stream being read, if any is
/// left, and the bytes of the line that is not yet finished.
pub struct RelayView {
    pub reading: Option<Source>,
    pub pending: Seq<u8>,
}

/// The state in which a worker starts: reading standard output, with
/// nothing pending.
pub open spec fn initial() -> RelayView {
    RelayView { reading: Some(Source::Stdout), pending: Seq::empty() }
}

/// The state after `chunk` has arrived from the stream being read, and the
/// lines that it completed. Nothing happens once both streams have ended.
pub open spec fn after_bytes(s: RelayView, chunk: Seq<u8>) -> (RelayView, Seq<Seq<u8>>) {
    if s.reading is None {
        (s, Seq::empty())
    } else {
        (RelayView { reading: s.reading, pending: scan(s.pending, chunk).1 }, scan(
            s.pending,
            chunk,
        ).0)
    }
}

/// The state after the stream being read has ended, and the lines that
/// this completed. After standard output comes standard error, and the
/// unfinished line is carried over; after standard error the unfinished
/// line, if there is one, is the last line.
pub open spec fn after_end(s: RelayView) -> (RelayView, Seq<Seq<u8>>) {
    match s.reading {
        Some(Source::Stdout) => (
            RelayView { reading: Some(Source::Stderr), pending: s.pending },
            Seq::empty(),
        ),
        Some(Source::Stderr) => (
            RelayView { reading: None, pending: Seq::empty() },
            last_line(s.pending),
        ),
        None => (s, Seq::empty()),
    }
}

/// Reading side of a worker: which stream to read, and the line that is
/// being put together.
#[derive(Debug)]
pub struct Relay {
    reading: Option<Source>,
    pending: Vec<u8>,
}

impl View for Relay {
    type V = RelayView;

    closed spec fn view(&self) -> RelayView {
        RelayView { reading: self.reading, pending: self.pending@ }
    }
}

impl Relay {
    /// A relay at the start of a run.
    pub fn new() -> (relay: Self)
        ensures
            relay@ == initial(),
    {
        Relay { reading: Some(Source::Stdout), pending: Vec::new() }
    }

    /// The stream to read next; `None` once both have ended.
    pub fn reading(&self) -> (source: Option<Source>)
        ensures
            source == self@.reading,
    {
        self.reading
    }

    /// Takes the bytes that a read of the current stream returned, and
    /// hands out the lines that they complete, in order.
    pub fn accept(&mut self, chunk: &[u8]) -> (lines: Vec<Vec<u8>>)
        ensures
            final(self)@ == after_bytes(old(self)@, chunk@).0,
            byte_lines(lines@) == after_bytes(old(self)@, chunk@).1,
    {
        let mut lines: Vec<Vec<u8>> = Vec::new();
        assert(byte_lines(lines@) =~= Seq::<Seq<u8>>::empty());
        if self.reading.is_some() {
            split_chunk(&mut self.pending, chunk, &mut lines);
            assert(byte_lines(lines@) =~= scan(old(self)@.pending, chunk@).0);
        }
        lines
    }

    /// Notes that the current stream has ended, and hands out the line
    /// that this completes, if any.
    pub fn end_of_stream(&mut self) -> (lines: Vec<Vec<u8>>)
        ensures
            final(self)@ == after_end(old(self)@).0,
            byte_lines(lines@) == after_end(old(self)@).1,
    {
        let mut lines: Vec<Vec<u8>> = Vec::new();
        assert(byte_lines(lines@) =~= Seq::<Seq<u8>>::empty());
        match self.reading {
            Some(Source::Stdout) => {
                self.reading = Some(Source::Stderr);
            },
            Some(Source::Stderr) => {
                self.reading = None;
                let mut line: Vec<u8> = Vec::new();
                core::mem::swap(&mut self.pending, &mut line);
                if line.len() > 0 {
                    lines.push(line);
                    assert(byte_lines(lines@) =~= seq![old(self)@.pending]);
                }
            },
            None => {},
        }
        lines
    }
}

/// What the worker does with one line.
#[derive(Debug)]
pub enum LineAction {
    /// Emit the text under [`LOG_EVENT`] and go on.
    Emit(String),
    /// Kill the tool at once and stop relaying.
    Kill,
    /// End the run with a failure: the line is not UTF-8.
    Fail,
}

/// Mathematical value of a [`LineAction`].
pub enum LineActionView {
    Emit(Seq<char>),
    Kill,
    Fail,
}

impl View for LineAction {
    type V = LineActionView;

    open spec fn view(&self) -> LineActionView {
        match self {
            LineAction::Emit(text) => LineActionView::Emit(text@),
            LineAction::Kill => LineActionView::Kill,
            LineAction::Fail => LineActionView::Fail,
        }
    }
}

/// The action for `line` when the stop flag reads `stop`. The flag comes
/// first: a raised flag kills whatever the line holds.
pub open spec fn line_action(stop: bool, line: Seq<u8>) -> LineActionView {
    if stop {
        LineActionView::Kill
    } else if valid_utf8(line) {
        LineActionView::Emit(decode_utf8(line))
    } else {
        LineActionView::Fail
    }
}

/// Decodes bytes as UTF-8 text with `String::from_utf8` of the standard
/// library. Trusted: the call succeeds exactly on well-formed UTF-8, and
/// the string then holds the characters that the bytes encode.
#[verifier::external_body]
fn text_of(bytes: Vec<u8>) -> (text: Option<String>)
    ensures
        text is Some <==> valid_utf8(bytes@),
        text is Some ==> text->0@ == decode_utf8(bytes@),
{
    String::from_utf8(bytes).ok()
}

/// Decides what is done with `line`, given the stop flag as it reads now.
pub fn decide(stop: bool, line: Vec<u8>) -> (action: LineAction)
    ensures
        action@ == line_action(stop, line@),
{
    if stop {
        LineAction::Kill
    } else {
        match text_of(line) {
            Some(text) => LineAction::Emit(text),
            None => LineAction::Fail,
        }
    }
}

/// How the relaying of a run ended.
pub enum Outcome {
    /// Every line was relayed.
    Completed,
    /// The stop flag was found raised; the tool was killed.
    Killed,
    /// A line was not UTF-8.
    Failed,
}

/// The texts emitted in a run, in order, and how the run ended.
pub struct RunLog {
    pub emitted: Seq<Seq<char>>,
    pub outcome: Outcome,
}

/// The log of a worker that is handed `lines` one by one and finds the
/// stop flag reading `stops[i]` when it looks at it before line `i`.
pub open spec fn relayed(lines: Seq<Seq<u8>>, stops: Seq<bool>) -> RunLog
    recommends
        stops.len() == lines.len(),
    decreases lines.len(),
{
    if lines.len() == 0 {
        RunLog { emitted: Seq::empty(), outcome: Outcome::Completed }
    } else {
        match line_action(stops[0], lines[0]) {
            LineActionView::Kill => RunLog { emitted: Seq::empty(), outcome: Outcome::Killed },
            LineActionView::Fail => RunLog { emitted: Seq::empty(), outcome: Outcome::Failed },
            LineActionView::Emit(text) => {
                let later = relayed(lines.drop_first(), stops.drop_first());
                RunLog { emitted: seq![text] + later.emitted, outcome: later.outcome }
            },
        }
    }
}

/// The bytes of a stream that arrived as `chunks`.
pub open spec fn joined(chunks: Seq<Seq<u8>>) -> Seq<u8>
    decreases chunks.len(),
{
    if chunks.len() == 0 {
        Seq::empty()
    } else {
        joined(chunks.drop_last()) + chunks.last()
    }
}

/// The state after `chunks` have arrived one after the other, and the
/// lines handed out on the way.
pub open spec fn after_chunks(s: RelayView, chunks: Seq<Seq<u8>>) -> (RelayView, Seq<Seq<u8>>)
    decreases chunks.len(),
{
    if chunks.len() == 0 {
        (s, Seq::empty())
    } else {
        let (t, earlier) = after_chunks(s, chunks.drop_last());
        let (u, last) = after_bytes(t, chunks.last());
        (u, earlier + last)
    }
}

/// The state after a stream has arrived as `chunks` and ended, and the
/// lines handed out on the way.
pub open spec fn after_stream(s: RelayView, chunks: Seq<Seq<u8>>) -> (RelayView, Seq<Seq<u8>>) {
    let (t, earlier) = after_chunks(s, chunks);
    let (u, last) = after_end(t);
    (u, earlier + last)
}

/// All lines that a relay hands out in a run in which standard output
/// arrives as `out_chunks` and standard error as `err_chunks`.
pub open spec fn run_lines(out_chunks: Seq<Seq<u8>>, err_chunks: Seq<Seq<u8>>) -> Seq<Seq<u8>> {
    let (s, first) = after_stream(initial(), out_chunks);
    let (t, second) = after_stream(s, err_chunks);
    first + second
}

/// How a stream is cut into chunks does not matter: the lines handed out
/// and the line left pending are those of reading all its bytes at once.
pub proof fn lemma_after_chunks(s: RelayView, chunks: Seq<Seq<u8>>)
    requires
        s.reading is Some,
    ensures
        after_chunks(s, chunks).0 == (RelayView {
            reading: s.reading,
            pending: scan(s.pending, joined(chunks)).1,
        }),
        after_chunks(s, chunks).1 == scan(s.pending, joined(chunks)).0,
    decreases chunks.len(),
{
    if chunks.len() > 0 {
        lemma_after_chunks(s, chunks.drop_last());
        lemma_scan_concat(s.pending, joined(chunks.drop_last()), chunks.last());
    }
}

/// Standard output comes first. Whatever the chunks in which the two
/// streams arrive, the lines of a run are the lines of the bytes of
/// standard output followed by the bytes of standard error. Where standard
/// output ends on a line boundary, they are the lines of standard output
/// followed by the lines of standard error.
pub proof fn law_stdout_before_stderr(out_chunks: Seq<Seq<u8>>, err_chunks: Seq<Seq<u8>>)
    ensures
        run_lines(out_chunks, err_chunks) == lines_of(joined(out_chunks) + joined(err_chunks)),
        unfinished(joined(out_chunks)).len() == 0 ==> run_lines(out_chunks, err_chunks)
            == lines_of(joined(out_chunks)) + lines_of(joined(err_chunks)),
        after_stream(after_stream(initial(), out_chunks).0, err_chunks).0.reading is None,
{
    let out = joined(out_chunks);
    let err = joined(err_chunks);
    let nothing = Seq::<u8>::empty();
    lemma_after_chunks(initial(), out_chunks);
    let (s, first) = after_stream(initial(), out_chunks);
    assert(s == RelayView { reading: Some(Source::Stderr), pending: unfinished(out) });
    assert(first =~= scan(nothing, out).0);
    lemma_after_chunks(s, err_chunks);
    let (t, second) = after_stream(s, err_chunks);
    assert(second == scan(unfinished(out), err).0 + last_line(scan(unfinished(out), err).1));
    lemma_scan_concat(nothing, out, err);
    assert(first + second =~= lines_of(out + err));
    if unfinished(out).len() == 0 {
        lemma_lines_of_concat(out, err);
    }
}

/// The emitted texts are the decoded lines up to the first line at which
/// the stop flag was raised or that is not UTF-8, and the outcome says
/// which of the two it was, if any.
pub proof fn law_relay_halts_at_first_stop_or_failure(lines: Seq<Seq<u8>>, stops: Seq<bool>)
    requires
        stops.len() == lines.len(),
    ensures
        relayed(lines, stops).emitted.len() <= lines.len(),
        forall|i: int|
            #![trigger lines[i]]
            #![trigger stops[i]]
            #![trigger relayed(lines, stops).emitted[i]]
            0 <= i < relayed(lines, stops).emitted.len() ==> !stops[i] && valid_utf8(lines[i])
                && relayed(lines, stops).emitted[i] == decode_utf8(lines[i]),
        relayed(lines, stops).outcome is Completed <==> relayed(lines, stops).emitted.len()
            == lines.len(),
        relayed(lines, stops).outcome is Killed ==> stops[relayed(lines, stops).emitted.len() as int],
        relayed(lines, stops).outcome is Failed ==> !stops[relayed(
            lines,
            stops,
        ).emitted.len() as int] && !valid_utf8(lines[relayed(lines, stops).emitted.len() as int]),
    decreases lines.len(),
{
    if lines.len() > 0 {
        let later_lines = lines.drop_first();
        let later_stops = stops.drop_first();
        law_relay_halts_at_first_stop_or_failure(later_lines, later_stops);
        let log = relayed(lines, stops);
        let later = relayed(later_lines, later_stops);
        if line_action(stops[0], lines[0]) is Emit {
            assert(log.emitted.len() == later.emitted.len() + 1);
            assert forall|i: int| 0 <= i < log.emitted.len() implies !stops[i] && valid_utf8(
                lines[i],
            ) && log.emitted[i] == decode_utf8(lines[i]) by {
                if i > 0 {
                    assert(later_lines[i - 1] == lines[i]);
                    assert(later_stops[i - 1] == stops[i]);
                    assert(log.emitted[i] == later.emitted[i - 1]);
                }
            }
            let n = later.emitted.len() as int;
            if n < later_lines.len() {
                assert(later_lines[n] == lines[n + 1]);
                assert(later_stops[n] == stops[n + 1]);
            }
        }
    }
}

/// The texts that the lines encode, in order.
pub open spec fn decoded(lines: Seq<Seq<u8>>) -> Seq<Seq<char>> {
    Seq::new(lines.len(), |i: int| decode_utf8(lines[i]))
}

/// With the flag never raised and every line UTF-8, every line is emitted,
/// in the order in which the lines came.
pub proof fn law_unstopped_run_relays_every_line(lines: Seq<Seq<u8>>, stops: Seq<bool>)
    requires
        stops.len() == lines.len(),
        forall|i: int| 0 <= i < stops.len() ==> !stops[i],
        forall|i: int| 0 <= i < lines.len() ==> valid_utf8(lines[i]),
    ensures
        relayed(lines, stops).emitted == decoded(lines),
        relayed(lines, stops).outcome is Completed,
{
    law_relay_halts_at_first_stop_or_failure(lines, stops);
    let log = relayed(lines, stops);
    let n = log.emitted.len() as int;
    if n < lines.len() {
        assert(!stops[n]);
        assert(valid_utf8(lines[n]));
    }
    assert(log.emitted =~= decoded(lines));
}

/// A raised flag ends the relaying: where the worker finds the flag raised
/// before line `k`, neither that line nor any later one is emitted, and the
/// run does not end as completed.
pub proof fn law_raised_flag_ends_relaying(lines: Seq<Seq<u8>>, stops: Seq<bool>, k: int)
    requires
        stops.len() == lines.len(),
        0 <= k < lines.len(),
        stops[k],
    ensures
        relayed(lines, stops).emitted.len() <= k,
        !(relayed(lines, stops).outcome is Completed),
        (forall|i: int| 0 <= i < k ==> !stops[i] && valid_utf8(lines[i])) ==> relayed(
            lines,
            stops,
        ).outcome is Killed && relayed(lines, stops).emitted == decoded(lines.take(k)),
{
    law_relay_halts_at_first_stop_or_failure(lines, stops);
    let log = relayed(lines, stops);
    let n = log.emitted.len() as int;
    if n > k {
        assert(!stops[k]);
    }
    if forall|i: int| 0 <= i < k ==> !stops[i] && valid_utf8(lines[i]) {
        if n < k {
            assert(!stops[n] && valid_utf8(lines[n]));
        }
        assert(log.emitted =~= decoded(lines.take(k)));
    }
}

/// A run that is not stopped and whose output is UTF-8 throughout emits
/// the lines of standard output followed by the lines of standard error,
/// provided that standard output ends on a line boundary: the order is
/// that of the streams, never that of arrival.
pub proof fn law_run_emits_stdout_then_stderr(
    out_chunks: Seq<Seq<u8>>,
    err_chunks: Seq<Seq<u8>>,
    stops: Seq<bool>,
)
    requires
        unfinished(joined(out_chunks)).len() == 0,
        stops.len() == run_lines(out_chunks, err_chunks).len(),
        forall|i: int| 0 <= i < stops.len() ==> !stops[i],
        forall|i: int|
            0 <= i < lines_of(joined(out_chunks)).len() ==> valid_utf8(
                lines_of(joined(out_chunks))[i],
            ),
        forall|i: int|
            0 <= i < lines_of(joined(err_chunks)).len() ==> valid_utf8(
                lines_of(joined(err_chunks))[i],
            ),
    ensures
        relayed(run_lines(out_chunks, err_chunks), stops).emitted == decoded(
            lines_of(joined(out_chunks)),
        ) + decoded(lines_of(joined(err_chunks))),
        relayed(run_lines(out_chunks, err_chunks), stops).outcome is Completed,
{
    let first = lines_of(joined(out_chunks));
    let second = lines_of(joined(err_chunks));
    let all = run_lines(out_chunks, err_chunks);
    law_stdout_before_stderr(out_chunks, err_chunks);
    assert(all == first + second);
    assert forall|i: int| 0 <= i < all.len() implies valid_utf8(all[i]) by {
        if i < first.len() {
            assert(all[i] == first[i]);
        } else {
            assert(all[i] == second[i - first.len()]);
        }
    }
    law_unstopped_run_relays_every_line(all, stops);
    assert(decoded(all) =~= decoded(first) + decoded(second));
}

} // verus!
