//! The log lines that the user interface shows.
//!
//! Log output arrives as bytes in chunks of any size. It is cut into lines,
//! and the newest lines are kept.

use crate::ring::{law_ring_batches_join, law_ring_keeps_the_newest, newest, push_ring, ring_extended, ring_pushed};
use crate::text::{chomp, chomped, from_utf8_lossy, texts, utf8_lossy};
use vstd::prelude::*;
use vstd::slice::*;
use vstd::string::*;

verus! {

/// How many lines are kept.
pub const MAX_LINES: usize = 1000;

/// The newest log lines, the oldest first.
#[derive(Debug)]
pub struct LogRing {
    lines: Vec<String>,
}

impl View for LogRing {
    type V = Seq<Seq<char>>;

    closed spec fn view(&self) -> Seq<Seq<char>> {
        texts(self.lines@)
    }
}

impl LogRing {
    /// No lines yet.
    pub fn new() -> (ring: Self)
        ensures
            ring@ == Seq::<Seq<char>>::empty(),
    {
        let ring = LogRing { lines: Vec::with_capacity(MAX_LINES) };
        assert(ring@ =~= Seq::empty());
        ring
    }
}

/// Adds a line, dropping the oldest one of a full log.
pub fn push_line(ring: &mut LogRing, line: String)
    ensures
        final(ring)@ == ring_pushed(old(ring)@, line@, MAX_LINES as nat),
{
    let ghost before = ring.lines@;
    let ghost text = line@;
    push_ring(&mut ring.lines, line, MAX_LINES);
    proof {
        if before.len() >= MAX_LINES {
            assert(texts(ring.lines@) =~= texts(before).drop_first().push(text));
        } else {
            assert(texts(ring.lines@) =~= texts(before).push(text));
        }
    }
}

/// A copy of the lines.
pub fn snapshot(ring: &LogRing) -> (lines: Vec<String>)
    ensures
        texts(lines@) == ring@,
{
    let lines: Vec<String> = ring.lines.clone();
    assert(texts(lines@) =~= texts(ring.lines@));
    lines
}

// ---------------------------------------------------------------------------
// Cutting output into lines
// ---------------------------------------------------------------------------

/// The length of the first complete line, its line feed included, or 0 where
/// there is none.
pub open spec fn line_len(bytes: Seq<u8>) -> nat
    decreases bytes.len(),
{
    if bytes.len() == 0 {
        0
    } else if bytes[0] == 0x0a {
        1
    } else {
        let rest = line_len(bytes.drop_first());
        if rest == 0 {
            0
        } else {
            rest + 1
        }
    }
}

/// The complete lines, each with its line feed.
pub open spec fn complete_lines(bytes: Seq<u8>) -> Seq<Seq<u8>>
    decreases bytes.len(),
{
    let n = line_len(bytes);
    if 0 < n <= bytes.len() {
        seq![bytes.take(n as int)] + complete_lines(bytes.skip(n as int))
    } else {
        Seq::empty()
    }
}

/// What is left behind the last line feed.
pub open spec fn unfinished(bytes: Seq<u8>) -> Seq<u8>
    decreases bytes.len(),
{
    let n = line_len(bytes);
    if 0 < n <= bytes.len() {
        unfinished(bytes.skip(n as int))
    } else {
        bytes
    }
}

/// The text of a line, without its line feed.
pub open spec fn line_text(line: Seq<u8>) -> Seq<char> {
    chomped(utf8_lossy(line))
}

/// The texts of lines, empty ones left out.
pub open spec fn log_entries(lines: Seq<Seq<u8>>) -> Seq<Seq<char>>
    decreases lines.len(),
{
    if lines.len() == 0 {
        Seq::empty()
    } else {
        let front = log_entries(lines.drop_last());
        let text = line_text(lines.last());
        if text.len() > 0 {
            front.push(text)
        } else {
            front
        }
    }
}

/// A marker for the place where log output branches off to the log lines.
#[derive(Debug, Clone, Copy)]
pub struct RingTee;

impl RingTee {
    pub fn new() -> (tee: Self)
        ensures
            tee == RingTee,
    {
        RingTee
    }

    /// A writer for one log event.
    pub fn make_writer(&self) -> (line: TeeLine)
        ensures
            line@ == Seq::<u8>::empty(),
    {
        TeeLine { pending: Vec::with_capacity(256) }
    }
}

impl Default for RingTee {
    fn default() -> (tee: Self)
        ensures
            tee == RingTee,
    {
        RingTee
    }
}

/// Output of one log event that is not a complete line yet.
#[derive(Debug)]
pub struct TeeLine {
    pending: Vec<u8>,
}

impl View for TeeLine {
    type V = Seq<u8>;

    closed spec fn view(&self) -> Seq<u8> {
        self.pending@
    }
}

proof fn lemma_line_len(bytes: Seq<u8>, at: int)
    requires
        0 <= at < bytes.len(),
        bytes[at] == 0x0a,
        forall|i: int| 0 <= i < at ==> #[trigger] bytes[i] != 0x0a,
    ensures
        line_len(bytes) == at + 1,
    decreases bytes.len(),
{
    if at > 0 {
        let rest = bytes.drop_first();
        assert forall|i: int| 0 <= i < at - 1 implies #[trigger] rest[i] != 0x0a by {
            assert(rest[i] == bytes[i + 1]);
        }
        lemma_line_len(rest, at - 1);
    }
}

proof fn lemma_no_line(bytes: Seq<u8>)
    requires
        forall|i: int| 0 <= i < bytes.len() ==> #[trigger] bytes[i] != 0x0a,
    ensures
        line_len(bytes) == 0,
    decreases bytes.len(),
{
    if bytes.len() > 0 {
        let rest = bytes.drop_first();
        assert forall|i: int| 0 <= i < rest.len() implies #[trigger] rest[i] != 0x0a by {
            assert(rest[i] == bytes[i + 1]);
        }
        lemma_no_line(rest);
    }
}

impl TeeLine {
    /// Takes more output in. Nothing is cut into lines yet.
    pub fn absorb(&mut self, buf: &[u8])
        ensures
            final(self)@ == old(self)@ + buf@,
    {
        self.pending.extend_from_slice(buf);
        assert(self.pending@ =~= old(self).pending@ + buf@);
    }

    /// Moves the complete lines to the log, empty ones left out.
    pub fn drain_lines(&mut self, ring: &mut LogRing)
        ensures
            final(self)@ == unfinished(old(self)@),
            final(ring)@ == ring_extended(
                old(ring)@,
                log_entries(complete_lines(old(self)@)),
                MAX_LINES as nat,
            ),
    {
        let ghost all = self.pending@;
        let ghost ring0 = ring@;
        let cap: Ghost<nat> = Ghost(MAX_LINES as nat);
        let mut from: usize = 0;
        let mut at: usize = 0;
        assert(all.skip(0) =~= all);
        while at < self.pending.len()
            invariant
                self.pending@ == all,
                old(self)@ == all,
                from <= at <= all.len(),
                cap@ == MAX_LINES as nat,
                forall|i: int| from <= i < at ==> #[trigger] all[i] != 0x0a,
                unfinished(all) == unfinished(all.skip(from as int)),
                ring_extended(ring0, log_entries(complete_lines(all)), cap@) == ring_extended(
                    ring@,
                    log_entries(complete_lines(all.skip(from as int))),
                    cap@,
                ),
            decreases all.len() - at,
        {
            if self.pending[at] == 0x0a {
                let ghost rest = all.skip(from as int);
                let ghost n: int = at - from + 1;
                let ghost before = ring@;
                proof {
                    assert forall|i: int| 0 <= i < n - 1 implies #[trigger] rest[i] != 0x0a by {
                        assert(rest[i] == all[from + i]);
                    }
                    lemma_line_len(rest, n - 1);
                    assert(rest.skip(n) =~= all.skip(at + 1));
                    assert(rest.take(n) =~= all.subrange(from as int, at + 1));
                    lemma_log_entries_joined(seq![rest.take(n)], complete_lines(rest.skip(n)));
                }
                let line: &[u8] = slice_subrange(self.pending.as_slice(), from, at + 1);
                let decoded: String = from_utf8_lossy(line);
                let text: &str = chomp(decoded.as_str());
                proof {
                    let first = rest.take(n);
                    assert(line@ == first);
                    assert(text@ == line_text(first));
                    assert(seq![first].drop_last() =~= Seq::empty());
                    assert(seq![first].last() == first);
                    reveal_with_fuel(log_entries, 2);
                    let entry = log_entries(seq![first]);
                    assert(entry =~= (if text@.len() > 0 {
                        seq![text@]
                    } else {
                        Seq::empty()
                    }));
                    law_ring_batches_join(
                        before,
                        entry,
                        log_entries(complete_lines(rest.skip(n))),
                        cap@,
                    );
                    if text@.len() > 0 {
                        assert(seq![text@].drop_last() =~= Seq::empty());
                        assert(seq![text@].last() == text@);
                        reveal_with_fuel(ring_extended, 2);
                        assert(ring_extended(before, entry, cap@) == ring_pushed(before, text@, cap@));
                    } else {
                        assert(ring_extended(before, entry, cap@) == before);
                    }
                }
                if !text.is_empty() {
                    push_line(ring, text.to_owned());
                }
                from = at + 1;
            }
            at = at + 1;
        }
        proof {
            let rest = all.skip(from as int);
            assert forall|i: int| 0 <= i < rest.len() implies #[trigger] rest[i] != 0x0a by {
                assert(rest[i] == all[from + i]);
            }
            lemma_no_line(rest);
        }
        self.pending = self.pending.split_off(from);
    }

    /// Takes output in and moves what it completes to the log.
    pub fn write(&mut self, buf: &[u8], ring: &mut LogRing)
        ensures
            final(self)@ == unfinished(old(self)@ + buf@),
            final(ring)@ == ring_extended(
                old(ring)@,
                log_entries(complete_lines(old(self)@ + buf@)),
                MAX_LINES as nat,
            ),
    {
        self.absorb(buf);
        self.drain_lines(ring);
    }

    /// Moves all that is left to the log, as complete lines and one last line
    /// without a line feed.
    pub fn flush(&mut self, ring: &mut LogRing)
        ensures
            final(self)@ == Seq::<u8>::empty(),
            final(ring)@ == ({
                let drained = ring_extended(
                    old(ring)@,
                    log_entries(complete_lines(old(self)@)),
                    MAX_LINES as nat,
                );
                let text = line_text(unfinished(old(self)@));
                if text.len() > 0 {
                    ring_pushed(drained, text, MAX_LINES as nat)
                } else {
                    drained
                }
            }),
    {
        self.drain_lines(ring);
        let decoded: String = from_utf8_lossy(self.pending.as_slice());
        let text: &str = chomp(decoded.as_str());
        if !text.is_empty() {
            push_line(ring, text.to_owned());
        }
        self.pending.clear();
    }
}

// ---------------------------------------------------------------------------
// Laws
// ---------------------------------------------------------------------------

proof fn lemma_line_len_extends(x: Seq<u8>, y: Seq<u8>)
    ensures
        line_len(x) <= x.len(),
        line_len(x) > 0 ==> line_len(x + y) == line_len(x),
    decreases x.len(),
{
    if x.len() > 0 {
        lemma_line_len_extends(x.drop_first(), y);
        assert((x + y).drop_first() =~= x.drop_first() + y);
        assert((x + y)[0] == x[0]);
    }
}

proof fn lemma_log_entries_joined(a: Seq<Seq<u8>>, b: Seq<Seq<u8>>)
    ensures
        log_entries(a + b) == log_entries(a) + log_entries(b),
    decreases b.len(),
{
    if b.len() == 0 {
        assert(a + b =~= a);
        assert(log_entries(a) + log_entries(b) =~= log_entries(a));
    } else {
        lemma_log_entries_joined(a, b.drop_last());
        assert((a + b).drop_last() =~= a + b.drop_last());
        assert((a + b).last() == b.last());
        assert(log_entries(a + b) =~= log_entries(a) + log_entries(b));
    }
}

/// Cutting output into lines can stop anywhere and go on with what was left
/// unfinished.
pub proof fn law_lines_can_be_cut_piecemeal(x: Seq<u8>, y: Seq<u8>)
    ensures
        complete_lines(x + y) == complete_lines(x) + complete_lines(unfinished(x) + y),
        unfinished(x + y) == unfinished(unfinished(x) + y),
    decreases x.len(),
{
    lemma_line_len_extends(x, y);
    let n = line_len(x) as int;
    if n > 0 {
        law_lines_can_be_cut_piecemeal(x.skip(n), y);
        assert((x + y).skip(n) =~= x.skip(n) + y);
        assert((x + y).take(n) =~= x.take(n));
        assert(complete_lines(x + y) =~= complete_lines(x) + complete_lines(unfinished(x) + y));
    } else {
        assert(complete_lines(x) + complete_lines(x + y) =~= complete_lines(x + y));
    }
}

/// How output is chunked does not matter: writing two chunks leaves the same
/// log and the same unfinished line as writing them as one.
pub proof fn law_chunks_do_not_matter(
    pending: Seq<u8>,
    a: Seq<u8>,
    b: Seq<u8>,
    ring: Seq<Seq<char>>,
)
    ensures
        unfinished(unfinished(pending + a) + b) == unfinished(pending + (a + b)),
        ring_extended(
            ring_extended(ring, log_entries(complete_lines(pending + a)), MAX_LINES as nat),
            log_entries(complete_lines(unfinished(pending + a) + b)),
            MAX_LINES as nat,
        ) == ring_extended(
            ring,
            log_entries(complete_lines(pending + (a + b))),
            MAX_LINES as nat,
        ),
{
    let x = pending + a;
    assert(pending + (a + b) =~= x + b);
    law_lines_can_be_cut_piecemeal(x, b);
    let first = complete_lines(x);
    let second = complete_lines(unfinished(x) + b);
    lemma_log_entries_joined(first, second);
    law_ring_batches_join(ring, log_entries(first), log_entries(second), MAX_LINES as nat);
}

/// What is left unfinished holds no line feed, and the log never holds an
/// empty line.
pub proof fn law_nothing_complete_is_held_back(bytes: Seq<u8>)
    ensures
        forall|i: int| 0 <= i < unfinished(bytes).len() ==> #[trigger] unfinished(bytes)[i] != 0x0a,
        forall|i: int|
            0 <= i < log_entries(complete_lines(bytes)).len() ==> (#[trigger] log_entries(
                complete_lines(bytes),
            )[i]).len() > 0,
    decreases bytes.len(),
{
    lemma_entries_are_not_empty(complete_lines(bytes));
    lemma_line_len_extends(bytes, Seq::empty());
    let n = line_len(bytes) as int;
    if n > 0 {
        law_nothing_complete_is_held_back(bytes.skip(n));
        let rest = unfinished(bytes.skip(n));
        assert(unfinished(bytes) == rest);
        assert forall|i: int| 0 <= i < rest.len() implies #[trigger] unfinished(bytes)[i] != 0x0a by {
            assert(unfinished(bytes.skip(n))[i] != 0x0a);
        }
    } else {
        lemma_no_line_feed(bytes);
        assert(unfinished(bytes) == bytes);
        assert forall|i: int| 0 <= i < bytes.len() implies #[trigger] unfinished(bytes)[i] != 0x0a by {
            assert(bytes[i] != 0x0a);
        }
    }
}

proof fn lemma_no_line_feed(bytes: Seq<u8>)
    requires
        line_len(bytes) == 0,
    ensures
        forall|i: int| 0 <= i < bytes.len() ==> #[trigger] bytes[i] != 0x0a,
    decreases bytes.len(),
{
    if bytes.len() > 0 {
        lemma_no_line_feed(bytes.drop_first());
        assert forall|i: int| 0 <= i < bytes.len() implies #[trigger] bytes[i] != 0x0a by {
            if i > 0 {
                assert(bytes.drop_first()[i - 1] == bytes[i]);
            }
        }
    }
}

proof fn lemma_entries_are_not_empty(lines: Seq<Seq<u8>>)
    ensures
        forall|i: int| 0 <= i < log_entries(lines).len() ==> (#[trigger] log_entries(lines)[i]).len() > 0,
    decreases lines.len(),
{
    if lines.len() > 0 {
        lemma_entries_are_not_empty(lines.drop_last());
        let front = log_entries(lines.drop_last());
        let all = log_entries(lines);
        assert forall|i: int| 0 <= i < all.len() implies (#[trigger] all[i]).len() > 0 by {
            if i < front.len() {
                assert(front[i].len() > 0);
                assert(all[i] == front[i]);
            }
        }
    }
}

/// However much is logged, the log shows the newest [`MAX_LINES`] lines in
/// order.
pub proof fn law_log_shows_the_newest_lines(lines: Seq<Seq<char>>)
    ensures
        ring_extended(Seq::empty(), lines, MAX_LINES as nat) == newest(lines, MAX_LINES as nat),
{
    law_ring_keeps_the_newest(Seq::<Seq<char>>::empty(), lines, MAX_LINES as nat);
    assert(Seq::<Seq<char>>::empty() + lines =~= lines);
}

/// Lines strung together again.
pub open spec fn strung(lines: Seq<Seq<u8>>) -> Seq<u8>
    decreases lines.len(),
{
    if lines.len() == 0 {
        Seq::empty()
    } else {
        lines[0] + strung(lines.drop_first())
    }
}

/// A line with its line feed: it ends with one, and has no other.
pub open spec fn one_line(line: Seq<u8>) -> bool {
    &&& line.len() > 0
    &&& forall|i: int| 0 <= i < line.len() ==> (#[trigger] line[i] == 10 <==> i == line.len() - 1)
}

/// Cutting output into lines loses nothing and adds nothing: the lines and what
/// is left unfinished are the output, each line ends with its only line feed,
/// and what is left has none.
pub proof fn law_cutting_loses_nothing(bytes: Seq<u8>)
    ensures
        strung(complete_lines(bytes)) + unfinished(bytes) == bytes,
        forall|k: int|
            0 <= k < complete_lines(bytes).len() ==> one_line(#[trigger] complete_lines(bytes)[k]),
        forall|i: int| 0 <= i < unfinished(bytes).len() ==> #[trigger] unfinished(bytes)[i] != 10,
    decreases bytes.len(),
{
    law_nothing_complete_is_held_back(bytes);
    lemma_line_len_extends(bytes, Seq::empty());
    let n = line_len(bytes) as int;
    let lines = complete_lines(bytes);
    if n > 0 {
        let first = bytes.take(n);
        let rest = bytes.skip(n);
        law_cutting_loses_nothing(rest);
        lemma_first_line(bytes);
        assert(lines[0] == first);
        assert(lines.drop_first() =~= complete_lines(rest));
        assert(strung(lines) + unfinished(bytes) =~= first + (strung(complete_lines(rest))
            + unfinished(rest)));
        assert(first + rest =~= bytes);
        assert forall|k: int| 0 <= k < lines.len() implies one_line(#[trigger] lines[k]) by {
            if k > 0 {
                assert(lines[k] == complete_lines(rest)[k - 1]);
            }
        }
    } else {
        assert(strung(lines) + unfinished(bytes) =~= bytes);
    }
}

proof fn lemma_first_line(bytes: Seq<u8>)
    requires
        line_len(bytes) > 0,
    ensures
        line_len(bytes) <= bytes.len(),
        one_line(bytes.take(line_len(bytes) as int)),
    decreases bytes.len(),
{
    lemma_line_len_extends(bytes, Seq::empty());
    let n = line_len(bytes) as int;
    let line = bytes.take(n);
    if bytes[0] != 0x0a {
        let rest = bytes.drop_first();
        lemma_first_line(rest);
        let tail = rest.take(n - 1);
        assert forall|i: int| 0 <= i < line.len() implies (#[trigger] line[i] == 10 <==> i
            == line.len() - 1) by {
            if i > 0 {
                assert(line[i] == tail[i - 1]);
            }
        }
    }
}

/// Of each line the log holds the text without the line feeds at its end,
/// behind the texts of the lines before it, unless that is empty.
pub proof fn law_each_line_is_one_entry(lines: Seq<Seq<u8>>, line: Seq<u8>)
    ensures
        log_entries(Seq::<Seq<u8>>::empty()) == Seq::<Seq<char>>::empty(),
        ({
            let text = chomped(utf8_lossy(line));
            &&& text.len() > 0 ==> log_entries(lines.push(line)) == log_entries(lines).push(text)
            &&& text.len() == 0 ==> log_entries(lines.push(line)) == log_entries(lines)
        }),
{
    assert(lines.push(line).drop_last() =~= lines);
}

/// A line that is added is the last one of the log. Without room for it, 1000
/// lines being kept, the oldest one goes, and no other.
pub proof fn law_a_line_is_added_at_the_end(ring: &mut LogRing, line: String)
    requires
        call_ensures(push_line, (ring, line), ()),
    ensures
        final(ring)@.last() == line@,
        old(ring)@.len() < 1000 ==> final(ring)@ == old(ring)@.push(line@),
        old(ring)@.len() >= 1000 ==> final(ring)@ == old(ring)@.drop_first().push(line@),
{
}

/// A copy of the log has all of its lines, in order; a fresh log has none.
pub proof fn law_copies_have_all_lines(ring: LogRing, fresh: LogRing, lines: Vec<String>)
    requires
        call_ensures(LogRing::new, (), fresh),
        call_ensures(snapshot, (&ring,), lines),
    ensures
        fresh@.len() == 0,
        lines@.len() == ring@.len(),
        forall|i: int| 0 <= i < lines@.len() ==> (#[trigger] lines@[i])@ == ring@[i],
{
    assert(texts(lines@).len() == lines@.len());
    assert forall|i: int| 0 <= i < lines@.len() implies (#[trigger] lines@[i])@ == ring@[i] by {
        assert(texts(lines@)[i] == lines@[i]@);
    }
}

/// A fresh writer holds nothing back, and taking output in keeps all of it in
/// order.
pub proof fn law_output_is_taken_in_whole(tee: RingTee, fresh: TeeLine, line: &mut TeeLine, buf: &[u8])
    requires
        call_ensures(RingTee::make_writer, (&tee,), fresh),
        call_ensures(TeeLine::absorb, (line, buf), ()),
    ensures
        fresh@.len() == 0,
        final(line)@ == old(line)@ + buf@,
{
}

/// Writing hands every line to the log that is complete by then, with what was
/// held back before it, and holds back the rest. A log of at most 1000 lines
/// then has the newest 1000 of its lines and of these.
pub proof fn law_writing_logs_complete_lines(line: &mut TeeLine, buf: &[u8], ring: &mut LogRing)
    requires
        call_ensures(TeeLine::write, (line, buf, ring), ()),
        old(ring)@.len() <= 1000,
    ensures
        strung(complete_lines(old(line)@ + buf@)) + final(line)@ == old(line)@ + buf@,
        forall|i: int| 0 <= i < final(line)@.len() ==> #[trigger] final(line)@[i] != 10,
        ({
            let all = old(ring)@ + log_entries(complete_lines(old(line)@ + buf@));
            &&& all.len() <= 1000 ==> final(ring)@ == all
            &&& all.len() > 1000 ==> final(ring)@ == all.skip(all.len() - 1000)
        }),
{
    law_cutting_loses_nothing(old(line)@ + buf@);
    law_ring_keeps_the_newest(
        old(ring)@,
        log_entries(complete_lines(old(line)@ + buf@)),
        1000,
    );
}

/// Draining is writing nothing more.
pub proof fn law_draining_logs_complete_lines(line: &mut TeeLine, ring: &mut LogRing)
    requires
        call_ensures(TeeLine::drain_lines, (line, ring), ()),
        old(ring)@.len() <= 1000,
    ensures
        strung(complete_lines(old(line)@)) + final(line)@ == old(line)@,
        forall|i: int| 0 <= i < final(line)@.len() ==> #[trigger] final(line)@[i] != 10,
        ({
            let all = old(ring)@ + log_entries(complete_lines(old(line)@));
            &&& all.len() <= 1000 ==> final(ring)@ == all
            &&& all.len() > 1000 ==> final(ring)@ == all.skip(all.len() - 1000)
        }),
{
    law_cutting_loses_nothing(old(line)@);
    law_ring_keeps_the_newest(old(ring)@, log_entries(complete_lines(old(line)@)), 1000);
}

/// Flushing hands everything to the log, the unfinished rest as a line of its
/// own, and holds nothing back.
pub proof fn law_flushing_logs_everything(line: &mut TeeLine, ring: &mut LogRing)
    requires
        call_ensures(TeeLine::flush, (line, ring), ()),
        old(ring)@.len() <= 1000,
    ensures
        final(line)@.len() == 0,
        ({
            let lines = complete_lines(old(line)@).push(unfinished(old(line)@));
            let all = old(ring)@ + log_entries(lines);
            &&& strung(complete_lines(old(line)@)) + unfinished(old(line)@) == old(line)@
            &&& all.len() <= 1000 ==> final(ring)@ == all
            &&& all.len() > 1000 ==> final(ring)@ == all.skip(all.len() - 1000)
        }),
{
    let rest = unfinished(old(line)@);
    let whole = complete_lines(old(line)@);
    let entries = log_entries(whole.push(rest));
    law_cutting_loses_nothing(old(line)@);
    law_each_line_is_one_entry(whole, rest);
    law_ring_keeps_the_newest(old(ring)@, entries, 1000);
    if line_text(rest).len() > 0 {
        assert(entries.drop_last() =~= log_entries(whole));
        assert(entries.last() == line_text(rest));
    }
}

} // verus!
