// Gameplay events and the append-only log that carries them from the passes
// that raise them to the consumers that react, each through its own cursor.

use vstd::prelude::*;

verus! {

/// A gameplay event: a ball bounced, or a point was scored.
#[derive(Clone, Copy, Debug, PartialEq, Eq, Structural)]
pub enum PongEvent {
    Bounce,
    Score,
}

/// An ordered, append-only log of events.
pub struct EventLog {
    events: Vec<PongEvent>,
}

/// A consumer's read cursor into an `EventLog`: the number of events it has read.
pub struct ReaderId {
    cursor: usize,
}

/// The events that a reader at `cursor` has not read yet.
pub open spec fn unread(log: Seq<PongEvent>, cursor: nat) -> Seq<PongEvent> {
    log.subrange(cursor as int, log.len() as int)
}

/// `n` copies of `e`.
pub open spec fn repeated(e: PongEvent, n: nat) -> Seq<PongEvent> {
    Seq::new(n, |i: int| e)
}

impl View for EventLog {
    type V = Seq<PongEvent>;

    closed spec fn view(&self) -> Seq<PongEvent> {
        self.events@
    }
}

impl View for ReaderId {
    type V = nat;

    closed spec fn view(&self) -> nat {
        self.cursor as nat
    }
}

impl EventLog {
    /// An empty log.
    pub fn new() -> (r: EventLog)
        ensures
            r@ == Seq::<PongEvent>::empty(),
    {
        EventLog { events: Vec::new() }
    }

    /// Number of events written so far.
    pub fn len(&self) -> (r: usize)
        ensures
            r == self@.len(),
    {
        self.events.len()
    }

    /// Appends `e`.
    pub fn single_write(&mut self, e: PongEvent)
        ensures
            final(self)@ == old(self)@.push(e),
    {
        self.events.push(e);
    }

    /// A reader that sees the events written from now on.
    pub fn register_reader(&self) -> (r: ReaderId)
        ensures
            r@ == self@.len(),
    {
        ReaderId { cursor: self.events.len() }
    }

    /// The events written since `reader` last read, in the order written; the
    /// reader then stands at the end of the log.
    pub fn read(&self, reader: &mut ReaderId) -> (r: Vec<PongEvent>)
        requires
            old(reader)@ <= self@.len(),
        ensures
            r@ == unread(self@, old(reader)@),
            final(reader)@ == self@.len(),
    {
        let mut out: Vec<PongEvent> = Vec::new();
        let mut i: usize = reader.cursor;
        while i < self.events.len()
            invariant
                reader.cursor <= i <= self.events@.len(),
                out@ == self.events@.subrange(reader.cursor as int, i as int),
            decreases self.events@.len() - i,
        {
            out.push(self.events[i]);
            i = i + 1;
            proof {
                assert(out@ =~= self.events@.subrange(reader.cursor as int, i as int));
            }
        }
        reader.cursor = self.events.len();
        proof {
            assert(out@ =~= unread(self@, old(reader)@));
        }
        out
    }
}

/// Successive reads see each appended event exactly once, in the order of
/// appending: what a reader at `cursor` reads from log `a`, followed by what it
/// reads after `b` has been appended, is everything appended since `cursor`.
pub proof fn lemma_reads_partition(a: Seq<PongEvent>, b: Seq<PongEvent>, cursor: nat)
    requires
        cursor <= a.len(),
    ensures
        unread(a, cursor) + unread(a + b, a.len()) == unread(a + b, cursor),
        unread(a + b, a.len()) == b,
{
    assert(unread(a + b, a.len()) =~= b);
    assert(unread(a, cursor) + unread(a + b, a.len()) =~= unread(a + b, cursor));
}

/// What a reader starting at cursor `marks[0]` has received after `k` reads,
/// the `j`-th of them made when the log held its first `marks[j]` events.
pub open spec fn reads_until(log: Seq<PongEvent>, marks: Seq<nat>, k: nat) -> Seq<PongEvent>
    decreases k,
{
    if k == 0 {
        Seq::empty()
    } else {
        reads_until(log, marks, (k - 1) as nat) + unread(
            log.subrange(0, marks[k as int] as int),
            marks[k - 1],
        )
    }
}

/// The positions `marks` never decrease and lie within `log`.
pub open spec fn valid_marks(log: Seq<PongEvent>, marks: Seq<nat>) -> bool {
    &&& marks.len() >= 1
    &&& forall|i: int, j: int| 0 <= i <= j < marks.len() ==> marks[i] <= marks[j]
    &&& forall|i: int| 0 <= i < marks.len() ==> #[trigger] marks[i] <= log.len()
}

/// Whatever the interleaving of writes and reads, a reader receives every event
/// written after its starting cursor exactly once, in the order written: its
/// reads, made while the log grew to `log` through the lengths `marks[1]`,
/// `marks[2]`, ..., together give the events between `marks[0]` and the last mark.
pub proof fn lemma_reads_in_order(log: Seq<PongEvent>, marks: Seq<nat>, k: nat)
    requires
        valid_marks(log, marks),
        k < marks.len(),
    ensures
        reads_until(log, marks, k) == log.subrange(marks[0] as int, marks[k as int] as int),
    decreases k,
{
    if k == 0 {
        assert(log.subrange(marks[0] as int, marks[0] as int) =~= Seq::<PongEvent>::empty());
    } else {
        lemma_reads_in_order(log, marks, (k - 1) as nat);
        assert(marks[0] <= marks[k - 1] <= marks[k as int]);
        assert(unread(log.subrange(0, marks[k as int] as int), marks[k - 1]) =~= log.subrange(
            marks[k - 1] as int,
            marks[k as int] as int,
        ));
        assert(reads_until(log, marks, k) =~= log.subrange(marks[0] as int, marks[k as int] as int));
    }
}

} // verus!
