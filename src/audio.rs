// The audio pass: turns the events written since its last run into sound
// cues, in order, through a cursor of its own.

use vstd::prelude::*;
use crate::event::{lemma_reads_in_order, reads_until, unread, valid_marks, EventLog, PongEvent, ReaderId};

verus! {

/// A sound to play.
#[derive(Clone, Copy, Debug, PartialEq, Eq, Structural)]
pub enum SoundCue {
    Bounce,
    Score,
}

/// The sound that answers event `e`.
pub open spec fn cue_for(e: PongEvent) -> SoundCue {
    match e {
        PongEvent::Bounce => SoundCue::Bounce,
        PongEvent::Score => SoundCue::Score,
    }
}

/// The sounds that answer `es`, in the same order.
pub open spec fn cues(es: Seq<PongEvent>) -> Seq<SoundCue> {
    es.map_values(|e: PongEvent| cue_for(e))
}

/// Plays a sound for each event, reading the log through its own cursor.
pub struct AudioSystem {
    reader: ReaderId,
}

impl AudioSystem {
    /// A system that reads `events` from its current end on.
    pub fn new(events: &EventLog) -> (r: AudioSystem)
        ensures
            r.cursor() == events@.len(),
    {
        AudioSystem { reader: events.register_reader() }
    }

    /// Number of events this system has read.
    pub closed spec fn cursor(&self) -> nat {
        self.reader@
    }

    /// Reads every event written since the last run, in order, and returns the
    /// sounds that answer them; when sound cannot be played (`can_play` false)
    /// the events are read all the same and nothing is returned.
    pub fn run(&mut self, events: &EventLog, can_play: bool) -> (r: Vec<SoundCue>)
        requires
            old(self).cursor() <= events@.len(),
        ensures
            final(self).cursor() == events@.len(),
            can_play ==> r@ == cues(unread(events@, old(self).cursor())),
            !can_play ==> r@.len() == 0,
    {
        let read = events.read(&mut self.reader);
        let mut out: Vec<SoundCue> = Vec::new();
        if can_play {
            let mut i: usize = 0;
            while i < read.len()
                invariant
                    0 <= i <= read@.len(),
                    out@ == cues(read@.subrange(0, i as int)),
                decreases read@.len() - i,
            {
                let cue = match read[i] {
                    PongEvent::Bounce => SoundCue::Bounce,
                    PongEvent::Score => SoundCue::Score,
                };
                out.push(cue);
                i = i + 1;
                proof {
                    assert(out@ =~= cues(read@.subrange(0, i as int)));
                }
            }
            proof {
                assert(read@.subrange(0, read@.len() as int) =~= read@);
            }
        }
        out
    }
}

/// The sounds returned by `k` runs of an `AudioSystem` whose cursor started at
/// `marks[0]`, the `j`-th run made when the log held its first `marks[j]`
/// events (with sound available).
pub open spec fn cues_until(log: Seq<PongEvent>, marks: Seq<nat>, k: nat) -> Seq<SoundCue>
    decreases k,
{
    if k == 0 {
        Seq::empty()
    } else {
        cues_until(log, marks, (k - 1) as nat) + cues(
            unread(log.subrange(0, marks[k as int] as int), marks[k - 1]),
        )
    }
}

/// The sounds for `a + b` are those for `a`, then those for `b`.
pub proof fn lemma_cues_concat(a: Seq<PongEvent>, b: Seq<PongEvent>)
    ensures
        cues(a + b) == cues(a) + cues(b),
{
    assert(cues(a + b) =~= cues(a) + cues(b));
}

/// Whatever the interleaving of event writes and runs, the runs of an audio
/// system together play one sound for each event written after it was set up,
/// in the order written; a run with no new event plays nothing.
pub proof fn lemma_audio_plays_each_event_once(log: Seq<PongEvent>, marks: Seq<nat>, k: nat)
    requires
        valid_marks(log, marks),
        k < marks.len(),
    ensures
        cues_until(log, marks, k) == cues(reads_until(log, marks, k)),
        cues_until(log, marks, k) == cues(log.subrange(marks[0] as int, marks[k as int] as int)),
    decreases k,
{
    if k == 0 {
        assert(cues(Seq::<PongEvent>::empty()) =~= Seq::<SoundCue>::empty());
    } else {
        lemma_audio_plays_each_event_once(log, marks, (k - 1) as nat);
        lemma_cues_concat(
            reads_until(log, marks, (k - 1) as nat),
            unread(log.subrange(0, marks[k as int] as int), marks[k - 1]),
        );
    }
    lemma_reads_in_order(log, marks, k);
}

} // verus!
