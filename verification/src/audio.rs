//! The note queue: little jingles are queued as data and paid out one
//! frame at a time, honouring the rests between notes.

use vstd::prelude::*;

verus! {

/// One element of a jingle: a note to strike, or a rest.
#[derive(Clone, Copy, Debug, PartialEq, Eq, Structural)]
pub enum Note {
    Play { sfx: u8, note: u8, octave: u8, duration: u16 },
    Wait { duration: u16 },
}

/// Draining a queue for one frame: every leading `Play` is emitted, and
/// the first `Wait` is consumed, its duration becoming the new countdown.
pub open spec fn spec_drain(q: Seq<Note>) -> (Seq<Note>, Seq<Note>, u16)
    decreases q.len(),
{
    if q.len() == 0 {
        (Seq::<Note>::empty(), Seq::<Note>::empty(), 0u16)
    } else {
        match q[0] {
            Note::Play { .. } => {
                let rest = spec_drain(q.drop_first());
                (seq![q[0]] + rest.0, rest.1, rest.2)
            },
            Note::Wait { duration } => (Seq::<Note>::empty(), q.drop_first(), duration),
        }
    }
}

/// The queue of pending notes and the countdown until the next is due.
#[derive(Debug)]
pub struct AudioQueue {
    pub queue: Vec<Note>,
    pub next_in: u16,
}

impl AudioQueue {
    /// Silence.
    pub fn init() -> (r: AudioQueue)
        ensures
            r.queue@ == Seq::<Note>::empty(),
            r.next_in == 0,
    {
        AudioQueue { queue: Vec::new(), next_in: 0 }
    }

    /// Queue a jingle after whatever is already pending.
    pub fn play(&mut self, notes: &Vec<Note>)
        ensures
            final(self).queue@ == old(self).queue@ + notes@,
            final(self).next_in == old(self).next_in,
    {
        let n = notes.len();
        let mut i: usize = 0;
        while i < n
            invariant
                i <= n,
                n == notes@.len(),
                self.queue@ == old(self).queue@ + notes@.subrange(0, i as int),
                self.next_in == old(self).next_in,
            decreases n - i,
        {
            self.queue.push(notes[i]);
            proof {
                assert(self.queue@ =~= old(self).queue@ + notes@.subrange(0, i as int + 1));
            }
            i += 1;
        }
        proof {
            assert(self.queue@ =~= old(self).queue@ + notes@);
        }
    }

    /// One frame: tick the countdown down, and when it runs out, emit the
    /// notes that are due.
    pub fn tic(&mut self) -> (emitted: Vec<Note>)
        ensures
            old(self).next_in > 1 ==> final(self).queue@ == old(self).queue@ && final(self).next_in
                == old(self).next_in - 1 && emitted@ == Seq::<Note>::empty(),
            old(self).next_in <= 1 ==> {
                let d = spec_drain(old(self).queue@);
                &&& emitted@ == d.0
                &&& final(self).queue@ == d.1
                &&& final(self).next_in == d.2
            },
    {
        let mut emitted: Vec<Note> = Vec::new();
        if self.next_in > 1 {
            self.next_in = self.next_in - 1;
            return emitted;
        }
        self.next_in = 0;
        let ghost q0 = self.queue@;
        proof {
            assert(spec_drain(q0).0 =~= emitted@ + spec_drain(q0).0);
        }
        loop
            invariant
                old(self).next_in <= 1,
                q0 == old(self).queue@,
                spec_drain(q0).0 == emitted@ + spec_drain(self.queue@).0,
                spec_drain(q0).1 == spec_drain(self.queue@).1,
                spec_drain(q0).2 == spec_drain(self.queue@).2,
                self.next_in == 0,
            decreases self.queue@.len(),
        {
            if self.queue.len() == 0 {
                proof {
                    assert(emitted@ =~= emitted@ + spec_drain(self.queue@).0);
                }
                return emitted;
            }
            let ghost prev = self.queue@;
            let head = self.queue.remove(0);
            proof {
                assert(self.queue@ =~= prev.drop_first());
            }
            match head {
                Note::Play { .. } => {
                    emitted.push(head);
                    proof {
                        assert(spec_drain(q0).0 =~= emitted@ + spec_drain(self.queue@).0);
                    }
                },
                Note::Wait { duration } => {
                    self.next_in = duration;
                    proof {
                        assert(spec_drain(prev).1 == prev.drop_first());
                        assert(spec_drain(prev).2 == duration);
                        assert(spec_drain(q0).0 =~= emitted@);
                    }
                    return emitted;
                },
            }
        }
    }
}

} // verus!
