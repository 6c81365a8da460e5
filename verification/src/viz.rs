//! A ring of the most recent samples, for display.

use vstd::prelude::*;

verus! {

/// Buffer for storing recent audio samples for visualization.
///
/// Holds the last `capacity` samples that were pushed; a new one drives
/// the oldest out.
pub struct SampleBuffer<T: Copy> {
    samples: Vec<T>,
    capacity: usize,
    write_pos: usize,
}

/// Storage slot of the `i`-th oldest sample when the next write goes to
/// slot `write_pos` of `capacity`.
pub open spec fn slot_of(write_pos: int, capacity: int, i: int) -> int {
    if write_pos + i < capacity {
        write_pos + i
    } else {
        write_pos + i - capacity
    }
}

impl<T: Copy> View for SampleBuffer<T> {
    type V = Seq<T>;

    /// The samples held, oldest first.
    closed spec fn view(&self) -> Seq<T> {
        Seq::new(
            self.capacity as nat,
            |i: int| self.samples@[slot_of(self.write_pos as int, self.capacity as int, i)],
        )
    }
}

impl<T: Copy> SampleBuffer<T> {
    /// The storage is as long as the capacity and the write position lies
    /// inside it.
    pub closed spec fn wf(&self) -> bool {
        &&& self.samples@.len() == self.capacity
        &&& (self.write_pos < self.capacity || self.write_pos == 0)
    }

    /// A buffer of `capacity` samples, all of them `fill`.
    pub fn new(capacity: usize, fill: T) -> (buffer: Self)
        ensures
            buffer.wf(),
            buffer@ == Seq::new(capacity as nat, |i: int| fill),
    {
        let mut samples: Vec<T> = Vec::new();
        let mut i: usize = 0;
        while i < capacity
            invariant
                i <= capacity,
                samples@.len() == i,
                forall|k: int| 0 <= k < i ==> samples@[k] == fill,
            decreases capacity - i,
        {
            samples.push(fill);
            i += 1;
        }
        let buffer = SampleBuffer { samples, capacity, write_pos: 0 };
        assert(buffer@ =~= Seq::new(capacity as nat, |i: int| fill));
        buffer
    }

    /// Number of samples the buffer holds.
    pub fn capacity(&self) -> (capacity: usize)
        ensures
            capacity == self@.len(),
    {
        self.capacity
    }

    /// Push a new sample into the buffer: the oldest one leaves.
    pub fn push(&mut self, sample: T)
        requires
            old(self).wf(),
            old(self)@.len() > 0,
        ensures
            final(self).wf(),
            final(self)@ == old(self)@.drop_first().push(sample),
    {
        let ghost before = *self;
        self.samples.set(self.write_pos, sample);
        self.write_pos = if self.write_pos + 1 < self.capacity {
            self.write_pos + 1
        } else {
            0
        };
        assert(self@ =~= before@.drop_first().push(sample));
    }

    /// Get all samples in order (oldest to newest)
    pub fn get_samples(&self) -> (samples: Vec<T>)
        requires
            self.wf(),
        ensures
            samples@ == self@,
    {
        let mut result: Vec<T> = Vec::with_capacity(self.capacity);
        let mut i: usize = 0;
        while i < self.capacity
            invariant
                self.wf(),
                i <= self.capacity,
                result@.len() == i,
                forall|k: int| 0 <= k < i ==> result@[k] == self@[k],
            decreases self.capacity - i,
        {
            let idx = if i < self.capacity - self.write_pos {
                self.write_pos + i
            } else {
                i - (self.capacity - self.write_pos)
            };
            result.push(self.samples[idx]);
            i += 1;
        }
        assert(result@ =~= self@);
        result
    }

    /// Get the most recent N samples, or all of them where N is more
    /// than the buffer holds.
    pub fn get_recent(&self, count: usize) -> (recent: Vec<T>)
        requires
            self.wf(),
        ensures
            recent@ == self@.subrange(
                if count < self@.len() {
                    self@.len() - count
                } else {
                    0
                },
                self@.len() as int,
            ),
    {
        let count = if count < self.capacity {
            count
        } else {
            self.capacity
        };
        let samples = self.get_samples();
        let start = self.capacity - count;
        let mut recent: Vec<T> = Vec::with_capacity(count);
        let mut i: usize = start;
        while i < self.capacity
            invariant
                start <= i <= self.capacity,
                samples@.len() == self.capacity,
                recent@ == samples@.subrange(start as int, i as int),
            decreases self.capacity - i,
        {
            recent.push(samples[i]);
            assert(recent@ =~= samples@.subrange(start as int, i + 1));
            i += 1;
        }
        recent
    }
}

/// What is pushed last is the newest sample, and the samples before it
/// move one place towards the old end.
pub proof fn lemma_push_shifts<T>(before: Seq<T>, sample: T, i: int)
    requires
        before.len() > 0,
        0 <= i < before.len(),
    ensures
        before.drop_first().push(sample).len() == before.len(),
        before.drop_first().push(sample).last() == sample,
        i + 1 < before.len() ==> before.drop_first().push(sample)[i] == before[i + 1],
{
}

/// A key press, as far as the display cares.
#[derive(Debug, Clone, Copy, PartialEq, Eq, Structural)]
pub enum VizKey {
    /// A character key; `control` says that Control, and no other
    /// modifier, was held.
    Char { key: char, control: bool },
    /// The escape key.
    Escape,
    /// Any other key.
    Other,
}

/// What the display does on a key press.
#[derive(Debug, Clone, Copy, PartialEq, Eq, Structural)]
pub enum VizAction {
    /// Stop and leave the display.
    Quit,
    /// Pause, or go on where paused.
    TogglePause,
    /// Nothing.
    Ignore,
}

/// `q`, escape and Control-C quit; the space bar pauses and resumes.
pub open spec fn action_for(key: VizKey) -> VizAction {
    match key {
        VizKey::Escape => VizAction::Quit,
        VizKey::Char { key, control } => if key == 'q' || (key == 'c' && control) {
            VizAction::Quit
        } else if key == ' ' {
            VizAction::TogglePause
        } else {
            VizAction::Ignore
        },
        VizKey::Other => VizAction::Ignore,
    }
}

/// The action for a key press.
pub fn key_action(key: VizKey) -> (action: VizAction)
    ensures
        action == action_for(key),
{
    match key {
        VizKey::Escape => VizAction::Quit,
        VizKey::Char { key, control } => {
            if key == 'q' || (key == 'c' && control) {
                VizAction::Quit
            } else if key == ' ' {
                VizAction::TogglePause
            } else {
                VizAction::Ignore
            }
        },
        VizKey::Other => VizAction::Ignore,
    }
}

} // verus!
