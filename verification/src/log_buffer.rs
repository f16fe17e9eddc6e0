//! A bounded FIFO buffer of recent output lines from the supervised
//! process, used only to assemble diagnostics when initialization fails.
//! When full, the oldest line is dropped to make room for the newest.

use std::collections::VecDeque;
use vstd::prelude::*;

verus! {

/// The capacity the supervisor uses for its diagnostic capture.
pub const DEFAULT_LOG_CAPACITY: usize = 100;

/// A capacity-bounded, first-in-first-out buffer of output lines.
pub struct LogBuffer {
    lines: VecDeque<String>,
    capacity: usize,
}

impl View for LogBuffer {
    type V = Seq<Seq<char>>;

    closed spec fn view(&self) -> Seq<Seq<char>> {
        self.lines@.map_values(|s: String| s@)
    }
}

impl LogBuffer {
    /// The fixed capacity the buffer was created with.
    pub closed spec fn cap(&self) -> nat {
        self.capacity as nat
    }

    /// The buffer never holds more lines than its capacity.
    pub closed spec fn wf(&self) -> bool {
        self.capacity >= 1 && self.lines@.len() <= self.capacity
    }

    pub fn new(capacity: usize) -> (r: LogBuffer)
        requires
            capacity >= 1,
        ensures
            r.wf(),
            r@ == Seq::<Seq<char>>::empty(),
            r.cap() == capacity,
    {
        let r = LogBuffer { lines: VecDeque::new(), capacity };
        proof {
            assert(r@ =~= Seq::<Seq<char>>::empty());
        }
        r
    }

    pub fn len(&self) -> (r: usize)
        ensures
            r == self@.len(),
    {
        self.lines.len()
    }

    pub fn capacity(&self) -> (r: usize)
        ensures
            r == self.cap(),
    {
        self.capacity
    }

    /// The `i`th buffered line, oldest first.
    pub fn line_at(&self, i: usize) -> (r: &String)
        requires
            i < self@.len(),
        ensures
            r@ == self@[i as int],
    {
        &self.lines[i]
    }

    /// All buffered lines, oldest first, as a plain vector.
    pub fn lines_vec(&self) -> (r: Vec<String>)
        ensures
            r.deep_view() == self@,
    {
        let mut r: Vec<String> = Vec::new();
        let n = self.lines.len();
        let mut i: usize = 0;
        while i < n
            invariant
                n == self.lines@.len(),
                n == self@.len(),
                0 <= i <= n,
                r.deep_view() =~= self@.take(i as int),
            decreases n - i,
        {
            let line = self.lines[i].clone();
            proof {
                assert(self@[i as int] == self.lines@[i as int]@);
            }
            let ghost prev = r.deep_view();
            r.push(line);
            proof {
                assert(r.deep_view().len() == prev.len() + 1);
                assert(forall|k: int| 0 <= k < prev.len() ==> r.deep_view()[k] == prev[k]);
                assert(r.deep_view()[prev.len() as int] == self@[i as int]);
                assert(r.deep_view() =~= self@.take(i as int + 1));
            }
            i = i + 1;
        }
        proof {
            assert(self@.take(n as int) =~= self@);
        }
        r
    }

    /// Appends a line; when the buffer is full the oldest line is evicted,
    /// so the capacity bound is preserved.
    pub fn push(&mut self, line: String)
        requires
            old(self).wf(),
        ensures
            final(self).wf(),
            final(self).cap() == old(self).cap(),
            final(self)@ == if old(self)@.len() < old(self).cap() {
                old(self)@.push(line@)
            } else {
                old(self)@.drop_first().push(line@)
            },
            final(self)@.len() <= final(self).cap(),
    {
        let ghost pre = self.lines@;
        self.lines.push_back(line);
        proof {
            assert(self.lines@.map_values(|s: String| s@) =~= pre.map_values(|s: String| s@).push(
                line@,
            ));
        }
        if self.lines.len() > self.capacity {
            let ghost mid = self.lines@;
            let _ = self.lines.pop_front();
            proof {
                assert(self.lines@ =~= mid.drop_first());
                assert(self.lines@.map_values(|s: String| s@) =~= mid.map_values(
                    |s: String| s@,
                ).drop_first());
                assert(mid.map_values(|s: String| s@).drop_first() =~= pre.map_values(
                    |s: String| s@,
                ).drop_first().push(line@));
            }
        }
    }
}

/// The buffer never exceeds its capacity.
pub proof fn law_log_buffer_bounded(b: LogBuffer)
    requires
        b.wf(),
    ensures
        b@.len() <= b.cap(),
{
}

} // verus!
