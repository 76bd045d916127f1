use vstd::prelude::*;
use std::collections::HashMap;
use crate::address::{is_kernel_address, is_kernel_spec};

verus! {

broadcast use vstd::std_specs::hash::group_hash_axioms;

/// One reconstructed call stack, innermost frame first, at a raw trace
/// timestamp (100-nanosecond ticks).
pub struct Sample {
    pub timestamp: u64,
    pub stack: Vec<u64>,
}

/// The stitching state of a thread: either nothing is buffered, or a
/// kernel-mode fragment waits for its user-mode counterpart.
pub enum Fragment {
    Idle,
    KernelPending { stack: Vec<u64>, timestamp: u64 },
}

/// Everything the profile keeps about one thread.
pub struct ThreadState {
    pub thread_id: u32,
    pub process_id: u32,
    /// Position of the thread in order of first sighting.
    pub index: usize,
    /// Display name; empty until a non-empty one is seen.
    pub name: String,
    pub pending: Fragment,
    /// Timestamp of the latest sampling interrupt for this thread.
    pub last_sample_timestamp: Option<u64>,
    /// Completed samples, in the order they were emitted.
    pub samples: Vec<Sample>,
}

/// Abstract state of a [`ThreadState`].
pub struct ThreadView {
    pub thread_id: u32,
    pub process_id: u32,
    pub index: usize,
    pub name: Seq<char>,
    pub pending: Option<(Seq<u64>, u64)>,
    pub last_sample: Option<u64>,
    pub samples: Seq<(u64, Seq<u64>)>,
}

impl View for ThreadState {
    type V = ThreadView;

    open spec fn view(&self) -> ThreadView {
        ThreadView {
            thread_id: self.thread_id,
            process_id: self.process_id,
            index: self.index,
            name: self.name@,
            pending: match self.pending {
                Fragment::Idle => None,
                Fragment::KernelPending { stack, timestamp } => Some((stack@, timestamp)),
            },
            last_sample: self.last_sample_timestamp,
            samples: self.samples@.map_values(|s: Sample| (s.timestamp, s.stack@)),
        }
    }
}

/// A thread seen for the first time.
pub open spec fn fresh_thread(thread_id: u32, process_id: u32, index: usize) -> ThreadView {
    ThreadView {
        thread_id,
        process_id,
        index,
        name: Seq::empty(),
        pending: None,
        last_sample: None,
        samples: Seq::empty(),
    }
}

/// The thread after a stack-walk event at `ts` carrying `stack`, innermost
/// frame first.
pub open spec fn stack_walk_spec(t: ThreadView, ts: u64, stack: Seq<u64>) -> ThreadView {
    if t.last_sample != Some(ts) || stack.len() == 0 {
        t
    } else if is_kernel_spec(stack[0], 8) {
        ThreadView { pending: Some((stack, ts)), ..t }
    } else {
        match t.pending {
            Some((k, kt)) => if kt == ts {
                ThreadView { pending: None, samples: t.samples.push((ts, stack + k)), ..t }
            } else {
                ThreadView { pending: None, samples: t.samples.push((kt, k)), ..t }
            },
            None => t,
        }
    }
}

/// The thread after a sampling interrupt at `ts`.
pub open spec fn interrupt_spec(t: ThreadView, ts: u64) -> ThreadView {
    ThreadView { last_sample: Some(ts), ..t }
}

/// The thread after a start event naming it `name`.
pub open spec fn rename_spec(t: ThreadView, name: Seq<char>) -> ThreadView {
    if name.len() == 0 {
        t
    } else {
        ThreadView { name, ..t }
    }
}

impl ThreadState {
    pub fn new(thread_id: u32, process_id: u32, index: usize) -> (r: Self)
        ensures
            r@ == fresh_thread(thread_id, process_id, index),
    {
        let r = ThreadState {
            thread_id,
            process_id,
            index,
            name: String::new(),
            pending: Fragment::Idle,
            last_sample_timestamp: None,
            samples: Vec::new(),
        };
        assert(r@.samples =~= Seq::<(u64, Seq<u64>)>::empty());
        r
    }

    /// Records a sampling interrupt; stack walks at `ts` now count as samples.
    pub fn on_sample_interrupt(&mut self, ts: u64)
        ensures
            final(self)@ == interrupt_spec(old(self)@, ts),
    {
        self.last_sample_timestamp = Some(ts);
    }

    /// Applies a thread name, unless it is empty.
    pub fn set_name(&mut self, name: String)
        ensures
            final(self)@ == rename_spec(old(self)@, name@),
    {
        if !name.as_str().is_empty() {
            self.name = name;
        }
    }

    /// Feeds one stack fragment, innermost frame first, taken at `ts`.
    pub fn on_stack_walk(&mut self, ts: u64, stack: Vec<u64>)
        ensures
            final(self)@ == stack_walk_spec(old(self)@, ts, stack@),
    {
        match self.last_sample_timestamp {
            Some(last) => {
                if last != ts {
                    return;
                }
            },
            None => {
                return;
            },
        }
        if stack.len() == 0 {
            return;
        }
        if is_kernel_address(stack[0], 8) {
            self.pending = Fragment::KernelPending { stack, timestamp: ts };
            return;
        }
        let ghost before = self@;
        let mut taken = Fragment::Idle;
        core::mem::swap(&mut self.pending, &mut taken);
        match taken {
            Fragment::KernelPending { stack: kernel, timestamp: kt } => {
                let sample = if kt == ts {
                    let mut merged = stack;
                    let mut kernel = kernel;
                    merged.append(&mut kernel);
                    Sample { timestamp: ts, stack: merged }
                } else {
                    Sample { timestamp: kt, stack: kernel }
                };
                let ghost entry = (sample.timestamp, sample.stack@);
                self.samples.push(sample);
                assert(self@.samples =~= before.samples.push(entry));
            },
            Fragment::Idle => {},
        }
    }
}

spec fn store_wf(slots: Seq<ThreadState>, by_id: Map<u32, usize>) -> bool {
    &&& forall|tid: u32| #[trigger]
        by_id.contains_key(tid) ==> by_id[tid] < slots.len() && slots[by_id[tid] as int].thread_id
            == tid
    &&& forall|i: int|
        0 <= i < slots.len() ==> by_id.contains_key(#[trigger] slots[i].thread_id)
            && by_id[slots[i].thread_id] == i && slots[i].index == i
}

spec fn store_threads(slots: Seq<ThreadState>, by_id: Map<u32, usize>) -> Map<u32, ThreadView> {
    Map::new(|tid: u32| by_id.contains_key(tid), |tid: u32| slots[by_id[tid] as int]@)
}

/// Replacing one slot by a thread with the same id and index keeps the store
/// well formed and changes that one thread only.
proof fn lemma_slot_updated(
    old_slots: Seq<ThreadState>,
    by_id: Map<u32, usize>,
    i: int,
    x: ThreadState,
)
    requires
        store_wf(old_slots, by_id),
        0 <= i < old_slots.len(),
        x.thread_id == old_slots[i].thread_id,
        x.index == old_slots[i].index,
    ensures
        store_wf(old_slots.update(i, x), by_id),
        store_threads(old_slots.update(i, x), by_id) == store_threads(old_slots, by_id).insert(
            x.thread_id,
            x@,
        ),
{
    let slots = old_slots.update(i, x);
    assert(by_id.contains_key(x.thread_id));
    assert forall|tid: u32| #[trigger] by_id.contains_key(tid) implies by_id[tid] < slots.len()
        && slots[by_id[tid] as int].thread_id == tid by {
        if by_id[tid] as int == i {
            assert(old_slots[i].thread_id == tid);
        }
    }
    assert forall|j: int| 0 <= j < slots.len() implies by_id.contains_key(
        #[trigger] slots[j].thread_id,
    ) && by_id[slots[j].thread_id] == j && slots[j].index == j by {
        if j == i {
            assert(old_slots[i].thread_id == x.thread_id);
        }
    }
    assert(store_threads(slots, by_id) =~= store_threads(old_slots, by_id).insert(
        x.thread_id,
        x@,
    ));
}

/// All threads seen so far, keyed by thread id, in order of first sighting.
pub struct ThreadStore {
    slots: Vec<ThreadState>,
    by_id: HashMap<u32, usize>,
}

impl ThreadStore {
    /// Every id maps to the slot holding that thread, and every slot is
    /// reached from its own id; slots are numbered in order.
    pub closed spec fn wf(&self) -> bool {
        store_wf(self.slots@, self.by_id@)
    }

    /// The threads, keyed by id.
    pub closed spec fn threads(&self) -> Map<u32, ThreadView> {
        store_threads(self.slots@, self.by_id@)
    }

    /// The index the next new thread receives.
    pub closed spec fn next_index(&self) -> nat {
        self.slots@.len()
    }

    pub fn new() -> (r: Self)
        ensures
            r.wf(),
            r.threads() == Map::<u32, ThreadView>::empty(),
            r.next_index() == 0,
    {
        let r = ThreadStore { slots: Vec::new(), by_id: HashMap::new() };
        assert(r.threads() =~= Map::<u32, ThreadView>::empty());
        r
    }

    /// Whether thread `tid` has been seen.
    pub fn contains(&self, tid: u32) -> (r: bool)
        requires
            self.wf(),
        ensures
            r == self.threads().contains_key(tid),
    {
        self.by_id.contains_key(&tid)
    }

    /// The thread `tid`, if it has been seen.
    pub fn get(&self, tid: u32) -> (r: Option<&ThreadState>)
        requires
            self.wf(),
        ensures
            match r {
                Some(t) => self.threads().contains_key(tid) && t@ == self.threads()[tid],
                None => !self.threads().contains_key(tid),
            },
    {
        match self.by_id.get(&tid) {
            Some(i) => Some(&self.slots[*i]),
            None => None,
        }
    }

    /// Records a sampling interrupt for `tid`; one for an unknown thread is
    /// dropped and creates nothing.
    pub fn on_sample_interrupt(&mut self, tid: u32, ts: u64)
        requires
            old(self).wf(),
        ensures
            final(self).wf(),
            final(self).next_index() == old(self).next_index(),
            final(self).threads() == if old(self).threads().contains_key(tid) {
                old(self).threads().insert(tid, interrupt_spec(old(self).threads()[tid], ts))
            } else {
                old(self).threads()
            },
    {
        let i = match self.by_id.get(&tid) {
            Some(i) => *i,
            None => {
                return;
            },
        };
        let ghost old_slots = self.slots@;
        self.slots[i].on_sample_interrupt(ts);
        proof {
            lemma_slot_updated(old_slots, self.by_id@, i as int, self.slots@[i as int]);
            assert(self.slots@ == old_slots.update(i as int, self.slots@[i as int]));
        }
    }

    /// Feeds a stack fragment, innermost frame first, to the known thread `tid`.
    pub fn on_stack_walk(&mut self, tid: u32, ts: u64, stack: Vec<u64>)
        requires
            old(self).wf(),
            old(self).threads().contains_key(tid),
        ensures
            final(self).wf(),
            final(self).next_index() == old(self).next_index(),
            final(self).threads() == old(self).threads().insert(
                tid,
                stack_walk_spec(old(self).threads()[tid], ts, stack@),
            ),
    {
        let i = *self.by_id.get(&tid).unwrap();
        let ghost old_slots = self.slots@;
        self.slots[i].on_stack_walk(ts, stack);
        proof {
            lemma_slot_updated(old_slots, self.by_id@, i as int, self.slots@[i as int]);
            assert(self.slots@ == old_slots.update(i as int, self.slots@[i as int]));
        }
    }

    /// Names the known thread `tid`, unless `name` is empty.
    pub fn set_name(&mut self, tid: u32, name: String)
        requires
            old(self).wf(),
            old(self).threads().contains_key(tid),
        ensures
            final(self).wf(),
            final(self).next_index() == old(self).next_index(),
            final(self).threads() == old(self).threads().insert(
                tid,
                rename_spec(old(self).threads()[tid], name@),
            ),
    {
        let i = *self.by_id.get(&tid).unwrap();
        let ghost old_slots = self.slots@;
        self.slots[i].set_name(name);
        proof {
            lemma_slot_updated(old_slots, self.by_id@, i as int, self.slots@[i as int]);
            assert(self.slots@ == old_slots.update(i as int, self.slots@[i as int]));
        }
    }

    /// Hands over every thread, in order of first sighting.
    pub fn into_threads(self) -> (r: Vec<ThreadState>)
        requires
            self.wf(),
        ensures
            r@.len() == self.next_index(),
            forall|i: int|
                0 <= i < r@.len() ==> (#[trigger] r@[i]).index == i
                    && self.threads().contains_key(r@[i].thread_id) && self.threads()[r@[i].thread_id]
                    == r@[i]@,
            forall|tid: u32|
                #[trigger] self.threads().contains_key(tid) ==> exists|i: int|
                    0 <= i < r@.len() && r@[i].thread_id == tid,
    {
        assert forall|tid: u32| #[trigger] self.threads().contains_key(tid) implies exists|i: int|
            0 <= i < self.slots@.len() && self.slots@[i].thread_id == tid by {
            assert(self.slots@[self.by_id@[tid] as int].thread_id == tid);
        }
        assert forall|i: int| 0 <= i < self.slots@.len() implies (#[trigger] self.slots@[i]).index
            == i && self.threads().contains_key(self.slots@[i].thread_id)
            && self.threads()[self.slots@[i].thread_id] == self.slots@[i]@ by {
            assert(self.by_id@[self.slots@[i].thread_id] == i);
        }
        self.slots
    }

    /// Creates thread `tid` of process `pid` unless it exists already.
    pub fn get_or_create(&mut self, tid: u32, pid: u32)
        requires
            old(self).wf(),
        ensures
            final(self).wf(),
            old(self).threads().contains_key(tid) ==> final(self).threads() == old(
                self,
            ).threads() && final(self).next_index() == old(self).next_index(),
            !old(self).threads().contains_key(tid) ==> final(self).threads() == old(
                self,
            ).threads().insert(tid, fresh_thread(tid, pid, old(self).next_index() as usize))
                && final(self).next_index() == old(self).next_index() + 1,
    {
        if self.by_id.contains_key(&tid) {
            return;
        }
        let n = self.slots.len();
        let ghost old_threads = self.threads();
        let t = ThreadState::new(tid, pid, n);
        self.slots.push(t);
        self.by_id.insert(tid, n);
        assert(self.threads() =~= old_threads.insert(tid, fresh_thread(tid, pid, n)));
    }
}

} // verus!
