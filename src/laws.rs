use vstd::prelude::*;
use crate::address::is_kernel_spec;
use crate::profile::{event_spec, EventView, ProfilerView};
use crate::targets::process_start_spec;
use crate::text::has_substring;
use crate::threads::{interrupt_spec, stack_walk_spec, ThreadView};

verus! {

/// The thread after a run of stack-walk events, each a timestamp and a
/// fragment, innermost frame first.
pub open spec fn walks_spec(t: ThreadView, walks: Seq<(u64, Seq<u64>)>) -> ThreadView
    decreases walks.len(),
{
    if walks.len() == 0 {
        t
    } else {
        walks_spec(stack_walk_spec(t, walks[0].0, walks[0].1), walks.drop_first())
    }
}

/// The state after a run of events; an event that raises an error leaves the
/// state as it was and the run goes on.
pub open spec fn run_spec(p: ProfilerView, events: Seq<EventView>) -> ProfilerView
    decreases events.len(),
{
    if events.len() == 0 {
        p
    } else {
        let next = match event_spec(p, events[0]) {
            Ok(q) => q,
            Err(_) => p,
        };
        run_spec(next, events.drop_first())
    }
}

/// An interrupt at `ts`, then a kernel fragment at `ts`, then a user
/// fragment at `ts` emit exactly one sample at `ts`: the user frames followed
/// by the kernel frames. Nothing stays buffered.
pub proof fn lemma_interrupt_kernel_user_merge(
    t: ThreadView,
    ts: u64,
    kernel: Seq<u64>,
    user: Seq<u64>,
)
    requires
        kernel.len() > 0,
        is_kernel_spec(kernel[0], 8),
        user.len() > 0,
        !is_kernel_spec(user[0], 8),
    ensures
        ({
            let done = stack_walk_spec(
                stack_walk_spec(interrupt_spec(t, ts), ts, kernel),
                ts,
                user,
            );
            &&& done.samples == t.samples.push((ts, user + kernel))
            &&& done.pending is None
        }),
{
}

/// A kernel fragment at `t1` followed, after an interrupt at a different
/// `t2`, by a user fragment at `t2`: the kernel fragment is emitted alone at
/// `t1`, the user fragment yields nothing, and nothing stays buffered.
pub proof fn lemma_stale_kernel_flushed(
    t: ThreadView,
    t1: u64,
    t2: u64,
    kernel: Seq<u64>,
    user: Seq<u64>,
)
    requires
        t.last_sample == Some(t1),
        t1 != t2,
        kernel.len() > 0,
        is_kernel_spec(kernel[0], 8),
        user.len() > 0,
        !is_kernel_spec(user[0], 8),
    ensures
        ({
            let done = stack_walk_spec(
                interrupt_spec(stack_walk_spec(t, t1, kernel), t2),
                t2,
                user,
            );
            &&& done.samples == t.samples.push((t1, kernel))
            &&& done.pending is None
        }),
{
}

/// Stack walks whose timestamps never equal the thread's latest sampling
/// interrupt change nothing, and in particular emit no sample.
pub proof fn lemma_unmatched_walks_ignored(t: ThreadView, walks: Seq<(u64, Seq<u64>)>)
    requires
        forall|i: int| 0 <= i < walks.len() ==> t.last_sample != Some(#[trigger] walks[i].0),
    ensures
        walks_spec(t, walks) == t,
    decreases walks.len(),
{
    if walks.len() > 0 {
        assert(t.last_sample != Some(walks[0].0));
        let rest = walks.drop_first();
        assert forall|i: int| 0 <= i < rest.len() implies t.last_sample != Some(
            #[trigger] rest[i].0,
        ) by {
            assert(rest[i] == walks[i + 1]);
        }
        lemma_unmatched_walks_ignored(t, rest);
    }
}

/// A sampling interrupt for a thread not seen yet is dropped: no state is
/// created and nothing changes.
pub proof fn lemma_unknown_interrupt_dropped(p: ProfilerView, thread_id: u32, timestamp: u64)
    requires
        !p.threads.contains_key(thread_id),
    ensures
        event_spec(p, EventView::SampleInterrupt { thread_id, timestamp }) == Ok::<
            ProfilerView,
            crate::libraries::LibraryError,
        >(p),
{
}

/// No event removes a process from the target set.
pub proof fn lemma_targets_grow(p: ProfilerView, e: EventView)
    ensures
        event_spec(p, e) matches Ok(q) ==> p.targets.ids.subset_of(q.targets.ids),
{
}

/// A process whose start event matches the name pattern is admitted by that
/// one event, and stays admitted whatever events follow.
pub proof fn lemma_name_admission_permanent(
    p: ProfilerView,
    pid: u32,
    image: Seq<char>,
    later: Seq<EventView>,
)
    requires
        p.targets.name_pattern matches Some(pat) && has_substring(image, pat),
    ensures
        ({
            let q = event_spec(p, EventView::ProcessStart { process_id: pid, image_file_name: image });
            &&& q matches Ok(q) && q.targets.ids.contains(pid)
            &&& q matches Ok(q) && run_spec(q, later).targets.ids.contains(pid)
        }),
{
    let q = event_spec(p, EventView::ProcessStart { process_id: pid, image_file_name: image });
    assert(process_start_spec(p.targets, pid, image).ids.contains(pid));
    lemma_run_keeps_target(q.unwrap(), pid, later);
}

proof fn lemma_run_keeps_target(p: ProfilerView, pid: u32, events: Seq<EventView>)
    requires
        p.targets.ids.contains(pid),
    ensures
        run_spec(p, events).targets.ids.contains(pid),
    decreases events.len(),
{
    if events.len() > 0 {
        lemma_targets_grow(p, events[0]);
        let next = match event_spec(p, events[0]) {
            Ok(q) => q,
            Err(_) => p,
        };
        lemma_run_keeps_target(next, pid, events.drop_first());
    }
}

} // verus!
