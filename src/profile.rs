use vstd::prelude::*;
use crate::address::{decode_stack, decoded_stack};
use crate::libraries::{finalize_spec, LibraryError, LibraryRecord, LibraryTable, LibraryView};
use crate::targets::{process_start_spec, TargetFilter, TargetsView};
use crate::text::{has_substring, str_contains};
use crate::threads::{
    fresh_thread, interrupt_spec, rename_spec, stack_walk_spec, ThreadState, ThreadStore,
    ThreadView,
};

verus! {

/// A decoded trace event, reduced to the values the profile needs.
pub enum TraceEvent {
    /// A thread of `process_id` exists (it started, or was running when the
    /// trace began).
    ThreadStart { process_id: u32, thread_id: u32, thread_name: String },
    /// A process exists, with the file name of its image.
    ProcessStart { process_id: u32, image_file_name: String },
    /// A captured call stack; `payload` holds one little-endian 64-bit
    /// address per frame, outermost first.
    StackWalk { process_id: u32, thread_id: u32, timestamp: u64, payload: Vec<u8> },
    /// A periodic sampling interrupt hit `thread_id`.
    SampleInterrupt { thread_id: u32, timestamp: u64 },
    /// A module was loaded at `image_base`.
    ImageLoad { process_id: u32, image_base: u64, image_size: u32, file_name: String },
    /// The debug identity of the module loaded at `image_base`.
    DebugId {
        process_id: u32,
        image_base: u64,
        guid: String,
        age: u32,
        pdb_file_name: String,
    },
}

/// Abstract value of a [`TraceEvent`].
pub enum EventView {
    ThreadStart { process_id: u32, thread_id: u32, thread_name: Seq<char> },
    ProcessStart { process_id: u32, image_file_name: Seq<char> },
    StackWalk { process_id: u32, thread_id: u32, timestamp: u64, payload: Seq<u8> },
    SampleInterrupt { thread_id: u32, timestamp: u64 },
    ImageLoad { process_id: u32, image_base: u64, image_size: u32, file_name: Seq<char> },
    DebugId {
        process_id: u32,
        image_base: u64,
        guid: Seq<char>,
        age: u32,
        pdb_file_name: Seq<char>,
    },
}

impl View for TraceEvent {
    type V = EventView;

    open spec fn view(&self) -> EventView {
        match self {
            TraceEvent::ThreadStart { process_id, thread_id, thread_name } => EventView::ThreadStart {
                process_id: *process_id,
                thread_id: *thread_id,
                thread_name: thread_name@,
            },
            TraceEvent::ProcessStart { process_id, image_file_name } => EventView::ProcessStart {
                process_id: *process_id,
                image_file_name: image_file_name@,
            },
            TraceEvent::StackWalk { process_id, thread_id, timestamp, payload } => EventView::StackWalk {
                process_id: *process_id,
                thread_id: *thread_id,
                timestamp: *timestamp,
                payload: payload@,
            },
            TraceEvent::SampleInterrupt { thread_id, timestamp } => EventView::SampleInterrupt {
                thread_id: *thread_id,
                timestamp: *timestamp,
            },
            TraceEvent::ImageLoad { process_id, image_base, image_size, file_name } => EventView::ImageLoad {
                process_id: *process_id,
                image_base: *image_base,
                image_size: *image_size,
                file_name: file_name@,
            },
            TraceEvent::DebugId { process_id, image_base, guid, age, pdb_file_name } => EventView::DebugId {
                process_id: *process_id,
                image_base: *image_base,
                guid: guid@,
                age: *age,
                pdb_file_name: pdb_file_name@,
            },
        }
    }
}

/// The process id under which kernel modules are reported.
pub const KERNEL_PROCESS_ID: u32 = 0;

/// The whole processing context: target filter, image table, thread store
/// and the libraries finalized so far.
pub struct Profiler {
    targets: TargetFilter,
    images: LibraryTable,
    threads: ThreadStore,
    libraries: Vec<LibraryRecord>,
}

/// Abstract state of a [`Profiler`].
pub struct ProfilerView {
    pub targets: TargetsView,
    pub images: Map<u64, (Seq<char>, u32)>,
    pub threads: Map<u32, ThreadView>,
    pub next_index: nat,
    pub libraries: Seq<LibraryView>,
}

impl View for Profiler {
    type V = ProfilerView;

    closed spec fn view(&self) -> ProfilerView {
        ProfilerView {
            targets: self.targets@,
            images: self.images@,
            threads: self.threads.threads(),
            next_index: self.threads.next_index(),
            libraries: self.libraries@.map_values(|l: LibraryRecord| l@),
        }
    }
}

/// Kernel modules whose symbols are worth fetching: the executive and the
/// window manager.
pub open spec fn kernel_symbols_wanted(pdb: Seq<char>) -> bool {
    has_substring(pdb, seq!['n', 't', 'k', 'r', 'n', 'l', 'm', 'p']) || has_substring(
        pdb,
        seq!['w', 'i', 'n', '3', '2', 'k'],
    )
}

/// Whether events of process `pid` are in scope.
pub open spec fn in_scope(p: ProfilerView, pid: u32) -> bool {
    p.targets.ids.contains(pid)
}

/// The state once thread `tid` of process `pid` is known.
pub open spec fn with_thread(p: ProfilerView, tid: u32, pid: u32) -> ProfilerView {
    if p.threads.contains_key(tid) {
        p
    } else {
        ProfilerView {
            threads: p.threads.insert(tid, fresh_thread(tid, pid, p.next_index as usize)),
            next_index: p.next_index + 1,
            ..p
        }
    }
}

/// The state after one event, or the error it raises (the state then stays
/// as it was).
pub open spec fn event_spec(p: ProfilerView, e: EventView) -> Result<ProfilerView, LibraryError> {
    match e {
        EventView::ThreadStart { process_id, thread_id, thread_name } => Ok(
            if !in_scope(p, process_id) {
                p
            } else {
                let q = with_thread(p, thread_id, process_id);
                ProfilerView {
                    threads: q.threads.insert(
                        thread_id,
                        rename_spec(q.threads[thread_id], thread_name),
                    ),
                    ..q
                }
            },
        ),
        EventView::ProcessStart { process_id, image_file_name } => Ok(
            ProfilerView {
                targets: process_start_spec(p.targets, process_id, image_file_name),
                ..p
            },
        ),
        EventView::StackWalk { process_id, thread_id, timestamp, payload } => Ok(
            if !in_scope(p, process_id) {
                p
            } else {
                let q = with_thread(p, thread_id, process_id);
                match decoded_stack(payload) {
                    None => q,
                    Some(stack) => ProfilerView {
                        threads: q.threads.insert(
                            thread_id,
                            stack_walk_spec(q.threads[thread_id], timestamp, stack),
                        ),
                        ..q
                    },
                }
            },
        ),
        EventView::SampleInterrupt { thread_id, timestamp } => Ok(
            if p.threads.contains_key(thread_id) {
                ProfilerView {
                    threads: p.threads.insert(
                        thread_id,
                        interrupt_spec(p.threads[thread_id], timestamp),
                    ),
                    ..p
                }
            } else {
                p
            },
        ),
        EventView::ImageLoad { process_id, image_base, image_size, file_name } => Ok(
            if in_scope(p, process_id) || process_id == KERNEL_PROCESS_ID {
                ProfilerView {
                    images: p.images.insert(image_base, (file_name, image_size)),
                    ..p
                }
            } else {
                p
            },
        ),
        EventView::DebugId { process_id, image_base, guid, age, pdb_file_name } => {
            if !(in_scope(p, process_id) || process_id == KERNEL_PROCESS_ID) || (process_id
                == KERNEL_PROCESS_ID && !kernel_symbols_wanted(pdb_file_name)) {
                Ok(p)
            } else {
                match finalize_spec(p.images, image_base, guid, age, pdb_file_name) {
                    Ok(lib) => Ok(ProfilerView { libraries: p.libraries.push(lib), ..p }),
                    Err(err) => Err(err),
                }
            }
        },
    }
}

/// Whether a kernel module's symbols are worth fetching.
fn wants_kernel_symbols(pdb: &str) -> (r: bool)
    ensures
        r == kernel_symbols_wanted(pdb@),
{
    proof {
        reveal_strlit("ntkrnlmp");
        reveal_strlit("win32k");
    }
    let a = str_contains(pdb, "ntkrnlmp");
    assert("ntkrnlmp"@ =~= seq!['n', 't', 'k', 'r', 'n', 'l', 'm', 'p']);
    let b = str_contains(pdb, "win32k");
    assert("win32k"@ =~= seq!['w', 'i', 'n', '3', '2', 'k']);
    a || b
}

impl Profiler {
    /// The internal invariant: the thread store is consistent.
    pub closed spec fn wf(&self) -> bool {
        self.threads.wf()
    }

    /// An empty profile over the processes that `targets` admits.
    pub fn new(targets: TargetFilter) -> (r: Self)
        ensures
            r.wf(),
            r@.targets == targets@,
            r@.images == Map::<u64, (Seq<char>, u32)>::empty(),
            r@.threads == Map::<u32, ThreadView>::empty(),
            r@.next_index == 0,
            r@.libraries == Seq::<LibraryView>::empty(),
    {
        let r = Profiler {
            targets,
            images: LibraryTable::new(),
            threads: ThreadStore::new(),
            libraries: Vec::new(),
        };
        assert(r@.libraries =~= Seq::<LibraryView>::empty());
        r
    }

    /// Whether events of process `pid` are in scope.
    pub fn admits(&self, pid: u32) -> (r: bool)
        ensures
            r == in_scope(self@, pid),
    {
        self.targets.admits(pid)
    }

    /// The thread `tid`, if it has been seen.
    pub fn thread(&self, tid: u32) -> (r: Option<&ThreadState>)
        requires
            self.wf(),
        ensures
            match r {
                Some(t) => self@.threads.contains_key(tid) && t@ == self@.threads[tid],
                None => !self@.threads.contains_key(tid),
            },
    {
        self.threads.get(tid)
    }

    /// The libraries finalized so far, in order.
    pub fn libraries(&self) -> (r: &Vec<LibraryRecord>)
        ensures
            r@.map_values(|l: LibraryRecord| l@) == self@.libraries,
    {
        &self.libraries
    }

    /// Ends the run: every thread, in order of first sighting, and the
    /// finalized libraries.
    pub fn into_parts(self) -> (r: (Vec<ThreadState>, Vec<LibraryRecord>))
        requires
            self.wf(),
        ensures
            r.0@.len() == self@.next_index,
            forall|i: int|
                0 <= i < r.0@.len() ==> (#[trigger] r.0@[i]).index == i
                    && self@.threads.contains_key(r.0@[i].thread_id)
                    && self@.threads[r.0@[i].thread_id] == r.0@[i]@,
            forall|tid: u32|
                #[trigger] self@.threads.contains_key(tid) ==> exists|i: int|
                    0 <= i < r.0@.len() && r.0@[i].thread_id == tid,
            r.1@.map_values(|l: LibraryRecord| l@) == self@.libraries,
    {
        let threads = self.threads.into_threads();
        (threads, self.libraries)
    }

    /// Applies one event. An error leaves the state untouched.
    pub fn handle_event(&mut self, e: TraceEvent) -> (r: Result<(), LibraryError>)
        requires
            old(self).wf(),
        ensures
            final(self).wf(),
            match event_spec(old(self)@, e@) {
                Ok(v) => r is Ok && final(self)@ == v,
                Err(err) => r == Err::<(), LibraryError>(err) && final(self)@ == old(self)@,
            },
    {
        let ghost before = self@;
        match e {
            TraceEvent::ThreadStart { process_id, thread_id, thread_name } => {
                if !self.targets.admits(process_id) {
                    return Ok(());
                }
                self.threads.get_or_create(thread_id, process_id);
                self.threads.set_name(thread_id, thread_name);
            },
            TraceEvent::ProcessStart { process_id, image_file_name } => {
                self.targets.on_process_start(process_id, image_file_name.as_str());
            },
            TraceEvent::StackWalk { process_id, thread_id, timestamp, payload } => {
                if !self.targets.admits(process_id) {
                    return Ok(());
                }
                self.threads.get_or_create(thread_id, process_id);
                match decode_stack(&payload) {
                    Some(stack) => self.threads.on_stack_walk(thread_id, timestamp, stack),
                    None => {},
                }
            },
            TraceEvent::SampleInterrupt { thread_id, timestamp } => {
                self.threads.on_sample_interrupt(thread_id, timestamp);
            },
            TraceEvent::ImageLoad { process_id, image_base, image_size, file_name } => {
                if self.targets.admits(process_id) || process_id == KERNEL_PROCESS_ID {
                    self.images.record_image(image_base, image_size, file_name);
                }
            },
            TraceEvent::DebugId { process_id, image_base, guid, age, pdb_file_name } => {
                if !(self.targets.admits(process_id) || process_id == KERNEL_PROCESS_ID) {
                    return Ok(());
                }
                if process_id == KERNEL_PROCESS_ID && !wants_kernel_symbols(
                    pdb_file_name.as_str(),
                ) {
                    return Ok(());
                }
                let lib = self.images.finalize(
                    image_base,
                    guid.as_str(),
                    age,
                    pdb_file_name.as_str(),
                );
                match lib {
                    Ok(lib) => {
                        let ghost lv = lib@;
                        self.libraries.push(lib);
                        assert(self@.libraries =~= before.libraries.push(lv));
                    },
                    Err(err) => {
                        return Err(err);
                    },
                }
            },
        }
        Ok(())
    }
}

} // verus!
