//! Stack reconstruction and profile assembly for a stream of decoded
//! system trace events.
//!
//! Events arrive one at a time; [`Profiler::handle_event`] filters them to the
//! target processes, stitches kernel-mode and user-mode stack fragments into
//! one sample per sampling interrupt, and finalizes loaded modules into
//! library records once their debug identity is known.
mod address;
mod text;
mod targets;
mod libraries;
mod threads;
mod profile;
mod laws;

pub use address::{decode_stack, decoded_stack, is_kernel_address, is_kernel_spec, le_word, KERNEL_START_32, KERNEL_START_64};
pub use text::{has_substring, hex_digit, hex_value, hyphenated_digits, is_hyphenated_id, uuid_of};
pub use targets::{process_start_spec, TargetFilter, TargetsView};
pub use libraries::{arch_tag, finalize_spec, ImageInfo, LibraryError, LibraryRecord, LibraryTable, LibraryView};
pub use threads::{fresh_thread, interrupt_spec, rename_spec, stack_walk_spec, Fragment, Sample, ThreadState, ThreadStore, ThreadView};
pub use profile::{event_spec, in_scope, kernel_symbols_wanted, with_thread, EventView, Profiler, ProfilerView, TraceEvent, KERNEL_PROCESS_ID};
pub use laws::{run_spec, walks_spec, lemma_interrupt_kernel_user_merge, lemma_stale_kernel_flushed, lemma_unmatched_walks_ignored, lemma_unknown_interrupt_dropped, lemma_name_admission_permanent, lemma_targets_grow};
