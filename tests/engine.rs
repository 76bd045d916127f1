use etw_gecko::{
    decode_stack, is_kernel_address, Fragment, LibraryError, LibraryTable, Profiler, TargetFilter,
    ThreadState, TraceEvent,
};

const PID: u32 = 1234;
const TID: u32 = 7;
const K1: u64 = 0xFFFF_F800_0000_0001;
const K2: u64 = 0xFFFF_F800_0000_0002;
const U1: u64 = 0x401000;
const U2: u64 = 0x402000;

/// Builds a raw stack payload from addresses given innermost frame first
/// (the payload itself stores them outermost first).
fn payload(leaf_first: &[u64]) -> Vec<u8> {
    let mut out = Vec::new();
    for a in leaf_first.iter().rev() {
        out.extend_from_slice(&a.to_le_bytes());
    }
    out
}

fn walk(thread_id: u32, timestamp: u64, leaf_first: &[u64]) -> TraceEvent {
    TraceEvent::StackWalk {
        process_id: PID,
        thread_id,
        timestamp,
        payload: payload(leaf_first),
    }
}

fn interrupt(thread_id: u32, timestamp: u64) -> TraceEvent {
    TraceEvent::SampleInterrupt { thread_id, timestamp }
}

fn started() -> Profiler {
    let mut p = Profiler::new(TargetFilter::by_id(PID));
    p.handle_event(TraceEvent::ThreadStart {
        process_id: PID,
        thread_id: TID,
        thread_name: "main".to_string(),
    })
    .unwrap();
    p
}

fn thread(p: &Profiler, tid: u32) -> &ThreadState {
    p.thread(tid).expect("thread should exist")
}

fn to_ms(ticks: u64) -> f64 {
    ticks as f64 / 10000.0
}

#[test]
fn kernel_cutoff_64_bit() {
    assert!(is_kernel_address(0xFFFF_8000_0000_0000, 8));
    assert!(!is_kernel_address(0x0000_7000_0000_0000, 8));
    assert!(is_kernel_address(0xFFFF_0000_0000_0000, 8));
    assert!(!is_kernel_address(0xFFFE_FFFF_FFFF_FFFF, 8));
}

#[test]
fn kernel_cutoff_32_bit() {
    assert!(is_kernel_address(0x8000_0000, 4));
    assert!(!is_kernel_address(0x7FFF_FFFF, 4));
    assert!(!is_kernel_address(0x8000_0000, 8));
}

#[test]
fn decode_reverses_little_endian_words() {
    let mut bytes = Vec::new();
    bytes.extend_from_slice(&[1, 2, 3, 4, 5, 6, 7, 8]);
    bytes.extend_from_slice(&0xFFFF_F800_1234_5678u64.to_le_bytes());
    let stack = decode_stack(&bytes).unwrap();
    assert_eq!(stack, vec![0xFFFF_F800_1234_5678, 0x0807_0605_0403_0201]);
}

#[test]
fn decode_rejects_ragged_payload() {
    assert_eq!(decode_stack(&vec![0u8; 12]), None);
    assert_eq!(decode_stack(&vec![]), Some(vec![]));
}

#[test]
fn end_to_end_merge_at_one_timestamp() {
    let mut p = started();
    p.handle_event(interrupt(TID, 100)).unwrap();
    p.handle_event(walk(TID, 100, &[K1, K2])).unwrap();
    assert!(matches!(thread(&p, TID).pending, Fragment::KernelPending { timestamp: 100, .. }));
    p.handle_event(walk(TID, 100, &[U1, U2])).unwrap();
    let t = thread(&p, TID);
    assert_eq!(t.samples.len(), 1);
    assert_eq!(t.samples[0].timestamp, 100);
    assert_eq!(to_ms(t.samples[0].timestamp), 0.01);
    assert_eq!(t.samples[0].stack, vec![U1, U2, K1, K2]);
    assert!(matches!(t.pending, Fragment::Idle));
}

#[test]
fn one_sample_per_interrupt_over_many_ticks() {
    let mut p = started();
    for ts in [100u64, 200, 300] {
        p.handle_event(interrupt(TID, ts)).unwrap();
        p.handle_event(walk(TID, ts, &[K1])).unwrap();
        p.handle_event(walk(TID, ts, &[U1, ts])).unwrap();
    }
    let t = thread(&p, TID);
    assert_eq!(t.samples.len(), 3);
    for (i, ts) in [100u64, 200, 300].iter().enumerate() {
        assert_eq!(t.samples[i].timestamp, *ts);
        assert_eq!(t.samples[i].stack, vec![U1, *ts, K1]);
    }
}

#[test]
fn stale_kernel_fragment_is_flushed_alone() {
    let mut p = started();
    p.handle_event(interrupt(TID, 100)).unwrap();
    p.handle_event(walk(TID, 100, &[K1, K2])).unwrap();
    p.handle_event(interrupt(TID, 200)).unwrap();
    p.handle_event(walk(TID, 200, &[U1, U2])).unwrap();
    let t = thread(&p, TID);
    assert_eq!(t.samples.len(), 1);
    assert_eq!(t.samples[0].timestamp, 100);
    assert_eq!(t.samples[0].stack, vec![K1, K2]);
    assert!(matches!(t.pending, Fragment::Idle));
}

#[test]
fn user_fragment_without_kernel_is_dropped() {
    // Only a buffered kernel fragment is ever flushed on its own; a lone
    // user fragment yields no sample.
    let mut p = started();
    p.handle_event(interrupt(TID, 100)).unwrap();
    p.handle_event(walk(TID, 100, &[U1, U2])).unwrap();
    assert!(thread(&p, TID).samples.is_empty());
}

#[test]
fn superseded_kernel_fragment_is_lost() {
    let mut p = started();
    p.handle_event(interrupt(TID, 100)).unwrap();
    p.handle_event(walk(TID, 100, &[K1])).unwrap();
    p.handle_event(walk(TID, 100, &[K2])).unwrap();
    p.handle_event(walk(TID, 100, &[U1])).unwrap();
    let t = thread(&p, TID);
    assert_eq!(t.samples.len(), 1);
    assert_eq!(t.samples[0].stack, vec![U1, K2]);
}

#[test]
fn unmatched_walks_emit_nothing() {
    let mut p = started();
    p.handle_event(walk(TID, 50, &[K1])).unwrap();
    p.handle_event(walk(TID, 50, &[U1])).unwrap();
    p.handle_event(interrupt(TID, 100)).unwrap();
    p.handle_event(walk(TID, 99, &[K1])).unwrap();
    p.handle_event(walk(TID, 101, &[U1])).unwrap();
    let t = thread(&p, TID);
    assert!(t.samples.is_empty());
    assert!(matches!(t.pending, Fragment::Idle));
}

#[test]
fn interrupt_for_unknown_thread_is_dropped() {
    let mut p = started();
    p.handle_event(interrupt(99, 100)).unwrap();
    assert!(p.thread(99).is_none());
    // Once the thread appears, the old interrupt does not count.
    p.handle_event(walk(99, 100, &[K1])).unwrap();
    p.handle_event(walk(99, 100, &[U1])).unwrap();
    let t = thread(&p, 99);
    assert!(t.samples.is_empty());
    assert_eq!(t.last_sample_timestamp, None);
}

#[test]
fn stack_walk_creates_thread_with_next_index() {
    let mut p = started();
    p.handle_event(walk(8, 10, &[U1])).unwrap();
    p.handle_event(TraceEvent::ThreadStart {
        process_id: PID,
        thread_id: 8,
        thread_name: String::new(),
    })
    .unwrap();
    assert_eq!(thread(&p, TID).index, 0);
    let t = thread(&p, 8);
    assert_eq!(t.index, 1);
    assert_eq!(t.process_id, PID);
    assert_eq!(t.name, "");
    assert_eq!(thread(&p, TID).name, "main");
}

#[test]
fn events_of_other_processes_are_ignored() {
    let mut p = started();
    p.handle_event(TraceEvent::StackWalk {
        process_id: 42,
        thread_id: 9,
        timestamp: 5,
        payload: payload(&[U1]),
    })
    .unwrap();
    p.handle_event(TraceEvent::ThreadStart {
        process_id: 42,
        thread_id: 10,
        thread_name: "other".to_string(),
    })
    .unwrap();
    assert!(p.thread(9).is_none());
    assert!(p.thread(10).is_none());
}

#[test]
fn malformed_and_empty_payloads_are_skipped() {
    let mut p = started();
    p.handle_event(interrupt(TID, 100)).unwrap();
    p.handle_event(TraceEvent::StackWalk {
        process_id: PID,
        thread_id: TID,
        timestamp: 100,
        payload: vec![1, 2, 3],
    })
    .unwrap();
    p.handle_event(walk(TID, 100, &[])).unwrap();
    let t = thread(&p, TID);
    assert!(t.samples.is_empty());
    assert!(matches!(t.pending, Fragment::Idle));
}

#[test]
fn process_admitted_by_name_stays_admitted() {
    let mut p = Profiler::new(TargetFilter::by_name("firefox".to_string()));
    assert!(!p.admits(500));
    p.handle_event(TraceEvent::ProcessStart {
        process_id: 400,
        image_file_name: "notepad.exe".to_string(),
    })
    .unwrap();
    assert!(!p.admits(400));
    p.handle_event(TraceEvent::ProcessStart {
        process_id: 500,
        image_file_name: "firefox.exe".to_string(),
    })
    .unwrap();
    assert!(p.admits(500));
    p.handle_event(TraceEvent::ProcessStart {
        process_id: 500,
        image_file_name: "renamed.exe".to_string(),
    })
    .unwrap();
    assert!(p.admits(500));
    p.handle_event(TraceEvent::ThreadStart {
        process_id: 500,
        thread_id: 1,
        thread_name: String::new(),
    })
    .unwrap();
    assert!(p.thread(1).is_some());
}

#[test]
fn filter_by_id_ignores_process_names() {
    let mut p = Profiler::new(TargetFilter::by_id(PID));
    p.handle_event(TraceEvent::ProcessStart {
        process_id: 500,
        image_file_name: "firefox.exe".to_string(),
    })
    .unwrap();
    assert!(p.admits(PID));
    assert!(!p.admits(500));
}

const GUID: &str = "12345678-9ABC-DEF0-1234-56789abcdef0";

#[test]
fn finalize_combines_image_and_debug_identity() {
    let mut libs = LibraryTable::new();
    libs.record_image(0x1000_0000, 0x2000, "xul.dll".to_string());
    let rec = libs.finalize(0x1000_0000, GUID, 3, "xul.pdb").unwrap();
    assert_eq!(rec.name, "xul.pdb");
    assert_eq!(rec.debug_name, "xul.pdb");
    assert_eq!(rec.uuid, 0x1234_5678_9ABC_DEF0_1234_5678_9ABC_DEF0);
    assert_eq!(rec.age, 3);
    assert_eq!(rec.arch, "x86_64");
    assert_eq!(rec.start, 0x1000_0000);
    assert_eq!(rec.end, 0x1000_2000);
}

#[test]
fn finalize_without_image_fails() {
    let libs = LibraryTable::new();
    assert_eq!(
        libs.finalize(0x5000, GUID, 1, "a.pdb").err(),
        Some(LibraryError::MissingImageRecord { base: 0x5000 })
    );
}

#[test]
fn finalize_rejects_bad_guid_and_overflow() {
    let mut libs = LibraryTable::new();
    libs.record_image(0x1000, 0x10, "a.dll".to_string());
    libs.record_image(u64::MAX - 4, 0x10, "b.dll".to_string());
    assert_eq!(
        libs.finalize(0x1000, "12345678_9ABC-DEF0-1234-56789abcdef0", 1, "a.pdb").err(),
        Some(LibraryError::InvalidDebugId)
    );
    assert_eq!(
        libs.finalize(u64::MAX - 4, GUID, 1, "b.pdb").err(),
        Some(LibraryError::AddressOverflow { base: u64::MAX - 4 })
    );
}

#[test]
fn record_image_overwrites() {
    let mut libs = LibraryTable::new();
    libs.record_image(0x1000, 0x10, "a.dll".to_string());
    libs.record_image(0x1000, 0x20, "b.dll".to_string());
    let rec = libs.finalize(0x1000, GUID, 1, "b.pdb").unwrap();
    assert_eq!(rec.end, 0x1020);
}

fn debug_id(process_id: u32, base: u64, pdb: &str) -> TraceEvent {
    TraceEvent::DebugId {
        process_id,
        image_base: base,
        guid: GUID.to_string(),
        age: 2,
        pdb_file_name: pdb.to_string(),
    }
}

fn image(process_id: u32, base: u64, name: &str) -> TraceEvent {
    TraceEvent::ImageLoad {
        process_id,
        image_base: base,
        image_size: 0x100,
        file_name: name.to_string(),
    }
}

#[test]
fn kernel_modules_follow_allow_list() {
    let mut p = started();
    p.handle_event(image(0, 0xFFFF_F800_0000_0000, "ntoskrnl.exe")).unwrap();
    p.handle_event(image(0, 0xFFFF_F800_1000_0000, "disk.sys")).unwrap();
    p.handle_event(image(0, 0xFFFF_F800_2000_0000, "win32kfull.sys")).unwrap();
    p.handle_event(debug_id(0, 0xFFFF_F800_0000_0000, "ntkrnlmp.pdb")).unwrap();
    p.handle_event(debug_id(0, 0xFFFF_F800_1000_0000, "disk.pdb")).unwrap();
    p.handle_event(debug_id(0, 0xFFFF_F800_2000_0000, "win32kfull.pdb")).unwrap();
    let names: Vec<&str> = p.libraries().iter().map(|l| l.name.as_str()).collect();
    assert_eq!(names, vec!["ntkrnlmp.pdb", "win32kfull.pdb"]);
}

#[test]
fn libraries_of_target_process_are_finalized() {
    let mut p = started();
    p.handle_event(image(PID, 0x40_0000, "firefox.exe")).unwrap();
    p.handle_event(image(42, 0x50_0000, "other.exe")).unwrap();
    p.handle_event(debug_id(PID, 0x40_0000, "firefox.pdb")).unwrap();
    p.handle_event(debug_id(42, 0x50_0000, "other.pdb")).unwrap();
    assert_eq!(p.libraries().len(), 1);
    assert_eq!(p.libraries()[0].start, 0x40_0000);
    assert_eq!(p.libraries()[0].end, 0x40_0100);
}

#[test]
fn debug_id_without_load_is_an_error() {
    let mut p = started();
    let r = p.handle_event(debug_id(PID, 0x40_0000, "firefox.pdb"));
    assert_eq!(r, Err(LibraryError::MissingImageRecord { base: 0x40_0000 }));
    assert!(p.libraries().is_empty());
}

#[test]
fn into_parts_returns_threads_in_order() {
    let mut p = started();
    p.handle_event(walk(8, 10, &[U1])).unwrap();
    p.handle_event(walk(3, 10, &[U1])).unwrap();
    let (threads, libs) = p.into_parts();
    let ids: Vec<u32> = threads.iter().map(|t| t.thread_id).collect();
    assert_eq!(ids, vec![TID, 8, 3]);
    assert!(libs.is_empty());
}
