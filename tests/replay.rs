use dash_relay::metadata::FileMetadata;
use dash_relay::replay::{chunk_plan, gap, ChunkPlan, ReplayState, ReplayStep};

fn file(offset: u32, chunks: Vec<(u32, usize, usize)>, segment: u32) -> FileMetadata {
    let mut f = FileMetadata::new(offset, String::new(), String::new(), Some(segment));
    f.chunks = chunks;
    f
}

#[test]
fn replay_paces_segments() {
    let init = Some(file(0, vec![(0, 0, 5), (3, 5, 5)], 0));
    let segments = vec![file(10, vec![(0, 0, 1), (4, 1, 1)], 1), file(15, vec![(0, 0, 1)], 2)];
    let mut state = ReplayState::new(&init);
    assert_eq!(state.last_time_offset, 3);
    assert!(matches!(state.step(&segments, false, false), ReplayStep::Send { index: 0, pause_ms: 7 }));
    assert!(matches!(state.step(&segments, false, false), ReplayStep::Send { index: 1, pause_ms: 0 }));
    assert!(matches!(state.step(&segments, false, false), ReplayStep::Stop));
    assert!(matches!(state.step(&segments, true, false), ReplayStep::Send { index: 0, pause_ms: 10 }));
    assert!(matches!(state.step(&segments, true, true), ReplayStep::Stop));
}

#[test]
fn replay_saturates_backwards_clock() {
    assert_eq!(gap(10, 4), 0);
    assert_eq!(gap(4, 10), 6);
}

#[test]
fn chunk_plans() {
    let chunks = vec![(0, 0, 3), (10, 3, 2), (11, 5, 1)];
    assert!(matches!(chunk_plan(&chunks, 0, 6), ChunkPlan::Send { begin: 0, end: 3, pause_ms: 10 }));
    assert!(matches!(chunk_plan(&chunks, 1, 6), ChunkPlan::Send { begin: 3, end: 5, pause_ms: 0 }));
    assert!(matches!(chunk_plan(&chunks, 2, 6), ChunkPlan::Send { begin: 5, end: 6, pause_ms: 0 }));
    assert!(matches!(chunk_plan(&chunks, 3, 6), ChunkPlan::Done));
    assert!(matches!(chunk_plan(&chunks, 2, 5), ChunkPlan::OutOfRange));
}
