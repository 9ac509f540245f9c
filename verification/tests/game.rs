use lux::game::{FrameTiming, FrameTimings, LoadProgress, LoadState, FRAMES_TO_TRACK};

fn timing(start: u64, end: u64, updates: usize) -> FrameTiming {
    FrameTiming {
        update_durations: vec![10; updates],
        render_duration: 1,
        debug_drawing: 2,
        render_publish: 3,
        timestamp_start: start,
        timestamp_end: end,
    }
}

#[test]
fn frame_timings_keep_the_most_recent() {
    let mut t = FrameTimings::new();
    assert_eq!(t.len(), 0);
    assert_eq!(t.time_span(), None);
    assert_eq!(t.update_count(), 0);
    for i in 0..100u64 {
        t.record(timing(i * 10, i * 10 + 5, 2));
        assert!(t.len() <= FRAMES_TO_TRACK);
    }
    assert_eq!(t.len(), 80);
    // Oldest kept is frame 20, newest is frame 99.
    assert_eq!(t.time_span(), Some((200, 995)));
    assert_eq!(t.update_count(), 160);
}

#[test]
fn frame_timings_count_updates() {
    let mut t = FrameTimings::new();
    t.record(timing(0, 16, 1));
    t.record(timing(16, 33, 0));
    t.record(timing(33, 50, 3));
    assert_eq!(t.len(), 3);
    assert_eq!(t.update_count(), 4);
    assert_eq!(t.time_span(), Some((0, 50)));
}

#[test]
fn load_progress_counts_steps() {
    let mut p = LoadProgress::new(
        vec!["textures".to_string(), "config".to_string()],
        vec![true, false],
    );
    assert_eq!(p.len(), 2);
    assert_eq!(p.progress(), (0, 3));
    assert_eq!(p.get(0), ("textures", LoadState::Idle));
    p.start_loading(0);
    assert_eq!(p.get(0).1, LoadState::Loading);
    assert_eq!(p.progress(), (0, 3));
    p.begin_apply(1);
    assert_eq!(p.progress(), (1, 3));
    p.finish(1);
    assert_eq!(p.get(1), ("config", LoadState::Finished));
    p.begin_apply(0);
    p.finish(0);
    // Every job finished: two steps each, one more than the total because
    // one job was synchronous.
    assert_eq!(p.progress(), (4, 3));
}

#[test]
fn load_progress_reaches_total_for_async_jobs() {
    let mut p = LoadProgress::new(vec!["a".to_string(), "b".to_string()], vec![true, true]);
    for i in 0..2 {
        p.start_loading(i);
    }
    for i in 0..2 {
        p.begin_apply(i);
        p.finish(i);
    }
    assert_eq!(p.progress(), (4, 4));
}

#[test]
fn frame_timings_index_from_the_most_recent() {
    let mut t = FrameTimings::new();
    t.record(timing(0, 16, 1));
    t.record(timing(16, 33, 2));
    assert_eq!(t.get(0).timestamp_start, 16);
    assert_eq!(t.get(0).update_durations.len(), 2);
    assert_eq!(t.get(1).timestamp_end, 16);
}
