use re2line::codec::write_recording;
use re2line::compare::{order_runs, select_run, Checkpoint, CompareError, FrameSummary, RoomFilter, RunSpan};
use re2line::playback::{PlaybackState, Recording};
use re2line::record::{FrameRecord, GameField};
use re2line::rng::RngSequence;
use re2line::room::RoomId;

fn frame(changes: Vec<GameField>) -> FrameRecord {
    FrameRecord { igt_seconds: 0, igt_frames: 0, num_rng_rolls: 0, game_changes: changes, character_diffs: vec![], object_diffs: vec![] }
}

/// Room 1040 for three frames, 1050 for two, 1040 again for two.
fn three_rooms() -> Vec<FrameRecord> {
    vec![
        frame(vec![GameField::RoomIndex(4), GameField::Rng(0x6ca4)]),
        frame(vec![GameField::KnownRng { roll_type: re2line::roll_type::RollType::Script, start_value: 0x6ca4 }]),
        frame(vec![GameField::KeysDown(0x81)]),
        frame(vec![GameField::RoomIndex(5), GameField::RngRoll(1, 2), GameField::RngRoll(3, 4)]),
        frame(vec![]),
        frame(vec![GameField::RoomIndex(4)]),
        frame(vec![GameField::SoundFlags(1)]),
    ]
}

#[test]
fn states_follow_the_changes() {
    let first = PlaybackState::empty().make_next_state(&frame(vec![GameField::RoomIndex(4), GameField::Scenario(1), GameField::NewGame]));
    assert_eq!(first.frame_index, 0);
    assert_eq!(first.room_index, 0);
    assert_eq!(first.room_id, RoomId::new(0, 4, 1));
    assert!(first.is_new_game_start());
    let second = first.make_next_state(&frame(vec![GameField::KeysDown(0x01)]));
    assert_eq!(second.frame_index, 1);
    assert_eq!(second.room_index, 1);
    assert!(!second.is_new_game_start());
    assert!(second.input_state().is_forward_pressed);
}

#[test]
fn moving_through_rooms() {
    let mut rec = Recording::read(&write_recording(&three_rooms())).unwrap();
    assert_eq!(rec.index(), 0);
    assert_eq!(rec.room_range(), (0, 3));
    assert_eq!(rec.current_state().unwrap().room_id, RoomId::new(0, 4, 0));
    assert_eq!(rec.peek_next_room().unwrap().frame_index, 3);
    let s = rec.next_room().unwrap();
    assert_eq!(s.room_id, RoomId::new(0, 5, 0));
    assert_eq!(rec.index(), 3);
    assert_eq!(rec.room_range(), (3, 5));
    assert_eq!(rec.next().unwrap().room_index, 1);
    assert_eq!(rec.next().unwrap().room_id, RoomId::new(0, 4, 0));
    assert_eq!(rec.room_range(), (5, 7));
    assert!(rec.peek_next_room().is_none());
    assert_eq!(rec.prev().unwrap().frame_index, 4);
    assert!(rec.set_index(100).is_none());
    assert_eq!(rec.index(), 7);
    assert!(rec.next_room().is_none());
    assert_eq!(rec.set_index(1).unwrap().input_flags, 0);
    assert_eq!(rec.set_index(2).unwrap().input_flags, 0x81);
}

#[test]
fn room_statistics() {
    let seq = RngSequence::new();
    let mut rec = Recording::from_frames(three_rooms());
    let stats = rec.get_room_stats(&seq);
    assert_eq!(stats.num_frames, 3);
    assert_eq!(stats.total_time, 3 * 33333);
    assert_eq!(stats.num_rng_rolls, 1);
    assert_eq!(stats.rng_position, 0);
    rec.set_index(3);
    let stats = rec.get_room_stats(&seq);
    assert_eq!(stats.num_frames, 2);
    assert_eq!(stats.num_rng_rolls, 2);
}

fn summaries(n: usize, aot_on: Option<usize>) -> Vec<FrameSummary> {
    (0..n)
        .map(|i| FrameSummary { player_present: true, triggered_aots: if Some(i) == aot_on { vec![7] } else { vec![] } })
        .collect()
}

#[test]
fn runs_through_a_room() {
    let rec = Recording::from_frames(three_rooms());
    let info = summaries(7, None);
    // the 1050 visit comes from 1040 and goes back to it
    let filter = RoomFilter::new(RoomId::new(0, 5, 0), RoomId::new(0, 4, 0), RoomId::new(0, 4, 0), vec![]);
    assert_eq!(filter.get_runs(&rec, &info), vec![RunSpan { frame_index: 3, end_index: 4 }]);
    // a different exit finds nothing
    let filter = RoomFilter::new(RoomId::new(0, 5, 0), RoomId::new(0, 4, 0), RoomId::new(0, 6, 0), vec![]);
    assert!(filter.get_runs(&rec, &info).is_empty());
    // the last room visit meets any exit and runs to the recording's last frame
    let filter = RoomFilter::new(RoomId::new(0, 4, 0), RoomId::new(0, 5, 0), RoomId::new(0, 9, 0), vec![]);
    assert_eq!(filter.get_runs(&rec, &info), vec![RunSpan { frame_index: 5, end_index: 6 }]);
}

#[test]
fn runs_need_their_checkpoints() {
    let rec = Recording::from_frames(three_rooms());
    let filter = RoomFilter::new(RoomId::new(0, 5, 0), RoomId::new(0, 4, 0), RoomId::new(0, 4, 0), vec![Checkpoint::Aot(7)]);
    assert!(filter.get_runs(&rec, &summaries(7, None)).is_empty());
    assert_eq!(filter.get_runs(&rec, &summaries(7, Some(4))), vec![RunSpan { frame_index: 3, end_index: 4 }]);
    // the checkpoint must be reached in the room visit itself
    assert!(filter.get_runs(&rec, &summaries(7, Some(1))).is_empty());
    let absent = vec![FrameSummary { player_present: false, triggered_aots: vec![7] }; 7];
    assert!(filter.get_runs(&rec, &absent).is_empty());
}

#[test]
fn timeline_splits_at_new_games() {
    let rec = Recording::read(&write_recording(&three_rooms())).unwrap();
    assert_eq!(rec.timeline(), vec![vec![0, 3, 5]]);
    let frames = vec![
        frame(vec![GameField::NewGame, GameField::RoomIndex(4)]),
        frame(vec![]),
        frame(vec![GameField::RoomIndex(5)]),
        frame(vec![GameField::NewGame, GameField::RoomIndex(4)]),
        frame(vec![GameField::NewGame]),
    ];
    let rec = Recording::read(&write_recording(&frames)).unwrap();
    assert_eq!(rec.timeline(), vec![vec![0, 2], vec![3]]);
}

#[test]
fn current_frame_follows_index() {
    let mut rec = Recording::read(&write_recording(&three_rooms())).unwrap();
    assert_eq!(rec.current_frame().unwrap().game_changes.len(), 2);
    rec.set_index(3);
    assert_eq!(rec.current_frame().unwrap().game_changes.len(), 3);
    rec.set_index(100);
    assert!(rec.current_frame().is_none());
}

#[test]
fn rolls_of_the_room_up_to_the_current_frame() {
    let mut rec = Recording::read(&write_recording(&three_rooms())).unwrap();
    let stamps: Vec<String> = (0..7).map(|i| format!("t{}", i)).collect();
    rec.set_index(4);
    // the room visit of frames 3 and 4
    let rolls = rec.get_rng_descriptions(&stamps, &vec![]);
    // frame 4 has no rolls and gets no entry
    assert_eq!(rolls.len(), 1);
    assert_eq!(rolls[0].frame_index, 3);
    assert_eq!(rolls[0].timestamp, "t3");
    assert_eq!(rolls[0].rng_descriptions.len(), 2);
    assert_eq!(rolls[0].rng_descriptions[0].description, "00000001 rolled on 0002");

    rec.set_index(1);
    let first = rec.get_rng_descriptions(&stamps, &vec![]);
    assert_eq!(first.len(), 1);
    assert_eq!(first[0].frame_index, 1);
    assert_eq!(first[0].rng_descriptions[0].description, "Script rolled RNG");
}

#[test]
fn fastest_slowest_and_average_runs() {
    use_run_times();
}

fn use_run_times() {
    let runs = vec![
        RunSpan { frame_index: 10, end_index: 19 },
        RunSpan { frame_index: 100, end_index: 104 },
        RunSpan { frame_index: 200, end_index: 211 },
    ];
    assert_eq!(re2line::compare::run_times(&runs), Some((5, 12, 9)));
    assert_eq!(re2line::compare::run_times(&vec![]), None);
}

#[test]
fn runs_ordered_fastest_first() {
    let runs = vec![
        RunSpan { frame_index: 10, end_index: 19 },
        RunSpan { frame_index: 100, end_index: 104 },
        RunSpan { frame_index: 200, end_index: 209 },
        RunSpan { frame_index: 300, end_index: 302 },
    ];
    let ordered = order_runs(2, &runs).unwrap();
    assert_eq!(ordered, vec![
        RunSpan { frame_index: 300, end_index: 302 },
        RunSpan { frame_index: 100, end_index: 104 },
        // two runs of ten frames keep their order
        RunSpan { frame_index: 10, end_index: 19 },
        RunSpan { frame_index: 200, end_index: 209 },
    ]);
    assert_eq!(order_runs(0, &runs), Err(CompareError::NoRecordings));
    assert_eq!(order_runs(1, &vec![]), Err(CompareError::NoRuns));
    assert_eq!(select_run(&ordered, 1), Ok(RunSpan { frame_index: 100, end_index: 104 }));
    assert_eq!(select_run(&ordered, 4), Err(CompareError::InvalidRunIndex(4)));
}

#[test]
fn playback_steps_on_each_tick() {
    let mut rec = Recording::read(&write_recording(&three_rooms())).unwrap();
    // paused, or too early: nothing moves
    assert!(!rec.playback_tick(false, true, None, false));
    assert!(rec.playback_tick(true, false, None, false));
    assert_eq!(rec.index(), 0);
    assert!(rec.playback_tick(true, true, None, false));
    assert_eq!(rec.index(), 1);
    // the end of a comparison section holds playback, which goes on only while other runs play
    assert!(rec.playback_tick(true, true, Some(2), false));
    assert_eq!(rec.index(), 1);
    assert!(!rec.playback_tick(true, true, Some(2), true));
    assert_eq!(rec.index(), 1);
    assert!(rec.playback_tick(true, true, Some(5), true));
    assert_eq!(rec.index(), 2);
}
