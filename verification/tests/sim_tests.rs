use re2line::rng::RngSequence;
use re2line::sim::{
    find_runs, get_bus_shots, get_crowd_composition, longest_run, RunKind, get_shots_to_stagger, simulate_gate_shot, simulate_one_bus_manip, Animation,
    Appearance, ZombieCrowd, ZombieCrowdAppearance,
};

#[test]
fn bus_shots() {
    let seq = RngSequence::new();
    let shots: Vec<(usize, usize)> = (500..506).map(|i| get_bus_shots(&seq, i)).collect();
    assert_eq!(shots, vec![(3, 2), (3, 1), (3, 1), (3, 2), (2, 2), (3, 1)]);
}

#[test]
fn gate_shots() {
    let seq = RngSequence::new();
    let shots: Vec<usize> = (150..156).map(|i| simulate_gate_shot(&seq, i)).collect();
    assert_eq!(shots, vec![1, 2, 2, 1, 2, 1]);
    assert_eq!(get_shots_to_stagger(&seq, 150 + 126), 1);
}

#[test]
fn crowd_composition() {
    let seq = RngSequence::new();
    let crowd = get_crowd_composition(&seq, 500);
    assert_eq!(crowd, ZombieCrowd(
        Appearance::PoliceOfficer, Appearance::PoliceOfficer, Appearance::BlackShirt, Appearance::BlackShirt,
        Animation::SharpEnd, Animation::HeadsDown, Animation::SharpEnd, Animation::HeadsDown,
    ));
    assert_eq!(crowd.appearance(), ZombieCrowdAppearance(
        Appearance::PoliceOfficer, Appearance::PoliceOfficer, Appearance::BlackShirt, Appearance::BlackShirt,
    ));
}

#[test]
fn manipulation_without_savings() {
    let seq = RngSequence::new();
    let r = simulate_one_bus_manip(&seq, 500);
    assert_eq!(r.rng_start_index, 500);
    assert_eq!(r.expected_shots, (3, 2));
    assert_eq!(r.manipulated_shots, (3, 2));
    assert_eq!(r.manip_start_frame, 115);
    assert_eq!(r.manip_end_frame, 115);
    assert_eq!(r.all_results.len(), 10);
    assert_eq!(r.frames_saved(), 0);
}

#[test]
fn manipulation_with_savings() {
    let seq = RngSequence::new();
    let r = simulate_one_bus_manip(&seq, 527);
    assert_eq!(r.expected_shots, (5, 2));
    assert_eq!(r.manipulated_shots, (2, 2));
    assert_eq!(r.manip_start_frame, 132);
    assert_eq!(r.manip_end_frame, 135);
    assert_eq!(r.frames_saved(), 16);
    let r = simulate_one_bus_manip(&seq, 548);
    assert_eq!(r.manipulated_shots, (3, 2));
    assert_eq!(r.manip_start_frame, 126);
    assert_eq!(r.manip_end_frame, 137);
    assert_eq!(r.frames_saved(), 11);
}

#[test]
fn runs_of_bits_in_the_cycle() {
    let seq = RngSequence::new();
    let ones = find_runs(&seq, RunKind::BitSet(1));
    assert_eq!(ones.len(), 182);
    assert_eq!(&ones[..5], &[(81, 89), (426, 432), (455, 463), (527, 535), (1046, 1052)]);
    assert_eq!(longest_run(&ones), Some((23939, 23947)));
    let high_clear = find_runs(&seq, RunKind::BitClear(0x80));
    assert_eq!(high_clear.len(), 142);
    assert_eq!(&high_clear[..5], &[(81, 88), (455, 462), (527, 534), (669, 675), (686, 692)]);
}

#[test]
fn runs_of_multiples_of_three() {
    let seq = RngSequence::new();
    let threes = find_runs(&seq, RunKind::MultipleOfThree);
    assert_eq!(threes.len(), 20);
    assert_eq!(&threes[..3], &[(1876, 1882), (2489, 2495), (4142, 4148)]);
    assert_eq!(&threes[17..], &[(23660, 23667), (23681, 23689), (23696, 23703)]);
    assert_eq!(longest_run(&threes), Some((23681, 23689)));
    assert_eq!(longest_run(&Vec::new()), None);
}
