use ip_juggler::schedule::Schedule;

#[test]
fn exclusivity_across_three_participants() {
    // At every instant, exactly one of the three participants sees its own
    // index as the owner.
    let instants: [u64; 7] = [0, 5_000, 10_000, 19_999, 25_000, 31_000, 123_456];
    for &t in instants.iter() {
        let mut owners = 0;
        for i in 0..3u64 {
            let s = Schedule::new(3, i, 10_000).unwrap();
            if s.is_local_turn(t) {
                owners += 1;
            }
        }
        assert_eq!(owners, 1);
    }
}

#[test]
fn determinism_same_inputs_same_owner() {
    let a = Schedule::new(5, 2, 7_000).unwrap();
    let b = Schedule::new(5, 4, 7_000).unwrap();
    for t in [0u64, 1, 6_999, 7_000, 35_001, 1_000_000] {
        assert_eq!(a.owner_index(t), b.owner_index(t));
        assert_eq!(a.owner_index(t), a.owner_index(t));
        assert_eq!(a.turn_number(t), b.turn_number(t));
    }
}

#[test]
fn scenario_three_participants_turn_rotation() {
    // N = 3, local index 1, turn duration 10 s.
    let s = Schedule::new(3, 1, 10_000).unwrap();

    // t = 25 s: turn 2, owner 2 mod 3 = 2, not ours.
    assert_eq!(s.turn_number(25_000), 2);
    assert_eq!(s.owner_index(25_000), 2);
    assert!(!s.is_local_turn(25_000));

    // t = 31 s: turn 3, owner 0, not ours.
    assert_eq!(s.turn_number(31_000), 3);
    assert_eq!(s.owner_index(31_000), 0);
    assert!(!s.is_local_turn(31_000));

    // t = 11 s: turn 1, owner 1, ours.
    assert_eq!(s.turn_number(11_000), 1);
    assert_eq!(s.owner_index(11_000), 1);
    assert!(s.is_local_turn(11_000));
}

#[test]
fn remaining_time_to_next_boundary() {
    let s = Schedule::new(3, 0, 10_000).unwrap();
    assert_eq!(s.remaining_ms(25_000), 5_000);
    assert_eq!(s.remaining_ms(0), 10_000);
    assert_eq!(s.remaining_ms(9_999), 1);
    assert_eq!(s.remaining_ms(10_000), 10_000);
}

#[test]
fn schedule_rejects_bad_configuration() {
    assert!(Schedule::new(0, 0, 10_000).is_err());
    assert!(Schedule::new(3, 3, 10_000).is_err());
    assert!(Schedule::new(3, 0, 0).is_err());
    assert!(Schedule::new(1, 0, 1).is_ok());
}
