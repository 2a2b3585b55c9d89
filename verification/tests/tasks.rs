use ip_juggler::frame::build_announcement;
use ip_juggler::tasks::announcer_step;
use ip_juggler::tasks::prober_step;

const MAC: [u8; 6] = [2, 0, 0, 0, 0, 9];
const IP: [u8; 4] = [10, 0, 0, 50];

#[test]
fn announcer_sends_while_holding() {
    let frame = announcer_step(true, &MAC, &IP).unwrap();
    assert_eq!(frame, build_announcement(&MAC, &IP));
    assert_eq!(frame.len(), 42);
}

#[test]
fn scenario_announcer_stops_after_flag_flips() {
    // The flag flipped false at the end of the turn: the very next tick
    // sends nothing, so the announcer is silent within one interval.
    let during_turn = announcer_step(true, &MAC, &IP);
    assert!(during_turn.is_some());
    let after_flip = announcer_step(false, &MAC, &IP);
    assert!(after_flip.is_none());
}

#[test]
fn prober_sends_only_while_not_holding() {
    let idle = prober_step(false).unwrap();
    assert_eq!(idle, b"hello".to_vec());
    assert!(prober_step(true).is_none());
}
