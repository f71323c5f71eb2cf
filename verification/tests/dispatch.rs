//! Exercises the dispatch engine's decisions: frame, response
//! expectation, and response framing lengths.

use selenite_lamp::dispatch::payload_len;
use selenite_lamp::dispatch::plan_send;
use selenite_lamp::Command;
use selenite_lamp::PulseHueOptions;
use selenite_lamp::StopOptions;

#[test]
fn query_expects_a_response() {
    let plan = plan_send(&Command::Query);
    assert_eq!(plan.frame, vec![1]);
    assert!(plan.expect_response);
}

#[test]
fn other_commands_expect_no_response() {
    let plan = plan_send(&Command::Stop(StopOptions {}));
    assert_eq!(plan.frame, vec![2]);
    assert!(!plan.expect_response);

    let plan = plan_send(&Command::PulseHue(PulseHueOptions { hue: 1000, period: 5000, wait: 0 }));
    assert_eq!(
        plan.frame,
        vec![4, 0xE8, 0x03, 0x88, 0x13, 0x00, 0x00, 0x00, 0x00, 0x00, 0x00]
    );
    assert!(!plan.expect_response);
}

#[test]
fn payload_lengths_match_the_variant_table() {
    assert_eq!(payload_len(0), Some(2));
    assert_eq!(payload_len(1), Some(0));
    assert_eq!(payload_len(2), Some(0));
    assert_eq!(payload_len(3), Some(4));
    assert_eq!(payload_len(4), Some(10));
    assert_eq!(payload_len(5), Some(3));
    assert_eq!(payload_len(6), Some(10));
}

#[test]
fn unknown_tags_announce_no_payload() {
    for tag in 7..=255u8 {
        assert_eq!(payload_len(tag), None);
    }
}

#[test]
fn frame_length_agrees_with_payload_len() {
    let commands = [
        Command::Query,
        Command::Stop(StopOptions {}),
        Command::PulseHue(PulseHueOptions { hue: 7, period: 9, wait: 11 }),
    ];
    for c in commands {
        let frame = c.to_bincode();
        assert_eq!(frame.len(), 1 + payload_len(frame[0]).unwrap());
    }
}
