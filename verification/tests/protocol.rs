use input_relay::session::{session_step, Frame};
use input_relay::Input;

fn text(s: &str) -> Frame {
    Frame::Text(String::from(s))
}

#[test]
fn probe_earns_exactly_one_alive_and_leaves_state_alone() {
    let mut inp = Input::new();
    inp.set_button(2, true);
    let before = inp.buttons;
    let st = session_step(&mut inp, &text("a12345"));
    assert_eq!(st.reply.as_deref(), Some("alive"));
    assert!(!st.stop);
    assert_eq!(inp.buttons, before);
    assert_eq!(inp.extra, [0u8; 3]);
}

#[test]
fn probe_payload_is_ignored() {
    let mut inp = Input::new();
    let st = session_step(&mut inp, &text("axxxxx"));
    assert_eq!(st.reply.as_deref(), Some("alive"));
    assert!(!st.stop);
}

#[test]
fn update_sets_buttons_from_payload() {
    let mut inp = Input::new();
    // Payload: slots 0, 2 and 13 pressed, the rest released.
    let st = session_step(&mut inp, &text("b10100000000001z"));
    assert!(st.reply.is_none());
    assert!(!st.stop);
    let mut expected = [0u8; 16];
    expected[0] = 1;
    expected[2] = 1;
    expected[13] = 1;
    assert_eq!(inp.buttons, expected);
    assert_eq!(inp.extra, [0u8; 3]);
}

#[test]
fn update_leaves_last_two_slots_and_extra_alone() {
    let mut inp = Input::new();
    inp.set_button(14, true);
    inp.set_button(15, true);
    let st = session_step(&mut inp, &text("b10000000000000X"));
    assert!(st.reply.is_none());
    assert!(!st.stop);
    let mut expected = [0u8; 16];
    expected[0] = 1;
    expected[14] = 1;
    expected[15] = 1;
    assert_eq!(inp.buttons, expected);
    assert_eq!(inp.extra, [0u8; 3]);
}

#[test]
fn update_releases_buttons_whose_payload_char_is_not_one() {
    let mut inp = Input::new();
    for i in 0..14 {
        inp.set_button(i, true);
    }
    session_step(&mut inp, &text("b0000000000000.x"));
    assert_eq!(inp.buttons, [0u8; 16]);
}

#[test]
fn wrong_tag_at_probe_length_is_silently_ignored() {
    let mut inp = Input::new();
    inp.set_button(5, true);
    let before = inp.buttons;
    let st = session_step(&mut inp, &text("z12345"));
    assert!(st.reply.is_none());
    assert!(!st.stop);
    assert_eq!(inp.buttons, before);
}

#[test]
fn wrong_tag_at_update_length_is_silently_ignored() {
    let mut inp = Input::new();
    inp.set_button(5, true);
    let before = inp.buttons;
    let st = session_step(&mut inp, &text("c111111111111111"));
    assert!(st.reply.is_none());
    assert!(!st.stop);
    assert_eq!(inp.buttons, before);
}

#[test]
fn malformed_length_ends_session_without_reset() {
    let mut inp = Input::new();
    inp.set_button(1, true);
    let before = inp.buttons;
    let st = session_step(&mut inp, &text("hello"));
    assert!(st.reply.is_none());
    assert!(st.stop);
    assert_eq!(inp.buttons, before);
}

#[test]
fn empty_text_ends_session_without_reset() {
    let mut inp = Input::new();
    let st = session_step(&mut inp, &text(""));
    assert!(st.reply.is_none());
    assert!(st.stop);
}

#[test]
fn peer_close_releases_all_buttons() {
    let mut inp = Input::new();
    for i in 0..16 {
        inp.set_button(i, true);
    }
    let st = session_step(&mut inp, &Frame::Close);
    assert!(st.reply.is_none());
    assert!(st.stop);
    assert_eq!(inp.buttons, [0u8; 16]);
    assert_eq!(inp.extra, [0u8; 3]);
}

#[test]
fn transport_error_releases_all_buttons() {
    let mut inp = Input::new();
    inp.set_button(9, true);
    let st = session_step(&mut inp, &Frame::TransportError);
    assert!(st.reply.is_none());
    assert!(st.stop);
    assert_eq!(inp.buttons, [0u8; 16]);
}

#[test]
fn unsupported_frame_ends_session_without_reset() {
    let mut inp = Input::new();
    inp.set_button(4, true);
    let before = inp.buttons;
    let st = session_step(&mut inp, &Frame::Unsupported);
    assert!(st.reply.is_none());
    assert!(st.stop);
    assert_eq!(inp.buttons, before);
}

#[test]
fn later_update_wins_and_each_is_fully_applied() {
    let mut inp = Input::new();
    session_step(&mut inp, &text("b11111111111111x"));
    let mut first = [0u8; 16];
    for i in 0..14 {
        first[i] = 1;
    }
    assert_eq!(inp.buttons, first);
    session_step(&mut inp, &text("b01010101010101x"));
    let mut second = [0u8; 16];
    for i in 0..14 {
        second[i] = (i % 2) as u8;
    }
    assert_eq!(inp.buttons, second);
}
