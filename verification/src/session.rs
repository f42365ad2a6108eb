use crate::state::Input;
use vstd::prelude::*;

verus! {

broadcast use vstd::array::group_array_axioms;

/// One inbound event on a connection, as the transport hands it over.
pub enum Frame {
    /// A text frame.
    Text(String),
    /// The peer's explicit close notification.
    Close,
    /// A transport-level read failure.
    TransportError,
    /// Any other frame kind (binary, ping, pong): not meaningful to the
    /// protocol; terminating the session is the defined behaviour.
    Unsupported,
}

/// What the session does in reaction to one frame: at most one reply to
/// queue for the peer, and whether the session ends.
pub struct Step {
    pub reply: Option<String>,
    pub stop: bool,
}

/// A liveness probe: 6 characters, tagged 'a'.
pub open spec fn probe_text(m: Seq<char>) -> bool {
    m.len() == 6 && m[0] == 'a'
}

/// A button update: 16 characters, tagged 'b'.
pub open spec fn update_text(m: Seq<char>) -> bool {
    m.len() == 16 && m[0] == 'b'
}

/// A character count the wire grammar does not know: fatal to the session.
pub open spec fn malformed_text(m: Seq<char>) -> bool {
    m.len() != 6 && m.len() != 16
}

/// The button value one payload character encodes.
pub open spec fn payload_bit(c: char) -> u8 {
    if c == '1' {
        1u8
    } else {
        0u8
    }
}

/// The buttons after a button-update message: slots 0..14 follow the
/// payload (message characters 1..15); slots 14 and 15 keep their value.
/// The final message character (index 15) is carried on the wire but not
/// consumed.
pub open spec fn updated_buttons(b: Seq<u8>, m: Seq<char>) -> Seq<u8>
    recommends
        b.len() == 16,
        update_text(m),
{
    Seq::new(16, |i: int| if i < 14 { payload_bit(m[i + 1]) } else { b[i] })
}

/// Does this frame end the session?
pub open spec fn frame_stops(f: Frame) -> bool {
    match f {
        Frame::Text(m) => malformed_text(m@),
        Frame::Close => true,
        Frame::TransportError => true,
        Frame::Unsupported => true,
    }
}

/// Does this frame earn the "alive" reply?
pub open spec fn frame_replies(f: Frame) -> bool {
    match f {
        Frame::Text(m) => probe_text(m@),
        _ => false,
    }
}

/// The buttons after this frame is processed: a button update rewrites
/// slots 0..14, a close or a transport error releases every button, and
/// every other frame leaves them alone.
pub open spec fn next_buttons(b: Seq<u8>, f: Frame) -> Seq<u8>
    recommends
        b.len() == 16,
{
    match f {
        Frame::Text(m) => if update_text(m@) {
            updated_buttons(b, m@)
        } else {
            b
        },
        Frame::Close => Seq::new(16, |i: int| 0u8),
        Frame::TransportError => Seq::new(16, |i: int| 0u8),
        Frame::Unsupported => b,
    }
}

/// The one outbound message the protocol ever produces.
pub fn alive_reply() -> (m: String)
    ensures
        m@ == "alive"@,
{
    "alive".to_owned()
}

/// Applies one validated button-update message to the record: each of the
/// fourteen payload characters sets its slot, under one logical update.
pub fn apply_update(input: &mut Input, text: &str)
    requires
        old(input).wf(),
        update_text(text@),
    ensures
        final(input).wf(),
        final(input).buttons@ == updated_buttons(old(input).buttons@, text@),
        final(input).extra == old(input).extra,
{
    let mut i: usize = 0;
    while i < 14
        invariant
            old(input).wf(),
            update_text(text@),
            i <= 14,
            forall|j: int| 0 <= j < i ==> input.buttons@[j] == payload_bit(text@[j + 1]),
            forall|j: int| i <= j < 16 ==> input.buttons@[j] == old(input).buttons@[j],
            input.extra == old(input).extra,
        decreases 14 - i,
    {
        let c = text.get_char(i + 1);
        input.set_button(i, c == '1');
        i += 1;
    }
    proof {
        assert(input.buttons@ =~= updated_buttons(old(input).buttons@, text@));
    }
}

/// Processes one inbound frame against the record and says what the
/// session does next. Messages are told apart by character count and the
/// leading tag alone: a 6-character probe earns exactly one "alive"
/// reply; a 16-character update rewrites the first fourteen button slots;
/// a recognized length with the wrong tag is silently ignored; any other
/// length ends the session without touching the record; a peer close or
/// a transport error releases every button and ends the session.
pub fn session_step(input: &mut Input, frame: &Frame) -> (st: Step)
    requires
        old(input).wf(),
    ensures
        final(input).wf(),
        st.stop == frame_stops(*frame),
        frame_replies(*frame) ==> (st.reply matches Some(m) && m@ == "alive"@),
        !frame_replies(*frame) ==> st.reply is None,
        final(input).buttons@ == next_buttons(old(input).buttons@, *frame),
        final(input).extra == old(input).extra,
{
    match frame {
        Frame::Text(text) => {
            let n = text.as_str().unicode_len();
            if n == 6 {
                if text.as_str().get_char(0) == 'a' {
                    Step { reply: Some(alive_reply()), stop: false }
                } else {
                    Step { reply: None, stop: false }
                }
            } else if n == 16 {
                if text.as_str().get_char(0) == 'b' {
                    apply_update(input, text.as_str());
                    Step { reply: None, stop: false }
                } else {
                    Step { reply: None, stop: false }
                }
            } else {
                Step { reply: None, stop: true }
            }
        },
        Frame::Close => {
            input.reset_all();
            proof {
                assert(input.buttons@ =~= next_buttons(old(input).buttons@, *frame));
            }
            Step { reply: None, stop: true }
        },
        Frame::TransportError => {
            input.reset_all();
            proof {
                assert(input.buttons@ =~= next_buttons(old(input).buttons@, *frame));
            }
            Step { reply: None, stop: true }
        },
        Frame::Unsupported => Step { reply: None, stop: true },
    }
}

/// Law: the exclusion domain serializes button updates, and a serialized
/// update is applied in full — after the first message every payload slot
/// follows that message, after the second every payload slot follows the
/// later message, and the two slots no update touches still hold their
/// original value. No update is half-applied or lost at message
/// granularity.
pub proof fn lemma_serialized_updates(b: Seq<u8>, m1: Seq<char>, m2: Seq<char>)
    requires
        b.len() == 16,
        update_text(m1),
        update_text(m2),
    ensures
        forall|i: int| 0 <= i < 14 ==> updated_buttons(b, m1)[i] == payload_bit(m1[i + 1]),
        updated_buttons(updated_buttons(b, m1), m2) == updated_buttons(b, m2),
        forall|i: int| 14 <= i < 16 ==> updated_buttons(updated_buttons(b, m1), m2)[i] == b[i],
{
    assert(updated_buttons(updated_buttons(b, m1), m2) =~= updated_buttons(b, m2));
}

} // verus!
