use rosc::{decoder, OscMessage, OscPacket, OscType};
use vrchat_box::message::{encode, Endpoint};

fn chat(text: &str, show_keyboard: bool, play_sound: bool) -> Endpoint {
    Endpoint::ChatMessage { text: text.to_string(), show_keyboard, play_sound }
}

fn decoded(bytes: &[u8]) -> OscMessage {
    let (rest, packet) = decoder::decode_udp(bytes).unwrap();
    assert!(rest.is_empty());
    match packet {
        OscPacket::Message(message) => message,
        OscPacket::Bundle(_) => panic!("a bundle where a message was sent"),
    }
}

#[test]
fn chat_message_bytes_are_exact() {
    let bytes = encode(&chat("hi", true, false)).unwrap();
    let mut expected: Vec<u8> = Vec::new();
    expected.extend_from_slice(b"/chatbox/input\0\0");
    expected.extend_from_slice(b",sTF\0\0\0\0");
    expected.extend_from_slice(b"hi\0\0");
    assert_eq!(bytes, expected);
}

#[test]
fn chat_message_flags_travel_in_order() {
    let bytes = encode(&chat("hi", false, true)).unwrap();
    assert_eq!(bytes, b"/chatbox/input\0\0,sFT\0\0\0\0hi\0\0".to_vec());
}

#[test]
fn typing_indicator_bytes_are_exact() {
    let on = encode(&Endpoint::TypingIndicator { active: true }).unwrap();
    assert_eq!(on, b"/chatbox/typing\0,T\0\0".to_vec());
    let off = encode(&Endpoint::TypingIndicator { active: false }).unwrap();
    assert_eq!(off, b"/chatbox/typing\0,F\0\0".to_vec());
}

#[test]
fn text_of_four_bytes_gets_four_zero_bytes() {
    let bytes = encode(&chat("abcd", true, true)).unwrap();
    assert_eq!(bytes, b"/chatbox/input\0\0,sTT\0\0\0\0abcd\0\0\0\0".to_vec());
}

#[test]
fn empty_text_is_padding_alone() {
    let bytes = encode(&chat("", true, false)).unwrap();
    assert_eq!(bytes, b"/chatbox/input\0\0,sTF\0\0\0\0\0\0\0\0".to_vec());
}

#[test]
fn text_travels_as_utf8() {
    let bytes = encode(&chat("\u{e9}", false, false)).unwrap();
    let mut expected = b"/chatbox/input\0\0,sFF\0\0\0\0".to_vec();
    expected.extend_from_slice(&[0xc3, 0xa9, 0, 0]);
    assert_eq!(bytes, expected);
    assert_eq!(bytes.len() % 4, 0);
}

#[test]
fn chat_message_round_trips_through_decoder() {
    let texts = ["", "a", "hello world", "abcd", "gr\u{fc}\u{df}e \u{1f44b} \u{4f60}\u{597d}"];
    for text in texts {
        for show_keyboard in [false, true] {
            for play_sound in [false, true] {
                let bytes = encode(&chat(text, show_keyboard, play_sound)).unwrap();
                let message = decoded(&bytes);
                assert_eq!(message.addr, "/chatbox/input");
                assert_eq!(
                    message.args,
                    vec![
                        OscType::String(text.to_string()),
                        OscType::Bool(show_keyboard),
                        OscType::Bool(play_sound),
                    ]
                );
            }
        }
    }
}

#[test]
fn typing_indicator_round_trips_through_decoder() {
    for active in [false, true] {
        let bytes = encode(&Endpoint::TypingIndicator { active }).unwrap();
        let message = decoded(&bytes);
        assert_eq!(message.addr, "/chatbox/typing");
        assert_eq!(message.args, vec![OscType::Bool(active)]);
    }
}

#[test]
fn nul_in_text_ends_the_text_for_the_receiver() {
    let bytes = encode(&chat("a\0b", true, false)).unwrap();
    assert_eq!(bytes, b"/chatbox/input\0\0,sTF\0\0\0\0a\0b\0".to_vec());
    let (_, packet) = decoder::decode_udp(&bytes).unwrap();
    match packet {
        OscPacket::Message(message) => {
            assert_eq!(message.args[0], OscType::String("a".to_string()));
        },
        OscPacket::Bundle(_) => panic!("a bundle where a message was sent"),
    }
}
