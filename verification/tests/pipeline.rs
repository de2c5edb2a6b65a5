use rosc::{decoder, OscPacket, OscType};
use vrchat_box::message::{encode, Endpoint};
use vrchat_box::session::{Action, Controller, Event, SendOutcome};
use vrchat_box::settings::{parse_args, Argument};

fn words(texts: &[&str]) -> Vec<Argument> {
    texts
        .iter()
        .map(|text| Argument {
            text: text.to_string(),
            address: Err("invalid socket address syntax".to_string()),
        })
        .collect()
}

/// Runs a command line to its end over the given input and returns what
/// a receiver decodes from the datagrams, in order.
fn received(line: &[&str], input: &[&[u8]]) -> Vec<(String, Vec<OscType>)> {
    let settings = parse_args(&words(line)).unwrap();
    let mut controller = Controller::new(settings.session(), settings.command());
    let mut messages = Vec::new();
    let mut reads = 0;
    let mut action = controller.step(Event::Start);
    while let Some(current) = action {
        action = match current {
            Action::Send(endpoint) => {
                let datagram = encode(&endpoint).unwrap();
                match decoder::decode_udp(&datagram).unwrap() {
                    (_, OscPacket::Message(message)) => messages.push((message.addr, message.args)),
                    (_, OscPacket::Bundle(_)) => panic!("a bundle where a message was sent"),
                }
                controller.step(Event::Outcome(SendOutcome::Delivered))
            },
            Action::Read => {
                let chunk = if reads < input.len() { input[reads].to_vec() } else { Vec::new() };
                reads += 1;
                controller.step(Event::Chunk(chunk))
            },
            Action::Finish => None,
        };
    }
    assert!(controller.is_done());
    messages
}

fn input(text: &str, keyboard: bool, sound: bool) -> (String, Vec<OscType>) {
    (
        "/chatbox/input".to_string(),
        vec![OscType::String(text.to_string()), OscType::Bool(keyboard), OscType::Bool(sound)],
    )
}

fn typing(active: bool) -> (String, Vec<OscType>) {
    ("/chatbox/typing".to_string(), vec![OscType::Bool(active)])
}

#[test]
fn literal_prompt_is_dispatched_once() {
    let got = received(&["vrchat-box", "--", "hello", "world"], &[b"never read"]);
    assert_eq!(got, vec![input("hello world", true, false)]);
}

#[test]
fn literal_prompt_that_holds_the_name_of_an_option_is_dispatched() {
    let got = received(&["vrchat-box", "--", "say", "--help"], &[b"never read"]);
    assert_eq!(got, vec![input("say --help", true, false)]);
    let got = received(&["vrchat-box", "--", "--clear", "--typing-indicator"], &[]);
    assert_eq!(got, vec![input("--clear --typing-indicator", true, false)]);
}

#[test]
fn literal_prompt_with_every_option() {
    let got = received(
        &["vrchat-box", "--typing-indicator", "--enable-sfx", "--show-keyboard", "--", "hi"],
        &[],
    );
    assert_eq!(got, vec![typing(true), input("hi", false, true), typing(false)]);
}

#[test]
fn stream_in_replace_mode_reaches_the_receiver() {
    let got = received(&["vrchat-box"], &[b"a", b"bb", b"c"]);
    assert_eq!(got, vec![input("a", true, false), input("bb", true, false), input("c", true, false)]);
}

#[test]
fn stream_in_append_mode_reaches_the_receiver() {
    let got = received(&["vrchat-box", "--append-mode", "--typing-indicator"], &[b"a", b"bb", b"c"]);
    assert_eq!(
        got,
        vec![
            typing(true),
            input("a", true, false),
            input("abb", true, false),
            input("abbc", true, false),
            typing(false),
        ]
    );
}

#[test]
fn clear_reaches_the_receiver_as_one_empty_message() {
    let got = received(&["vrchat-box", "--clear", "--typing-indicator", "--enable-sfx"], &[b"x"]);
    assert_eq!(got, vec![input("", true, false)]);
}

#[test]
fn encoded_endpoint_is_not_its_text() {
    let endpoint =
        Endpoint::ChatMessage { text: "plain".to_string(), show_keyboard: true, play_sound: true };
    let datagram = encode(&endpoint).unwrap();
    assert_ne!(datagram, b"plain".to_vec());
    assert_eq!(datagram.len(), 16 + 8 + 8);
}
