//! The two messages that the chatbox understands, and their datagrams.

use crate::osc::{
    encode_message, lemma_message_reads_back, message_bytes, nul_free, read_message,
    texts_then_flags, ArgValue,
};
use vstd::prelude::*;
use vstd::string::*;

verus! {

/// A message for one of the chatbox's two addresses.
#[derive(Debug, PartialEq, Eq)]
pub enum Endpoint {
    /// Text for the chatbox. `show_keyboard` and `play_sound` are the two
    /// flags that travel with the text, in this order.
    ChatMessage { text: String, show_keyboard: bool, play_sound: bool },
    /// Shows or hides the typing indicator.
    TypingIndicator { active: bool },
}

/// What an [`Endpoint`] holds.
pub enum EndpointView {
    ChatMessage { text: Seq<char>, show_keyboard: bool, play_sound: bool },
    TypingIndicator { active: bool },
}

impl View for Endpoint {
    type V = EndpointView;

    open spec fn view(&self) -> EndpointView {
        match self {
            Endpoint::ChatMessage { text, show_keyboard, play_sound } => EndpointView::ChatMessage {
                text: text@,
                show_keyboard: *show_keyboard,
                play_sound: *play_sound,
            },
            Endpoint::TypingIndicator { active } => EndpointView::TypingIndicator {
                active: *active,
            },
        }
    }
}

/// The OSC address that a message goes to.
pub open spec fn address_of(endpoint: EndpointView) -> Seq<char> {
    match endpoint {
        EndpointView::ChatMessage { .. } => "/chatbox/input"@,
        EndpointView::TypingIndicator { .. } => "/chatbox/typing"@,
    }
}

/// The OSC arguments that a message carries.
pub open spec fn arguments_of(endpoint: EndpointView) -> Seq<ArgValue> {
    match endpoint {
        EndpointView::ChatMessage { text, show_keyboard, play_sound } => seq![
            ArgValue::Text(text),
            ArgValue::Flag(show_keyboard),
            ArgValue::Flag(play_sound),
        ],
        EndpointView::TypingIndicator { active } => seq![ArgValue::Flag(active)],
    }
}

/// The datagram of a message.
pub open spec fn datagram(endpoint: EndpointView) -> Seq<u8> {
    message_bytes(address_of(endpoint), arguments_of(endpoint))
}

/// The encoder refused a message.
#[derive(Debug)]
pub struct EncodeError {
    pub cause: rosc::OscError,
}

/// Encodes a message as one datagram.
///
/// Both addresses are well formed, so every message has its datagram.
pub fn encode(endpoint: &Endpoint) -> (r: Result<Vec<u8>, EncodeError>)
    ensures
        r is Ok,
        r matches Ok(bytes) ==> bytes@ == datagram(endpoint@),
{
    let mut texts: Vec<String> = Vec::new();
    let mut flags: Vec<bool> = Vec::new();
    let encoded = match endpoint {
        Endpoint::ChatMessage { text, show_keyboard, play_sound } => {
            texts.push(text.clone());
            flags.push(*show_keyboard);
            flags.push(*play_sound);
            encode_message("/chatbox/input", &texts, &flags)
        },
        Endpoint::TypingIndicator { active } => {
            flags.push(*active);
            encode_message("/chatbox/typing", &texts, &flags)
        },
    };
    proof {
        assert(texts_then_flags(texts@, flags@) =~= arguments_of(endpoint@));
    }
    match encoded {
        Ok(bytes) => Ok(bytes),
        Err(cause) => Err(EncodeError { cause }),
    }
}

/// The message that a receiver of OSC takes from a datagram: the one
/// whose address and arguments it reads, where nothing is left over.
pub open spec fn read_endpoint(bytes: Seq<u8>) -> Option<EndpointView> {
    match read_message(bytes) {
        Some((addr, args, rest)) => if rest.len() != 0 {
            None
        } else if addr == "/chatbox/input"@ && args.len() == 3 {
            match (args[0], args[1], args[2]) {
                (
                    ArgValue::Text(text),
                    ArgValue::Flag(show_keyboard),
                    ArgValue::Flag(play_sound),
                ) => Some(EndpointView::ChatMessage { text, show_keyboard, play_sound }),
                _ => None,
            }
        } else if addr == "/chatbox/typing"@ && args.len() == 1 {
            match args[0] {
                ArgValue::Flag(active) => Some(EndpointView::TypingIndicator { active }),
                _ => None,
            }
        } else {
            None
        },
        None => None,
    }
}

/// Whether a message survives the wire: a text must be free of NUL, for
/// on the wire a NUL ends it.
pub open spec fn wire_safe(endpoint: EndpointView) -> bool {
    endpoint matches EndpointView::ChatMessage { text, .. } ==> nul_free(text)
}

/// A receiver of OSC takes from the datagram of a message that very
/// message: the text and both flags of a chat message, and the flag of a
/// typing indicator.
pub proof fn lemma_datagram_reads_back(endpoint: EndpointView)
    requires
        wire_safe(endpoint),
    ensures
        read_endpoint(datagram(endpoint)) == Some(endpoint),
{
    reveal_strlit("/chatbox/input");
    reveal_strlit("/chatbox/typing");
    let addr = address_of(endpoint);
    let args = arguments_of(endpoint);
    assert(nul_free(addr));
    lemma_message_reads_back(addr, args);
}

/// Sending a chat message and reading it back gives the same text and the
/// same two flags, for every text without NUL.
pub proof fn lemma_chat_message_round_trip(text: Seq<char>, show_keyboard: bool, play_sound: bool)
    requires
        nul_free(text),
    ensures
        read_endpoint(datagram(EndpointView::ChatMessage { text, show_keyboard, play_sound }))
            == Some(EndpointView::ChatMessage { text, show_keyboard, play_sound }),
{
    lemma_datagram_reads_back(EndpointView::ChatMessage { text, show_keyboard, play_sound });
}

} // verus!
