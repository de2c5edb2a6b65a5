//! OSC messages whose arguments are texts and flags: how they lie on the
//! wire, and how a receiver reads them back.

use vstd::prelude::*;
use vstd::utf8::*;

verus! {

/// What an argument of a message holds.
pub enum ArgValue {
    Text(Seq<char>),
    Flag(bool),
}

/// The arguments of a message that carries the texts and then the flags.
pub open spec fn texts_then_flags(texts: Seq<String>, flags: Seq<bool>) -> Seq<ArgValue> {
    Seq::new(texts.len(), |i: int| ArgValue::Text(texts[i]@)) + Seq::new(
        flags.len(),
        |i: int| ArgValue::Flag(flags[i]),
    )
}

/// `n` zero bytes.
pub open spec fn zeros(n: int) -> Seq<u8> {
    Seq::new(n as nat, |i: int| 0u8)
}

/// The bytes followed by one to four zero bytes, as many as bring the
/// length to a multiple of four.
pub open spec fn padded(bytes: Seq<u8>) -> Seq<u8> {
    bytes + zeros(4 - bytes.len() % 4)
}

/// The letter that announces an argument: `s` for a text, `T` for a flag
/// that is set and `F` for one that is not.
pub open spec fn type_tag(arg: ArgValue) -> u8 {
    match arg {
        ArgValue::Text(_) => 0x73,
        ArgValue::Flag(true) => 0x54,
        ArgValue::Flag(false) => 0x46,
    }
}

/// The letters of all arguments, in order.
pub open spec fn type_tags(args: Seq<ArgValue>) -> Seq<u8> {
    Seq::new(args.len(), |i: int| type_tag(args[i]))
}

/// The bytes that carry an argument: a text travels as its UTF-8 bytes,
/// padded; a flag travels in its letter alone.
pub open spec fn arg_data(arg: ArgValue) -> Seq<u8> {
    match arg {
        ArgValue::Text(text) => padded(encode_utf8(text)),
        ArgValue::Flag(_) => Seq::empty(),
    }
}

/// The bytes that carry all arguments, in order.
pub open spec fn args_data(args: Seq<ArgValue>) -> Seq<u8>
    decreases args.len(),
{
    if args.len() == 0 {
        Seq::empty()
    } else {
        arg_data(args.first()) + args_data(args.drop_first())
    }
}

/// A message on the wire: the padded address, then a comma and the
/// letters of the arguments, padded, then the data of the arguments.
pub open spec fn message_bytes(addr: Seq<char>, args: Seq<ArgValue>) -> Seq<u8> {
    padded(encode_utf8(addr)) + padded(seq![0x2cu8] + type_tags(args)) + args_data(args)
}

/// `rosc::OscError`, carried as it is.
#[verifier::external_type_specification]
#[verifier::external_body]
pub struct ExOscError(rosc::OscError);

/// `rosc::encoder::encode` on a packet that is one message with the given
/// address, whose arguments are the texts, each an `OscType::String`, and
/// then the flags, each an `OscType::Bool`.
///
/// The contract claims what the encoder of rosc does with such a message:
/// it writes the bytes of the address and one to four zero bytes up to a
/// multiple of four, then a comma and one letter for each argument (`s`,
/// `T` or `F`) and again one to four zero bytes up to a multiple of four,
/// then for each text its bytes padded like the address, and for a flag
/// nothing. Writing into a vector, it returns `Ok` always.
#[verifier::external_body]
pub(crate) fn encode_message(addr: &str, texts: &Vec<String>, flags: &Vec<bool>) -> (r: Result<
    Vec<u8>,
    rosc::OscError,
>)
    ensures
        r is Ok,
        r matches Ok(bytes) ==> bytes@ == message_bytes(addr@, texts_then_flags(texts@, flags@)),
{
    let texts = texts.iter().map(|text| rosc::OscType::String(text.clone()));
    let flags = flags.iter().map(|flag| rosc::OscType::Bool(*flag));
    let message = rosc::OscMessage { addr: addr.to_string(), args: texts.chain(flags).collect() };
    rosc::encoder::encode(&rosc::OscPacket::Message(message))
}

/// Whether no character of the text is NUL.
pub open spec fn nul_free(text: Seq<char>) -> bool {
    forall|i: int| 0 <= i < text.len() ==> text[i] != '\0'
}

/// Whether no byte is zero.
pub open spec fn zero_free(bytes: Seq<u8>) -> bool {
    forall|i: int| 0 <= i < bytes.len() ==> bytes[i] != 0
}

/// Whether every text among the arguments is free of NUL.
pub open spec fn texts_nul_free(args: Seq<ArgValue>) -> bool {
    forall|i: int| 0 <= i < args.len() ==> (#[trigger] args[i] matches ArgValue::Text(text)
        ==> nul_free(text))
}

/// The number of bytes before the first zero byte.
pub open spec fn text_len(bytes: Seq<u8>) -> int
    decreases bytes.len(),
{
    if bytes.len() == 0 || bytes[0] == 0 {
        0
    } else {
        1 + text_len(bytes.drop_first())
    }
}

/// What a receiver takes from the front of `bytes` as one padded string:
/// the bytes before the first zero byte, and the bytes that follow the
/// padding. There is no such string where the zero byte or part of the
/// padding is missing.
pub open spec fn read_padded(bytes: Seq<u8>) -> Option<(Seq<u8>, Seq<u8>)> {
    let n = text_len(bytes);
    let end = n + 4 - n % 4;
    if end <= bytes.len() {
        Some((bytes.take(n), bytes.skip(end)))
    } else {
        None
    }
}

/// As [`read_padded`], for a string that is to be valid UTF-8.
pub open spec fn read_text(bytes: Seq<u8>) -> Option<(Seq<char>, Seq<u8>)> {
    match read_padded(bytes) {
        Some((body, rest)) => if valid_utf8(body) {
            Some((decode_utf8(body), rest))
        } else {
            None
        },
        None => None,
    }
}

/// What a receiver takes from `bytes` as the arguments that the letters
/// announce, and the bytes that follow them.
pub open spec fn read_args(tags: Seq<u8>, bytes: Seq<u8>) -> Option<(Seq<ArgValue>, Seq<u8>)>
    decreases tags.len(),
{
    if tags.len() == 0 {
        Some((Seq::empty(), bytes))
    } else {
        let first = if tags[0] == 0x54 {
            Some((ArgValue::Flag(true), bytes))
        } else if tags[0] == 0x46 {
            Some((ArgValue::Flag(false), bytes))
        } else if tags[0] == 0x73 {
            match read_text(bytes) {
                Some((text, rest)) => Some((ArgValue::Text(text), rest)),
                None => None,
            }
        } else {
            None
        };
        match first {
            Some((arg, rest)) => match read_args(tags.drop_first(), rest) {
                Some((more, left)) => Some((seq![arg] + more, left)),
                None => None,
            },
            None => None,
        }
    }
}

/// What a receiver of OSC takes from a datagram as one message: the
/// address, which begins with a slash, the arguments, and the bytes that
/// are left over.
pub open spec fn read_message(bytes: Seq<u8>) -> Option<(Seq<char>, Seq<ArgValue>, Seq<u8>)> {
    match read_text(bytes) {
        Some((addr, rest)) => if addr.len() > 0 && addr[0] == '/' {
            match read_padded(rest) {
                Some((tags, data)) => if tags.len() > 0 && tags[0] == 0x2c {
                    match read_args(tags.drop_first(), data) {
                        Some((args, left)) => Some((addr, args, left)),
                        None => None,
                    }
                } else {
                    None
                },
                None => None,
            }
        } else {
            None
        },
        None => None,
    }
}

/// The UTF-8 bytes of a text without NUL hold no zero byte.
pub proof fn lemma_utf8_zero_free(text: Seq<char>)
    requires
        nul_free(text),
    ensures
        zero_free(encode_utf8(text)),
    decreases text.len(),
{
    if text.len() > 0 {
        let scalar = text[0] as u32;
        let head = encode_scalar(scalar);
        let tail = encode_utf8(text.drop_first());
        assert(nul_free(text.drop_first())) by {
            assert forall|i: int| 0 <= i < text.drop_first().len() implies text.drop_first()[i]
                != '\0' by {
                assert(text.drop_first()[i] == text[i + 1]);
            }
        }
        lemma_utf8_zero_free(text.drop_first());
        assert(scalar != 0) by {
            if scalar == 0 {
                char_u32_cast(text[0], 0u32);
                char_u32_cast('\0', 0u32);
            }
        }
        char_is_scalar(text[0]);
        assert(zero_free(head)) by {
            if scalar <= 0x7F {
                assert((scalar & 0x7F) as u8 != 0) by (bit_vector)
                    requires
                        0 < scalar <= 0x7F,
                ;
            }
            let a = ((scalar >> 6) & 0x1F) as u8;
            let b = ((scalar >> 12) & 0x0F) as u8;
            let c = ((scalar >> 18) & 0x7) as u8;
            let x = (scalar & 0x3F) as u8;
            let y = ((scalar >> 6) & 0x3F) as u8;
            let z = ((scalar >> 12) & 0x3F) as u8;
            assert(0xC0u8 | a != 0) by (bit_vector);
            assert(0xE0u8 | b != 0) by (bit_vector);
            assert(0xF0u8 | c != 0) by (bit_vector);
            assert(0x80u8 | x != 0) by (bit_vector);
            assert(0x80u8 | y != 0) by (bit_vector);
            assert(0x80u8 | z != 0) by (bit_vector);
        }
        assert forall|i: int| 0 <= i < encode_utf8(text).len() implies encode_utf8(text)[i]
            != 0 by {
            if i < head.len() {
                assert(encode_utf8(text)[i] == head[i]);
            } else {
                assert(encode_utf8(text)[i] == tail[i - head.len()]);
            }
        }
    }
}

/// Before a zero byte, bytes without one are counted in full.
pub proof fn lemma_text_len(body: Seq<u8>, tail: Seq<u8>)
    requires
        zero_free(body),
        tail.len() > 0,
        tail[0] == 0,
    ensures
        text_len(body + tail) == body.len(),
    decreases body.len(),
{
    if body.len() == 0 {
        assert(body + tail =~= tail);
    } else {
        assert((body + tail)[0] == body[0]);
        assert((body + tail).drop_first() =~= body.drop_first() + tail);
        assert(zero_free(body.drop_first())) by {
            assert forall|i: int| 0 <= i < body.drop_first().len() implies body.drop_first()[i]
                != 0 by {
                assert(body.drop_first()[i] == body[i + 1]);
            }
        }
        lemma_text_len(body.drop_first(), tail);
    }
}

/// A receiver takes back what was padded, and finds behind it what
/// followed.
pub proof fn lemma_read_padded(body: Seq<u8>, rest: Seq<u8>)
    requires
        zero_free(body),
    ensures
        read_padded(padded(body) + rest) == Some((body, rest)),
{
    let padding = zeros(4 - body.len() % 4);
    let bytes = padded(body) + rest;
    assert(bytes =~= body + (padding + rest));
    assert((padding + rest)[0] == padding[0]);
    lemma_text_len(body, padding + rest);
    assert(bytes.take(body.len() as int) =~= body);
    assert(bytes.skip(body.len() + 4 - body.len() % 4) =~= rest);
}

/// A receiver takes back a text without NUL.
pub proof fn lemma_read_text(text: Seq<char>, rest: Seq<u8>)
    requires
        nul_free(text),
    ensures
        read_text(padded(encode_utf8(text)) + rest) == Some((text, rest)),
{
    lemma_utf8_zero_free(text);
    lemma_read_padded(encode_utf8(text), rest);
    encode_utf8_valid_utf8(text);
    encode_utf8_decode_utf8(text);
}

/// A receiver takes back arguments whose texts are without NUL.
pub proof fn lemma_read_args(args: Seq<ArgValue>, rest: Seq<u8>)
    requires
        texts_nul_free(args),
    ensures
        read_args(type_tags(args), args_data(args) + rest) == Some((args, rest)),
    decreases args.len(),
{
    if args.len() == 0 {
        assert(args_data(args) + rest =~= rest);
        assert(args =~= Seq::<ArgValue>::empty());
    } else {
        let more = args.drop_first();
        let behind = args_data(more) + rest;
        assert(type_tags(args).drop_first() =~= type_tags(more));
        assert(args_data(args) + rest =~= arg_data(args[0]) + behind);
        assert(texts_nul_free(more)) by {
            assert forall|i: int| 0 <= i < more.len() implies (#[trigger] more[i] matches ArgValue::Text(
                text,
            ) ==> nul_free(text)) by {
                assert(more[i] == args[i + 1]);
            }
        }
        lemma_read_args(more, rest);
        match args[0] {
            ArgValue::Text(text) => {
                lemma_read_text(text, behind);
            },
            ArgValue::Flag(_) => {
                assert(arg_data(args[0]) + behind =~= behind);
            },
        }
        assert(seq![args[0]] + more =~= args);
    }
}

/// A receiver of OSC takes back the address and the arguments of a
/// message and finds nothing left over, where the address begins with a
/// slash and neither it nor a text among the arguments holds NUL.
pub proof fn lemma_message_reads_back(addr: Seq<char>, args: Seq<ArgValue>)
    requires
        addr.len() > 0,
        addr[0] == '/',
        nul_free(addr),
        texts_nul_free(args),
    ensures
        read_message(message_bytes(addr, args)) == Some((addr, args, Seq::<u8>::empty())),
{
    let tags = seq![0x2cu8] + type_tags(args);
    let behind_addr = padded(tags) + args_data(args);
    assert(message_bytes(addr, args) =~= padded(encode_utf8(addr)) + behind_addr);
    lemma_read_text(addr, behind_addr);
    assert(zero_free(tags)) by {
        assert forall|i: int| 0 <= i < tags.len() implies tags[i] != 0 by {
            if i > 0 {
                assert(tags[i] == type_tag(args[i - 1]));
            }
        }
    }
    lemma_read_padded(tags, args_data(args));
    assert(tags.drop_first() =~= type_tags(args));
    assert(args_data(args) =~= args_data(args) + Seq::<u8>::empty());
    lemma_read_args(args, Seq::<u8>::empty());
}

} // verus!
