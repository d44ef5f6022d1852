//! Framing of outbound commands and validation of reply datagrams.
//!
//! A request packet is the four-byte out-of-band marker followed by the
//! UTF-8 bytes of the command.  A reply is the same marker, an optional
//! single line-feed byte, and the response text.

use vstd::prelude::*;
use vstd::slice::slice_subrange;
use vstd::string::StrSliceExecFns;
use vstd::string::StringSliceAdditionalSpecFns;
use vstd::utf8::decode_utf8;
use vstd::utf8::encode_utf8;
use vstd::utf8::encode_utf8_decode_utf8;
use vstd::utf8::encode_utf8_valid_utf8;
use vstd::utf8::valid_utf8;

use crate::error::StepError;

verus! {

/// Largest packet the encoder will produce.  The protocol has no
/// fragmentation, so a packet must fit in one UDP datagram; this bound
/// keeps it under common path MTUs.
pub const MAX_PACKET_BYTES: usize = 1400;

/// The four-byte out-of-band marker that opens every request and reply.
pub open spec fn marker() -> Seq<u8> {
    seq![0xffu8, 0xffu8, 0xffu8, 0xffu8]
}

/// The wire packet that carries a command: the marker, then the command's
/// UTF-8 bytes.
pub open spec fn packet_bytes(command: Seq<char>) -> Seq<u8> {
    marker() + encode_utf8(command)
}

/// Whether a command's packet fits in one safe datagram.
pub open spec fn command_fits(command: Seq<char>) -> bool {
    packet_bytes(command).len() <= MAX_PACKET_BYTES
}

/// Whether a reply datagram is well-formed: at least four bytes, opening
/// with the marker.
pub open spec fn valid_reply(raw: Seq<u8>) -> bool {
    raw.len() >= 4 && raw.subrange(0, 4) == marker()
}

/// The payload of a well-formed reply: everything after the marker, less
/// one leading line-feed byte if the server sent one.
pub open spec fn reply_payload(raw: Seq<u8>) -> Seq<u8> {
    let rest = raw.subrange(4, raw.len() as int);
    if rest.len() > 0 && rest[0] == 10u8 {
        rest.drop_first()
    } else {
        rest
    }
}

/// The text of a byte sequence read as UTF-8, with a replacement character
/// substituted for each invalid sequence.
pub uninterp spec fn lossy_text(bytes: Seq<u8>) -> Seq<char>;

/// Relies on String::from_utf8_lossy: the result depends on the bytes
/// alone, and bytes that are valid UTF-8 convert with no substitution.
#[verifier::external_body]
fn utf8_lossy(bytes: &[u8]) -> (text: String)
    ensures
        text@ == lossy_text(bytes@),
        valid_utf8(bytes@) ==> text@ == decode_utf8(bytes@),
{
    String::from_utf8_lossy(bytes).into_owned()
}

/// Frames a command for the wire: the marker, then the command's UTF-8
/// bytes, unescaped and untruncated.  Fails when the packet would not fit
/// in one safe datagram.
pub fn encode(command: &str) -> (packet: Result<Vec<u8>, StepError>)
    ensures
        packet is Ok <==> command_fits(command@),
        packet matches Ok(bytes) ==> bytes@ == packet_bytes(command@),
        packet is Err ==> packet == Err::<Vec<u8>, StepError>(StepError::CommandTooLarge),
{
    let body = command.as_bytes();
    if body.len() > MAX_PACKET_BYTES - 4 {
        return Err(StepError::CommandTooLarge);
    }
    let mut packet: Vec<u8> = Vec::new();
    packet.push(0xff);
    packet.push(0xff);
    packet.push(0xff);
    packet.push(0xff);
    let mut rest = command.as_bytes_vec();
    packet.append(&mut rest);
    proof {
        assert(packet@ =~= packet_bytes(command@));
    }
    Ok(packet)
}

/// Validates a reply and strips its framing, yielding the response text.
/// A reply shorter than the marker, or opening with anything else, is
/// rejected.  A payload that is not valid UTF-8 is still surfaced, with
/// replacement characters, so partially garbled output reaches the
/// operator.
pub fn decode(raw: &[u8]) -> (response: Result<String, StepError>)
    ensures
        response is Ok <==> valid_reply(raw@),
        !valid_reply(raw@) ==> response == Err::<String, StepError>(StepError::ProtocolError),
        response matches Ok(text) ==> text@ == lossy_text(reply_payload(raw@)),
        response matches Ok(text) ==> valid_utf8(reply_payload(raw@)) ==> text@ == decode_utf8(
            reply_payload(raw@),
        ),
{
    if raw.len() < 4 {
        return Err(StepError::ProtocolError);
    }
    if !(raw[0] == 0xff && raw[1] == 0xff && raw[2] == 0xff && raw[3] == 0xff) {
        proof {
            if valid_reply(raw@) {
                assert(raw@.subrange(0, 4)[0] == raw@[0]);
                assert(raw@.subrange(0, 4)[1] == raw@[1]);
                assert(raw@.subrange(0, 4)[2] == raw@[2]);
                assert(raw@.subrange(0, 4)[3] == raw@[3]);
            }
        }
        return Err(StepError::ProtocolError);
    }
    proof {
        assert(raw@.subrange(0, 4) =~= marker());
    }
    let start: usize = if raw.len() > 4 && raw[4] == 10 {
        5
    } else {
        4
    };
    let payload = slice_subrange(raw, start, raw.len());
    proof {
        assert(payload@ =~= reply_payload(raw@));
    }
    Ok(utf8_lossy(payload))
}

/// The packet of any command is four bytes longer than the command's UTF-8
/// encoding and opens with the marker.
pub proof fn lemma_packet_shape(command: Seq<char>)
    ensures
        packet_bytes(command).len() == 4 + encode_utf8(command).len(),
        packet_bytes(command).subrange(0, 4) == marker(),
{
    assert(packet_bytes(command).subrange(0, 4) =~= marker());
}

/// A reply made of the marker, one line-feed byte and a payload yields the
/// payload with that line feed stripped, whatever the payload holds; one
/// made of the marker and a payload that does not open with a line feed
/// yields the payload unchanged.  The line feed is stripped exactly once,
/// never twice.
pub proof fn lemma_reply_payload(payload: Seq<u8>)
    ensures
        valid_reply(marker() + payload),
        valid_reply(marker() + seq![10u8] + payload),
        reply_payload(marker() + seq![10u8] + payload) == payload,
        (payload.len() == 0 || payload[0] != 10u8) ==> reply_payload(marker() + payload)
            == payload,
{
    assert((marker() + payload).subrange(0, 4) =~= marker());
    assert((marker() + seq![10u8] + payload).subrange(0, 4) =~= marker());
    let with_feed = marker() + seq![10u8] + payload;
    let rest = with_feed.subrange(4, with_feed.len() as int);
    assert(rest =~= seq![10u8] + payload);
    assert(rest.drop_first() =~= payload);
    let bare = marker() + payload;
    assert(bare.subrange(4, bare.len() as int) =~= payload);
}

/// The leading byte of a character's UTF-8 encoding is a line feed only
/// for the line-feed character itself.
proof fn lemma_leading_byte_not_linefeed(c: char)
    requires
        c != '\n',
    ensures
        encode_scalar_first_byte(c) != 10u8,
{
    let scalar = c as u32;
    vstd::utf8::char_is_scalar(c);
    if vstd::utf8::has_width_1_encoding(scalar) {
        assert(scalar != 10) by {
            vstd::utf8::char_u32_cast(c, scalar);
        }
        assert((scalar & 0x7F) == scalar) by (bit_vector)
            requires
                scalar <= 0x7F,
        ;
    } else if vstd::utf8::has_width_2_encoding(scalar) {
        let low = ((scalar >> 6) & 0x1F) as u8;
        assert((0xC0u8 | low) != 10u8) by (bit_vector);
    } else if vstd::utf8::has_width_3_encoding(scalar) {
        let low = ((scalar >> 12) & 0x0F) as u8;
        assert((0xE0u8 | low) != 10u8) by (bit_vector);
    } else {
        let low = ((scalar >> 18) & 0x7) as u8;
        assert((0xF0u8 | low) != 10u8) by (bit_vector);
    }
}

/// The first byte of a character's UTF-8 encoding.
spec fn encode_scalar_first_byte(c: char) -> u8 {
    vstd::utf8::encode_scalar(c as u32)[0]
}

/// Round trip through the reply framing: text behind a marker and one
/// line feed always comes back exactly, and text behind a bare marker
/// comes back exactly unless it opens with a line feed of its own, which
/// the decoder would strip.
pub proof fn lemma_reply_roundtrip(text: Seq<char>)
    ensures
        reply_payload(marker() + seq![10u8] + encode_utf8(text)) == encode_utf8(text),
        (text.len() == 0 || text[0] != '\n') ==> reply_payload(marker() + encode_utf8(text))
            == encode_utf8(text),
        valid_utf8(encode_utf8(text)),
        decode_utf8(encode_utf8(text)) == text,
{
    encode_utf8_valid_utf8(text);
    encode_utf8_decode_utf8(text);
    if text.len() > 0 && text[0] != '\n' {
        lemma_leading_byte_not_linefeed(text[0]);
        assert(encode_utf8(text)[0] == encode_scalar_first_byte(text[0]));
    }
    lemma_reply_payload(encode_utf8(text));
}

} // verus!
