use vstd::prelude::*;

verus! {

/// The tag that leads every frame on the wire.
///
/// A data frame is the `Data` tag followed by the application payload; the
/// other three tags travel alone. The tag bytes are stable and distinct but
/// otherwise arbitrary.
#[derive(Clone, Copy, PartialEq, Eq, Structural, Debug)]
pub enum MessageHeader {
    /// The connecting side asks for a connection.
    ClientHandshake,
    /// The listening side acknowledges a connection.
    ServerHandshake,
    /// An application payload follows.
    Data,
    /// A content-free liveness probe.
    Heartbeat,
}

/// The wire byte of each tag.
pub open spec fn encoded(tag: MessageHeader) -> u8 {
    match tag {
        MessageHeader::ClientHandshake => 1,
        MessageHeader::ServerHandshake => 2,
        MessageHeader::Data => 3,
        MessageHeader::Heartbeat => 4,
    }
}

/// The tag a wire byte stands for, if any. A byte outside the defined set
/// decodes to nothing: stray or corrupted traffic is ignored, never fatal.
pub open spec fn decoded(byte: u8) -> Option<MessageHeader> {
    if byte == 1 {
        Some(MessageHeader::ClientHandshake)
    } else if byte == 2 {
        Some(MessageHeader::ServerHandshake)
    } else if byte == 3 {
        Some(MessageHeader::Data)
    } else if byte == 4 {
        Some(MessageHeader::Heartbeat)
    } else {
        None
    }
}

/// Emits the wire byte of a tag.
pub fn encode_header(tag: MessageHeader) -> (b: u8)
    ensures
        b == encoded(tag),
{
    match tag {
        MessageHeader::ClientHandshake => 1,
        MessageHeader::ServerHandshake => 2,
        MessageHeader::Data => 3,
        MessageHeader::Heartbeat => 4,
    }
}

/// Parses the leading byte of a frame back into its tag, if it is one.
pub fn decode_header(byte: u8) -> (t: Option<MessageHeader>)
    ensures
        t == decoded(byte),
{
    if byte == 1 {
        Some(MessageHeader::ClientHandshake)
    } else if byte == 2 {
        Some(MessageHeader::ServerHandshake)
    } else if byte == 3 {
        Some(MessageHeader::Data)
    } else if byte == 4 {
        Some(MessageHeader::Heartbeat)
    } else {
        None
    }
}

/// Builds a control frame: exactly one tag byte, no payload.
pub fn control_frame(tag: MessageHeader) -> (frame: Vec<u8>)
    ensures
        frame@ == seq![encoded(tag)],
{
    let mut frame: Vec<u8> = Vec::new();
    frame.push(encode_header(tag));
    assert(frame@ =~= seq![encoded(tag)]);
    frame
}

/// Builds a data frame: the `Data` tag byte followed by the whole payload.
pub fn frame_data(payload: &Vec<u8>) -> (frame: Vec<u8>)
    ensures
        frame@ == seq![encoded(MessageHeader::Data)] + payload@,
{
    let mut frame: Vec<u8> = Vec::new();
    frame.push(encode_header(MessageHeader::Data));
    let mut i: usize = 0;
    while i < payload.len()
        invariant
            i <= payload.len(),
            frame@ == seq![encoded(MessageHeader::Data)] + payload@.subrange(0, i as int),
        decreases payload.len() - i,
    {
        frame.push(payload[i]);
        assert(frame@ =~= seq![encoded(MessageHeader::Data)] + payload@.subrange(0, i + 1 as int));
        i = i + 1;
    }
    assert(payload@.subrange(0, payload@.len() as int) =~= payload@);
    frame
}

/// Round-trip law: decoding an encoded tag yields that tag, for every
/// defined tag.
pub proof fn lemma_header_round_trip(tag: MessageHeader)
    ensures
        decoded(encoded(tag)) == Some(tag),
{
}

} // verus!
