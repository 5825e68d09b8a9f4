use vstd::prelude::*;
use crate::shared::{MessageChannelID, SendMessageError};

verus! {

/// Number of bytes that precede the payload in a native frame: four bytes of
/// big-endian payload length, then one byte of channel id.
pub const FRAME_HEADER_LEN: usize = 5;

/// The four big-endian bytes of `n`.
pub open spec fn u32_be_bytes(n: u32) -> Seq<u8> {
    seq![
        (n / 0x1000000) as u8,
        ((n / 0x10000) % 0x100) as u8,
        ((n / 0x100) % 0x100) as u8,
        (n % 0x100) as u8,
    ]
}

/// The number that four bytes spell in big-endian order.
pub open spec fn u32_from_be(b0: u8, b1: u8, b2: u8, b3: u8) -> nat {
    (b0 * 0x1000000 + b1 * 0x10000 + b2 * 0x100 + b3) as nat
}

/// The payload length that a frame header announces.
pub open spec fn announced_len(bytes: Seq<u8>) -> nat
    recommends
        bytes.len() >= 4,
{
    u32_from_be(bytes[0], bytes[1], bytes[2], bytes[3])
}

/// A native frame: the payload length as a big-endian `u32`, the channel id,
/// then the payload itself.
pub open spec fn encode_frame(channel: u8, payload: Seq<u8>) -> Seq<u8>
    recommends
        payload.len() <= u32::MAX,
{
    u32_be_bytes(payload.len() as u32) + seq![channel] + payload
}

/// Whether a received frame header is accepted: it announces at most
/// `max_packet_size` payload bytes.
pub open spec fn header_accepted(header: Seq<u8>, max_packet_size: nat) -> bool {
    announced_len(header) <= max_packet_size
}

/// What a datagram buffer holds: `None` where its header announces more than
/// `max_packet_size` bytes, otherwise its channel and the announced payload.
pub open spec fn decode_datagram(buffer: Seq<u8>, max_packet_size: nat) -> Option<(u8, Seq<u8>)> {
    let len = announced_len(buffer);
    if len > max_packet_size {
        None
    } else {
        Some((buffer[4], buffer.subrange(5, 5 + len as int)))
    }
}

/// Reading back the length that `u32_be_bytes` wrote gives the number.
pub proof fn lemma_u32_be_roundtrip(n: u32)
    ensures
        u32_from_be(
            u32_be_bytes(n)[0],
            u32_be_bytes(n)[1],
            u32_be_bytes(n)[2],
            u32_be_bytes(n)[3],
        ) == n,
{
    let b = u32_be_bytes(n);
    assert(n / 0x1000000 < 0x100) by (bit_vector);
    assert(b[0] == n / 0x1000000);
    assert(b[1] == (n / 0x10000) % 0x100);
    assert(b[2] == (n / 0x100) % 0x100);
    assert(b[3] == n % 0x100);
    assert((n / 0x1000000) * 0x1000000 + ((n / 0x10000) % 0x100) * 0x10000 + ((n / 0x100)
        % 0x100) * 0x100 + n % 0x100 == n) by (bit_vector);
}

/// The four bytes that `u32_be_bytes` gives are the base-256 digits of the
/// number, most significant first: read with weights 2^24, 2^16, 2^8, 1 they
/// add up to the number (and, being bytes, each is below 256, so they are
/// the only such digits).
pub proof fn lemma_u32_be_digits(n: u32)
    ensures
        u32_be_bytes(n).len() == 4,
        u32_be_bytes(n)[0] * 0x1000000 + u32_be_bytes(n)[1] * 0x10000 + u32_be_bytes(n)[2]
            * 0x100 + u32_be_bytes(n)[3] == n,
        u32_be_bytes(n)[3] == n % 0x100,
        u32_be_bytes(n)[0] == n / 0x1000000,
{
    let b = u32_be_bytes(n);
    assert(n / 0x1000000 < 0x100) by (bit_vector);
    assert(b[0] == n / 0x1000000);
    assert(b[1] == (n / 0x10000) % 0x100);
    assert(b[2] == (n / 0x100) % 0x100);
    assert(b[3] == n % 0x100);
    assert((n / 0x1000000) * 0x1000000 + ((n / 0x10000) % 0x100) * 0x10000 + ((n / 0x100)
        % 0x100) * 0x100 + n % 0x100 == n) by (bit_vector);
}

/// Four bytes read in big-endian order weigh 2^24, 2^16, 2^8 and 1.
pub proof fn lemma_u32_from_be_value(b0: u8, b1: u8, b2: u8, b3: u8)
    ensures
        u32_from_be(b0, b1, b2, b3) == b0 * 0x1000000 + b1 * 0x10000 + b2 * 0x100 + b3,
{
}

/// Frames `msg_bin` for `channel`: four bytes of big-endian payload length,
/// the channel id, then the payload.
pub fn generate_message_bin(msg_bin: &[u8], channel: &MessageChannelID) -> (r: Vec<u8>)
    requires
        msg_bin@.len() <= u32::MAX,
    ensures
        r@ == encode_frame(channel.id, msg_bin@),
        r@.len() == msg_bin@.len() + 5,
        r@[0] * 0x1000000 + r@[1] * 0x10000 + r@[2] * 0x100 + r@[3] == msg_bin@.len(),
        r@[4] == channel.id,
        r@.subrange(5, r@.len() as int) == msg_bin@,
{
    let msg_len: u32 = msg_bin.len() as u32;
    let mut out: Vec<u8> = Vec::new();
    out.push((msg_len / 0x1000000) as u8);
    out.push(((msg_len / 0x10000) % 0x100) as u8);
    out.push(((msg_len / 0x100) % 0x100) as u8);
    out.push((msg_len % 0x100) as u8);
    out.push(channel.id);
    let ghost header = u32_be_bytes(msg_len) + seq![channel.id];
    assert(out@ =~= header);
    let mut i: usize = 0;
    while i < msg_bin.len()
        invariant
            0 <= i <= msg_bin@.len(),
            out@ == header + msg_bin@.subrange(0, i as int),
        decreases msg_bin@.len() - i,
    {
        out.push(msg_bin[i]);
        i = i + 1;
        assert(out@ =~= header + msg_bin@.subrange(0, i as int));
    }
    assert(msg_bin@.subrange(0, msg_bin@.len() as int) =~= msg_bin@);
    proof {
        lemma_u32_be_digits(msg_len);
        assert(out@.subrange(5, out@.len() as int) =~= msg_bin@);
    }
    out
}


/// The longest frame that may go to a naia (WebRTC) connection: WebRTC packets
/// hold 1200 bytes, of which the overhead takes the rest.
pub const NAIA_MAX_FRAME_LEN: usize = 1095;

/// The fields of a frame header as written: length, channel id, payload.
pub proof fn lemma_frame_layout(channel: u8, payload: Seq<u8>)
    requires
        payload.len() <= u32::MAX,
    ensures
        encode_frame(channel, payload).len() == payload.len() + 5,
        announced_len(encode_frame(channel, payload)) == payload.len(),
        encode_frame(channel, payload)[4] == channel,
        encode_frame(channel, payload).subrange(5, encode_frame(channel, payload).len() as int)
            == payload,
{
    let f = encode_frame(channel, payload);
    lemma_u32_be_roundtrip(payload.len() as u32);
    assert(f[0] == u32_be_bytes(payload.len() as u32)[0]);
    assert(f[1] == u32_be_bytes(payload.len() as u32)[1]);
    assert(f[2] == u32_be_bytes(payload.len() as u32)[2]);
    assert(f[3] == u32_be_bytes(payload.len() as u32)[3]);
    assert(f.subrange(5, f.len() as int) =~= payload);
}

/// A frame read back from a datagram buffer gives the channel and payload
/// that were framed, whatever follows the frame in the buffer, exactly when
/// the payload fits `max_packet_size`; a longer one is refused.
pub proof fn lemma_datagram_roundtrip(channel: u8, payload: Seq<u8>, trailing: Seq<u8>, max_packet_size: nat)
    requires
        payload.len() <= u32::MAX,
    ensures
        payload.len() <= max_packet_size ==> decode_datagram(
            encode_frame(channel, payload) + trailing,
            max_packet_size,
        ) == Some((channel, payload)),
        payload.len() > max_packet_size ==> decode_datagram(
            encode_frame(channel, payload) + trailing,
            max_packet_size,
        ) is None,
        header_accepted(encode_frame(channel, payload) + trailing, max_packet_size)
            <==> payload.len() <= max_packet_size,
{
    let f = encode_frame(channel, payload);
    let b = f + trailing;
    lemma_frame_layout(channel, payload);
    assert(b[0] == f[0] && b[1] == f[1] && b[2] == f[2] && b[3] == f[3] && b[4] == f[4]);
    assert(announced_len(b) == announced_len(f));
    assert(b.subrange(5, 5 + payload.len() as int) =~= payload) by {
        assert(f.subrange(5, f.len() as int) == payload);
        assert forall|i: int| 0 <= i < payload.len() implies b.subrange(5, 5 + payload.len() as int)[i]
            == payload[i] by {
            assert(b[5 + i] == f[5 + i]);
            assert(f.subrange(5, f.len() as int)[i] == f[5 + i]);
        }
    }
}

/// Read from a TCP stream, a frame gives back what was framed: its first five
/// bytes are a header announcing the payload's length and the channel, the
/// header is accepted exactly when the payload fits `max_packet_size`, and
/// the announced number of bytes after it is the payload.
pub proof fn lemma_stream_roundtrip(channel: u8, payload: Seq<u8>, max_packet_size: nat)
    requires
        payload.len() <= u32::MAX,
    ensures
        ({
            let f = encode_frame(channel, payload);
            let header = f.subrange(0, 5);
            &&& announced_len(header) == payload.len()
            &&& header[4] == channel
            &&& header_accepted(header, max_packet_size) <==> payload.len() <= max_packet_size
            &&& f.subrange(5, 5 + announced_len(header) as int) == payload
        }),
{
    let f = encode_frame(channel, payload);
    let header = f.subrange(0, 5);
    lemma_frame_layout(channel, payload);
    assert(header[0] == f[0] && header[1] == f[1] && header[2] == f[2] && header[3] == f[3]);
    assert(header[4] == f[4]);
}

/// Reads a frame header: `None` where it announces more than
/// `max_packet_size` payload bytes (the connection is then dropped), else the
/// announced length and the channel.
pub fn decode_frame_header(header: &[u8], max_packet_size: usize) -> (r: Option<(usize, MessageChannelID)>)
    requires
        header@.len() >= 5,
    ensures
        r is None <==> !header_accepted(header@, max_packet_size as nat),
        r matches Some((len, ch)) ==> len == announced_len(header@) && ch.id == header@[4],
        r matches Some((len, _)) ==> len == header@[0] * 0x1000000 + header@[1] * 0x10000
            + header@[2] * 0x100 + header@[3],
        r is None <==> header@[0] * 0x1000000 + header@[1] * 0x10000 + header@[2] * 0x100
            + header@[3] > max_packet_size,
{
    let msg_len: u32 = (header[0] as u32) * 0x1000000 + (header[1] as u32) * 0x10000
        + (header[2] as u32) * 0x100 + header[3] as u32;
    let len: usize = msg_len as usize;
    if len > max_packet_size {
        None
    } else {
        Some((len, MessageChannelID::new(header[4])))
    }
}

/// Reads a datagram buffer: the channel and the announced payload, or `None`
/// where the header announces more than `max_packet_size` bytes.
pub fn parse_datagram(buffer: &[u8], max_packet_size: usize) -> (r: Option<(MessageChannelID, Vec<u8>)>)
    requires
        buffer@.len() >= 5,
        header_accepted(buffer@, max_packet_size as nat) ==> 5 + announced_len(buffer@)
            <= buffer@.len(),
    ensures
        r is None <==> decode_datagram(buffer@, max_packet_size as nat) is None,
        r matches Some((ch, payload)) ==> decode_datagram(buffer@, max_packet_size as nat)
            == Some((ch.id, payload@)),
        r matches Some((ch, payload)) ==> {
            &&& ch.id == buffer@[4]
            &&& payload@.len() == buffer@[0] * 0x1000000 + buffer@[1] * 0x10000 + buffer@[2]
                * 0x100 + buffer@[3]
            &&& payload@ == buffer@.subrange(5, 5 + payload@.len() as int)
        },
        r is None <==> buffer@[0] * 0x1000000 + buffer@[1] * 0x10000 + buffer@[2] * 0x100
            + buffer@[3] > max_packet_size,
{
    match decode_frame_header(buffer, max_packet_size) {
        None => None,
        Some((len, channel)) => {
            let mut payload: Vec<u8> = Vec::new();
            let mut i: usize = 0;
            while i < len
                invariant
                    0 <= i <= len,
                    5 + len <= buffer.len(),
                    payload@ == buffer@.subrange(5, 5 + i),
                decreases len - i,
            {
                payload.push(buffer[5 + i]);
                i = i + 1;
                assert(payload@ =~= buffer@.subrange(5, 5 + i));
            }
            Some((channel, payload))
        },
    }
}

/// Refuses a message whose frame is longer than a naia connection carries.
pub fn check_naia_message_len(msg_bin: &[u8], channel: &MessageChannelID) -> (r: Result<(), SendMessageError>)
    requires
        msg_bin@.len() <= u32::MAX,
    ensures
        r is Err <==> encode_frame(channel.id, msg_bin@).len() > NAIA_MAX_FRAME_LEN,
        r is Err <==> msg_bin@.len() + 5 > NAIA_MAX_FRAME_LEN,
        r is Err ==> (r matches Err(SendMessageError::MessageTooLarge)),
{
    if generate_message_bin(msg_bin, channel).len() > NAIA_MAX_FRAME_LEN {
        Err(SendMessageError::MessageTooLarge)
    } else {
        Ok(())
    }
}

} // verus!
