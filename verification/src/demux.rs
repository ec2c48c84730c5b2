//! Container demultiplexing: from block elements to codec packets.
//!
//! A block-like element carries `[track number][timecode][flags][payload]`.
//! The track number is a variable-length integer whose width is announced by
//! the leading bits of its first byte; the timecode takes two bytes and the
//! flags one. Everything after that header is one coded picture.

use vstd::prelude::*;
use vstd::slice::{slice_subrange, slice_to_vec};

verus! {

/// Bytes of a block header that follow the track number: a signed 16-bit
/// timecode and 8 bits of flags.
pub const BLOCK_FIXED_HEADER_LEN: usize = 3;

/// Width in bytes of a track number whose first byte is `first`.
///
/// Bit 7 set means one byte, else bit 6 set means two, else bit 5 set means
/// three; every other byte is read as the start of a four-byte number.
pub open spec fn vint_width(first: u8) -> nat {
    if first & 0x80 != 0 {
        1
    } else if first & 0x40 != 0 {
        2
    } else if first & 0x20 != 0 {
        3
    } else {
        4
    }
}

/// Length of the header in front of a block's payload; an empty block has none.
pub open spec fn block_header_len(data: Seq<u8>) -> nat {
    if data.len() == 0 {
        0
    } else {
        vint_width(data[0]) + BLOCK_FIXED_HEADER_LEN as nat
    }
}

/// Computes the header length of a block from its first byte.
pub fn get_simple_block_header_len(data: &[u8]) -> (len: usize)
    ensures
        len == block_header_len(data@),
{
    if data.len() == 0 {
        return 0;
    }
    let first_byte: u8 = data[0];
    let vint_len: usize = if first_byte & 0x80 != 0 {
        1
    } else if first_byte & 0x40 != 0 {
        2
    } else if first_byte & 0x20 != 0 {
        3
    } else {
        4
    };
    vint_len + BLOCK_FIXED_HEADER_LEN
}

/// Number of zero bits in front of the first set bit of a byte.
pub open spec fn leading_zero_bits(b: u8) -> nat {
    if b >= 0x80 {
        0
    } else if b >= 0x40 {
        1
    } else if b >= 0x20 {
        2
    } else if b >= 0x10 {
        3
    } else if b >= 0x08 {
        4
    } else if b >= 0x04 {
        5
    } else if b >= 0x02 {
        6
    } else if b >= 0x01 {
        7
    } else {
        8
    }
}

/// The coded picture that a block carries, if it carries one: the bytes
/// after the header. A block no longer than its header carries none.
pub open spec fn payload_of(data: Seq<u8>) -> Option<Seq<u8>> {
    if data.len() <= block_header_len(data) {
        None
    } else {
        Some(data.skip(block_header_len(data) as int))
    }
}

/// A node of the container, as classified by the element parser: one of the
/// two block-like kinds with the bytes it holds, or anything else.
#[derive(Debug)]
pub enum ContainerElement {
    SimpleBlock(Vec<u8>),
    Block(Vec<u8>),
    Other,
}

/// Marks an element that the parser could not read.
#[derive(Clone, Copy, Debug, PartialEq, Eq, Structural)]
pub struct ParseError;

/// The packet that an element yields: the payload of a block-like element.
pub open spec fn packet_of(element: ContainerElement) -> Option<Seq<u8>> {
    match element {
        ContainerElement::SimpleBlock(data) => payload_of(data@),
        ContainerElement::Block(data) => payload_of(data@),
        ContainerElement::Other => None,
    }
}

/// The packet that one step of parsing yields; a malformed element yields
/// none.
pub open spec fn packet_of_item(item: Result<ContainerElement, ParseError>) -> Option<Seq<u8>> {
    match item {
        Ok(element) => packet_of(element),
        Err(_) => None,
    }
}

/// The packets that a run of parsing steps yields, in the order of the
/// elements they come from.
pub open spec fn packets_of(items: Seq<Result<ContainerElement, ParseError>>) -> Seq<Seq<u8>>
    decreases items.len(),
{
    if items.len() == 0 {
        Seq::empty()
    } else {
        let earlier = packets_of(items.drop_last());
        match packet_of_item(items.last()) {
            Some(packet) => earlier.push(packet),
            None => earlier,
        }
    }
}

/// The bytes behind an optional buffer.
pub open spec fn bytes_of(buffer: Option<Vec<u8>>) -> Option<Seq<u8>> {
    match buffer {
        Some(bytes) => Some(bytes@),
        None => None,
    }
}

/// `packets` holds exactly the byte strings `expected`, in order.
pub open spec fn packets_match(packets: Seq<Vec<u8>>, expected: Seq<Seq<u8>>) -> bool {
    &&& packets.len() == expected.len()
    &&& forall|i: int| 0 <= i < packets.len() ==> (#[trigger] packets[i])@ == expected[i]
}

/// A track number is as many bytes wide as its first byte has leading zero
/// bits, plus one, for every width up to four; a first byte with more zero
/// bits in front is still read as the start of a four-byte number.
pub proof fn lemma_width_from_leading_bits(first: u8)
    ensures
        leading_zero_bits(first) < 4 ==> vint_width(first) == leading_zero_bits(first) + 1,
        leading_zero_bits(first) >= 3 ==> vint_width(first) == 4,
{
    assert((first & 0x80 != 0) == (first >= 0x80)) by (bit_vector);
    assert(first < 0x80 ==> ((first & 0x40 != 0) == (first >= 0x40))) by (bit_vector);
    assert(first < 0x40 ==> ((first & 0x20 != 0) == (first >= 0x20))) by (bit_vector);
}

/// For a track number of `width` bytes, `width` from one to four, the header
/// is `width + 3` bytes long, whatever the bits after the leading pattern.
pub proof fn lemma_header_len_by_width(data: Seq<u8>, width: int)
    requires
        data.len() > 0,
        1 <= width <= 4,
        leading_zero_bits(data[0]) == width - 1,
    ensures
        block_header_len(data) == width + 3,
{
    lemma_width_from_leading_bits(data[0]);
}

/// A header is never longer than seven bytes.
pub proof fn lemma_header_len_range(data: Seq<u8>)
    ensures
        block_header_len(data) <= 7,
        data.len() > 0 ==> block_header_len(data) >= 4,
{
}

/// A block that carries a packet is its header followed by that packet, and
/// the packet is not empty.
pub proof fn lemma_payload_splits_block(data: Seq<u8>)
    requires
        payload_of(data).is_some(),
    ensures
        payload_of(data).unwrap().len() == data.len() - block_header_len(data),
        payload_of(data).unwrap().len() > 0,
        data == data.take(block_header_len(data) as int) + payload_of(data).unwrap(),
{
    assert(data =~= data.take(block_header_len(data) as int) + data.skip(
        block_header_len(data) as int,
    ));
}

/// Packets keep the order of their elements: the packets of two runs of
/// parsing steps, one after the other, are the packets of the first followed
/// by those of the second.
pub proof fn lemma_packets_of_concat(
    first: Seq<Result<ContainerElement, ParseError>>,
    second: Seq<Result<ContainerElement, ParseError>>,
)
    ensures
        packets_of(first + second) == packets_of(first) + packets_of(second),
    decreases second.len(),
{
    if second.len() == 0 {
        assert(first + second =~= first);
        assert(packets_of(first) + packets_of(second) =~= packets_of(first));
    } else {
        lemma_packets_of_concat(first, second.drop_last());
        assert((first + second).drop_last() =~= first + second.drop_last());
        assert((first + second).last() == second.last());
        match packet_of_item(second.last()) {
            Some(packet) => {
                assert((packets_of(first) + packets_of(second.drop_last())).push(packet)
                    =~= packets_of(first) + packets_of(second.drop_last()).push(packet));
            },
            None => {},
        }
    }
}

/// Parsing survives a malformed element: the packets around it come out as
/// if it had not been there.
pub proof fn lemma_malformed_element_is_skipped(
    before: Seq<Result<ContainerElement, ParseError>>,
    after: Seq<Result<ContainerElement, ParseError>>,
)
    ensures
        packets_of(before + seq![Err(ParseError)] + after) == packets_of(before) + packets_of(
            after,
        ),
{
    let bad: Seq<Result<ContainerElement, ParseError>> = seq![Err(ParseError)];
    lemma_packets_of_concat(before + bad, after);
    lemma_packets_of_concat(before, bad);
    assert(bad.drop_last() =~= Seq::empty());
    assert(packets_of(bad.drop_last()) =~= Seq::empty());
    assert(packets_of(bad) =~= Seq::empty());
    assert(packets_of(before) + packets_of(bad) =~= packets_of(before));
}

/// Takes the coded picture out of a block.
pub fn extract_payload(data: &[u8]) -> (payload: Option<Vec<u8>>)
    ensures
        bytes_of(payload) == payload_of(data@),
{
    let header_len: usize = get_simple_block_header_len(data);
    if data.len() <= header_len {
        return None;
    }
    Some(slice_to_vec(slice_subrange(data, header_len, data.len())))
}

/// Takes the packet out of an element, if it is block-like and carries one.
pub fn extract_packet(element: &ContainerElement) -> (packet: Option<Vec<u8>>)
    ensures
        bytes_of(packet) == packet_of(*element),
{
    match element {
        ContainerElement::SimpleBlock(data) => extract_payload(data.as_slice()),
        ContainerElement::Block(data) => extract_payload(data.as_slice()),
        ContainerElement::Other => None,
    }
}

/// Extracts the packets of a run of parsing steps, in order. Malformed
/// elements, elements that are not block-like and blocks without a payload
/// are passed over.
pub fn collect_packets(items: &Vec<Result<ContainerElement, ParseError>>) -> (packets: Vec<
    Vec<u8>,
>)
    ensures
        packets_match(packets@, packets_of(items@)),
{
    let mut packets: Vec<Vec<u8>> = Vec::new();
    let mut i: usize = 0;
    while i < items.len()
        invariant
            i <= items@.len(),
            packets_match(packets@, packets_of(items@.take(i as int))),
        decreases items@.len() - i,
    {
        assert(items@.take(i + 1).drop_last() =~= items@.take(i as int));
        assert(items@.take(i + 1).last() == items@[i as int]);
        match &items[i] {
            Ok(element) => {
                match extract_packet(element) {
                    Some(packet) => {
                        packets.push(packet);
                    },
                    None => {},
                }
            },
            Err(_) => {},
        }
        i += 1;
    }
    assert(items@.take(i as int) =~= items@);
    packets
}

} // verus!
