//! USB descriptor requests and the checks applied to the descriptors that
//! come back.
use vstd::prelude::*;

use crate::transfer::{Control, ControlType, Recipient};

verus! {

/// `bDescriptorType` of a configuration descriptor.
pub const DESCRIPTOR_TYPE_CONFIGURATION: u8 = 0x02u8;

/// `bDescriptorType` of a string descriptor.
pub const DESCRIPTOR_TYPE_STRING: u8 = 0x03u8;

/// Length of the fixed part of a configuration descriptor.
pub const DESCRIPTOR_LEN_CONFIGURATION: u8 = 9u8;

/// `bRequest` of the standard GET_DESCRIPTOR request.
pub const REQUEST_GET_DESCRIPTOR: u8 = 0x06u8;

/// Number of bytes asked for by each descriptor request.
pub const DESCRIPTOR_REQUEST_LENGTH: u16 = 255u16;

/// `wTotalLength` of a configuration descriptor: bytes 2 and 3, little endian.
pub open spec fn config_total_length(buf: Seq<u8>) -> int
    recommends
        buf.len() >= 4,
{
    buf[2] + 256 * buf[3]
}

/// The descriptors that follow a configuration header, starting at `pos`,
/// each at least two bytes long and each starting inside `buf`, end exactly
/// at `total`.
pub open spec fn descriptor_chain_ends_at(buf: Seq<u8>, pos: int, total: int) -> bool
    decreases (if pos < total { total - pos } else { 0 }),
{
    if pos >= total {
        pos == total
    } else if pos < 0 || buf.len() < pos + 2 {
        false
    } else if buf[pos] < 2 {
        false
    } else {
        descriptor_chain_ends_at(buf, pos + buf[pos], total)
    }
}

/// `buf` starts with a well-formed configuration descriptor: a header of at
/// least nine bytes with the configuration type, a total length that covers
/// the header and fits in `buf`, and a chain of descriptors that fills the
/// total length exactly.
pub open spec fn config_descriptor_valid(buf: Seq<u8>) -> bool {
    &&& buf.len() >= DESCRIPTOR_LEN_CONFIGURATION
    &&& buf[0] >= DESCRIPTOR_LEN_CONFIGURATION
    &&& buf[1] == DESCRIPTOR_TYPE_CONFIGURATION
    &&& buf[0] <= config_total_length(buf) <= buf.len()
    &&& descriptor_chain_ends_at(buf, buf[0] as int, config_total_length(buf))
}

/// The walk over the descriptors of a configuration: it ends well exactly at
/// the total length; it fails past it, at a descriptor shorter than two
/// bytes, or at one whose first two bytes were not received; otherwise it
/// goes on at the next descriptor, `bLength` bytes further.
pub proof fn descriptor_chain_steps(buf: Seq<u8>, pos: int, total: int)
    ensures
        descriptor_chain_ends_at(buf, total, total),
        pos > total ==> !descriptor_chain_ends_at(buf, pos, total),
        0 <= pos < total && (buf.len() < pos + 2 || buf[pos] < 2) ==> !descriptor_chain_ends_at(
            buf,
            pos,
            total,
        ),
        0 <= pos < total && pos + 2 <= buf.len() && buf[pos] >= 2 ==> descriptor_chain_ends_at(
            buf,
            pos,
            total,
        ) == descriptor_chain_ends_at(buf, pos + buf[pos], total),
{
}

/// A well-formed configuration descriptor has a header of at least nine
/// bytes of the configuration type, and a total length that covers the header
/// and never exceeds the bytes received.
pub proof fn valid_config_descriptor_fits(buf: Seq<u8>)
    ensures
        config_descriptor_valid(buf) ==> {
            &&& buf.len() >= 9
            &&& buf[0] >= 9
            &&& buf[1] == 2
            &&& buf[0] <= buf[2] + 256 * buf[3] <= buf.len()
        },
        buf.len() >= 4 && buf[2] + 256 * buf[3] > buf.len() ==> !config_descriptor_valid(buf),
        buf.len() < 9 ==> !config_descriptor_valid(buf),
{
}

/// Checks that `buf` starts with a well-formed configuration descriptor and
/// returns its total length.
pub fn validate_config_descriptor(buf: &[u8]) -> (r: Option<usize>)
    ensures
        r == (if config_descriptor_valid(buf@) {
            Some(config_total_length(buf@) as usize)
        } else {
            None
        }),
        r matches Some(n) ==> 9 <= buf[0] <= n <= buf@.len() && buf[1] == 2 && n == buf[2] + 256
            * buf[3],
        buf@.len() < 9 ==> r is None,
        buf@.len() >= 4 && buf[2] + 256 * buf[3] > buf@.len() ==> r is None,
{
    proof {
        valid_config_descriptor_fits(buf@);
    }
    if buf.len() < DESCRIPTOR_LEN_CONFIGURATION as usize {
        return None;
    }
    if buf[0] < DESCRIPTOR_LEN_CONFIGURATION {
        return None;
    }
    if buf[1] != DESCRIPTOR_TYPE_CONFIGURATION {
        return None;
    }
    let total_len: usize = buf[2] as usize + 256 * (buf[3] as usize);
    if total_len < buf[0] as usize || total_len > buf.len() {
        return None;
    }
    let mut pos: usize = buf[0] as usize;
    while pos < total_len
        invariant
            buf@.len() >= DESCRIPTOR_LEN_CONFIGURATION,
            total_len == config_total_length(buf@),
            buf[0] <= total_len <= buf@.len(),
            pos <= total_len,
            descriptor_chain_ends_at(buf@, pos as int, total_len as int)
                == descriptor_chain_ends_at(buf@, buf[0] as int, total_len as int),
        decreases total_len - pos,
    {
        if buf.len() - pos < 2 {
            return None;
        }
        let desc_len: usize = buf[pos] as usize;
        if desc_len < 2 {
            return None;
        }
        if desc_len > total_len - pos {
            assert(!descriptor_chain_ends_at(buf@, pos + desc_len, total_len as int));
            return None;
        }
        pos = pos + desc_len;
    }
    Some(pos)
}

/// `wValue` of a GET_DESCRIPTOR request: the descriptor type in the high byte,
/// or-ed with the descriptor index.
pub open spec fn descriptor_request_value(descriptor_type: u8, index: u16) -> u16 {
    ((descriptor_type as u16) << 8u16) | index
}

/// A control IN request for a descriptor, with the number of bytes asked for.
#[derive(Debug, Clone, Copy, PartialEq, Eq, Structural)]
pub struct DescriptorRequest {
    /// The SETUP packet.
    pub control: Control,
    /// Number of bytes to read.
    pub length: u16,
}

/// The standard GET_DESCRIPTOR request, addressed to the device with
/// `wIndex` 0, for the descriptor of the given type and index, reading up to
/// 255 bytes.
pub open spec fn spec_descriptor_request(descriptor_type: u8, index: u16) -> DescriptorRequest {
    DescriptorRequest {
        control: Control {
            control_type: ControlType::Standard,
            recipient: Recipient::Device,
            request: REQUEST_GET_DESCRIPTOR,
            value: descriptor_request_value(descriptor_type, index),
            index: 0,
        },
        length: DESCRIPTOR_REQUEST_LENGTH,
    }
}

/// Builds the GET_DESCRIPTOR request for the descriptor of the given type and
/// index.
pub fn descriptor_request(descriptor_type: u8, index: u16) -> (r: DescriptorRequest)
    ensures
        r == spec_descriptor_request(descriptor_type, index),
        r.control.control_type == ControlType::Standard,
        r.control.recipient == Recipient::Device,
        r.control.request == 6,
        r.control.index == 0,
        r.length == 255,
        index < 256 ==> r.control.value == descriptor_type * 256 + index,
{
    proof {
        descriptor_requests_are_standard_to_device(descriptor_type, index);
        if index < 256 {
            descriptor_request_value_splits(descriptor_type, index);
        }
    }
    DescriptorRequest {
        control: Control {
            control_type: ControlType::Standard,
            recipient: Recipient::Device,
            request: REQUEST_GET_DESCRIPTOR,
            value: ((descriptor_type as u16) << 8u16) | index,
            index: 0,
        },
        length: DESCRIPTOR_REQUEST_LENGTH,
    }
}

/// Every descriptor request, whatever the descriptor type and index, is the
/// standard GET_DESCRIPTOR request (bRequest 6) addressed to the device, with
/// wIndex 0, reading 255 bytes; requests differ only in wValue.
pub proof fn descriptor_requests_are_standard_to_device(descriptor_type: u8, index: u16)
    ensures
        spec_descriptor_request(descriptor_type, index).control.control_type
            == ControlType::Standard,
        spec_descriptor_request(descriptor_type, index).control.recipient == Recipient::Device,
        spec_descriptor_request(descriptor_type, index).control.request == 6,
        spec_descriptor_request(descriptor_type, index).control.index == 0,
        spec_descriptor_request(descriptor_type, index).length == 255,
        forall|t: u8, i: u16|
            #![trigger spec_descriptor_request(t, i)]
            spec_descriptor_request(t, i).control.recipient == spec_descriptor_request(
                descriptor_type,
                index,
            ).control.recipient && spec_descriptor_request(t, i).control.control_type
                == spec_descriptor_request(descriptor_type, index).control.control_type
                && spec_descriptor_request(t, i).control.request == spec_descriptor_request(
                descriptor_type,
                index,
            ).control.request && spec_descriptor_request(t, i).control.index
                == spec_descriptor_request(descriptor_type, index).control.index
                && spec_descriptor_request(t, i).length == spec_descriptor_request(
                descriptor_type,
                index,
            ).length,
{
}

/// For an index below 256, the request value holds the descriptor type in its
/// high byte and the index in its low byte.
pub proof fn descriptor_request_value_splits(descriptor_type: u8, index: u16)
    requires
        index < 256,
    ensures
        descriptor_request_value(descriptor_type, index) == descriptor_type * 256 + index,
        descriptor_request_value(descriptor_type, index) / 256 == descriptor_type,
        descriptor_request_value(descriptor_type, index) % 256 == index,
{
    assert((((descriptor_type as u16) << 8u16) | index) == (descriptor_type as u16) * 256 + index
        && (((descriptor_type as u16) << 8u16) | index) / 256 == descriptor_type
        && (((descriptor_type as u16) << 8u16) | index) % 256 == index) by (bit_vector)
        requires
            index < 256,
    ;
}

/// Reads the configuration descriptors of a device, one request per
/// configuration, in order of configuration index.
pub struct ConfigDescriptorReader {
    num_configurations: usize,
    descriptors: Vec<Vec<u8>>,
}

/// What a [`ConfigDescriptorReader`] holds: the number of configurations
/// and the descriptors read so far.
pub struct ConfigDescriptorReaderView {
    pub num_configurations: nat,
    pub descriptors: Seq<Seq<u8>>,
}

impl View for ConfigDescriptorReader {
    type V = ConfigDescriptorReaderView;

    closed spec fn view(&self) -> ConfigDescriptorReaderView {
        ConfigDescriptorReaderView {
            num_configurations: self.num_configurations as nat,
            descriptors: self.descriptors@.map_values(|d: Vec<u8>| d@),
        }
    }
}

impl ConfigDescriptorReader {
    /// A reader for a device with `num_configurations` configurations, with
    /// nothing read yet.
    pub fn new(num_configurations: usize) -> (r: Self)
        ensures
            r@.num_configurations == num_configurations,
            r@.descriptors == Seq::<Seq<u8>>::empty(),
    {
        let r = ConfigDescriptorReader { num_configurations, descriptors: Vec::new() };
        assert(r@.descriptors =~= Seq::<Seq<u8>>::empty());
        r
    }

    /// The request for the next configuration descriptor, or `None` once a
    /// descriptor has been read for every configuration.
    pub fn next_request(&self) -> (r: Option<DescriptorRequest>)
        ensures
            r == (if self@.descriptors.len() < self@.num_configurations {
                Some(
                    spec_descriptor_request(
                        DESCRIPTOR_TYPE_CONFIGURATION,
                        self@.descriptors.len() as u16,
                    ),
                )
            } else {
                None
            }),
    {
        let read = self.descriptors.len();
        if read < self.num_configurations {
            Some(descriptor_request(DESCRIPTOR_TYPE_CONFIGURATION, read as u16))
        } else {
            None
        }
    }

    /// Records the answer to the pending request. The answer holds at most the
    /// 255 bytes asked for and starts with a well-formed configuration
    /// descriptor; all of it is kept.
    pub fn accept(&mut self, received: &[u8])
        requires
            old(self)@.descriptors.len() < old(self)@.num_configurations,
            received@.len() <= DESCRIPTOR_REQUEST_LENGTH,
            config_descriptor_valid(received@),
        ensures
            final(self)@.num_configurations == old(self)@.num_configurations,
            final(self)@.descriptors == old(self)@.descriptors.push(received@),
    {
        let copy = vstd::slice::slice_to_vec(received);
        let ghost before = self.descriptors@;
        self.descriptors.push(copy);
        assert(self.descriptors@.map_values(|d: Vec<u8>| d@) =~= before.map_values(
            |d: Vec<u8>| d@,
        ).push(received@));
    }

    /// The descriptors read so far, in order of configuration index.
    pub fn into_descriptors(self) -> (r: Vec<Vec<u8>>)
        ensures
            r@.map_values(|d: Vec<u8>| d@) == self@.descriptors,
    {
        self.descriptors
    }
}

/// Byte `k` of the 255-byte buffer into which an answer is copied: the byte
/// received there, or zero past the end of the answer.
pub open spec fn padded_byte(received: Seq<u8>, k: int) -> u8 {
    if 0 <= k < received.len() {
        received[k]
    } else {
        0
    }
}

/// The answer to a string descriptor request can be decoded: it holds at most
/// the 255 bytes asked for and its `bLength` is at least two and even.
pub open spec fn string_descriptor_decodable(received: Seq<u8>) -> bool {
    &&& 1 <= received.len() <= DESCRIPTOR_REQUEST_LENGTH
    &&& received[0] >= 2
    &&& received[0] % 2 == 0
}

/// The UTF-16 code units of a string descriptor: the bytes from offset 2 up to
/// `bLength`, taken in little-endian pairs.
pub open spec fn string_descriptor_units(received: Seq<u8>) -> Seq<u16> {
    Seq::new(
        ((received[0] - 2) / 2) as nat,
        |i: int|
            (padded_byte(received, 2 + 2 * i) + 256 * padded_byte(received, 3 + 2 * i)) as u16,
    )
}

/// A string descriptor has one code unit per pair of bytes from offset 2 up
/// to `bLength`; each unit is the little-endian pair of received bytes, and
/// only bytes past the end of the answer read as zero.
pub proof fn string_descriptor_units_are_received_bytes(received: Seq<u8>)
    requires
        string_descriptor_decodable(received),
    ensures
        string_descriptor_units(received).len() == (received[0] - 2) / 2,
        forall|j: int|
            0 <= j < string_descriptor_units(received).len() && 3 + 2 * j < received.len()
                ==> #[trigger] string_descriptor_units(received)[j] == received[2 + 2 * j] + 256
                * received[3 + 2 * j],
        forall|j: int|
            0 <= j < string_descriptor_units(received).len() && 2 + 2 * j < received.len() <= 3
                + 2 * j ==> #[trigger] string_descriptor_units(received)[j] == received[2 + 2 * j],
        forall|j: int|
            0 <= j < string_descriptor_units(received).len() && received.len() <= 2 + 2 * j
                ==> #[trigger] string_descriptor_units(received)[j] == 0,
{
}

/// Builds the GET_DESCRIPTOR request for string descriptor `id`.
pub fn string_descriptor_request(id: u16) -> (r: DescriptorRequest)
    ensures
        r == spec_descriptor_request(DESCRIPTOR_TYPE_STRING, id),
        r.control.control_type == ControlType::Standard,
        r.control.recipient == Recipient::Device,
        r.control.request == 6,
        r.control.index == 0,
        r.length == 255,
        id < 256 ==> r.control.value == 0x0300 + id,
{
    descriptor_request(DESCRIPTOR_TYPE_STRING, id)
}

/// Decodes the UTF-16 code units of a string descriptor from the answer to a
/// string descriptor request.
pub fn decode_string_descriptor(received: &[u8]) -> (r: Vec<u16>)
    requires
        string_descriptor_decodable(received@),
    ensures
        r@ == string_descriptor_units(received@),
        r@.len() == (received[0] - 2) / 2,
        forall|j: int|
            0 <= j < r@.len() && 3 + 2 * j < received@.len() ==> #[trigger] r@[j] == received[2
                + 2 * j] + 256 * received[3 + 2 * j],
        forall|j: int|
            0 <= j < r@.len() && 2 + 2 * j < received@.len() <= 3 + 2 * j ==> #[trigger] r@[j]
                == received[2 + 2 * j],
        forall|j: int| 0 <= j < r@.len() && received@.len() <= 2 + 2 * j ==> #[trigger] r@[j] == 0,
{
    proof {
        string_descriptor_units_are_received_bytes(received@);
    }
    let mut buf: Vec<u8> = Vec::new();
    let mut i: usize = 0;
    while i < 255
        invariant
            i <= 255,
            buf@.len() == i,
            forall|k: int| 0 <= k < i ==> buf@[k] == padded_byte(received@, k),
        decreases 255 - i,
    {
        if i < received.len() {
            buf.push(received[i]);
        } else {
            buf.push(0u8);
        }
        i = i + 1;
    }
    let end: usize = buf[0] as usize;
    let ghost units_spec = string_descriptor_units(received@);
    let mut units: Vec<u16> = Vec::new();
    let mut k: usize = 2;
    while k < end
        invariant
            buf@.len() == 255,
            forall|j: int| 0 <= j < 255 ==> buf@[j] == padded_byte(received@, j),
            end == received@[0],
            2 <= end <= 255,
            end % 2 == 0,
            k % 2 == 0,
            2 <= k <= end,
            k == 2 + 2 * units@.len(),
            units_spec == string_descriptor_units(received@),
            units_spec.len() == (end - 2) / 2,
            forall|j: int| 0 <= j < units@.len() ==> units@[j] == units_spec[j],
        decreases end - k,
    {
        let lo: u8 = buf[k];
        let hi: u8 = buf[k + 1];
        let unit: u16 = ((hi as u16) << 8u16) | (lo as u16);
        assert(((hi as u16) << 8u16) | (lo as u16) == (lo as u16) + 256 * (hi as u16))
            by (bit_vector);
        units.push(unit);
        k = k + 2;
    }
    assert(units@ =~= units_spec);
    units
}

/// A UTF-16 code unit that is a surrogate (0xD800 to 0xDFFF).
pub open spec fn is_surrogate(unit: u16) -> bool {
    0xD800 <= unit <= 0xDFFF
}

/// The text that the UTF-16 code units encode, or `None` where they are not
/// valid UTF-16: a unit outside the surrogate range is a character by
/// itself; a high surrogate (0xD800 to 0xDBFF) followed by a low one (0xDC00
/// to 0xDFFF) is the character `0x10000 + (high - 0xD800) * 0x400 + (low -
/// 0xDC00)`; any other surrogate makes the whole sequence invalid.
pub open spec fn utf16_decode(units: Seq<u16>) -> Option<Seq<char>>
    decreases units.len(),
{
    if units.len() == 0 {
        Some(Seq::empty())
    } else if !is_surrogate(units[0]) {
        match utf16_decode(units.drop_first()) {
            Some(rest) => Some(seq![units[0] as char] + rest),
            None => None,
        }
    } else if units[0] <= 0xDBFF && units.len() >= 2 && 0xDC00 <= units[1] <= 0xDFFF {
        let c: int = 0x10000 + (units[0] - 0xD800) * 0x400 + (units[1] - 0xDC00);
        match utf16_decode(units.subrange(2, units.len() as int)) {
            Some(rest) => Some(seq![c as char] + rest),
            None => None,
        }
    } else {
        None
    }
}

/// Calls `String::from_utf16`, which decodes UTF-16 and fails on invalid
/// data: the text is `utf16_decode` of the code units, `None` standing for
/// the decoding error.
#[verifier::external_body]
fn string_from_utf16(units: &[u16]) -> (r: Option<String>)
    ensures
        utf16_decode(units@) == (match r {
            Some(s) => Some(s@),
            None => None,
        }),
{
    String::from_utf16(units).ok()
}

/// Decodes the text of a string descriptor, or `None` where its code units
/// are not valid UTF-16.
pub fn string_from_descriptor(received: &[u8]) -> (r: Option<String>)
    requires
        string_descriptor_decodable(received@),
    ensures
        utf16_decode(string_descriptor_units(received@)) == (match r {
            Some(s) => Some(s@),
            None => None,
        }),
{
    let units = decode_string_descriptor(received);
    string_from_utf16(units.as_slice())
}

} // verus!
