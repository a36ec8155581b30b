//! USB Test & Measurement Class (USBTMC) framing.
//!
//! The bulk-out request messages, the bulk-in request message, the parsing of
//! the bulk-in header and the reassembly of a device answer are computed here.
//! Transfers on the bus are made by the caller.
use crate::Error;
use byteorder::{ByteOrder, LittleEndian};
use vstd::prelude::*;

verus! {

/// Little-endian encoding of a 32-bit integer.
pub open spec fn le_bytes_u32(n: u32) -> Seq<u8> {
    seq![
        (n % 256) as u8,
        ((n / 256) % 256) as u8,
        ((n / 65536) % 256) as u8,
        ((n / 16777216) % 256) as u8,
    ]
}

/// Value of four little-endian bytes.
pub open spec fn le_value_u32(b: Seq<u8>) -> int {
    b[0] + b[1] * 256 + b[2] * 65536 + b[3] * 16777216
}

/// Header shared by every USBTMC bulk message (12 bytes).
pub open spec fn tmc_header(msg_id: u8, b_tag: u8, transfer_size: u32, attributes: u8) -> Seq<
    u8,
> {
    seq![msg_id, b_tag, !b_tag, 0u8] + le_bytes_u32(transfer_size) + seq![
        attributes,
        0u8,
        0u8,
        0u8,
    ]
}

/// Number of zero bytes appended after a complete message of `len` bytes.
/// The message is always padded, by 4 bytes when it is already aligned.
pub open spec fn eom_padding(len: nat) -> nat {
    (4 - (len % 4)) as nat
}

/// A sequence of `n` zero bytes.
pub open spec fn zeros(n: nat) -> Seq<u8> {
    Seq::new(n, |i: int| 0u8)
}

/// Whether a buffer of `buffer_len` bytes can hold the first bulk-out
/// message for `data_len` bytes of payload without writing out of bounds.
pub open spec fn first_message_fits(buffer_len: nat, data_len: nat) -> bool {
    &&& buffer_len >= 12
    &&& buffer_len >= data_len + 12 ==> buffer_len >= data_len + 12 + eom_padding(
        data_len + 12,
    )
}

/// Size and content of the first bulk-out message, written over `old_buffer`.
pub open spec fn first_bulk_out_message(b_tag: u8, data: Seq<u8>, old_buffer: Seq<u8>) -> (
    nat,
    Seq<u8>,
) {
    let l = old_buffer.len();
    let d = data.len();
    if l >= d + 12 {
        let size = d + 12 + eom_padding(d + 12);
        (
            size,
            tmc_header(1, b_tag, d as u32, 1) + data + zeros(eom_padding(d + 12))
                + old_buffer.skip(size as int),
        )
    } else {
        (l, tmc_header(1, b_tag, d as u32, 0) + data.take(l - 12))
    }
}

/// Transfer size requested by every bulk-in request message.
pub open spec fn bulk_in_request_size() -> u32 {
    51200
}

/// Writes `n` in little-endian order into `buf[at..at + 4]`
/// (`byteorder::LittleEndian::write_u32`, which stores the four bytes of
/// `n.to_le_bytes()`).
#[verifier::external_body]
fn le_write_u32(buf: &mut Vec<u8>, at: usize, n: u32)
    requires
        at + 4 <= old(buf)@.len(),
    ensures
        final(buf)@ == old(buf)@.take(at as int) + le_bytes_u32(n) + old(buf)@.skip(at + 4),
{
    LittleEndian::write_u32(&mut buf[at..at + 4], n)
}

/// Reads the little-endian integer stored in `buf[at..at + 4]`
/// (`byteorder::LittleEndian::read_u32`, which is `u32::from_le_bytes`).
#[verifier::external_body]
fn le_read_u32(buf: &[u8], at: usize) -> (r: u32)
    requires
        at + 4 <= buf@.len(),
    ensures
        r == le_value_u32(buf@.subrange(at as int, at + 4)),
{
    LittleEndian::read_u32(&buf[at..at + 4])
}

/// Writes the 12 header bytes at the start of `buf`.
fn write_header(buf: &mut Vec<u8>, msg_id: u8, b_tag: u8, transfer_size: u32, attributes: u8)
    requires
        old(buf)@.len() >= 12,
    ensures
        final(buf)@ == tmc_header(msg_id, b_tag, transfer_size, attributes) + old(buf)@.skip(12),
{
    let ghost old_buf = buf@;
    buf[0] = msg_id;
    buf[1] = b_tag;
    let inv: u8 = !b_tag & 0xFF;
    assert(inv == !b_tag) by (bit_vector)
        requires
            inv == !b_tag & 0xFF,
    ;
    buf[2] = inv;
    buf[3] = 0x00;
    le_write_u32(buf, 4, transfer_size);
    buf[8] = attributes;
    buf[9] = 0x00;
    buf[10] = 0x00;
    buf[11] = 0x00;
    assert(buf@ =~= tmc_header(msg_id, b_tag, transfer_size, attributes) + old_buf.skip(12));
}

/// Copies `data` into `buf` starting at `at`.
fn copy_into(buf: &mut Vec<u8>, at: usize, data: &[u8])
    requires
        at + data@.len() <= old(buf)@.len(),
    ensures
        final(buf)@ == old(buf)@.take(at as int) + data@ + old(buf)@.skip(at + data@.len()),
{
    let ghost old_buf = buf@;
    let n = data.len();
    let len = buf.len();
    let mut i: usize = 0;
    while i < n
        invariant
            n == data@.len(),
            len == old_buf.len(),
            at + n <= old_buf.len(),
            i <= n,
            buf@.len() == old_buf.len(),
            forall|j: int| 0 <= j < at ==> buf@[j] == old_buf[j],
            forall|j: int| 0 <= j < i ==> buf@[at + j] == data@[j],
            forall|j: int| at + i <= j < old_buf.len() ==> buf@[j] == old_buf[j],
        decreases n - i,
    {
        buf[at + i] = data[i];
        i = i + 1;
    }
    assert(buf@ =~= old_buf.take(at as int) + data@ + old_buf.skip(at + data@.len()));
}

/// Writes `count` zero bytes into `buf` starting at `at`.
fn zero_fill(buf: &mut Vec<u8>, at: usize, count: usize)
    requires
        at + count <= old(buf)@.len(),
    ensures
        final(buf)@ == old(buf)@.take(at as int) + zeros(count as nat) + old(buf)@.skip(at + count),
{
    let ghost old_buf = buf@;
    let len = buf.len();
    let mut i: usize = 0;
    while i < count
        invariant
            len == old_buf.len(),
            at + count <= old_buf.len(),
            i <= count,
            buf@.len() == old_buf.len(),
            forall|j: int| 0 <= j < at ==> buf@[j] == old_buf[j],
            forall|j: int| at <= j < at + i ==> buf@[j] == 0u8,
            forall|j: int| at + i <= j < old_buf.len() ==> buf@[j] == old_buf[j],
        decreases count - i,
    {
        buf[at + i] = 0;
        i = i + 1;
    }
    assert(buf@ =~= old_buf.take(at as int) + zeros(count as nat) + old_buf.skip(at + count));
}

/// Prepares the first bulk-out message (DEV_DEP_MSG_OUT) of a request.
///
/// When the buffer is large enough the whole payload is sent with the EOM
/// attribute and the message is padded to 32 bits; otherwise the payload is
/// cut at the end of the buffer and the EOM attribute is not set.
pub fn prepare_first_bulk_out_request_message(
    out_buffer: &mut (usize, Vec<u8>),
    b_tag: u8,
    data: &[u8],
)
    requires
        data@.len() + 16 <= usize::MAX,
        first_message_fits(old(out_buffer).1@.len(), data@.len()),
    ensures
        (final(out_buffer).0 as nat, final(out_buffer).1@) == first_bulk_out_message(
            b_tag,
            data@,
            old(out_buffer).1@,
        ),
{
    let ghost old_buf = out_buffer.1@;
    let buffer_len = out_buffer.1.len();
    let mut attributes: u8 = 0x00;
    if buffer_len >= data.len() + 12 {
        attributes = 0x01;
        copy_into(&mut out_buffer.1, 12, data);
        let size = 12 + data.len();
        let need_padding = 4 - (size % 4);
        zero_fill(&mut out_buffer.1, size, need_padding);
        out_buffer.0 = size + need_padding;
    } else {
        let last_index = buffer_len - 12;
        copy_into(&mut out_buffer.1, 12, vstd::slice::slice_subrange(data, 0, last_index));
        out_buffer.0 = buffer_len;
    }
    let transfer_size: u32 = data.len() as u32;
    write_header(&mut out_buffer.1, 1, b_tag, transfer_size, attributes);
    proof {
        let d = data@.len();
        let l = old_buf.len();
        if l >= d + 12 {
            let pad = eom_padding(d + 12);
            assert(out_buffer.1@ =~= tmc_header(1, b_tag, d as u32, 1) + data@ + zeros(pad)
                + old_buf.skip((d + 12 + pad) as int));
        } else {
            assert(out_buffer.1@ =~= tmc_header(1, b_tag, d as u32, 0) + data@.take(l - 12));
        }
    }
}

/// Prepares the bulk-in request message (REQUEST_DEV_DEP_MSG_IN).
pub fn prepare_bulk_in_request_message(out_buffer: &mut (usize, Vec<u8>), b_tag: u8)
    requires
        old(out_buffer).1@.len() >= 12,
    ensures
        final(out_buffer).0 == 12,
        final(out_buffer).1@ == tmc_header(2, b_tag, bulk_in_request_size(), 0) + old(
            out_buffer,
        ).1@.skip(12),
{
    let transfer_size: u32 = 1024 * 50;
    write_header(&mut out_buffer.1, 2, b_tag, transfer_size, 0x00);
    out_buffer.0 = 12;
}

/// Reads the transfer size announced by the header of the first bulk-in packet.
pub fn parse_bulk_in_header(data: &Vec<u8>) -> (r: Result<usize, Error>)
    requires
        data@.len() >= 8,
    ensures
        r == Ok::<usize, Error>(le_value_u32(data@.subrange(4, 8)) as usize),
{
    let transfer_size = le_read_u32(data.as_slice(), 4) as usize;
    Ok(transfer_size)
}

/// Bookkeeping of the bulk-out messages of a USBTMC interface.
pub struct TmcFraming {
    /// Index of the next out request
    pub b_tag_index: u8,
    /// Prepared out messages: (size to send, buffer)
    pub out_buffers: Vec<(usize, Vec<u8>)>,
    /// Number of prepared out messages
    pub out_buffers_count: usize,
    /// Maximum packet size of the OUT endpoint, the size of each buffer
    pub max_packet_size_out: usize,
}

impl TmcFraming {
    /// There are three out buffers, each of the maximum packet size.
    pub open spec fn wf(&self) -> bool {
        &&& self.out_buffers@.len() == 3
        &&& forall|i: int|
            0 <= i < 3 ==> #[trigger] self.out_buffers@[i].1@.len() == self.max_packet_size_out
    }

    /// Framing state of a freshly opened interface: three zeroed buffers.
    pub fn new(max_packet_size_out: usize) -> (r: Self)
        ensures
            r.wf(),
            r.max_packet_size_out == max_packet_size_out,
            r.b_tag_index == 0,
            r.out_buffers_count == 0,
            forall|i: int|
                #![trigger r.out_buffers@[i]]
                0 <= i < 3 ==> r.out_buffers@[i].0 == 0usize && r.out_buffers@[i].1@ == zeros(
                    max_packet_size_out as nat,
                ),
    {
        let mut out_buffers: Vec<(usize, Vec<u8>)> = Vec::new();
        let mut k: usize = 0;
        while k < 3
            invariant
                k <= 3,
                out_buffers@.len() == k,
                forall|i: int|
                    #![trigger out_buffers@[i]]
                    0 <= i < k ==> out_buffers@[i].0 == 0usize && out_buffers@[i].1@ == zeros(
                        max_packet_size_out as nat,
                    ),
            decreases 3 - k,
        {
            let mut b: Vec<u8> = Vec::new();
            let mut j: usize = 0;
            while j < max_packet_size_out
                invariant
                    j <= max_packet_size_out,
                    b@ == zeros(j as nat),
                decreases max_packet_size_out - j,
            {
                b.push(0);
                j = j + 1;
                assert(b@ =~= zeros(j as nat));
            }
            out_buffers.push((0, b));
            k = k + 1;
        }
        let r = TmcFraming { b_tag_index: 0, out_buffers, out_buffers_count: 0, max_packet_size_out };
        assert forall|i: int| 0 <= i < 3 implies #[trigger] r.out_buffers@[i].1@.len()
            == r.max_packet_size_out by {
            assert(r.out_buffers@[i].1@ == zeros(max_packet_size_out as nat));
        }
        r
    }

    /// Increments the b_tag (1..=255, never 0) and returns the new value.
    pub fn next_b_tag(&mut self) -> (r: u8)
        ensures
            r == old(self).b_tag_index % 255 + 1,
            1 <= r <= 255,
            final(self).b_tag_index == r,
            final(self).out_buffers == old(self).out_buffers,
            final(self).out_buffers_count == old(self).out_buffers_count,
            final(self).max_packet_size_out == old(self).max_packet_size_out,
    {
        self.b_tag_index = (self.b_tag_index % 255) + 1;
        self.b_tag_index
    }

    /// Prepares the sequence of bulk-out messages of a request: the command
    /// message then the bulk-in request, both under a new b_tag.
    pub fn prepare_request_sequence(&mut self, data: &[u8])
        requires
            old(self).wf(),
            data@.len() + 16 <= usize::MAX,
            first_message_fits(old(self).max_packet_size_out as nat, data@.len()),
        ensures
            final(self).wf(),
            final(self).max_packet_size_out == old(self).max_packet_size_out,
            final(self).b_tag_index == old(self).b_tag_index % 255 + 1,
            final(self).out_buffers_count == 2,
            (final(self).out_buffers@[0].0 as nat, final(self).out_buffers@[0].1@)
                == first_bulk_out_message(
                final(self).b_tag_index,
                data@,
                old(self).out_buffers@[0].1@,
            ),
            final(self).out_buffers@[1].0 == 12,
            final(self).out_buffers@[1].1@ == tmc_header(
                2,
                final(self).b_tag_index,
                bulk_in_request_size(),
                0,
            ) + old(self).out_buffers@[1].1@.skip(12),
            final(self).out_buffers@[2] == old(self).out_buffers@[2],
    {
        let b_tag = self.next_b_tag();
        prepare_first_bulk_out_request_message(&mut self.out_buffers[0], b_tag, data);
        prepare_bulk_in_request_message(&mut self.out_buffers[1], b_tag);
        self.out_buffers_count = 2;
    }
}

/// Appends `data[from..to]` to `out`.
fn append_range(out: &mut Vec<u8>, data: &[u8], from: usize, to: usize)
    requires
        from <= to <= data@.len(),
    ensures
        final(out)@ == old(out)@ + data@.subrange(from as int, to as int),
{
    let ghost start = out@;
    let mut i = from;
    while i < to
        invariant
            from <= i <= to <= data@.len(),
            out@ == start + data@.subrange(from as int, i as int),
        decreases to - i,
    {
        out.push(data[i]);
        i = i + 1;
        assert(out@ =~= start + data@.subrange(from as int, i as int));
    }
}

/// What a bulk-in packet adds to the answer and the number of bytes still
/// expected after it, given the number expected before it.
///
/// The first packet starts with a 12-byte header that announces the size of
/// the answer; a packet that goes past the end of the answer is cut.
pub open spec fn bulk_in_packet_effect(is_first: bool, remaining: int, data: Seq<u8>) -> (
    Seq<u8>,
    int,
) {
    if is_first {
        let expected = le_value_u32(data.subrange(4, 8)) + 12;
        if expected >= data.len() {
            (data.skip(12), expected - data.len())
        } else {
            (data.subrange(12, expected), 0)
        }
    } else {
        if remaining >= data.len() {
            (data, remaining - data.len())
        } else {
            (data.take(remaining), 0)
        }
    }
}

/// Progress of the reception of one answer over successive bulk-in packets.
pub struct BulkInReassembly {
    /// No packet received yet
    pub is_first: bool,
    /// Number of bytes of the answer still expected
    pub remaining_data: u64,
    /// The whole answer has been received
    pub is_eom: bool,
    /// Payload size announced by the first packet
    pub announced: Ghost<nat>,
    /// Payload bytes appended to the answer so far
    pub delivered: Ghost<nat>,
}

impl BulkInReassembly {
    /// Payload size announced by the first packet.
    pub open spec fn announced(&self) -> nat {
        self.announced@
    }

    /// Payload bytes appended to the answer so far.
    pub open spec fn delivered(&self) -> nat {
        self.delivered@
    }

    /// Consistency of the counters.
    pub open spec fn wf(&self) -> bool {
        &&& self.is_eom == (!self.is_first && self.remaining_data == 0)
        &&& !self.is_first ==> self.delivered() + self.remaining_data == self.announced()
        &&& self.is_first ==> self.delivered() == 0 && self.remaining_data == 0
    }

    /// State before the first packet.
    pub fn new() -> (r: Self)
        ensures
            r.wf(),
            r.is_first,
            !r.is_eom,
            r.remaining_data == 0,
            r.delivered() == 0,
    {
        BulkInReassembly {
            is_first: true,
            remaining_data: 0,
            is_eom: false,
            announced: Ghost(0),
            delivered: Ghost(0),
        }
    }

    /// Takes one received bulk-in packet into account: appends its share of
    /// the answer to `response` and updates the count of expected bytes.
    pub fn absorb_packet(&mut self, data: &[u8], response: &mut Vec<u8>)
        requires
            old(self).wf(),
            !old(self).is_eom,
            old(self).is_first ==> data@.len() >= 12,
        ensures
            final(self).wf(),
            !final(self).is_first,
            final(response)@ == old(response)@ + bulk_in_packet_effect(
                old(self).is_first,
                old(self).remaining_data as int,
                data@,
            ).0,
            final(self).remaining_data as int == bulk_in_packet_effect(
                old(self).is_first,
                old(self).remaining_data as int,
                data@,
            ).1,
            final(self).is_eom == (final(self).remaining_data == 0),
            old(self).is_first ==> final(self).announced() == le_value_u32(
                data@.subrange(4, 8),
            ),
            !old(self).is_first ==> final(self).announced() == old(self).announced(),
            final(self).delivered() == old(self).delivered() + bulk_in_packet_effect(
                old(self).is_first,
                old(self).remaining_data as int,
                data@,
            ).0.len(),
    {
        let len = data.len();
        if self.is_first {
            let transfer_size = le_read_u32(data, 4);
            let expected: u64 = transfer_size as u64 + 12;
            self.is_first = false;
            self.announced = Ghost(transfer_size as nat);
            if expected >= len as u64 {
                self.remaining_data = expected - len as u64;
                append_range(response, data, 12, len);
                self.delivered = Ghost((len - 12) as nat);
            } else {
                append_range(response, data, 12, expected as usize);
                self.remaining_data = 0;
                self.delivered = Ghost((expected - 12) as nat);
            }
        } else {
            if self.remaining_data >= len as u64 {
                self.remaining_data = self.remaining_data - len as u64;
                append_range(response, data, 0, len);
                self.delivered = Ghost(self.delivered@ + len as nat);
            } else {
                let cut = self.remaining_data as usize;
                append_range(response, data, 0, cut);
                self.delivered = Ghost(self.delivered@ + cut as nat);
                self.remaining_data = 0;
            }
        }
        self.is_eom = self.remaining_data == 0;
        proof {
            assert(data@.skip(12) =~= data@.subrange(12, len as int));
            assert(data@ =~= data@.subrange(0, len as int));
            assert(data@.take(self.remaining_data as int) =~= data@.subrange(0, self.remaining_data as int));
        }
    }
}

/// A complete answer carries exactly the payload size announced by its
/// first packet.
pub proof fn lemma_complete_answer_has_announced_size(r: &BulkInReassembly)
    requires
        r.wf(),
        r.is_eom,
    ensures
        r.delivered() == r.announced(),
{
}

/// The first bulk-in packet starts with the 12-byte header: what it adds to
/// the answer are the bytes that follow the header, in order, as many as
/// announced when the packet holds more, never a byte of the header; the
/// bytes still expected are those announced and not yet delivered.
pub proof fn lemma_first_packet_delivers_payload(remaining: int, data: Seq<u8>)
    requires
        data.len() >= 12,
    ensures
        ({
            let announced = le_value_u32(data.subrange(4, 8));
            let got = bulk_in_packet_effect(true, remaining, data);
            &&& got.0.len() == if announced <= data.len() - 12 {
                announced
            } else {
                data.len() - 12
            }
            &&& forall|i: int| 0 <= i < got.0.len() ==> got.0[i] == data[12 + i]
            &&& got.1 == announced - got.0.len()
            &&& got.1 >= 0
        }),
{
}

/// A later bulk-in packet adds its first bytes to the answer, as many as are
/// still expected when it holds more; the bytes still expected go down by
/// as many.
pub proof fn lemma_next_packet_delivers_expected(remaining: int, data: Seq<u8>)
    requires
        remaining >= 0,
    ensures
        ({
            let got = bulk_in_packet_effect(false, remaining, data);
            &&& got.0.len() == if remaining <= data.len() {
                remaining
            } else {
                data.len() as int
            }
            &&& forall|i: int| 0 <= i < got.0.len() ==> got.0[i] == data[i]
            &&& got.1 == remaining - got.0.len()
            &&& got.1 >= 0
        }),
{
}

/// Direction of a USB endpoint.
#[derive(Debug, Clone, Copy, PartialEq, Eq, Structural)]
pub enum EndpointDirection {
    In,
    Out,
}

/// Transfer type of a USB endpoint.
#[derive(Debug, Clone, Copy, PartialEq, Eq, Structural)]
pub enum EndpointKind {
    Control,
    Isochronous,
    Bulk,
    Interrupt,
}

/// What the driver reads of an endpoint descriptor.
#[derive(Debug, Clone, Copy)]
pub struct EndpointInfo {
    pub address: u8,
    pub direction: EndpointDirection,
    pub transfer_type: EndpointKind,
    pub max_packet_size: usize,
}

/// An endpoint suits the direction wanted for bulk transfers.
pub open spec fn is_bulk_endpoint(e: EndpointInfo, direction: EndpointDirection) -> bool {
    e.direction == direction && e.transfer_type == EndpointKind::Bulk
}

/// The first bulk endpoint of the given direction, in the order of the
/// descriptors of the interface: its address and maximum packet size.
pub open spec fn first_bulk_endpoint(endpoints: Seq<EndpointInfo>, direction: EndpointDirection) -> Option<(u8, usize)>
    decreases endpoints.len(),
{
    if endpoints.len() == 0 {
        None
    } else if is_bulk_endpoint(endpoints[0], direction) {
        Some((endpoints[0].address, endpoints[0].max_packet_size))
    } else {
        first_bulk_endpoint(endpoints.drop_first(), direction)
    }
}

/// Finds the first bulk endpoint of a direction.
fn find_bulk_endpoint(endpoints: &[EndpointInfo], direction: EndpointDirection) -> (r: Option<(u8, usize)>)
    ensures
        r == first_bulk_endpoint(endpoints@, direction),
{
    let mut i: usize = 0;
    assert(endpoints@.skip(0) =~= endpoints@);
    while i < endpoints.len()
        invariant
            i <= endpoints@.len(),
            first_bulk_endpoint(endpoints@, direction) == first_bulk_endpoint(
                endpoints@.skip(i as int),
                direction,
            ),
        decreases endpoints@.len() - i,
    {
        let e = endpoints[i];
        proof {
            assert(endpoints@.skip(i as int)[0] == e);
            assert(endpoints@.skip(i as int).drop_first() =~= endpoints@.skip(i + 1));
        }
        if e.direction == direction && e.transfer_type == EndpointKind::Bulk {
            return Some((e.address, e.max_packet_size));
        }
        i = i + 1;
    }
    None
}

/// Finds the bulk IN endpoint among the endpoints of the interface.
pub fn find_endpoint_in_config(endpoints: &[EndpointInfo]) -> (r: Result<(u8, usize), Error>)
    ensures
        match first_bulk_endpoint(endpoints@, EndpointDirection::In) {
            Some(found) => r matches Ok(x) && x == found,
            None => r matches Err(Error::DriverError(m)) && m@
                == "Unable to find the IN endpoint in the USB device configuration"@,
        },
{
    match find_bulk_endpoint(endpoints, EndpointDirection::In) {
        Some(found) => Ok(found),
        None => Err(
            Error::DriverError(
                "Unable to find the IN endpoint in the USB device configuration".to_owned(),
            ),
        ),
    }
}

/// Finds the bulk OUT endpoint among the endpoints of the interface.
pub fn find_endpoint_out_config(endpoints: &[EndpointInfo]) -> (r: Result<(u8, usize), Error>)
    ensures
        match first_bulk_endpoint(endpoints@, EndpointDirection::Out) {
            Some(found) => r matches Ok(x) && x == found,
            None => r matches Err(Error::DriverError(m)) && m@
                == "Unable to find the OUT endpoint in the USB device configuration"@,
        },
{
    match find_bulk_endpoint(endpoints, EndpointDirection::Out) {
        Some(found) => Ok(found),
        None => Err(
            Error::DriverError(
                "Unable to find the OUT endpoint in the USB device configuration".to_owned(),
            ),
        ),
    }
}

} // verus!
