//! # SLIP over serial
//!
//! The Serial Line Internet Protocol (RFC 1055) splits a serial stream into
//! packets: a packet is framed by END bytes and the END and ESC bytes of the
//! payload are escaped. Encoding and decoding are made by the
//! `serial_line_ip` crate; this module prepares the commands and tracks the
//! bytes received from the port until a whole packet is decoded.
use crate::Error;
use vstd::prelude::*;
use vstd::string::*;

verus! {

/// Frame delimiter.
pub const END: u8 = 0xC0;

/// Escape byte.
pub const ESC: u8 = 0xDB;

/// Escaped END.
pub const ESC_END: u8 = 0xDC;

/// Escaped ESC.
pub const ESC_ESC: u8 = 0xDD;

/// Size of the buffer used to encode a command.
pub const ENCODE_BUFFER_SIZE: usize = 1024;

/// Size of the buffer that accumulates incoming bytes.
pub const RECEIVE_BUFFER_SIZE: usize = 2048;

/// Errors reported by the SLIP encoder and decoder.
#[derive(Debug, Clone, Copy, PartialEq, Eq)]
pub enum SlipError {
    NoOutputSpaceForHeader,
    NoOutputSpaceForEndByte,
    BadHeaderDecode,
    BadEscapeSequenceDecode,
}

impl SlipError {
    /// Name of the variant, as its `Debug` rendering prints it.
    pub open spec fn debug_text(self) -> Seq<char> {
        match self {
            SlipError::NoOutputSpaceForHeader => "NoOutputSpaceForHeader"@,
            SlipError::NoOutputSpaceForEndByte => "NoOutputSpaceForEndByte"@,
            SlipError::BadHeaderDecode => "BadHeaderDecode"@,
            SlipError::BadEscapeSequenceDecode => "BadEscapeSequenceDecode"@,
        }
    }

    /// Name of the variant, as its `Debug` rendering prints it.
    pub fn debug_name(&self) -> (r: &'static str)
        ensures
            r@ == self.debug_text(),
    {
        match self {
            SlipError::NoOutputSpaceForHeader => "NoOutputSpaceForHeader",
            SlipError::NoOutputSpaceForEndByte => "NoOutputSpaceForEndByte",
            SlipError::BadHeaderDecode => "BadHeaderDecode",
            SlipError::BadEscapeSequenceDecode => "BadEscapeSequenceDecode",
        }
    }
}

/// SLIP escaping of one payload byte.
pub open spec fn slip_escape_byte(b: u8) -> Seq<u8> {
    if b == ESC {
        seq![ESC, ESC_ESC]
    } else if b == END {
        seq![ESC, ESC_END]
    } else {
        seq![b]
    }
}

/// SLIP escaping of a payload.
pub open spec fn slip_escape(s: Seq<u8>) -> Seq<u8>
    decreases s.len(),
{
    if s.len() == 0 {
        Seq::empty()
    } else {
        slip_escape(s.drop_last()) + slip_escape_byte(s.last())
    }
}

/// A whole SLIP packet carrying `payload`.
pub open spec fn slip_frame(payload: Seq<u8>) -> Seq<u8> {
    seq![END] + slip_escape(payload) + seq![END]
}

/// Outcome of decoding a buffer with a fresh decoder.
pub enum SlipDecoded {
    /// `processed` input bytes were consumed, `data` was decoded and `end`
    /// tells whether the end of a packet was reached.
    Packet { processed: nat, data: Seq<u8>, end: bool },
    Failure(SlipError),
}

/// What `serial_line_ip::Decoder::new().decode(input, output)` returns when
/// `output` holds `capacity` bytes.
pub uninterp spec fn slip_decoding(input: Seq<u8>, capacity: nat) -> SlipDecoded;

/// Encodes `input` into `output` with a fresh `serial_line_ip::Encoder`
/// (`Encoder::new().encode`): the END header, then the escaped bytes of the
/// longest prefix of `input` that fits. Returns (bytes read, bytes written).
/// Nothing is written when `output` is empty.
#[verifier::external_body]
fn slip_encode(input: &[u8], output: &mut Vec<u8>) -> (r: Result<(usize, usize), SlipError>)
    ensures
        final(output)@.len() == old(output)@.len(),
        r is Err <==> old(output)@.len() == 0,
        r is Err ==> (r matches Err(SlipError::NoOutputSpaceForHeader) && final(output)@ == old(
            output,
        )@),
        r matches Ok((read, written)) ==> {
            &&& read <= input@.len()
            &&& written == 1 + slip_escape(input@.take(read as int)).len()
            &&& written <= old(output)@.len()
            &&& read < input@.len() ==> 1 + slip_escape(input@.take(read + 1)).len() > old(
                output,
            )@.len()
            &&& final(output)@ == seq![END] + slip_escape(input@.take(read as int)) + old(
                output,
            )@.skip(written as int)
        },
{
    match serial_line_ip::Encoder::new().encode(input, &mut output[..]) {
        Ok(t) => Ok((t.read, t.written)),
        Err(serial_line_ip::Error::NoOutputSpaceForHeader) => Err(SlipError::NoOutputSpaceForHeader),
        Err(serial_line_ip::Error::NoOutputSpaceForEndByte) => Err(SlipError::NoOutputSpaceForEndByte),
        Err(serial_line_ip::Error::BadHeaderDecode) => Err(SlipError::BadHeaderDecode),
        Err(serial_line_ip::Error::BadEscapeSequenceDecode) => Err(SlipError::BadEscapeSequenceDecode),
    }
}

/// Ends a packet (`Encoder::finish`) by writing END at `output[at]`.
/// Returns the number of bytes written; fails when `at` is the end of `output`.
#[verifier::external_body]
fn slip_finish(output: &mut Vec<u8>, at: usize) -> (r: Result<usize, SlipError>)
    requires
        at <= old(output)@.len(),
    ensures
        at == old(output)@.len() ==> (r matches Err(SlipError::NoOutputSpaceForEndByte)
            && final(output)@ == old(output)@),
        at < old(output)@.len() ==> (r matches Ok(n) && n == 1 && final(output)@ == old(
            output,
        )@.update(at as int, END)),
{
    match serial_line_ip::Encoder::new().finish(&mut output[at..]) {
        Ok(t) => Ok(t.written),
        Err(serial_line_ip::Error::NoOutputSpaceForHeader) => Err(SlipError::NoOutputSpaceForHeader),
        Err(serial_line_ip::Error::NoOutputSpaceForEndByte) => Err(SlipError::NoOutputSpaceForEndByte),
        Err(serial_line_ip::Error::BadHeaderDecode) => Err(SlipError::BadHeaderDecode),
        Err(serial_line_ip::Error::BadEscapeSequenceDecode) => Err(SlipError::BadEscapeSequenceDecode),
    }
}

/// Decodes `input` into `output` with a fresh `serial_line_ip::Decoder`
/// (`Decoder::new().decode`). Returns (input bytes processed, length of the
/// decoded data at the start of `output`, end of packet reached).
///
/// The decoding is named by `slip_decoding`. Besides, as the crate's source
/// shows: the input must start with END; the decoder writes only the decoded
/// bytes; and an input that starts with a whole packet whose payload is
/// shorter than `output` gives back that payload and consumes the packet.
/// What the decoder writes before an escape error is not stated.
#[verifier::external_body]
fn slip_decode(input: &[u8], output: &mut [u8]) -> (r: Result<(usize, usize, bool), SlipError>)
    ensures
        final(output)@.len() == old(output)@.len(),
        r matches Ok((p, n, e)) ==> {
            &&& slip_decoding(input@, old(output)@.len()) == SlipDecoded::Packet {
                processed: p as nat,
                data: final(output)@.take(n as int),
                end: e,
            }
            &&& p <= input@.len()
            &&& n <= old(output)@.len()
            &&& final(output)@.skip(n as int) == old(output)@.skip(n as int)
        },
        r matches Err(e) ==> slip_decoding(input@, old(output)@.len()) == SlipDecoded::Failure(e),
        (r matches Err(SlipError::BadHeaderDecode)) <==> (input@.len() == 0 || input@[0] != END),
        forall|d: Seq<u8>|
            #![trigger slip_frame(d)]
            d.len() < old(output)@.len() && slip_frame(d).len() <= input@.len() && input@.take(
                slip_frame(d).len() as int,
            ) == slip_frame(d) ==> (r matches Ok((p, n, e)) && p == slip_frame(d).len() && n
                == d.len() && e && final(output)@.take(d.len() as int) == d),
{
    let mut decoder = serial_line_ip::Decoder::new();
    match decoder.decode(input, output) {
        Ok((p, out, e)) => Ok((p, out.len(), e)),
        Err(serial_line_ip::Error::NoOutputSpaceForHeader) => Err(SlipError::NoOutputSpaceForHeader),
        Err(serial_line_ip::Error::NoOutputSpaceForEndByte) => Err(SlipError::NoOutputSpaceForEndByte),
        Err(serial_line_ip::Error::BadHeaderDecode) => Err(SlipError::BadHeaderDecode),
        Err(serial_line_ip::Error::BadEscapeSequenceDecode) => Err(SlipError::BadEscapeSequenceDecode),
    }
}

/// Builds "`prefix``name of the error`".
fn error_text(prefix: &str, e: SlipError) -> (r: String)
    ensures
        r@ == prefix@ + e.debug_text(),
{
    let mut m = prefix.to_owned();
    m.append(e.debug_name());
    m
}

/// The header and the escaped `payload` fit in the encoding buffer.
pub open spec fn escaped_fits(payload: Seq<u8>) -> bool {
    1 + slip_escape(payload).len() <= ENCODE_BUFFER_SIZE
}

/// Length of the longest prefix of `command` whose escaping fits in the
/// encoding buffer after the header.
pub open spec fn encoded_prefix_len(command: Seq<u8>) -> nat
    decreases command.len(),
{
    if command.len() == 0 || escaped_fits(command) {
        command.len()
    } else {
        encoded_prefix_len(command.drop_last())
    }
}

/// The whole command fits in one packet of the encoding buffer.
pub open spec fn encoded_command_fits(command: Seq<u8>) -> bool {
    slip_frame(command).len() <= ENCODE_BUFFER_SIZE
}

/// Encodes a command into one SLIP packet, in a buffer of 1024 bytes.
///
/// The packet carries the longest prefix of the command that fits (the whole
/// command when its packet fits); encoding fails when that prefix leaves no
/// room for the final END.
pub fn encode_command(command: &[u8]) -> (r: Result<Vec<u8>, Error>)
    ensures
        ({
            let p = command@.take(encoded_prefix_len(command@) as int);
            if 1 + slip_escape(p).len() < ENCODE_BUFFER_SIZE {
                r matches Ok(v) && v@ == slip_frame(p)
            } else {
                r matches Err(Error::DriverError(m)) && m@
                    == "Unable to finsh command encoding: NoOutputSpaceForEndByte"@
            }
        }),
        encoded_command_fits(command@) ==> (r matches Ok(v) && v@ == slip_frame(command@)),
{
    let mut encoded: Vec<u8> = Vec::new();
    let mut i: usize = 0;
    while i < ENCODE_BUFFER_SIZE
        invariant
            i <= ENCODE_BUFFER_SIZE,
            encoded@.len() == i,
        decreases ENCODE_BUFFER_SIZE - i,
    {
        encoded.push(0);
        i = i + 1;
    }
    let (read, written) = match slip_encode(command, &mut encoded) {
        Ok(t) => t,
        Err(e) => { return Err(Error::DriverError(error_text("Unable to encode command: ", e))) },
    };
    proof {
        lemma_encoded_prefix_len_is(command@, read as int);
    }
    let finished = match slip_finish(&mut encoded, written) {
        Ok(n) => n,
        Err(e) => {
            proof {
                lemma_escape_prefix_len(command@, read as int);
                reveal_strlit("Unable to finsh command encoding: ");
                reveal_strlit("NoOutputSpaceForEndByte");
                reveal_strlit("Unable to finsh command encoding: NoOutputSpaceForEndByte");
                assert(("Unable to finsh command encoding: "@ + "NoOutputSpaceForEndByte"@)
                    =~= "Unable to finsh command encoding: NoOutputSpaceForEndByte"@);
            }
            return Err(
                Error::DriverError(error_text("Unable to finsh command encoding: ", e)),
            )
        },
    };
    let total = written + finished;
    encoded.truncate(total);
    proof {
        assert(encoded@ =~= slip_frame(command@.take(read as int)));
        if encoded_command_fits(command@) {
            if read < command@.len() {
                lemma_escape_prefix_len(command@, (read + 1) as int);
                assert(false);
            }
            assert(command@.take(read as int) =~= command@);
        }
    }
    Ok(encoded)
}

/// Bytes received from the port and not yet consumed by a decoded packet.
pub struct SlipReceiver {
    /// Accumulated incoming data buffer
    pub in_buf: Vec<u8>,
    /// Number of meaningful bytes at the start of `in_buf`
    pub in_buf_size: usize,
}

impl SlipReceiver {
    /// The buffer has its fixed size and the count stays within it.
    pub open spec fn wf(&self) -> bool {
        &&& self.in_buf@.len() == RECEIVE_BUFFER_SIZE
        &&& self.in_buf_size <= RECEIVE_BUFFER_SIZE
    }

    /// The accumulated bytes.
    pub open spec fn pending(&self) -> Seq<u8> {
        self.in_buf@.take(self.in_buf_size as int)
    }

    /// An empty receiver.
    pub fn new() -> (r: Self)
        ensures
            r.wf(),
            r.in_buf_size == 0,
    {
        let mut in_buf: Vec<u8> = Vec::new();
        let mut i: usize = 0;
        while i < RECEIVE_BUFFER_SIZE
            invariant
                i <= RECEIVE_BUFFER_SIZE,
                in_buf@.len() == i,
            decreases RECEIVE_BUFFER_SIZE - i,
        {
            in_buf.push(0);
            i = i + 1;
        }
        SlipReceiver { in_buf, in_buf_size: 0 }
    }

    /// Number of bytes that can still be received.
    pub fn free_space(&self) -> (r: usize)
        requires
            self.wf(),
        ensures
            r == RECEIVE_BUFFER_SIZE - self.in_buf_size,
    {
        RECEIVE_BUFFER_SIZE - self.in_buf_size
    }

    /// Appends a chunk read from the port after the accumulated bytes.
    pub fn receive(&mut self, chunk: &[u8])
        requires
            old(self).wf(),
            old(self).in_buf_size + chunk@.len() <= RECEIVE_BUFFER_SIZE,
        ensures
            final(self).wf(),
            final(self).in_buf_size == old(self).in_buf_size + chunk@.len(),
            final(self).pending() == old(self).pending() + chunk@,
            final(self).in_buf@.skip(final(self).in_buf_size as int) == old(self).in_buf@.skip(
                final(self).in_buf_size as int,
            ),
    {
        let ghost old_buf = self.in_buf@;
        let start = self.in_buf_size;
        let n = chunk.len();
        let mut i: usize = 0;
        while i < n
            invariant
                n == chunk@.len(),
                start + n <= RECEIVE_BUFFER_SIZE,
                i <= n,
                self.in_buf@.len() == RECEIVE_BUFFER_SIZE,
                self.in_buf_size == start,
                forall|j: int| 0 <= j < start ==> self.in_buf@[j] == old_buf[j],
                forall|j: int| 0 <= j < i ==> self.in_buf@[start + j] == chunk@[j],
                forall|j: int| start + i <= j < RECEIVE_BUFFER_SIZE ==> self.in_buf@[j] == old_buf[j],
            decreases n - i,
        {
            self.in_buf.set(start + i, chunk[i]);
            i = i + 1;
        }
        self.in_buf_size = start + n;
        assert(self.pending() =~= old_buf.take(start as int) + chunk@);
        assert(self.in_buf@.skip(self.in_buf_size as int) =~= old_buf.skip(self.in_buf_size as int));
    }

    /// Tries to decode a packet from the accumulated bytes into `response`.
    ///
    /// Returns the length of the decoded packet when its end was found, and
    /// then forgets as many accumulated bytes as the decoder processed.
    pub fn try_decode(&mut self, response: &mut [u8]) -> (r: Result<Option<usize>, Error>)
        requires
            old(self).wf(),
        ensures
            final(self).wf(),
            final(self).in_buf == old(self).in_buf,
            final(response)@.len() == old(response)@.len(),
            match slip_decoding(old(self).pending(), old(response)@.len()) {
                SlipDecoded::Packet { processed, data, end } => {
                    &&& end ==> (r matches Ok(Some(n)) && n == data.len()
                        && final(self).in_buf_size == old(self).in_buf_size - processed)
                    &&& !end ==> (r matches Ok(None) && final(self).in_buf_size
                        == old(self).in_buf_size)
                    &&& final(response)@.take(data.len() as int) == data
                },
                SlipDecoded::Failure(e) => {
                    &&& final(self).in_buf_size == old(self).in_buf_size
                    &&& r matches Err(Error::DriverError(m)) && m@ == "Unable to decode response: "@
                        + e.debug_text()
                },
            },
            forall|d: Seq<u8>|
                #![trigger slip_frame(d)]
                d.len() < old(response)@.len() && slip_frame(d).len() <= old(self).in_buf_size
                    && old(self).pending().take(slip_frame(d).len() as int) == slip_frame(d) ==> (r
                    matches Ok(Some(n)) && n == d.len() && final(response)@.take(n as int) == d
                    && final(self).in_buf_size == old(self).in_buf_size - slip_frame(d).len()),
    {
        let pending = vstd::slice::slice_subrange(self.in_buf.as_slice(), 0, self.in_buf_size);
        let outcome = slip_decode(pending, response);
        self.consume_decoded(outcome)
    }

    /// Takes the outcome of decoding the accumulated bytes into account: a
    /// whole packet gives its length and its bytes are forgotten; a partial
    /// one gives nothing and keeps them; a failure is reported.
    pub fn consume_decoded(&mut self, outcome: Result<(usize, usize, bool), SlipError>) -> (r:
        Result<Option<usize>, Error>)
        requires
            old(self).wf(),
            outcome matches Ok((p, n, e)) ==> p <= old(self).in_buf_size,
        ensures
            final(self).wf(),
            final(self).in_buf == old(self).in_buf,
            match outcome {
                Ok((p, n, e)) => if e {
                    r matches Ok(Some(k)) && k == n && final(self).in_buf_size == old(
                        self,
                    ).in_buf_size - p
                } else {
                    r matches Ok(None) && final(self).in_buf_size == old(self).in_buf_size
                },
                Err(e) => final(self).in_buf_size == old(self).in_buf_size && (r matches Err(
                    Error::DriverError(m),
                ) && m@ == "Unable to decode response: "@ + e.debug_text()),
            },
    {
        match outcome {
            Ok((total_decoded, out_len, end)) => {
                if end {
                    self.in_buf_size = self.in_buf_size - total_decoded;
                    Ok(Some(out_len))
                } else {
                    Ok(None)
                }
            },
            Err(e) => Err(Error::DriverError(error_text("Unable to decode response: ", e))),
        }
    }
}

/// The prefix that the encoder reads is the longest one that fits.
proof fn lemma_encoded_prefix_len_is(c: Seq<u8>, r: int)
    requires
        0 <= r <= c.len(),
        escaped_fits(c.take(r)),
        r < c.len() ==> !escaped_fits(c.take(r + 1)),
    ensures
        encoded_prefix_len(c) == r,
    decreases c.len(),
{
    if c.len() == 0 {
    } else if escaped_fits(c) {
        if r < c.len() {
            lemma_escape_prefix_len(c, r + 1);
        }
    } else {
        if r == c.len() {
            assert(c.take(r) =~= c);
        }
        let d = c.drop_last();
        assert(d.take(r) =~= c.take(r));
        if r < d.len() {
            assert(d.take(r + 1) =~= c.take(r + 1));
        }
        lemma_encoded_prefix_len_is(d, r);
    }
}

/// The escaping of a payload is at least as long as the payload.
proof fn lemma_escape_len_bound(s: Seq<u8>)
    ensures
        slip_escape(s).len() >= s.len(),
    decreases s.len(),
{
    if s.len() > 0 {
        lemma_escape_len_bound(s.drop_last());
    }
}

/// The escaping of a prefix is not longer than the escaping of the whole.
proof fn lemma_escape_prefix_len(s: Seq<u8>, n: int)
    requires
        0 <= n <= s.len(),
    ensures
        slip_escape(s.take(n)).len() <= slip_escape(s).len(),
    decreases s.len(),
{
    if n < s.len() {
        assert(s.drop_last().take(n) =~= s.take(n));
        lemma_escape_prefix_len(s.drop_last(), n);
    } else {
        assert(s.take(n) =~= s);
    }
}

} // verus!
