//! End-of-line framing over a serial port.
//!
//! A command is sent followed by the end-of-line sequence; an answer is read
//! until the received bytes end with that sequence.
use vstd::prelude::*;

verus! {

/// Size of the buffer that receives answers.
pub const READ_BUFFER_SIZE: usize = 1024;

/// Whether the first `n` bytes of `buffer` end with `eol`.
pub open spec fn ends_with_eol(buffer: Seq<u8>, n: int, eol: Seq<u8>) -> bool {
    &&& n >= eol.len()
    &&& buffer.subrange(n - eol.len(), n) == eol
}

/// The bytes to write on the port for `command`: the command then the end of line.
pub fn append_eol(command: &[u8], eol: &Vec<u8>) -> (r: Vec<u8>)
    ensures
        r@ == command@ + eol@,
{
    let mut out: Vec<u8> = Vec::new();
    let mut i: usize = 0;
    while i < command.len()
        invariant
            i <= command@.len(),
            out@ == command@.take(i as int),
        decreases command@.len() - i,
    {
        out.push(command[i]);
        i = i + 1;
        assert(out@ =~= command@.take(i as int));
    }
    let mut j: usize = 0;
    while j < eol.len()
        invariant
            i == command@.len(),
            j <= eol@.len(),
            out@ == command@ + eol@.take(j as int),
        decreases eol@.len() - j,
    {
        out.push(eol[j]);
        j = j + 1;
        assert(out@ =~= command@ + eol@.take(j as int));
    }
    assert(command@.take(i as int) =~= command@);
    assert(eol@.take(j as int) =~= eol@);
    out
}

/// Compares `buffer[n - eol.len()..n]` with `eol`.
fn tail_matches(buffer: &[u8], n: usize, eol: &[u8]) -> (r: bool)
    requires
        eol@.len() <= n <= buffer@.len(),
    ensures
        r == ends_with_eol(buffer@, n as int, eol@),
{
    let start = n - eol.len();
    let mut k: usize = 0;
    while k < eol.len()
        invariant
            start + eol@.len() == n,
            n <= buffer@.len(),
            k <= eol@.len(),
            forall|j: int| 0 <= j < k ==> buffer@[start + j] == eol@[j],
        decreases eol@.len() - k,
    {
        if buffer[start + k] != eol[k] {
            assert(buffer@.subrange(start as int, n as int)[k as int] != eol@[k as int]);
            return false;
        }
        k = k + 1;
    }
    assert(buffer@.subrange(start as int, n as int) =~= eol@);
    true
}

/// Takes `rx_count` newly received bytes into account, the first `n` bytes
/// of `buffer` having been scanned already.
///
/// Returns the number of bytes scanned and whether the scan stopped on an end
/// of line: the scan stops at the first position after `n` where the
/// received bytes end with `eol`.
pub fn scan_received(buffer: &[u8], n: usize, rx_count: usize, eol: &[u8]) -> (r: (usize, bool))
    requires
        n + rx_count <= buffer@.len(),
    ensures
        n < r.0 <= n + rx_count || (r.0 == n && rx_count == 0),
        r.1 ==> ends_with_eol(buffer@, r.0 as int, eol@),
        !r.1 ==> r.0 == n + rx_count,
        forall|m: int| n < m < r.0 ==> !ends_with_eol(buffer@, m, eol@),
        !r.1 ==> forall|m: int| n < m <= n + rx_count ==> !ends_with_eol(buffer@, m, eol@),
{
    let blen = buffer.len();
    let mut count = n;
    let mut i: usize = 0;
    while i < rx_count
        invariant
            blen == buffer@.len(),
            n + rx_count <= buffer@.len(),
            i <= rx_count,
            count == n + i,
            forall|m: int| n < m <= count ==> !ends_with_eol(buffer@, m, eol@),
        decreases rx_count - i,
    {
        count = count + 1;
        if count >= eol.len() {
            if tail_matches(buffer, count, eol) {
                return (count, true);
            }
        }
        i = i + 1;
    }
    (count, false)
}

/// The answer carried by the first `count` received bytes: they without the
/// final end of line.
pub fn strip_eol(buffer: &[u8], count: usize, eol_len: usize) -> (r: Vec<u8>)
    requires
        eol_len <= count <= buffer@.len(),
    ensures
        r@ == buffer@.take(count - eol_len),
{
    let end = count - eol_len;
    let mut out: Vec<u8> = Vec::new();
    let mut i: usize = 0;
    while i < end
        invariant
            end <= buffer@.len(),
            i <= end,
            out@ == buffer@.take(i as int),
        decreases end - i,
    {
        out.push(buffer[i]);
        i = i + 1;
        assert(out@ =~= buffer@.take(i as int));
    }
    out
}

} // verus!
