//! *zlib* decompression.
//!
//! Aseprite files use *zlib* to compress cel data. This module provides a
//! simple interface to decompress that data, on top of the `zlib-rs` crate.

use vstd::prelude::*;

verus! {

/// A status code of *zlib*.
#[derive(Clone, Copy, PartialEq, Eq, Structural, Hash, Debug)]
pub enum ZLibCode {
    Success,
    StreamEnd,
    NeedDict,
    ErrNo,
    StreamError,
    DataError,
    MemError,
    BufError,
    VersionError,
    /// A code that *zlib* does not define.
    Unknown,
}

/// The status code that *zlib* reports with a number.
pub open spec fn zlib_code(raw: i32) -> ZLibCode {
    if raw == 0 {
        ZLibCode::Success
    } else if raw == 1 {
        ZLibCode::StreamEnd
    } else if raw == 2 {
        ZLibCode::NeedDict
    } else if raw == -1 {
        ZLibCode::ErrNo
    } else if raw == -2 {
        ZLibCode::StreamError
    } else if raw == -3 {
        ZLibCode::DataError
    } else if raw == -4 {
        ZLibCode::MemError
    } else if raw == -5 {
        ZLibCode::BufError
    } else if raw == -6 {
        ZLibCode::VersionError
    } else {
        ZLibCode::Unknown
    }
}

fn code_from_raw(raw: i32) -> (r: ZLibCode)
    ensures
        r == zlib_code(raw),
{
    match raw {
        0 => ZLibCode::Success,
        1 => ZLibCode::StreamEnd,
        2 => ZLibCode::NeedDict,
        -1 => ZLibCode::ErrNo,
        -2 => ZLibCode::StreamError,
        -3 => ZLibCode::DataError,
        -4 => ZLibCode::MemError,
        -5 => ZLibCode::BufError,
        -6 => ZLibCode::VersionError,
        _ => ZLibCode::Unknown,
    }
}

/// An error of [`decompress`].
#[derive(Clone, Copy, PartialEq, Eq, Structural, Hash, Debug)]
pub enum ZLibError {
    /// *zlib* failed with this status.
    Inflate(ZLibCode),
    /// The output buffer would have to grow past `usize::MAX` bytes.
    BufferOverflow,
}

/// What *zlib*'s one-shot inflate yields for `input` into an output buffer of
/// `capacity` bytes: its numeric status code, and the bytes that it reports
/// as written at the start of the buffer.
pub uninterp spec fn inflate_result(capacity: nat, input: Seq<u8>) -> (i32, Seq<u8>);

/// Inflates `input` into `buf` with `zlib_rs::decompress_slice` and the
/// default configuration.
///
/// Trusted: the status code and the written prefix are what *zlib* computes
/// from the buffer's length and the input alone, the prefix fits in the
/// buffer, and the buffer keeps its length. As the crate's source shows, the
/// buffer-full status (-5) is only reported when the buffer is not empty
/// (an empty output buffer turns it into a data error).
#[verifier::external_body]
fn inflate_into(buf: &mut Vec<u8>, input: &[u8]) -> (r: (usize, i32))
    ensures
        final(buf)@.len() == old(buf)@.len(),
        r.0 <= old(buf)@.len(),
        inflate_result(old(buf)@.len() as nat, input@) == (r.1, final(buf)@.subrange(0, r.0 as int)),
        r.1 == -5 ==> old(buf)@.len() > 0,
{
    let (output, rc) = zlib_rs::decompress_slice(buf.as_mut_slice(), input, zlib_rs::InflateConfig::default());
    (output.len(), rc as i32)
}

/// What [`decompress`] does after one run of *zlib*.
#[derive(Clone, Copy, PartialEq, Eq, Structural, Hash, Debug)]
pub enum InflateNext {
    /// The data is complete: keep the bytes written.
    Done,
    /// The buffer was full: run again with a buffer of this many bytes.
    Grow(usize),
    /// Stop with this error.
    Fail(ZLibError),
}

/// What [`decompress`] does after *zlib* reported the status `raw` for an
/// input of `input_len` bytes and a buffer of `capacity` bytes: a full buffer
/// grows by the input's length, unless that passes `usize::MAX` or the input
/// is empty; success ends; any other status is an error.
pub open spec fn inflate_next_spec(raw: i32, capacity: nat, input_len: nat) -> InflateNext {
    let code = zlib_code(raw);
    if code == ZLibCode::BufError && input_len > 0 {
        if capacity + input_len > usize::MAX {
            InflateNext::Fail(ZLibError::BufferOverflow)
        } else {
            InflateNext::Grow((capacity + input_len) as usize)
        }
    } else if code == ZLibCode::Success {
        InflateNext::Done
    } else {
        InflateNext::Fail(ZLibError::Inflate(code))
    }
}

/// Decides what [`decompress`] does after *zlib* reported the status `raw`
/// for an input of `input_len` bytes and a buffer of `capacity` bytes.
pub fn inflate_next(raw: i32, capacity: usize, input_len: usize) -> (r: InflateNext)
    ensures
        r == inflate_next_spec(raw, capacity as nat, input_len as nat),
{
    let code = code_from_raw(raw);
    match code {
        ZLibCode::BufError => {
            if input_len == 0 {
                InflateNext::Fail(ZLibError::Inflate(code))
            } else if capacity > usize::MAX - input_len {
                InflateNext::Fail(ZLibError::BufferOverflow)
            } else {
                InflateNext::Grow(capacity + input_len)
            }
        },
        ZLibCode::Success => InflateNext::Done,
        _ => InflateNext::Fail(ZLibError::Inflate(code)),
    }
}

/// What [`decompress`] returns once its buffer holds `capacity` bytes: *zlib*
/// runs, and [`inflate_next_spec`] says whether to keep what it wrote, to run
/// again with a larger buffer, or to fail.
pub open spec fn decompress_from(capacity: nat, input: Seq<u8>) -> Result<Seq<u8>, ZLibError>
    decreases usize::MAX - capacity,
{
    let (raw, out) = inflate_result(capacity, input);
    match inflate_next_spec(raw, capacity, input.len()) {
        InflateNext::Done => Ok(out),
        InflateNext::Fail(e) => Err(e),
        InflateNext::Grow(n) => if capacity < n <= usize::MAX {
            decompress_from(n as nat, input)
        } else {
            Err(ZLibError::BufferOverflow)
        },
    }
}

/// What [`decompress`] returns for `input`.
pub open spec fn decompress_spec(input: Seq<u8>) -> Result<Seq<u8>, ZLibError> {
    decompress_from(input.len(), input)
}

/// Decompression only ends on *zlib*'s success status: whatever the
/// buffer's size and the input's length, the step after a status is
/// [`InflateNext::Done`] exactly when that status is 0.
pub proof fn lemma_done_only_on_success(raw: i32, capacity: nat, input_len: nat)
    ensures
        (inflate_next_spec(raw, capacity, input_len) == InflateNext::Done) <==> raw == 0,
{
}

/// A full buffer (status -5) with a non-empty input never ends
/// decompression: the buffer grows by the input's length, or decompression
/// fails when that length would pass `usize::MAX`.
pub proof fn lemma_full_buffer_grows(capacity: nat, input_len: nat)
    requires
        input_len > 0,
    ensures
        capacity + input_len <= usize::MAX ==> inflate_next_spec(-5i32, capacity, input_len)
            == InflateNext::Grow((capacity + input_len) as usize),
        capacity + input_len > usize::MAX ==> inflate_next_spec(-5i32, capacity, input_len)
            == InflateNext::Fail(ZLibError::BufferOverflow),
{
}

/// What decompression from a buffer of `capacity` bytes returns is the whole
/// output of a run of *zlib* that reported success, with a buffer of at least
/// `capacity` bytes.
proof fn lemma_decompress_from_complete(capacity: nat, input: Seq<u8>, out: Seq<u8>)
    requires
        decompress_from(capacity, input) == Ok::<Seq<u8>, ZLibError>(out),
    ensures
        exists|n: nat| n >= capacity && #[trigger] inflate_result(n, input) == (0i32, out),
    decreases usize::MAX - capacity,
{
    let (raw, written) = inflate_result(capacity, input);
    match inflate_next_spec(raw, capacity, input.len()) {
        InflateNext::Done => {
            assert(inflate_result(capacity, input) == (0i32, out));
        },
        InflateNext::Fail(e) => {},
        InflateNext::Grow(n) => {
            if capacity < n <= usize::MAX {
                lemma_decompress_from_complete(n as nat, input, out);
            }
        },
    }
}

/// Decompression returns `Ok` only with the complete inflated stream: the
/// bytes that *zlib* wrote in a run that reported success (status 0), for a
/// buffer at least as long as the input.
pub proof fn lemma_decompress_complete(input: Seq<u8>, out: Seq<u8>)
    requires
        decompress_spec(input) == Ok::<Seq<u8>, ZLibError>(out),
    ensures
        exists|n: nat| n >= input.len() && #[trigger] inflate_result(n, input) == (0i32, out),
{
    lemma_decompress_from_complete(input.len(), input, out);
}

/// Decompresses compressed data.
///
/// Starts with a buffer as long as the input and grows it by the input's
/// length until *zlib* no longer reports that it is full.
pub fn decompress(input: &[u8]) -> (r: Result<Vec<u8>, ZLibError>)
    ensures
        match r {
            Ok(v) => decompress_spec(input@) == Ok::<Seq<u8>, ZLibError>(v@),
            Err(e) => decompress_spec(input@) == Err::<Seq<u8>, ZLibError>(e),
        },
{
    let n = input.len();
    let mut buf: Vec<u8> = vec![0; n];
    loop
        invariant
            n == input@.len(),
            buf@.len() <= usize::MAX,
            decompress_from(buf@.len() as nat, input@) == decompress_spec(input@),
        decreases usize::MAX - buf@.len(),
    {
        let (len, raw) = inflate_into(&mut buf, input);
        match inflate_next(raw, buf.len(), n) {
            InflateNext::Done => {
                buf.truncate(len);
                return Ok(buf);
            },
            InflateNext::Grow(new_len) => {
                buf.resize(new_len, 0);
            },
            InflateNext::Fail(e) => {
                return Err(e);
            },
        }
    }
}

} // verus!
