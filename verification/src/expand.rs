//! The pure half of the native filename-expansion wrapper: preparing the
//! marshalled input and the fixed-size output buffer, and interpreting the
//! status and buffer that the native call leaves behind. The native call
//! itself is a foreign function and stays outside the library.

use vstd::prelude::*;
use vstd::utf8::{
    decode_utf8, length_of_first_scalar, pop_first_scalar, valid_first_scalar, valid_utf8,
};
use crate::marshal::{
    lemma_first_nul_position, lemma_no_nul, lemma_nul_free_prefix_len, nul_free_prefix_len,
    safe_new,
};

verus! {

/// Capacity of the output buffer of a native expansion, and the largest
/// input path the native layer accepts.
pub const MAX_PATH_LEN: usize = 2048;

/// Length of the longest prefix of `bytes` that is a concatenation of
/// well-formed UTF-8 scalar encodings: the point up to which a decoder
/// verifies the bytes before it reports an error.
pub open spec fn utf8_valid_prefix_len(bytes: Seq<u8>) -> int
    decreases bytes.len(),
{
    if bytes.len() != 0 && valid_first_scalar(bytes) {
        length_of_first_scalar(bytes) + utf8_valid_prefix_len(pop_first_scalar(bytes))
    } else {
        0
    }
}

/// The valid prefix stays within the sequence, and covers all of it exactly
/// when the whole sequence is well-formed UTF-8.
pub proof fn lemma_utf8_valid_prefix_len(bytes: Seq<u8>)
    ensures
        0 <= utf8_valid_prefix_len(bytes) <= bytes.len(),
        utf8_valid_prefix_len(bytes) == bytes.len() <==> valid_utf8(bytes),
    decreases bytes.len(),
{
    if bytes.len() != 0 && valid_first_scalar(bytes) {
        lemma_utf8_valid_prefix_len(pop_first_scalar(bytes));
    }
}

/// Whether `b` begins at `i` with a well-formed UTF-8 scalar encoding, and
/// of how many bytes: 0 when no well-formed encoding starts there, the
/// width of the encoding otherwise.
fn first_scalar_width(b: &[u8], i: usize) -> (w: usize)
    requires
        i < b@.len(),
    ensures
        w == 0 ==> !valid_first_scalar(b@.skip(i as int)),
        w != 0 ==> valid_first_scalar(b@.skip(i as int))
            && w == length_of_first_scalar(b@.skip(i as int))
            && i + w <= b@.len(),
{
    let ghost s = b@.skip(i as int);
    let rem = b.len() - i;
    let b0 = b[i];
    assert(s[0] == b@[i as int]);
    if b0 < 0x80 {
        proof {
            assert(((b0 & 0x7f) as u32) < 0xd800) by (bit_vector);
        }
        1
    } else if 0xc0 <= b0 && b0 <= 0xdf {
        if rem < 2 {
            return 0;
        }
        let b1 = b[i + 1];
        assert(s[1] == b@[i + 1]);
        if !(0x80 <= b1 && b1 <= 0xbf) {
            return 0;
        }
        let cp: u32 = (((b0 & 0x1f) as u32) << 6) | ((b1 & 0x3f) as u32);
        if cp < 0x80 {
            return 0;
        }
        proof {
            assert(((((b0 & 0x1f) as u32) << 6) | ((b1 & 0x3f) as u32)) < 0xd800)
                by (bit_vector);
        }
        2
    } else if 0xe0 <= b0 && b0 <= 0xef {
        if rem < 3 {
            return 0;
        }
        let b1 = b[i + 1];
        let b2 = b[i + 2];
        assert(s[1] == b@[i + 1] && s[2] == b@[i + 2]);
        if !(0x80 <= b1 && b1 <= 0xbf) || !(0x80 <= b2 && b2 <= 0xbf) {
            return 0;
        }
        let cp: u32 = (((b0 & 0x0f) as u32) << 12) | (((b1 & 0x3f) as u32) << 6)
            | ((b2 & 0x3f) as u32);
        if cp < 0x800 || (0xd800 <= cp && cp <= 0xdfff) {
            return 0;
        }
        3
    } else if 0xf0 <= b0 && b0 <= 0xf7 {
        if rem < 4 {
            return 0;
        }
        let b1 = b[i + 1];
        let b2 = b[i + 2];
        let b3 = b[i + 3];
        assert(s[1] == b@[i + 1] && s[2] == b@[i + 2] && s[3] == b@[i + 3]);
        if !(0x80 <= b1 && b1 <= 0xbf) || !(0x80 <= b2 && b2 <= 0xbf)
            || !(0x80 <= b3 && b3 <= 0xbf) {
            return 0;
        }
        let cp: u32 = (((b0 & 0x07) as u32) << 18) | (((b1 & 0x3f) as u32) << 12)
            | (((b2 & 0x3f) as u32) << 6) | ((b3 & 0x3f) as u32);
        if cp < 0x10000 || cp > 0x10ffff {
            return 0;
        }
        4
    } else {
        0
    }
}

/// Compute the length of the longest well-formed UTF-8 prefix of `b`: the
/// position up to which a decoder validates the bytes before failing, and
/// the whole length exactly when `b` is valid UTF-8.
pub fn utf8_valid_up_to(b: &[u8]) -> (r: usize)
    ensures
        r == utf8_valid_prefix_len(b@),
        r <= b@.len(),
        r == b@.len() <==> valid_utf8(b@),
{
    let mut i: usize = 0;
    proof {
        assert(b@.skip(0) =~= b@);
    }
    loop
        invariant
            0 <= i <= b@.len(),
            utf8_valid_prefix_len(b@) == i + utf8_valid_prefix_len(b@.skip(i as int)),
        ensures
            utf8_valid_prefix_len(b@) == i,
        decreases b@.len() - i,
    {
        if i == b.len() {
            proof {
                assert(b@.skip(i as int).len() == 0);
            }
            break;
        }
        let w = first_scalar_width(b, i);
        if w == 0 {
            break;
        }
        proof {
            let s = b@.skip(i as int);
            assert(pop_first_scalar(s) =~= b@.skip(i + w));
            lemma_utf8_valid_prefix_len(b@.skip(i + w));
        }
        i = i + w;
    }
    proof {
        lemma_utf8_valid_prefix_len(b@);
    }
    i
}

/// The native result was not valid UTF-8: the bytes that were handed back,
/// and the length of their longest well-formed prefix.
#[derive(Debug)]
pub struct Utf8Failure {
    pub bytes: Vec<u8>,
    pub valid_up_to: usize,
}

/// What went wrong inside the native layer.
#[derive(Debug)]
pub enum FltkErrorKind {
    /// The native call reported failure; it gives no further detail.
    FailedOperation,
}

/// An error of the expansion wrapper.
#[derive(Debug)]
pub enum FltkError {
    /// The native call itself failed.
    Internal(FltkErrorKind),
    /// The native call succeeded but its output was not valid text.
    Utf8Error(Utf8Failure),
}

/// Relies on `String::from_utf8`: it returns `Ok` exactly when the bytes
/// are well-formed UTF-8, the string then holds their decoding, and on
/// `Err` the original bytes come back unchanged through
/// `FromUtf8Error::into_bytes`.
#[verifier::external_body]
fn string_from_utf8(bytes: Vec<u8>) -> (r: Result<String, Vec<u8>>)
    ensures
        r is Ok <==> valid_utf8(bytes@),
        r matches Ok(s) ==> s@ == decode_utf8(bytes@),
        r matches Err(b) ==> b@ == bytes@,
{
    match String::from_utf8(bytes) {
        Ok(s) => Ok(s),
        Err(e) => Err(e.into_bytes()),
    }
}

/// Index of the first nul byte of `b`, or `None` when `b` holds none.
pub fn find_nul(b: &[u8]) -> (r: Option<usize>)
    ensures
        r is Some <==> nul_free_prefix_len(b@) < b@.len(),
        r matches Some(i) ==> i == nul_free_prefix_len(b@) && b@[i as int] == 0,
        r is None ==> nul_free_prefix_len(b@) == b@.len(),
{
    let mut i: usize = 0;
    let n = b.len();
    while i < n && b[i] != 0
        invariant
            n == b@.len(),
            0 <= i <= n,
            forall|j: int| 0 <= j < i ==> b@[j] != 0,
        decreases n - i,
    {
        i = i + 1;
    }
    if i < n {
        proof {
            lemma_first_nul_position(b@, i as int);
        }
        Some(i)
    } else {
        proof {
            lemma_no_nul(b@);
        }
        None
    }
}

/// Marshal a path for a native expansion call: the nul-terminated form of
/// its longest nul-free prefix. A path longer than [`MAX_PATH_LEN`] bytes
/// is a contract violation of the caller, not a recoverable error.
pub fn expansion_input(path: &[u8]) -> (r: Vec<u8>)
    requires
        path@.len() <= MAX_PATH_LEN,
    ensures
        r@ == path@.take(nul_free_prefix_len(path@)) + seq![0u8],
        r@.len() <= MAX_PATH_LEN + 1,
{
    proof {
        lemma_nul_free_prefix_len(path@);
    }
    safe_new(path)
}

/// A fresh zero-initialized output buffer of exactly [`MAX_PATH_LEN`]
/// bytes for the native call to write into.
pub fn expansion_buffer() -> (r: Vec<u8>)
    ensures
        r@.len() == MAX_PATH_LEN,
        forall|j: int| 0 <= j < r@.len() ==> r@[j] == 0,
{
    let mut out: Vec<u8> = Vec::new();
    let mut i: usize = 0;
    while i < MAX_PATH_LEN
        invariant
            0 <= i <= MAX_PATH_LEN,
            out@.len() == i,
            forall|j: int| 0 <= j < i ==> out@[j] == 0,
        decreases MAX_PATH_LEN - i,
    {
        out.push(0);
        i = i + 1;
    }
    out
}

/// The bytes a native expansion produced: what stands in the output buffer
/// before its first nul.
pub open spec fn expansion_content(buf: Seq<u8>) -> Seq<u8> {
    buf.take(nul_free_prefix_len(buf))
}

/// Interpret what a native expansion call left behind: its status and the
/// output buffer it wrote into. A zero status is the generic operation
/// failure. Otherwise the buffer's content before its first nul is the
/// result; content that is not valid UTF-8 is a decoding error carrying
/// those bytes and the length of their longest well-formed prefix.
pub fn interpret_expansion(status: i32, buf: Vec<u8>) -> (r: Result<String, FltkError>)
    requires
        status != 0 ==> nul_free_prefix_len(buf@) < buf@.len(),
    ensures
        status == 0 <==> (r matches Err(e) && e matches FltkError::Internal(k)
            && k matches FltkErrorKind::FailedOperation),
        status != 0 && valid_utf8(expansion_content(buf@)) <==> (r matches Ok(s)
            && s@ == decode_utf8(expansion_content(buf@))),
        status != 0 && !valid_utf8(expansion_content(buf@)) <==> (r matches Err(e)
            && e matches FltkError::Utf8Error(f) && f.bytes@ == expansion_content(buf@)
            && f.valid_up_to == utf8_valid_prefix_len(expansion_content(buf@))),
{
    if status == 0 {
        return Err(FltkError::Internal(FltkErrorKind::FailedOperation));
    }
    let ghost buf0 = buf@;
    let end = match find_nul(buf.as_slice()) {
        Some(i) => i,
        None => buf.len(),
    };
    let mut content = buf;
    content.truncate(end);
    proof {
        assert(content@ =~= expansion_content(buf0));
    }
    match string_from_utf8(content) {
        Ok(s) => Ok(s),
        Err(bytes) => {
            let valid_up_to = utf8_valid_up_to(bytes.as_slice());
            Err(FltkError::Utf8Error(Utf8Failure { bytes, valid_up_to }))
        },
    }
}

} // verus!
