//! Byte-addressed view of the input buffer: bounds-checked reads of
//! little-endian scalars and NUL-terminated UTF-8 strings.

use vstd::prelude::*;
use vstd::utf8::valid_utf8;
use vstd::string::StringSliceAdditionalSpecFns;
use crate::DecodeError;

verus! {

/// A 32-bit byte offset into the buffer standing for a typed record or
/// record array; never a live address.
#[derive(Debug, Clone, Copy, PartialEq, Eq, Structural)]
pub struct Ptr {
    pub offset: u32,
}

/// A 32-bit byte offset to a NUL-terminated UTF-8 string.
#[derive(Debug, Clone, Copy, PartialEq, Eq, Structural)]
pub struct StringPtr {
    pub offset: u32,
}

/// The 16-bit little-endian value held at `off`.
pub open spec fn le16(b: Seq<u8>, off: int) -> u16 {
    (b[off] as u16) | ((b[off + 1] as u16) << 8)
}

/// The 32-bit little-endian value held at `off`.
pub open spec fn le32(b: Seq<u8>, off: int) -> u32 {
    (b[off] as u32) | ((b[off + 1] as u32) << 8) | ((b[off + 2] as u32) << 16) | ((b[off
        + 3] as u32) << 24)
}

/// Reads the 16-bit little-endian value at `off`.
pub fn read_u16(b: &Vec<u8>, off: usize) -> (r: Result<u16, DecodeError>)
    ensures
        r matches Ok(v) ==> off + 2 <= b@.len() && v == le16(b@, off as int),
        r matches Err(e) ==> off + 2 > b@.len() && e == (DecodeError::Bounds {
            offset: off,
            need: 2,
            len: b@.len() as usize,
        }),
{
    if off < b.len() && 2 <= b.len() - off {
        let lo = b[off];
        let hi = b[off + 1];
        Ok((lo as u16) | ((hi as u16) << 8))
    } else {
        Err(DecodeError::Bounds { offset: off, need: 2, len: b.len() })
    }
}

/// Reads the 32-bit little-endian value at `off`.
pub fn read_u32(b: &Vec<u8>, off: usize) -> (r: Result<u32, DecodeError>)
    ensures
        r matches Ok(v) ==> off + 4 <= b@.len() && v == le32(b@, off as int),
        r matches Err(e) ==> off + 4 > b@.len() && e == (DecodeError::Bounds {
            offset: off,
            need: 4,
            len: b@.len() as usize,
        }),
{
    if off < b.len() && 4 <= b.len() - off {
        let b0 = b[off];
        let b1 = b[off + 1];
        let b2 = b[off + 2];
        let b3 = b[off + 3];
        Ok((b0 as u32) | ((b1 as u32) << 8) | ((b2 as u32) << 16) | ((b3 as u32) << 24))
    } else {
        Err(DecodeError::Bounds { offset: off, need: 4, len: b.len() })
    }
}

/// Reads the 16-bit little-endian value at `off` as a signed quantity.
pub fn read_i16(b: &Vec<u8>, off: usize) -> (r: Result<i16, DecodeError>)
    ensures
        r matches Ok(v) ==> off + 2 <= b@.len() && v == le16(b@, off as int) as i16,
        r matches Err(e) ==> off + 2 > b@.len() && e == (DecodeError::Bounds {
            offset: off,
            need: 2,
            len: b@.len() as usize,
        }),
{
    match read_u16(b, off) {
        Ok(v) => Ok(v as i16),
        Err(e) => Err(e),
    }
}

/// The index of the first NUL byte at or after `off`, or the buffer length
/// if none exists.
pub open spec fn nul_pos(b: Seq<u8>, off: int) -> int
    decreases b.len() - off,
{
    if off < 0 || off >= b.len() {
        b.len() as int
    } else if b[off] == 0 {
        off
    } else {
        nul_pos(b, off + 1)
    }
}

/// The bytes of the NUL-terminated string starting at `off`.
pub open spec fn str_bytes_at(b: Seq<u8>, off: int) -> Seq<u8> {
    b.subrange(off, nul_pos(b, off))
}

/// Whether the string starting at `off` is well formed: terminated before
/// the buffer ends and valid UTF-8.
pub open spec fn str_ok_at(b: Seq<u8>, off: int) -> bool {
    &&& 0 <= off <= b.len()
    &&& nul_pos(b, off) < b.len()
    &&& valid_utf8(str_bytes_at(b, off))
}

/// Relies on `core::str::from_utf8`: it returns `Ok` exactly when the bytes
/// are valid UTF-8, in the sense of vstd's `valid_utf8`.
#[verifier::external_body]
fn utf8_check(v: &[u8]) -> (r: bool)
    ensures
        r == valid_utf8(v@),
{
    core::str::from_utf8(v).is_ok()
}

/// Reads the NUL-terminated UTF-8 string at `off`, returning its bytes
/// without the terminator.
pub fn read_str(b: &Vec<u8>, off: usize) -> (r: Result<Vec<u8>, DecodeError>)
    ensures
        match r {
            Ok(v) => str_read_r(b@, off as int) == Ok::<Seq<u8>, DecodeError>(v@),
            Err(e) => str_read_r(b@, off as int) == Err::<Seq<u8>, DecodeError>(e),
        },
{
    if off >= b.len() {
        return Err(DecodeError::Bounds { offset: off, need: 1, len: b.len() });
    }
    let mut end: usize = off;
    while end < b.len() && b[end] != 0
        invariant
            off <= end <= b@.len(),
            forall|j: int| off <= j < end ==> b@[j] != 0,
            nul_pos(b@, off as int) == nul_pos(b@, end as int),
        decreases b@.len() - end,
    {
        end = end + 1;
    }
    if end == b.len() {
        // unterminated: the scan hit the end of the buffer
        return Err(DecodeError::InvalidString { offset: off });
    }
    assert(nul_pos(b@, off as int) == end);
    let mut out: Vec<u8> = Vec::new();
    let mut i: usize = off;
    while i < end
        invariant
            off <= i <= end <= b@.len(),
            out@ == b@.subrange(off as int, i as int),
        decreases end - i,
    {
        out.push(b[i]);
        assert(out@ =~= b@.subrange(off as int, i + 1));
        i = i + 1;
    }
    assert(out@ =~= str_bytes_at(b@, off as int));
    if utf8_check(out.as_slice()) {
        Ok(out)
    } else {
        Err(DecodeError::InvalidString { offset: off })
    }
}

/// Whether `a` holds exactly the bytes of `s`.
pub fn bytes_eq_str(a: &Vec<u8>, s: &str) -> (r: bool)
    ensures
        r == (a@ == s.spec_bytes()),
{
    let sb = s.as_bytes();
    if a.len() != sb.len() {
        assert(a@.len() != s.spec_bytes().len());
        return false;
    }
    let mut i: usize = 0;
    while i < a.len()
        invariant
            0 <= i <= a@.len(),
            a@.len() == sb@.len(),
            sb@ == s.spec_bytes(),
            forall|j: int| 0 <= j < i ==> a@[j] == sb@[j],
        decreases a@.len() - i,
    {
        if a[i] != sb[i] {
            assert(a@ != s.spec_bytes());
            return false;
        }
        i = i + 1;
    }
    assert(a@ =~= s.spec_bytes());
    true
}


/// `v` clamped into the `usize` range.
pub open spec fn sat_usize(v: int) -> usize {
    if v > usize::MAX {
        usize::MAX as usize
    } else if v < 0 {
        0 as usize
    } else {
        v as usize
    }
}

/// The error reported for a read of `need` bytes at `off` that exceeds the
/// buffer.
pub open spec fn bounds_err(b: Seq<u8>, off: int, need: int) -> DecodeError {
    DecodeError::Bounds { offset: sat_usize(off), need: sat_usize(need), len: b.len() as usize }
}

/// Checks that `need` bytes starting at `off` lie inside the buffer and
/// hands the offset back as a `usize`.
pub fn check_range(b: &Vec<u8>, off: u64, need: u64) -> (r: Result<usize, DecodeError>)
    ensures
        match r {
            Ok(o) => off + need <= b@.len() && o == off,
            Err(e) => off + need > b@.len() && e == bounds_err(b@, off as int, need as int),
        },
{
    let len64: u64 = b.len() as u64;
    if off <= len64 && need <= len64 - off {
        Ok(off as usize)
    } else {
        let o: usize = if off > usize::MAX as u64 {
            usize::MAX
        } else {
            off as usize
        };
        let n: usize = if need > usize::MAX as u64 {
            usize::MAX
        } else {
            need as usize
        };
        Err(DecodeError::Bounds { offset: o, need: n, len: b.len() })
    }
}

/// Reads the 16-bit little-endian value at an offset already known to be in
/// range.
pub fn get_u16(b: &Vec<u8>, off: usize) -> (r: u16)
    requires
        off + 2 <= b@.len(),
    ensures
        r == le16(b@, off as int),
{
    let l = b.len();
    assert(off + 2 <= l);
    let lo = b[off];
    let hi = b[off + 1];
    (lo as u16) | ((hi as u16) << 8)
}

/// Reads the 32-bit little-endian value at an offset already known to be in
/// range.
pub fn get_u32(b: &Vec<u8>, off: usize) -> (r: u32)
    requires
        off + 4 <= b@.len(),
    ensures
        r == le32(b@, off as int),
{
    let l = b.len();
    assert(off + 4 <= l);
    let b0 = b[off];
    let b1 = b[off + 1];
    let b2 = b[off + 2];
    let b3 = b[off + 3];
    (b0 as u32) | ((b1 as u32) << 8) | ((b2 as u32) << 16) | ((b3 as u32) << 24)
}

/// Reads the 16-bit little-endian value at an in-range offset as a signed
/// quantity.
pub fn get_i16(b: &Vec<u8>, off: usize) -> (r: i16)
    requires
        off + 2 <= b@.len(),
    ensures
        r == le16(b@, off as int) as i16,
{
    get_u16(b, off) as i16
}

/// The result of reading the NUL-terminated string at `off`: the error the
/// reader reports, or the string's bytes.
pub open spec fn str_read_r(b: Seq<u8>, off: int) -> Result<Seq<u8>, DecodeError> {
    if off >= b.len() {
        Err(DecodeError::Bounds { offset: sat_usize(off), need: 1 as usize, len: b.len() as usize })
    } else if nul_pos(b, off) >= b.len() || !valid_utf8(str_bytes_at(b, off)) {
        Err(DecodeError::InvalidString { offset: sat_usize(off) })
    } else {
        Ok(str_bytes_at(b, off))
    }
}

/// Reads the NUL-terminated UTF-8 string referenced by a 32-bit offset.
pub fn read_str32(b: &Vec<u8>, off: u32) -> (r: Result<Vec<u8>, DecodeError>)
    ensures
        match r {
            Ok(v) => str_read_r(b@, off as int) == Ok::<Seq<u8>, DecodeError>(v@),
            Err(e) => str_read_r(b@, off as int) == Err::<Seq<u8>, DecodeError>(e),
        },
{
    read_str(b, off as usize)
}

} // verus!
