use vstd::prelude::*;

verus! {

/// The marker length that announces an extended 64-bit record length.
pub const EXTENDED_LENGTH_MARKER: u32 = 0xffff_ffff;

/// The little-endian 32-bit value stored at `off`.
pub open spec fn le32(s: Seq<u8>, off: int) -> int {
    s[off] + s[off + 1] * 0x100 + s[off + 2] * 0x1_0000 + s[off + 3] * 0x100_0000
}

/// The little-endian 64-bit value stored at `off`.
pub open spec fn le64(s: Seq<u8>, off: int) -> int {
    le32(s, off) + le32(s, off + 4) * 0x1_0000_0000
}

/// Reads the little-endian 32-bit value at `off`.
pub fn read_u32(data: &Vec<u8>, off: usize) -> (r: u32)
    requires
        off + 4 <= data@.len(),
    ensures
        r == le32(data@, off as int),
{
    proof {
        // The buffer's length, and so every index below, fits a machine word.
        assert(data.len() == data@.len());
    }
    (data[off] as u32) + (data[off + 1] as u32) * 0x100 + (data[off + 2] as u32) * 0x1_0000
        + (data[off + 3] as u32) * 0x100_0000
}

/// Reads the little-endian 64-bit value at `off`.
pub fn read_u64(data: &Vec<u8>, off: usize) -> (r: u64)
    requires
        off + 8 <= data@.len(),
    ensures
        r == le64(data@, off as int),
{
    proof {
        assert(data.len() == data@.len());
    }
    let lo = read_u32(data, off);
    let hi = read_u32(data, off + 4);
    (lo as u64) + (hi as u64) * 0x1_0000_0000
}

/// What one record of a call-frame chain asks for next: the chain ends just
/// after a zero-length record, continues at the next record's offset, or is
/// given up when a self-declared length runs past the address space.
#[derive(Clone, Copy, Debug, PartialEq, Eq, Structural)]
pub enum WalkStep {
    /// A zero length terminates the chain; the end lies just past it.
    Done(u64),
    /// The next record starts here, strictly beyond the current one.
    Next(u64),
    /// The declared length cannot be followed.
    Fail,
}

/// One step of the call-frame record walk, from plain values: the record's
/// offset, its 32-bit length field, and, where that field is the extended
/// marker, the 64-bit length that follows it. Each step consumes exactly
/// the record's self-declared size, so the walk always moves forward and a
/// length that leaves the address space stops it instead of wrapping.
pub fn walk_step(off: u64, len32: u32, ext: u64) -> (r: WalkStep)
    ensures
        len32 == 0 ==> (if off + 4 <= u64::MAX {
            r == WalkStep::Done((off + 4) as u64)
        } else {
            r == WalkStep::Fail
        }),
        len32 != 0 && len32 != EXTENDED_LENGTH_MARKER ==> (if off + 4 + len32 <= u64::MAX {
            r == WalkStep::Next((off + 4 + len32) as u64)
        } else {
            r == WalkStep::Fail
        }),
        len32 == EXTENDED_LENGTH_MARKER ==> (if off + 12 + ext <= u64::MAX {
            r == WalkStep::Next((off + 12 + ext) as u64)
        } else {
            r == WalkStep::Fail
        }),
        r matches WalkStep::Next(o2) ==> o2 > off,
        r matches WalkStep::Done(e) ==> e == off + 4,
{
    if len32 == 0 {
        match off.checked_add(4) {
            Some(e) => WalkStep::Done(e),
            None => WalkStep::Fail,
        }
    } else if len32 == EXTENDED_LENGTH_MARKER {
        match off.checked_add(12) {
            Some(b) => match b.checked_add(ext) {
                Some(o2) => WalkStep::Next(o2),
                None => WalkStep::Fail,
            },
            None => WalkStep::Fail,
        }
    } else {
        match off.checked_add(4 + len32 as u64) {
            Some(o2) => WalkStep::Next(o2),
            None => WalkStep::Fail,
        }
    }
}

/// Why a call-frame chain scan over a byte buffer gave up: some record's
/// self-declared length (or the length field itself) runs past the end of
/// the buffer, so following it would read out of bounds.
#[derive(Clone, Copy, Debug, PartialEq, Eq, Structural)]
pub enum CfiScanError {
    Truncated,
}

/// Where the call-frame record chain starting at `off` ends (one past its
/// zero-length terminator), or None when a record is truncated: its length
/// field or its self-declared extent runs past the end of the buffer.
pub open spec fn spec_scan_chain(s: Seq<u8>, off: int) -> Option<int>
    decreases s.len() - off,
{
    if off < 0 || off + 4 > s.len() {
        None
    } else if le32(s, off) == 0 {
        Some(off + 4)
    } else if le32(s, off) == EXTENDED_LENGTH_MARKER {
        if off + 12 > s.len() {
            None
        } else if off + 12 + le64(s, off + 4) > s.len() {
            None
        } else {
            spec_scan_chain(s, off + 12 + le64(s, off + 4))
        }
    } else {
        if off + 4 + le32(s, off) > s.len() {
            None
        } else {
            spec_scan_chain(s, off + 4 + le32(s, off))
        }
    }
}

/// Why the exception-frame header could not yield a call-frame pointer.
#[derive(Clone, Copy, Debug, PartialEq, Eq, Structural)]
pub enum EhHdrError {
    /// The header or its encoded pointer field is cut short.
    Truncated,
    /// The header's version byte is not the one this format defines.
    UnsupportedVersion,
    /// The pointer is encoded in a form the scan does not evaluate.
    UnsupportedEncoding,
    /// The pointer is indirect: it names a slot to read, not an address.
    Indirect,
    /// Applying the encoding left the 64-bit address space.
    Overflow,
}

/// How many bytes the encoded pointer occupies for a supported format.
pub open spec fn enc_size(fmt: u8) -> int {
    if fmt == 0x03 || fmt == 0x0b {
        4
    } else {
        8
    }
}

/// The encoded pointer field read as a (signed) mathematical integer:
/// 4-byte or 8-byte, unsigned or two's-complement signed, per format.
pub open spec fn enc_value(s: Seq<u8>, fmt: u8) -> int {
    if fmt == 0x03 {
        le32(s, 4)
    } else if fmt == 0x0b {
        if le32(s, 4) < 0x8000_0000 {
            le32(s, 4)
        } else {
            le32(s, 4) - 0x1_0000_0000
        }
    } else if fmt == 0x0c {
        if le64(s, 4) < 0x8000_0000_0000_0000 {
            le64(s, 4)
        } else {
            le64(s, 4) - 0x1_0000_0000_0000_0000
        }
    } else {
        le64(s, 4)
    }
}

/// What the exception-frame header's bytes say the call-frame data's
/// address is. The header holds a version byte, three encoding bytes, and
/// the encoded pointer; the pointer may be stored absolute or relative to
/// its own field (which sits four bytes into the header). Absolute-width,
/// 4- and 8-byte data formats are evaluated; anything else, an indirect
/// pointer, or a result outside the address space is refused rather than
/// guessed at.
pub open spec fn spec_eh_frame_ptr(s: Seq<u8>, hdr_avma: u64) -> Result<u64, EhHdrError> {
    if s.len() < 4 {
        Err(EhHdrError::Truncated)
    } else if s[0] != 1 {
        Err(EhHdrError::UnsupportedVersion)
    } else if s[1] & 0x80 != 0 {
        Err(EhHdrError::Indirect)
    } else if s[1] & 0x70 != 0x00 && s[1] & 0x70 != 0x10 {
        Err(EhHdrError::UnsupportedEncoding)
    } else if s[1] & 0x0f != 0x00 && s[1] & 0x0f != 0x03 && s[1] & 0x0f != 0x04
        && s[1] & 0x0f != 0x0b && s[1] & 0x0f != 0x0c {
        Err(EhHdrError::UnsupportedEncoding)
    } else if s.len() < 4 + enc_size(s[1] & 0x0f) {
        Err(EhHdrError::Truncated)
    } else if s[1] & 0x70 == 0x10 && hdr_avma + 4 > u64::MAX {
        // The encoded field's own address must lie in the address space
        // before anything can be relative to it.
        Err(EhHdrError::Overflow)
    } else {
        let base: int = if s[1] & 0x70 == 0x10 {
            hdr_avma + 4
        } else {
            0
        };
        let target = base + enc_value(s, s[1] & 0x0f);
        if 0 <= target <= u64::MAX {
            Ok(target as u64)
        } else {
            Err(EhHdrError::Overflow)
        }
    }
}

/// Parses the exception-frame header and evaluates its encoded pointer to
/// the call-frame data, exactly as `spec_eh_frame_ptr` states it.
pub fn parse_eh_frame_hdr(data: &Vec<u8>, hdr_avma: u64) -> (r: Result<u64, EhHdrError>)
    ensures
        r == spec_eh_frame_ptr(data@, hdr_avma),
{
    let n = data.len();
    if n < 4 {
        return Err(EhHdrError::Truncated);
    }
    if data[0] != 1 {
        return Err(EhHdrError::UnsupportedVersion);
    }
    let e = data[1];
    if e & 0x80 != 0 {
        return Err(EhHdrError::Indirect);
    }
    let app = e & 0x70;
    if app != 0x00 && app != 0x10 {
        return Err(EhHdrError::UnsupportedEncoding);
    }
    let fmt = e & 0x0f;
    if fmt != 0x00 && fmt != 0x03 && fmt != 0x04 && fmt != 0x0b && fmt != 0x0c {
        return Err(EhHdrError::UnsupportedEncoding);
    }
    let width: usize = if fmt == 0x03 || fmt == 0x0b {
        4
    } else {
        8
    };
    if n - 4 < width {
        return Err(EhHdrError::Truncated);
    }
    let base: u64 = if app == 0x10 {
        match hdr_avma.checked_add(4) {
            Some(b) => b,
            None => {
                return Err(EhHdrError::Overflow);
            }
        }
    } else {
        0
    };
    if fmt == 0x03 {
        let v = read_u32(data, 4);
        match base.checked_add(v as u64) {
            Some(t) => Ok(t),
            None => Err(EhHdrError::Overflow),
        }
    } else if fmt == 0x0b {
        let v = read_u32(data, 4);
        if v < 0x8000_0000 {
            match base.checked_add(v as u64) {
                Some(t) => Ok(t),
                None => Err(EhHdrError::Overflow),
            }
        } else {
            let amount: u64 = 0x1_0000_0000u64 - v as u64;
            match base.checked_sub(amount) {
                Some(t) => Ok(t),
                None => Err(EhHdrError::Overflow),
            }
        }
    } else if fmt == 0x0c {
        let v = read_u64(data, 4);
        if v < 0x8000_0000_0000_0000 {
            match base.checked_add(v) {
                Some(t) => Ok(t),
                None => Err(EhHdrError::Overflow),
            }
        } else {
            let amount: u64 = (u64::MAX - v) + 1;
            match base.checked_sub(amount) {
                Some(t) => Ok(t),
                None => Err(EhHdrError::Overflow),
            }
        }
    } else {
        let v = read_u64(data, 4);
        match base.checked_add(v) {
            Some(t) => Ok(t),
            None => Err(EhHdrError::Overflow),
        }
    }
}

/// Walks the length-prefixed call-frame records in the buffer from its
/// start until the zero-length terminator, consuming each record's
/// self-declared size (including the extended 64-bit encoding) as the
/// bounds check. Returns where the chain ends, or an error as soon as a
/// record's length field is truncated or its declared extent leaves the
/// buffer; nothing past the end of the buffer is ever read.
pub fn scan_cfi_chain(data: &Vec<u8>) -> (r: Result<usize, CfiScanError>)
    ensures
        r matches Ok(end) ==> Some(end as int) == spec_scan_chain(data@, 0) && end <= data@.len(),
        r is Err ==> spec_scan_chain(data@, 0) is None,
{
    let n = data.len();
    let mut off: usize = 0;
    loop
        invariant
            off <= n,
            n == data@.len(),
            spec_scan_chain(data@, 0) == spec_scan_chain(data@, off as int),
        decreases n - off,
    {
        if n - off < 4 {
            return Err(CfiScanError::Truncated);
        }
        let len32 = read_u32(data, off);
        let mut ext: u64 = 0;
        if len32 == EXTENDED_LENGTH_MARKER {
            if n - off < 12 {
                return Err(CfiScanError::Truncated);
            }
            ext = read_u64(data, off + 4);
        }
        match walk_step(off as u64, len32, ext) {
            WalkStep::Done(end) => {
                return Ok(off + 4);
            }
            WalkStep::Next(o2) => {
                if o2 > n as u64 {
                    return Err(CfiScanError::Truncated);
                }
                off = o2 as usize;
            }
            WalkStep::Fail => {
                return Err(CfiScanError::Truncated);
            }
        }
    }
}

} // verus!
