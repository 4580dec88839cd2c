use vstd::prelude::*;

use crate::eh_frame::{le32, le64, read_u32, read_u64};

verus! {

/// The magic number of a 64-bit Mach-O header.
pub const MH_MAGIC_64: u32 = 0xfeed_facf;

/// The load-command tag of a 64-bit segment command.
pub const LC_SEGMENT_64: u32 = 0x19;

/// The byte size of a 64-bit Mach-O header.
pub const MACH_HEADER_64_SIZE: usize = 32;

/// The minimum byte size of a 64-bit segment command, up to and including
/// the file-offset field the scan reads.
pub const SEGMENT_COMMAND_64_MIN_SIZE: u32 = 72;

/// The text segment of a Mach-O image, as its load command states it.
#[derive(Clone, Copy, Debug, PartialEq, Eq, Structural)]
pub struct MachTextSegment {
    pub vmaddr: u64,
    pub vmsize: u64,
    pub fileoff: u64,
}

/// Why a Mach-O image yielded no text segment.
#[derive(Clone, Copy, Debug, PartialEq, Eq, Structural)]
pub enum MachoError {
    /// The header or a load command runs past the end of the buffer.
    Truncated,
    /// The image does not carry the 64-bit Mach-O magic.
    BadMagic,
    /// A load command declares size zero, so the walk cannot advance.
    Stuck,
    /// No 64-bit segment command names the text segment.
    NoTextSegment,
}

/// Whether the load command at `off` is a 64-bit segment command, long
/// enough to read, whose segment name is exactly the text segment's.
pub open spec fn is_text_command(s: Seq<u8>, off: int) -> bool {
    &&& le32(s, off) == LC_SEGMENT_64
    &&& le32(s, off + 4) >= SEGMENT_COMMAND_64_MIN_SIZE
    &&& s[off + 8] == 0x5f
    &&& s[off + 9] == 0x5f
    &&& s[off + 10] == 0x54
    &&& s[off + 11] == 0x45
    &&& s[off + 12] == 0x58
    &&& s[off + 13] == 0x54
    &&& s[off + 14] == 0
}

/// The text segment stated by the command chain at `off` with `remaining`
/// commands left to visit: each step consumes exactly the command's
/// self-declared size, a zero size stops the walk, and a size that runs
/// past the buffer stops it before anything out of bounds is read.
pub open spec fn spec_find_text(s: Seq<u8>, off: int, remaining: nat) -> Result<
    MachTextSegment,
    MachoError,
>
    decreases remaining,
{
    if remaining == 0 {
        Err(MachoError::NoTextSegment)
    } else if off + 8 > s.len() {
        Err(MachoError::Truncated)
    } else if le32(s, off + 4) == 0 {
        Err(MachoError::Stuck)
    } else if off + le32(s, off + 4) > s.len() {
        Err(MachoError::Truncated)
    } else if is_text_command(s, off) {
        Ok(MachTextSegment {
            vmaddr: le64(s, off + 24) as u64,
            vmsize: le64(s, off + 32) as u64,
            fileoff: le64(s, off + 40) as u64,
        })
    } else {
        spec_find_text(s, off + le32(s, off + 4), (remaining - 1) as nat)
    }
}

/// The text segment of the 64-bit Mach-O image held in `s`: the header's
/// magic is checked, then its load commands are walked.
pub open spec fn spec_macho_text(s: Seq<u8>) -> Result<MachTextSegment, MachoError> {
    if s.len() < MACH_HEADER_64_SIZE {
        Err(MachoError::Truncated)
    } else if le32(s, 0) != MH_MAGIC_64 {
        Err(MachoError::BadMagic)
    } else {
        spec_find_text(s, MACH_HEADER_64_SIZE as int, le32(s, 16) as nat)
    }
}

/// Finds the sole recognized text segment of a 64-bit Mach-O image by
/// validating the header's magic and walking its load commands as a
/// bounded cursor: every step consumes the command's self-declared size as
/// the bounds check, zero forward progress aborts the walk rather than
/// looping, and nothing past the end of the buffer is read.
pub fn parse_macho_text(data: &Vec<u8>) -> (r: Result<MachTextSegment, MachoError>)
    ensures
        r == spec_macho_text(data@),
{
    let n = data.len();
    if n < MACH_HEADER_64_SIZE {
        return Err(MachoError::Truncated);
    }
    if read_u32(data, 0) != MH_MAGIC_64 {
        return Err(MachoError::BadMagic);
    }
    let ncmds = read_u32(data, 16);
    let mut off: usize = MACH_HEADER_64_SIZE;
    let mut remaining: u32 = ncmds;
    loop
        invariant
            off <= n,
            n == data@.len(),
            spec_macho_text(data@) == spec_find_text(data@, off as int, remaining as nat),
        decreases remaining,
    {
        if remaining == 0 {
            return Err(MachoError::NoTextSegment);
        }
        if n - off < 8 {
            return Err(MachoError::Truncated);
        }
        let cmd = read_u32(data, off);
        let cmdsize = read_u32(data, off + 4);
        if cmdsize == 0 {
            return Err(MachoError::Stuck);
        }
        if cmdsize as usize > n - off {
            return Err(MachoError::Truncated);
        }
        if cmd == LC_SEGMENT_64 && cmdsize >= SEGMENT_COMMAND_64_MIN_SIZE && data[off + 8] == 0x5f
            && data[off + 9] == 0x5f && data[off + 10] == 0x54 && data[off + 11] == 0x45
            && data[off + 12] == 0x58 && data[off + 13] == 0x54 && data[off + 14] == 0 {
            return Ok(MachTextSegment {
                vmaddr: read_u64(data, off + 24),
                vmsize: read_u64(data, off + 32),
                fileoff: read_u64(data, off + 40),
            });
        }
        off = off + cmdsize as usize;
        remaining = remaining - 1;
    }
}

/// Where a Mach-O module sits once the loader's slide is accounted for.
#[derive(Clone, Copy, Debug, PartialEq, Eq, Structural)]
pub struct MachModuleLayout {
    /// The module's runtime base: where its header actually sits.
    pub base_avma: u64,
    /// The module's stated base: the text segment's stated address.
    pub base_svma: u64,
    /// The text segment's runtime address range.
    pub text_avma_start: u64,
    pub text_avma_end: u64,
}

/// Places a Mach-O text segment in the running process. When the text
/// segment begins at file offset zero it covers the header, so its stated
/// address corresponds to the header's runtime address and the whole
/// segment sits at the header. When it does not, the stated addresses are
/// shifted by that file offset before the loader's slide is applied, to
/// keep the module's base internally consistent with the slide. The
/// shifting rule for that second case is an empirical heuristic observed
/// on real images, not a documented guarantee of the format. Returns None
/// when the arithmetic leaves the 64-bit address space.
pub fn macho_layout(header_avma: u64, t: &MachTextSegment) -> (r: Option<MachModuleLayout>)
    ensures
        r matches Some(l) ==> {
            &&& l.base_avma == header_avma
            &&& l.base_svma == t.vmaddr - t.fileoff
            &&& l.text_avma_start == header_avma + t.fileoff
            &&& l.text_avma_end == header_avma + t.fileoff + t.vmsize
        },
        r is None ==> t.vmaddr < t.fileoff || header_avma + t.fileoff + t.vmsize > u64::MAX,
{
    let base_svma = match t.vmaddr.checked_sub(t.fileoff) {
        Some(v) => v,
        None => {
            return None;
        }
    };
    let start = match header_avma.checked_add(t.fileoff) {
        Some(v) => v,
        None => {
            return None;
        }
    };
    let end = match start.checked_add(t.vmsize) {
        Some(v) => v,
        None => {
            return None;
        }
    };
    Some(MachModuleLayout { base_avma: header_avma, base_svma, text_avma_start: start, text_avma_end: end })
}

} // verus!
