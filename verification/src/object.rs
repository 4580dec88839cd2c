use vstd::prelude::*;

use crate::unwinder::ModuleInfo;

verus! {

/// Program-header type of a loadable segment.
pub const PT_LOAD: u32 = 1;

/// Program-header type of the GNU exception-frame-header segment.
pub const PT_GNU_EH_FRAME: u32 = 0x6474e550;

/// Flag bit of an executable segment.
pub const PF_X: u32 = 1;

/// Flag bit of a readable segment.
pub const PF_R: u32 = 4;

/// One segment of a module, as its program header states it: a virtual
/// address offset relative to the module's base, and a size in bytes.
#[derive(Clone, Copy, Debug, PartialEq, Eq, Structural)]
pub struct Segment {
    pub p_vaddr: usize,
    pub p_memsz: usize,
}

/// One program header, reduced to the plain values the scan reads.
#[derive(Clone, Copy, Debug, PartialEq, Eq, Structural)]
pub struct PhdrRecord {
    pub p_type: u32,
    pub p_flags: u32,
    pub p_vaddr: usize,
    pub p_memsz: usize,
}

impl PhdrRecord {
    /// The segment this header describes.
    pub open spec fn spec_segment(self) -> Segment {
        Segment { p_vaddr: self.p_vaddr, p_memsz: self.p_memsz }
    }

    pub fn segment(&self) -> (s: Segment)
        ensures
            s == self.spec_segment(),
    {
        Segment { p_vaddr: self.p_vaddr, p_memsz: self.p_memsz }
    }
}

/// Whether a program header describes the text segment: the loadable
/// segment whose flags are exactly executable plus readable.
pub open spec fn is_text_phdr(r: PhdrRecord) -> bool {
    r.p_type == PT_LOAD && r.p_flags == (PF_X | PF_R)
}

/// Whether a program header describes the exception-frame-header segment.
pub open spec fn is_eh_frame_hdr_phdr(r: PhdrRecord) -> bool {
    r.p_type == PT_GNU_EH_FRAME
}

/// What one module's program-header scan found: the index of the first text
/// segment and of the first exception-frame-header segment, if any, and
/// whether a later duplicate of either was seen (kept out, worth a warning).
#[derive(Clone, Copy, Debug, PartialEq, Eq, Structural)]
pub struct PhdrScan {
    pub text: Option<usize>,
    pub eh_frame_hdr: Option<usize>,
    pub dup_text: bool,
    pub dup_eh_frame_hdr: bool,
}

/// Scans one module's program headers. Of several text (or several
/// exception-frame-header) segments, the first is kept and the rest are
/// only reported as duplicates; a module with no text segment yields None
/// there and is skipped by discovery, never aborting the whole scan.
pub fn scan_phdrs(phdrs: &Vec<PhdrRecord>) -> (r: PhdrScan)
    ensures
        r.text matches Some(i) ==> i < phdrs@.len() && is_text_phdr(phdrs@[i as int])
            && (forall|j: int| 0 <= j < i ==> !is_text_phdr(phdrs@[j])),
        r.text is None ==> forall|j: int| 0 <= j < phdrs@.len() ==> !is_text_phdr(phdrs@[j]),
        r.eh_frame_hdr matches Some(i) ==> i < phdrs@.len() && is_eh_frame_hdr_phdr(phdrs@[i as int])
            && (forall|j: int| 0 <= j < i ==> !is_eh_frame_hdr_phdr(phdrs@[j])),
        r.eh_frame_hdr is None ==> forall|j: int| 0 <= j < phdrs@.len() ==> !is_eh_frame_hdr_phdr(phdrs@[j]),
        r.dup_text == exists|i: int, j: int| 0 <= i < j < phdrs@.len()
            && #[trigger] is_text_phdr(phdrs@[i]) && #[trigger] is_text_phdr(phdrs@[j]),
        r.dup_eh_frame_hdr == exists|i: int, j: int| 0 <= i < j < phdrs@.len()
            && #[trigger] is_eh_frame_hdr_phdr(phdrs@[i]) && #[trigger] is_eh_frame_hdr_phdr(phdrs@[j]),
{
    let mut text: Option<usize> = None;
    let mut eh: Option<usize> = None;
    let mut dup_text: bool = false;
    let mut dup_eh: bool = false;
    let n = phdrs.len();
    let mut k: usize = 0;
    while k < n
        invariant
            n == phdrs@.len(),
            k <= n,
            text matches Some(i) ==> i < k && is_text_phdr(phdrs@[i as int])
                && (forall|j: int| 0 <= j < i ==> !is_text_phdr(phdrs@[j])),
            text is None ==> forall|j: int| 0 <= j < k ==> !is_text_phdr(phdrs@[j]),
            eh matches Some(i) ==> i < k && is_eh_frame_hdr_phdr(phdrs@[i as int])
                && (forall|j: int| 0 <= j < i ==> !is_eh_frame_hdr_phdr(phdrs@[j])),
            eh is None ==> forall|j: int| 0 <= j < k ==> !is_eh_frame_hdr_phdr(phdrs@[j]),
            dup_text == exists|i: int, j: int| 0 <= i < j < k
                && #[trigger] is_text_phdr(phdrs@[i]) && #[trigger] is_text_phdr(phdrs@[j]),
            dup_eh == exists|i: int, j: int| 0 <= i < j < k
                && #[trigger] is_eh_frame_hdr_phdr(phdrs@[i]) && #[trigger] is_eh_frame_hdr_phdr(phdrs@[j]),
        decreases n - k,
    {
        let rec = phdrs[k];
        proof {
            assert(rec == phdrs@[k as int]);
            assert(is_text_phdr(phdrs@[k as int]) == (rec.p_type == PT_LOAD && rec.p_flags == (
            PF_X | PF_R)));
            assert(is_eh_frame_hdr_phdr(phdrs@[k as int]) == (rec.p_type == PT_GNU_EH_FRAME));
        }
        if rec.p_type == PT_LOAD && rec.p_flags == (PF_X | PF_R) {
            if text.is_some() {
                dup_text = true;
            } else {
                text = Some(k);
            }
        } else if rec.p_type == PT_GNU_EH_FRAME {
            if eh.is_some() {
                dup_eh = true;
            } else {
                eh = Some(k);
            }
        }
        k = k + 1;
    }
    PhdrScan { text, eh_frame_hdr: eh, dup_text, dup_eh_frame_hdr: dup_eh }
}

/// One discovered module's identity and placement: its runtime base
/// address, the path it was loaded from, and its sole text segment.
#[derive(Debug)]
pub struct ObjectPhdr {
    pub base_addr: usize,
    pub path: String,
    pub text: Segment,
}

impl ObjectPhdr {
    /// The text segment's addresses stay within the 64-bit address space.
    pub open spec fn wf(&self) -> bool {
        self.base_addr + self.text.p_vaddr + self.text.p_memsz <= u64::MAX
    }
}

/// The call-frame byte ranges a live scan located in the running process's
/// memory: the exception-frame header segment, and the call-frame record
/// chain it points at. Both are actual (runtime) address ranges.
#[derive(Clone, Copy, Debug, PartialEq, Eq, Structural)]
pub struct EhFrameData {
    pub eh_frame_hdr_start: u64,
    pub eh_frame_hdr_end: u64,
    pub eh_frame_start: u64,
    pub eh_frame_end: u64,
}

/// The section placements read out of a memory-mapped copy of the module's
/// file, each as a stated (file) address range, where present.
#[derive(Clone, Copy, Debug, PartialEq, Eq)]
pub struct SectionRanges {
    pub text: Option<(u64, u64)>,
    pub eh_frame_hdr: Option<(u64, u64)>,
    pub eh_frame: Option<(u64, u64)>,
    pub got: Option<(u64, u64)>,
}

/// Where a module's unwind metadata comes from: section ranges of a
/// memory-mapped copy of its file, or a call-frame byte range located by
/// scanning live memory when the file cannot be read.
#[derive(Clone, Copy, Debug, PartialEq, Eq)]
pub enum UnwindData {
    Mmap(SectionRanges),
    EhFrame(EhFrameData),
}

/// One module ready for the engine: its placement plus the location of its
/// unwind metadata. Immutable after construction.
#[derive(Debug)]
pub struct Object {
    pub phdr: ObjectPhdr,
    pub unwind_data: UnwindData,
}

impl Object {
    /// Live-scanned ranges lie at or above the module's base, so that their
    /// stated addresses can be recovered by subtracting it.
    pub open spec fn wf(&self) -> bool {
        &&& self.phdr.wf()
        &&& match self.unwind_data {
            UnwindData::Mmap(_) => true,
            UnwindData::EhFrame(d) => {
                &&& self.phdr.base_addr <= d.eh_frame_hdr_start <= d.eh_frame_hdr_end
                &&& self.phdr.base_addr <= d.eh_frame_start <= d.eh_frame_end
            },
        }
    }

    /// The module's runtime base address.
    pub fn base_addr(&self) -> (r: usize)
        ensures
            r == self.phdr.base_addr,
    {
        self.phdr.base_addr
    }

    /// The text segment's stated address range, relative to the base.
    pub fn text_svma(&self) -> (r: (usize, usize))
        requires
            self.phdr.text.p_vaddr + self.phdr.text.p_memsz <= usize::MAX,
        ensures
            r.0 == self.phdr.text.p_vaddr,
            r.1 == self.phdr.text.p_vaddr + self.phdr.text.p_memsz,
    {
        (self.phdr.text.p_vaddr, self.phdr.text.p_vaddr + self.phdr.text.p_memsz)
    }

    /// The module description the engine consumes. The text range is placed
    /// at base plus stated offset; the unwind sections are passed on as
    /// stated ranges, with live-scanned runtime ranges rebased first. The
    /// stated base is zero, as it is for this object format.
    pub fn to_module(&self) -> (m: ModuleInfo)
        requires
            self.wf(),
        ensures
            m.name == self.phdr.path,
            m.base_avma == self.phdr.base_addr as u64,
            m.avma_start == self.phdr.base_addr + self.phdr.text.p_vaddr,
            m.avma_end == self.phdr.base_addr + self.phdr.text.p_vaddr + self.phdr.text.p_memsz,
            m.base_svma == 0,
            match self.unwind_data {
                UnwindData::Mmap(s) => {
                    &&& m.text_svma == s.text
                    &&& m.got_svma == s.got
                    &&& m.eh_frame_svma == s.eh_frame
                    &&& m.eh_frame_hdr_svma == s.eh_frame_hdr
                },
                UnwindData::EhFrame(d) => {
                    &&& m.text_svma == Some((self.phdr.text.p_vaddr as u64,
                        (self.phdr.text.p_vaddr + self.phdr.text.p_memsz) as u64))
                    &&& m.got_svma is None
                    &&& m.eh_frame_svma == Some(((d.eh_frame_start - self.phdr.base_addr) as u64,
                        (d.eh_frame_end - self.phdr.base_addr) as u64))
                    &&& m.eh_frame_hdr_svma == Some(((d.eh_frame_hdr_start - self.phdr.base_addr) as u64,
                        (d.eh_frame_hdr_end - self.phdr.base_addr) as u64))
                },
            },
    {
        let base = self.phdr.base_addr as u64;
        let avma_start = base + self.phdr.text.p_vaddr as u64;
        let avma_end = avma_start + self.phdr.text.p_memsz as u64;
        match &self.unwind_data {
            UnwindData::Mmap(s) => ModuleInfo {
                name: self.phdr.path.clone(),
                avma_start,
                avma_end,
                base_avma: base,
                base_svma: 0,
                text_svma: s.text,
                got_svma: s.got,
                eh_frame_svma: s.eh_frame,
                eh_frame_hdr_svma: s.eh_frame_hdr,
            },
            UnwindData::EhFrame(d) => ModuleInfo {
                name: self.phdr.path.clone(),
                avma_start,
                avma_end,
                base_avma: base,
                base_svma: 0,
                text_svma: Some((
                    self.phdr.text.p_vaddr as u64,
                    self.phdr.text.p_vaddr as u64 + self.phdr.text.p_memsz as u64,
                )),
                got_svma: None,
                eh_frame_svma: Some((d.eh_frame_start - base, d.eh_frame_end - base)),
                eh_frame_hdr_svma: Some((d.eh_frame_hdr_start - base, d.eh_frame_hdr_end - base)),
            },
        }
    }
}

/// A module entry never ends its text range before it starts.
pub open spec fn entry_wf(m: ModuleInfo) -> bool {
    m.avma_start <= m.avma_end
}

/// How two registry entries must relate: the one at the lower base address
/// also ends its text range before the other's begins.
pub open spec fn ordered_pair(a: ModuleInfo, b: ModuleInfo) -> bool {
    a.base_avma < b.base_avma && a.avma_end <= b.avma_start
}

/// Whether a new entry fits the registry: against every present entry it is
/// ordered one way or the other, so bases stay unique and text ranges stay
/// disjoint.
pub open spec fn can_insert(s: Seq<ModuleInfo>, m: ModuleInfo) -> bool {
    forall|i: int| 0 <= i < s.len()
        ==> #[trigger] ordered_pair(s[i], m) || ordered_pair(m, s[i])
}

/// How many entries state a base address strictly below `b`. On a list
/// sorted by base address this is the position where an entry with base
/// `b` belongs.
pub open spec fn num_below(s: Seq<ModuleInfo>, b: u64) -> nat
    decreases s.len(),
{
    if s.len() == 0 {
        0
    } else {
        (if s[0].base_avma < b {
            1nat
        } else {
            0nat
        }) + num_below(s.drop_first(), b)
    }
}

proof fn lemma_num_below_le_len(s: Seq<ModuleInfo>, b: u64)
    ensures
        num_below(s, b) <= s.len(),
    decreases s.len(),
{
    if s.len() > 0 {
        lemma_num_below_le_len(s.drop_first(), b);
    }
}

/// When the entries below position `k` are exactly those whose base lies
/// below `b`, the count of such entries is `k`.
proof fn lemma_num_below_is_split(s: Seq<ModuleInfo>, b: u64, k: int)
    requires
        0 <= k <= s.len(),
        forall|i: int| 0 <= i < k ==> (#[trigger] s[i]).base_avma < b,
        forall|i: int| k <= i < s.len() ==> (#[trigger] s[i]).base_avma >= b,
    ensures
        num_below(s, b) == k,
    decreases s.len(),
{
    if s.len() == 0 {
    } else {
        let t = s.drop_first();
        if k == 0 {
            assert(s[0].base_avma >= b);
            assert forall|i: int| 0 <= i < t.len() implies (#[trigger] t[i]).base_avma >= b by {
                assert(t[i] == s[i + 1]);
            }
            lemma_num_below_is_split(t, b, 0);
        } else {
            assert(s[0].base_avma < b);
            assert forall|i: int| 0 <= i < k - 1 implies (#[trigger] t[i]).base_avma < b by {
                assert(t[i] == s[i + 1]);
            }
            assert forall|i: int| k - 1 <= i < t.len() implies (#[trigger] t[i]).base_avma >= b by {
                assert(t[i] == s[i + 1]);
            }
            lemma_num_below_is_split(t, b, k - 1);
        }
    }
}

/// The process's module table: an immutable-after-build list of modules,
/// kept sorted by base address with pairwise disjoint text ranges, for
/// address-to-module lookup.
pub struct Registry {
    mods: Vec<ModuleInfo>,
}

impl Registry {
    /// The entries, in base-address order.
    pub closed spec fn entries(&self) -> Seq<ModuleInfo> {
        self.mods@
    }

    /// Every entry is well formed, and every pair in list order is ordered
    /// by base address and by text range alike.
    pub open spec fn wf(&self) -> bool {
        &&& forall|i: int| 0 <= i < self.entries().len() ==> entry_wf(#[trigger] self.entries()[i])
        &&& forall|i: int, j: int| 0 <= i < j < self.entries().len()
            ==> ordered_pair(#[trigger] self.entries()[i], #[trigger] self.entries()[j])
    }

    /// An empty registry.
    pub fn new() -> (r: Registry)
        ensures
            r.wf(),
            r.entries() =~= Seq::<ModuleInfo>::empty(),
    {
        Registry { mods: Vec::new() }
    }

    pub fn len(&self) -> (n: usize)
        ensures
            n == self.entries().len(),
    {
        self.mods.len()
    }

    pub fn get(&self, i: usize) -> (m: &ModuleInfo)
        requires
            i < self.entries().len(),
        ensures
            *m == self.entries()[i as int],
    {
        &self.mods[i]
    }

    /// Adds one module, keeping the registry sorted and its text ranges
    /// disjoint. A module whose base address or text range collides with a
    /// present entry is refused, and the registry is left unchanged: one
    /// bad module never spoils the table.
    pub fn insert(&mut self, m: ModuleInfo) -> (ok: bool)
        requires
            old(self).wf(),
            entry_wf(m),
        ensures
            final(self).wf(),
            ok == can_insert(old(self).entries(), m),
            ok ==> final(self).entries() =~= old(self).entries().insert(
                num_below(old(self).entries(), m.base_avma) as int,
                m,
            ),
            !ok ==> final(self).entries() =~= old(self).entries(),
    {
        let n = self.mods.len();
        let mut k: usize = 0;
        while k < n && self.mods[k].base_avma < m.base_avma
            invariant
                self.wf(),
                n == self.entries().len(),
                k <= n,
                forall|i: int| 0 <= i < k ==> (#[trigger] self.entries()[i]).base_avma < m.base_avma,
            decreases n - k,
        {
            k = k + 1;
        }
        // `k` is now the first position whose base address is not below the
        // new entry's; the entry can only stand there.
        if k > 0 {
            let prev = &self.mods[k - 1];
            if !(prev.avma_end <= m.avma_start) {
                proof {
                    let p = self.entries()[k - 1];
                    assert(!ordered_pair(p, m) && !ordered_pair(m, p));
                }
                return false;
            }
        }
        if k < n {
            let next = &self.mods[k];
            if !(m.base_avma < next.base_avma && m.avma_end <= next.avma_start) {
                proof {
                    let q = self.entries()[k as int];
                    assert(!ordered_pair(q, m) && !ordered_pair(m, q));
                }
                return false;
            }
        }
        proof {
            let s = self.entries();
            assert forall|i: int| 0 <= i < s.len()
                implies #[trigger] ordered_pair(s[i], m) || ordered_pair(m, s[i]) by {
                if i < k {
                    if i < k - 1 {
                        assert(ordered_pair(s[i], s[k - 1]));
                    }
                } else {
                    if i > k {
                        assert(ordered_pair(s[k as int], s[i]));
                    }
                }
            }
            // The scan position is exactly the count of bases below the
            // new entry's, which pins where the entry lands.
            assert forall|i: int| k <= i < s.len()
                implies (#[trigger] s[i]).base_avma >= m.base_avma by {
                if i > k {
                    assert(ordered_pair(s[k as int], s[i]));
                }
            }
            lemma_num_below_is_split(s, m.base_avma, k as int);
        }
        self.mods.insert(k, m);
        true
    }

    /// Looks up the module owning an address by binary search over the
    /// sorted bases: the candidate is the entry with the greatest base
    /// address strictly below the address, and it owns the address only if
    /// its text range contains it. An address exactly equal to some base,
    /// or below every base, or outside the candidate's text range, belongs
    /// to no module.
    pub fn find(&self, addr: u64) -> (r: Option<usize>)
        requires
            self.wf(),
        ensures
            r matches Some(i) ==> {
                &&& i < self.entries().len()
                &&& self.entries()[i as int].base_avma < addr
                &&& self.entries()[i as int].avma_start <= addr < self.entries()[i as int].avma_end
                &&& forall|j: int| i < j < self.entries().len()
                    ==> (#[trigger] self.entries()[j]).base_avma > addr
            },
            r is None ==> forall|i: int| 0 <= i < self.entries().len()
                ==> !((#[trigger] self.entries()[i]).base_avma < addr
                    && self.entries()[i].avma_start <= addr < self.entries()[i].avma_end
                    && (forall|j: int| i < j < self.entries().len()
                        ==> (#[trigger] self.entries()[j]).base_avma > addr)),
    {
        let n = self.mods.len();
        // Binary search for the first position whose base address is at or
        // above the probed address.
        let mut lo: usize = 0;
        let mut hi: usize = n;
        while lo < hi
            invariant
                self.wf(),
                n == self.entries().len(),
                lo <= hi <= n,
                forall|i: int| 0 <= i < lo ==> (#[trigger] self.entries()[i]).base_avma < addr,
                forall|i: int| hi <= i < n ==> (#[trigger] self.entries()[i]).base_avma >= addr,
            decreases hi - lo,
        {
            let mid = lo + (hi - lo) / 2;
            if self.mods[mid].base_avma < addr {
                proof {
                    assert forall|i: int| 0 <= i <= mid
                        implies (#[trigger] self.entries()[i]).base_avma < addr by {
                        if i < mid {
                            assert(ordered_pair(self.entries()[i], self.entries()[mid as int]));
                        }
                    }
                }
                lo = mid + 1;
            } else {
                proof {
                    assert forall|i: int| mid <= i < n
                        implies (#[trigger] self.entries()[i]).base_avma >= addr by {
                        if i > mid {
                            assert(ordered_pair(self.entries()[mid as int], self.entries()[i]));
                        }
                    }
                }
                hi = mid;
            }
        }
        if lo < n && self.mods[lo].base_avma == addr {
            // An address exactly equal to a module's base belongs to no
            // module.
            return None;
        }
        if lo == 0 {
            return None;
        }
        let cand = &self.mods[lo - 1];
        proof {
            assert forall|j: int| lo <= j < n
                implies (#[trigger] self.entries()[j]).base_avma > addr by {
                if j > lo {
                    assert(ordered_pair(self.entries()[lo as int], self.entries()[j]));
                }
            }
        }
        if cand.avma_start <= addr && addr < cand.avma_end {
            proof {
                assert forall|i: int| 0 <= i < self.entries().len()
                    && i != lo - 1 implies (#[trigger] self.entries()[i]).base_avma >= addr
                    || !((forall|j: int| i < j < self.entries().len()
                        ==> (#[trigger] self.entries()[j]).base_avma > addr)) by {
                    if i < lo - 1 {
                        assert(self.entries()[lo - 1].base_avma < addr);
                    }
                }
            }
            Some(lo - 1)
        } else {
            proof {
                assert forall|i: int| 0 <= i < self.entries().len()
                    implies !((#[trigger] self.entries()[i]).base_avma < addr
                        && self.entries()[i].avma_start <= addr < self.entries()[i].avma_end
                        && (forall|j: int| i < j < self.entries().len()
                            ==> (#[trigger] self.entries()[j]).base_avma > addr)) by {
                    if i + 1 < lo {
                        assert(ordered_pair(self.entries()[i], self.entries()[lo - 1]));
                        assert(self.entries()[lo - 1].base_avma < addr);
                    }
                }
            }
            None
        }
    }
}

/// The table and skip count that greedy insertion in input order yields,
/// starting from the entries `s` with `skipped` already skipped and the
/// inputs from position `i` on still to try: a malformed input or one that
/// does not fit the entries standing when it is tried is skipped and
/// counted, every other input lands at its base-order position.
pub open spec fn spec_build_step(
    s: Seq<ModuleInfo>,
    skipped: nat,
    mods: Seq<ModuleInfo>,
    i: int,
) -> (Seq<ModuleInfo>, nat)
    decreases mods.len() - i,
{
    if i < 0 || i >= mods.len() {
        (s, skipped)
    } else if entry_wf(mods[i]) && can_insert(s, mods[i]) {
        spec_build_step(
            s.insert(num_below(s, mods[i].base_avma) as int, mods[i]),
            skipped,
            mods,
            i + 1,
        )
    } else {
        spec_build_step(s, skipped + 1, mods, i + 1)
    }
}

/// What building the module table from these inputs must produce.
pub open spec fn spec_build(mods: Seq<ModuleInfo>) -> (Seq<ModuleInfo>, nat) {
    spec_build_step(Seq::empty(), 0, mods, 0)
}

/// Builds the process's module table from a batch of module descriptions.
/// Modules are taken in turn; exactly those that are malformed or that
/// collide with an entry already taken are skipped and counted, never
/// aborting the whole build, and the rest land in base-address order — the
/// result is precisely `spec_build` of the inputs. Every entry of the
/// result is one of the inputs, and entries plus skips account for every
/// input.
#[verifier::loop_isolation(false)]
pub fn build_registry(mods: Vec<ModuleInfo>) -> (r: (Registry, usize))
    ensures
        r.0.wf(),
        r.0.entries() =~= spec_build(mods@).0,
        r.1 == spec_build(mods@).1,
        r.0.entries().len() + r.1 == mods@.len(),
        forall|i: int| 0 <= i < r.0.entries().len() ==> mods@.contains(#[trigger] r.0.entries()[i]),
{
    let ghost orig = mods@;
    let total: usize = mods.len();
    let mut work = mods;
    let mut reg = Registry::new();
    let mut skipped: usize = 0;
    loop
        invariant
            reg.wf(),
            total == orig.len(),
            work@ =~= orig.skip((orig.len() - work@.len()) as int),
            reg.entries().len() + skipped + work@.len() == orig.len(),
            spec_build(orig) == spec_build_step(
                reg.entries(),
                skipped as nat,
                orig,
                orig.len() - work@.len(),
            ),
            forall|i: int| 0 <= i < reg.entries().len() ==> orig.contains(
                #[trigger] reg.entries()[i]),
        decreases work@.len(),
    {
        if work.len() == 0 {
            return (reg, skipped);
        }
        let ghost done = orig.len() - work@.len();
        let m = work.remove(0);
        proof {
            assert(m == orig[done]);
        }
        if m.avma_start <= m.avma_end {
            let ghost before = reg.entries();
            if reg.insert(m) {
                proof {
                    let k = num_below(before, m.base_avma) as int;
                    lemma_num_below_le_len(before, m.base_avma);
                    before.insert_ensures(k, m);
                    assert(orig.contains(m)) by {
                        assert(orig[done] == m);
                    }
                    assert forall|i: int| 0 <= i < reg.entries().len()
                        implies orig.contains(#[trigger] reg.entries()[i]) by {
                        if i < k {
                            assert(reg.entries()[i] == before[i]);
                        } else if i == k {
                            assert(reg.entries()[i] == m);
                        } else {
                            assert(reg.entries()[i] == before[i - 1]);
                        }
                    }
                    assert(spec_build_step(before, skipped as nat, orig, done)
                        == spec_build_step(reg.entries(), skipped as nat, orig, done + 1));
                }
            } else {
                proof {
                    assert(spec_build_step(before, skipped as nat, orig, done)
                        == spec_build_step(before, skipped as nat + 1, orig, done + 1));
                }
                skipped = skipped + 1;
            }
        } else {
            proof {
                assert(!entry_wf(m));
                assert(spec_build_step(reg.entries(), skipped as nat, orig, done)
                    == spec_build_step(reg.entries(), skipped as nat + 1, orig, done + 1));
            }
            skipped = skipped + 1;
        }
    }
}

/// Law: under the registry's invariant, an address lies in at most one
/// module's text range, so address-to-module attribution is unambiguous.
pub proof fn lemma_owner_unique(r: &Registry, addr: u64, i: int, j: int)
    requires
        r.wf(),
        0 <= i < r.entries().len(),
        0 <= j < r.entries().len(),
        r.entries()[i].avma_start <= addr < r.entries()[i].avma_end,
        r.entries()[j].avma_start <= addr < r.entries()[j].avma_end,
    ensures
        i == j,
{
    if i < j {
        assert(ordered_pair(r.entries()[i], r.entries()[j]));
    }
    if j < i {
        assert(ordered_pair(r.entries()[j], r.entries()[i]));
    }
}

/// Law: the registry is sorted by base address, and no two modules' text
/// ranges overlap.
pub proof fn lemma_registry_ordered(r: &Registry)
    requires
        r.wf(),
    ensures
        forall|i: int, j: int| 0 <= i < j < r.entries().len()
            ==> (#[trigger] r.entries()[i]).base_avma < (#[trigger] r.entries()[j]).base_avma,
        forall|i: int, j: int| 0 <= i < j < r.entries().len()
            ==> (#[trigger] r.entries()[i]).avma_end <= (#[trigger] r.entries()[j]).avma_start,
{
    assert forall|i: int, j: int| 0 <= i < j < r.entries().len()
        implies (#[trigger] r.entries()[i]).base_avma < (#[trigger] r.entries()[j]).base_avma
            && r.entries()[i].avma_end <= r.entries()[j].avma_start by {
        assert(ordered_pair(r.entries()[i], r.entries()[j]));
    }
}

} // verus!
