use vstd::prelude::*;

verus! {

/// Errors that can end a single unwind step. Every variant is recoverable by
/// the caller; none of them faults the process.
#[derive(Clone, Copy, Debug, PartialEq, Eq, Structural)]
pub enum StepError {
    /// A stack word that the step needed could not be read safely.
    UnreadableStack(u64),
    /// Frame-pointer unwinding would have moved down the stack.
    FramePointerMovedBackwards,
    /// Neither the code address nor the stack pointer changed.
    DidNotAdvance,
    /// Address arithmetic during the step overflowed.
    AddressOverflow,
    /// The recovered return address was null where it may not be.
    NullReturnAddress,
}

#[verifier::external_type_specification]
pub struct ExFramehopError(framehop::Error);

/// The word-aligned address a stack read starts at: the low three bits
/// cleared.
pub fn word_aligned(addr: u64) -> (r: u64)
    ensures
        r == addr & !7u64,
{
    addr & !7u64
}

/// Maps an engine error to the library's step error, variant for variant.
pub fn step_error_of(e: &framehop::Error) -> (r: StepError)
    ensures
        r == (match e {
            framehop::Error::CouldNotReadStack(a) => StepError::UnreadableStack(*a),
            framehop::Error::FramepointerUnwindingMovedBackwards => StepError::FramePointerMovedBackwards,
            framehop::Error::DidNotAdvance => StepError::DidNotAdvance,
            framehop::Error::IntegerOverflow => StepError::AddressOverflow,
            framehop::Error::ReturnAddressIsNull => StepError::NullReturnAddress,
        }),
{
    match e {
        framehop::Error::CouldNotReadStack(a) => StepError::UnreadableStack(*a),
        framehop::Error::FramepointerUnwindingMovedBackwards => StepError::FramePointerMovedBackwards,
        framehop::Error::DidNotAdvance => StepError::DidNotAdvance,
        framehop::Error::IntegerOverflow => StepError::AddressOverflow,
        framehop::Error::ReturnAddressIsNull => StepError::NullReturnAddress,
    }
}

/// An architecture register snapshot: instruction pointer, stack pointer and
/// frame pointer. Stepping rewrites it in place with the previous frame's values.
#[derive(Clone, Copy, Debug, PartialEq, Eq, Structural)]
pub struct RegisterSnapshot {
    pub ip: u64,
    pub sp: u64,
    pub bp: u64,
}

/// The address under which a frame is looked up: the instruction pointer for
/// the first frame, a (non-null) return address for every later frame.
#[derive(Clone, Copy, Debug, PartialEq, Eq, Structural)]
pub enum FrameAddress {
    InstructionPointer(u64),
    ReturnAddress(u64),
}

impl FrameAddress {
    /// A return address of zero never names a frame.
    pub open spec fn wf(self) -> bool {
        match self {
            FrameAddress::InstructionPointer(_) => true,
            FrameAddress::ReturnAddress(a) => a != 0,
        }
    }
}

#[verifier::external_type_specification]
#[verifier::external_body]
#[verifier::reject_recursive_types(D)]
pub struct ExFramehopModule<D>(framehop::Module<D>);

#[verifier::external_type_specification]
#[verifier::external_body]
#[verifier::reject_recursive_types(D)]
#[verifier::reject_recursive_types(P)]
pub struct ExFramehopUnwinder<D, P>(framehop::x86_64::UnwinderX86_64<D, P>);

#[verifier::external_type_specification]
pub struct ExMayAllocateDuringUnwind(framehop::MayAllocateDuringUnwind);

#[verifier::external_type_specification]
pub struct ExMustNotAllocateDuringUnwind(framehop::MustNotAllocateDuringUnwind);

/// One of the engine's two operating modes: whether call-frame evaluation
/// and cache growth may allocate while a stepping session runs. Stepping
/// semantics are identical in both modes; only the memory-management
/// strategy differs. The methods are the mode's bindings to the engine;
/// each mode implements them by one engine call.
pub trait AllocationMode: Sized {
    type Policy;
    type CacheStore;

    /// A fresh, empty, caller-owned memo of parsed call-frame programs. It
    /// is passed by exclusive reference into each stepping call and may live
    /// across many unwind attempts, amortizing the parsing work.
    fn new_cache() -> Self::CacheStore;

    /// A fresh engine with no modules.
    fn engine_new() -> framehop::UnwinderNative<&'static [u8], Self::Policy>;

    /// Registers one module's address range and unwind data with the engine.
    fn engine_add(
        eng: &mut framehop::UnwinderNative<&'static [u8], Self::Policy>,
        module: framehop::Module<&'static [u8]>,
    );

    /// One frame step. Every stack word the step needs is requested through
    /// `read_stack`, never read directly, and the step reports an error
    /// instead of faulting. Nothing is promised of the outcome: the caller
    /// states what holds of every possible result.
    fn engine_step<F: FnMut(u64) -> Result<u64, ()>>(
        eng: &framehop::UnwinderNative<&'static [u8], Self::Policy>,
        addr: &FrameAddress,
        regs: &mut RegisterSnapshot,
        cache: &mut Self::CacheStore,
        read_stack: &mut F,
    ) -> Result<Option<u64>, framehop::Error>
        requires
            addr.wf(),
    ;
}

/// The mode for ordinary one-shot diagnostic use: scratch storage may grow
/// on the heap while stepping.
pub struct MayAllocate;

/// The mode for signal handlers and sampling hooks: all scratch storage is
/// pre-sized, and stepping performs no heap allocation by the engine.
pub struct MustNotAllocate;

/// The cache for the may-allocate mode, holding framehop's CacheX86_64.
/// The engine's cache type itself cannot be named in verified signatures,
/// as its type parameter is bound by the engine's allocation-policy trait,
/// so each mode carries it inside a plain holder.
#[verifier::external_body]
pub struct CacheMayAllocate {
    inner: framehop::CacheNative<framehop::MayAllocateDuringUnwind>,
}

/// The cache for the must-not-allocate mode; see `CacheMayAllocate`.
#[verifier::external_body]
pub struct CacheMustNotAllocate {
    inner: framehop::CacheNative<framehop::MustNotAllocateDuringUnwind>,
}

impl AllocationMode for MayAllocate {
    type Policy = framehop::MayAllocateDuringUnwind;
    type CacheStore = CacheMayAllocate;

    fn new_cache() -> Self::CacheStore {
        cache_new_may()
    }

    fn engine_new() -> framehop::UnwinderNative<&'static [u8], Self::Policy> {
        engine_new_may()
    }

    fn engine_add(
        eng: &mut framehop::UnwinderNative<&'static [u8], Self::Policy>,
        module: framehop::Module<&'static [u8]>,
    ) {
        engine_add_may(eng, module)
    }

    fn engine_step<F: FnMut(u64) -> Result<u64, ()>>(
        eng: &framehop::UnwinderNative<&'static [u8], Self::Policy>,
        addr: &FrameAddress,
        regs: &mut RegisterSnapshot,
        cache: &mut Self::CacheStore,
        read_stack: &mut F,
    ) -> Result<Option<u64>, framehop::Error> {
        engine_step_may(eng, addr, regs, cache, read_stack)
    }
}

impl AllocationMode for MustNotAllocate {
    type Policy = framehop::MustNotAllocateDuringUnwind;
    type CacheStore = CacheMustNotAllocate;

    fn new_cache() -> Self::CacheStore {
        cache_new_must_not()
    }

    fn engine_new() -> framehop::UnwinderNative<&'static [u8], Self::Policy> {
        engine_new_must_not()
    }

    fn engine_add(
        eng: &mut framehop::UnwinderNative<&'static [u8], Self::Policy>,
        module: framehop::Module<&'static [u8]>,
    ) {
        engine_add_must_not(eng, module)
    }

    fn engine_step<F: FnMut(u64) -> Result<u64, ()>>(
        eng: &framehop::UnwinderNative<&'static [u8], Self::Policy>,
        addr: &FrameAddress,
        regs: &mut RegisterSnapshot,
        cache: &mut Self::CacheStore,
        read_stack: &mut F,
    ) -> Result<Option<u64>, framehop::Error> {
        engine_step_must_not(eng, addr, regs, cache, read_stack)
    }
}

/// Relies on framehop's CacheX86_64::new_in: a fresh, empty cache.
#[verifier::external_body]
fn cache_new_may() -> CacheMayAllocate {
    CacheMayAllocate { inner: framehop::CacheNative::new_in() }
}

/// Relies on framehop's CacheX86_64::new_in: a fresh, empty cache.
#[verifier::external_body]
fn cache_new_must_not() -> CacheMustNotAllocate {
    CacheMustNotAllocate { inner: framehop::CacheNative::new_in() }
}

/// Relies on framehop's UnwinderX86_64::new: an unwinder with no modules.
#[verifier::external_body]
fn engine_new_may() -> framehop::UnwinderNative<&'static [u8], framehop::MayAllocateDuringUnwind> {
    framehop::UnwinderNative::new()
}

/// Relies on framehop's UnwinderX86_64::new: an unwinder with no modules.
#[verifier::external_body]
fn engine_new_must_not() -> framehop::UnwinderNative<
    &'static [u8],
    framehop::MustNotAllocateDuringUnwind,
> {
    framehop::UnwinderNative::new()
}

/// Relies on framehop's UnwinderX86_64::add_module: registers one module's
/// address range and unwind data with the engine.
#[verifier::external_body]
fn engine_add_may(
    eng: &mut framehop::UnwinderNative<&'static [u8], framehop::MayAllocateDuringUnwind>,
    module: framehop::Module<&'static [u8]>,
) {
    framehop::Unwinder::add_module(eng, module);
}

/// Relies on framehop's UnwinderX86_64::add_module: registers one module's
/// address range and unwind data with the engine.
#[verifier::external_body]
fn engine_add_must_not(
    eng: &mut framehop::UnwinderNative<&'static [u8], framehop::MustNotAllocateDuringUnwind>,
    module: framehop::Module<&'static [u8]>,
) {
    framehop::Unwinder::add_module(eng, module);
}

/// Relies on framehop's UnwinderX86_64::unwind_frame: one frame step. Every
/// stack word the step needs is requested through `read_stack`, never read
/// directly, and the step reports an error instead of faulting. Nothing is
/// promised of the outcome: callers state what holds of every result.
#[verifier::external_body]
fn engine_step_may<F: FnMut(u64) -> Result<u64, ()>>(
    eng: &framehop::UnwinderNative<&'static [u8], framehop::MayAllocateDuringUnwind>,
    addr: &FrameAddress,
    regs: &mut RegisterSnapshot,
    cache: &mut CacheMayAllocate,
    read_stack: &mut F,
) -> Result<Option<u64>, framehop::Error>
    requires
        addr.wf(),
{
    let fh_addr = match addr {
        FrameAddress::InstructionPointer(a) => framehop::FrameAddress::from_instruction_pointer(*a),
        FrameAddress::ReturnAddress(a) => framehop::FrameAddress::from_return_address(*a).unwrap(),
    };
    let mut fh_regs = framehop::UnwindRegsNative::new(regs.ip, regs.sp, regs.bp);
    let r = framehop::Unwinder::unwind_frame(eng, fh_addr, &mut fh_regs, &mut cache.inner, read_stack);
    regs.ip = fh_regs.ip();
    regs.sp = fh_regs.sp();
    regs.bp = fh_regs.bp();
    r
}

/// Relies on framehop's UnwinderX86_64::unwind_frame: one frame step. Every
/// stack word the step needs is requested through `read_stack`, never read
/// directly, and the step reports an error instead of faulting. Nothing is
/// promised of the outcome: callers state what holds of every result.
#[verifier::external_body]
fn engine_step_must_not<F: FnMut(u64) -> Result<u64, ()>>(
    eng: &framehop::UnwinderNative<&'static [u8], framehop::MustNotAllocateDuringUnwind>,
    addr: &FrameAddress,
    regs: &mut RegisterSnapshot,
    cache: &mut CacheMustNotAllocate,
    read_stack: &mut F,
) -> Result<Option<u64>, framehop::Error>
    requires
        addr.wf(),
{
    let fh_addr = match addr {
        FrameAddress::InstructionPointer(a) => framehop::FrameAddress::from_instruction_pointer(*a),
        FrameAddress::ReturnAddress(a) => framehop::FrameAddress::from_return_address(*a).unwrap(),
    };
    let mut fh_regs = framehop::UnwindRegsNative::new(regs.ip, regs.sp, regs.bp);
    let r = framehop::Unwinder::unwind_frame(eng, fh_addr, &mut fh_regs, &mut cache.inner, read_stack);
    regs.ip = fh_regs.ip();
    regs.sp = fh_regs.sp();
    regs.bp = fh_regs.bp();
    r
}

/// Everything the engine needs to know about one loaded module, as plain
/// values: its name, where it sits in the process (actual addresses), and
/// where its text, global-offset and call-frame sections sit in the file's
/// own address space (stated addresses, as start/end pairs).
pub struct ModuleInfo {
    pub name: String,
    pub avma_start: u64,
    pub avma_end: u64,
    pub base_avma: u64,
    pub base_svma: u64,
    pub text_svma: Option<(u64, u64)>,
    pub got_svma: Option<(u64, u64)>,
    pub eh_frame_svma: Option<(u64, u64)>,
    pub eh_frame_hdr_svma: Option<(u64, u64)>,
}

/// Relies on framehop's Module::new: packaging a module description and its
/// unwind section bytes for the engine. It stores what it is given and does
/// not fail.
#[verifier::external_body]
fn make_module(
    m: &ModuleInfo,
    text: Option<&'static [u8]>,
    eh_frame: Option<&'static [u8]>,
    eh_frame_hdr: Option<&'static [u8]>,
) -> framehop::Module<&'static [u8]> {
    let info = framehop::ExplicitModuleSectionInfo {
        base_svma: m.base_svma,
        text_svma: m.text_svma.map(|(a, b)| a..b),
        text,
        got_svma: m.got_svma.map(|(a, b)| a..b),
        eh_frame_svma: m.eh_frame_svma.map(|(a, b)| a..b),
        eh_frame,
        eh_frame_hdr_svma: m.eh_frame_hdr_svma.map(|(a, b)| a..b),
        eh_frame_hdr,
        ..Default::default()
    };
    framehop::Module::new(m.name.clone(), m.avma_start..m.avma_end, m.base_avma, info)
}

/// The unwind engine for the running process: a table of code modules plus
/// the call-frame stepper that consults it. `P` selects the allocation policy
/// for call-frame evaluation, as the engine's two operating modes require.
#[verifier::reject_recursive_types(P)]
pub struct Unwinder<P: AllocationMode> {
    eng: framehop::UnwinderNative<&'static [u8], P::Policy>,
    modules: Ghost<Seq<ModuleInfo>>,
}

impl<P: AllocationMode> Unwinder<P> {
    /// The descriptions of the modules added so far, in order of addition.
    pub closed spec fn module_table(&self) -> Seq<ModuleInfo> {
        self.modules@
    }

    /// A fresh engine with an empty module table.
    pub fn new() -> (r: Unwinder<P>)
        ensures
            r.module_table() =~= Seq::<ModuleInfo>::empty(),
    {
        Unwinder { eng: P::engine_new(), modules: Ghost(Seq::empty()) }
    }

    /// Hands one module's description and unwind section bytes to the engine.
    pub fn add_module(
        &mut self,
        m: ModuleInfo,
        text: Option<&'static [u8]>,
        eh_frame: Option<&'static [u8]>,
        eh_frame_hdr: Option<&'static [u8]>,
    )
        ensures
            final(self).module_table() =~= old(self).module_table().push(m),
    {
        let module = make_module(&m, text, eh_frame, eh_frame_hdr);
        P::engine_add(&mut self.eng, module);
        self.modules = Ghost(self.modules@.push(m));
    }

    /// Starts an unwind attempt from the given register snapshot, taken
    /// over unaltered. The first frame is looked up under the instruction
    /// pointer itself; every later frame under its return address.
    pub fn iter_frames_with_regs(&self, regs: RegisterSnapshot) -> (it: UnwindIterator<'_, P>)
        ensures
            it.wf(),
            !it.is_done(),
            it.current() == FrameAddress::InstructionPointer(regs.ip),
            it.registers() == regs,
    {
        UnwindIterator { unwinder: self, addr: FrameAddress::InstructionPointer(regs.ip), regs, done: false }
    }
}

impl<P: AllocationMode> Default for Unwinder<P> {
    /// The default engine is a fresh one with an empty module table.
    fn default() -> (r: Unwinder<P>)
        ensures
            r.module_table() =~= Seq::<ModuleInfo>::empty(),
    {
        Unwinder::new()
    }
}

/// A lazy pull sequence of return addresses over the engine: each pull steps
/// one frame. After the end of the stack or an error the iterator is
/// terminal: further pulls step nothing and yield no more addresses. A new
/// iterator is created per unwind attempt; it may share a long-lived cache.
#[verifier::reject_recursive_types(P)]
pub struct UnwindIterator<'u, P: AllocationMode> {
    unwinder: &'u Unwinder<P>,
    addr: FrameAddress,
    regs: RegisterSnapshot,
    done: bool,
}

impl<'u, P: AllocationMode> UnwindIterator<'u, P> {
    /// The frame address the next pull will look up.
    pub closed spec fn current(&self) -> FrameAddress {
        self.addr
    }

    /// Whether the iterator is terminal.
    pub closed spec fn is_done(&self) -> bool {
        self.done
    }

    /// The register snapshot as of the last step.
    pub closed spec fn registers(&self) -> RegisterSnapshot {
        self.regs
    }

    /// A live iterator always looks frames up under a well-formed address.
    pub closed spec fn wf(&self) -> bool {
        self.addr.wf()
    }

    /// Pulls one result: the next return address, the end of the sequence,
    /// or an error. A zero return address from the engine ends the sequence
    /// normally rather than erroring. A terminal iterator stays terminal and
    /// steps nothing. An address that no module of the engine's table
    /// covers does not end the step with an error: the engine falls back to
    /// the frame-pointer convention there, as it does whenever call-frame
    /// data is absent; the registry's lookup is what decides module
    /// ownership of an address.
    pub fn try_next<F: FnMut(u64) -> Result<u64, ()>>(
        &mut self,
        cache: &mut P::CacheStore,
        read_stack: &mut F,
    ) -> (r: Result<Option<u64>, StepError>)
        requires
            old(self).wf(),
        ensures
            final(self).wf(),
            old(self).is_done() ==> r == Result::<Option<u64>, StepError>::Ok(None) && *final(self) == *old(self),
            r matches Ok(None) ==> final(self).is_done(),
            r matches Err(_) ==> final(self).is_done(),
            r matches Ok(Some(a)) ==> !final(self).is_done() && a != 0
                && final(self).current() == FrameAddress::ReturnAddress(a),
    {
        if self.done {
            return Ok(None);
        }
        let step = P::engine_step(&self.unwinder.eng, &self.addr, &mut self.regs, cache, read_stack);
        match step {
            Err(e) => {
                self.done = true;
                Err(step_error_of(&e))
            }
            Ok(None) => {
                self.done = true;
                Ok(None)
            }
            Ok(Some(a)) => {
                if a == 0 {
                    self.done = true;
                    Ok(None)
                } else {
                    self.addr = FrameAddress::ReturnAddress(a);
                    Ok(Some(a))
                }
            }
        }
    }
}

} // verus!
