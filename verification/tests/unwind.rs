use std::collections::HashMap;

use runwind::unwinder::{
    word_aligned, AllocationMode, MayAllocate, ModuleInfo, MustNotAllocate, RegisterSnapshot,
    StepError, Unwinder,
};

/// A synthetic stack: four nested frames linked by saved frame pointers,
/// each with its return address one word above, and a zero saved frame
/// pointer in the outermost frame.
fn four_frame_stack() -> HashMap<u64, u64> {
    let mut mem = HashMap::new();
    mem.insert(0x8000, 0x9000);
    mem.insert(0x8008, 0x1111);
    mem.insert(0x9000, 0xa000);
    mem.insert(0x9008, 0x2222);
    mem.insert(0xa000, 0xb000);
    mem.insert(0xa008, 0x3333);
    mem.insert(0xb000, 0);
    mem.insert(0xb008, 0x4444);
    mem
}

fn start_regs() -> RegisterSnapshot {
    RegisterSnapshot { ip: 0x1000, sp: 0x7000, bp: 0x8000 }
}

#[test]
fn word_alignment_clears_the_low_bits() {
    assert_eq!(word_aligned(0x1007), 0x1000);
    assert_eq!(word_aligned(0x1008), 0x1008);
    assert_eq!(word_aligned(7), 0);
    assert_eq!(word_aligned(u64::MAX), u64::MAX - 7);
}

#[test]
fn default_engine_has_no_modules_and_still_steps() {
    let unwinder = Unwinder::<MayAllocate>::default();
    let mut cache = MayAllocate::new_cache();
    let mem = four_frame_stack();
    let mut read_stack = |addr: u64| -> Result<u64, ()> { mem.get(&addr).copied().ok_or(()) };
    let mut it = unwinder.iter_frames_with_regs(start_regs());
    assert_eq!(it.try_next(&mut cache, &mut read_stack), Ok(Some(0x1111)));
}

#[test]
fn four_frames_then_end_of_stack() {
    let unwinder = Unwinder::<MayAllocate>::new();
    let mut cache = MayAllocate::new_cache();
    let mem = four_frame_stack();
    let mut read_stack = |addr: u64| -> Result<u64, ()> { mem.get(&addr).copied().ok_or(()) };
    let mut it = unwinder.iter_frames_with_regs(start_regs());
    let mut addrs = Vec::new();
    loop {
        match it.try_next(&mut cache, &mut read_stack) {
            Ok(Some(a)) => addrs.push(a),
            Ok(None) => break,
            Err(e) => panic!("unexpected step error: {:?}", e),
        }
    }
    assert_eq!(addrs, vec![0x1111, 0x2222, 0x3333, 0x4444]);
}

#[test]
fn end_of_stack_is_terminal() {
    let unwinder = Unwinder::<MayAllocate>::new();
    let mut cache = MayAllocate::new_cache();
    let mem = four_frame_stack();
    let mut read_stack = |addr: u64| -> Result<u64, ()> { mem.get(&addr).copied().ok_or(()) };
    let mut it = unwinder.iter_frames_with_regs(start_regs());
    let mut yielded = 0;
    while let Ok(Some(_)) = it.try_next(&mut cache, &mut read_stack) {
        yielded += 1;
    }
    assert_eq!(yielded, 4);
    // Pulling a finished iterator yields nothing more and never errors.
    for _ in 0..10 {
        assert_eq!(it.try_next(&mut cache, &mut read_stack), Ok(None));
    }
}

#[test]
fn must_not_allocate_mode_steps_identically() {
    let unwinder = Unwinder::<MustNotAllocate>::new();
    let mut cache = MustNotAllocate::new_cache();
    let mem = four_frame_stack();
    let mut read_stack = |addr: u64| -> Result<u64, ()> { mem.get(&addr).copied().ok_or(()) };
    let mut it = unwinder.iter_frames_with_regs(start_regs());
    let mut addrs = Vec::new();
    while let Ok(Some(a)) = it.try_next(&mut cache, &mut read_stack) {
        addrs.push(a);
    }
    assert_eq!(addrs, vec![0x1111, 0x2222, 0x3333, 0x4444]);
}

#[test]
fn unreadable_stack_is_an_error_not_a_fault() {
    let unwinder = Unwinder::<MayAllocate>::new();
    let mut cache = MayAllocate::new_cache();
    // No memory at all: the very first frame-pointer read must fail.
    let mut read_stack = |_addr: u64| -> Result<u64, ()> { Err(()) };
    let mut it = unwinder.iter_frames_with_regs(start_regs());
    let r = it.try_next(&mut cache, &mut read_stack);
    assert_eq!(r, Err(StepError::UnreadableStack(0x8000)));
    // After an error the iterator is terminal.
    assert_eq!(it.try_next(&mut cache, &mut read_stack), Ok(None));
}

#[test]
fn backwards_frame_pointer_is_an_error() {
    let unwinder = Unwinder::<MayAllocate>::new();
    let mut cache = MayAllocate::new_cache();
    let mem = four_frame_stack();
    let mut read_stack = |addr: u64| -> Result<u64, ()> { mem.get(&addr).copied().ok_or(()) };
    // The stack pointer already sits above the frame pointer chain.
    let regs = RegisterSnapshot { ip: 0x1000, sp: 0xf000, bp: 0x8000 };
    let mut it = unwinder.iter_frames_with_regs(regs);
    let r = it.try_next(&mut cache, &mut read_stack);
    assert_eq!(r, Err(StepError::FramePointerMovedBackwards));
}

#[test]
fn corrupt_call_frame_data_does_not_crash_stepping() {
    let mut unwinder = Unwinder::<MayAllocate>::new();
    // A module whose call-frame sections are garbage bytes.
    let eh_frame: &'static [u8] = Box::leak(vec![0xff, 0x01, 0x02, 0x03].into_boxed_slice());
    let eh_frame_hdr: &'static [u8] = Box::leak(vec![9u8, 9, 9, 9].into_boxed_slice());
    let m = ModuleInfo {
        name: "corrupt".to_string(),
        avma_start: 0x1000,
        avma_end: 0x2000,
        base_avma: 0x1000,
        base_svma: 0,
        text_svma: Some((0, 0x1000)),
        got_svma: None,
        eh_frame_svma: Some((0x3000, 0x3004)),
        eh_frame_hdr_svma: Some((0x4000, 0x4004)),
    };
    unwinder.add_module(m, None, Some(eh_frame), Some(eh_frame_hdr));
    let mut cache = MayAllocate::new_cache();
    let mem = four_frame_stack();
    let mut read_stack = |addr: u64| -> Result<u64, ()> { mem.get(&addr).copied().ok_or(()) };
    // The instruction pointer lies inside the module, so its corrupt
    // call-frame data is consulted; stepping must degrade cleanly instead
    // of faulting or reading out of bounds.
    let regs = RegisterSnapshot { ip: 0x1500, sp: 0x7000, bp: 0x8000 };
    let mut it = unwinder.iter_frames_with_regs(regs);
    let mut steps = 0;
    loop {
        match it.try_next(&mut cache, &mut read_stack) {
            Ok(Some(_)) => steps += 1,
            Ok(None) => break,
            Err(_) => break,
        }
        assert!(steps <= 64, "stepping must terminate");
    }
}
