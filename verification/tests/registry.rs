use runwind::object::{scan_phdrs, PhdrRecord, Registry, PF_R, PF_X, PT_GNU_EH_FRAME, PT_LOAD};
use runwind::unwinder::ModuleInfo;

fn module(name: &str, base: u64, start: u64, end: u64) -> ModuleInfo {
    ModuleInfo {
        name: name.to_string(),
        avma_start: start,
        avma_end: end,
        base_avma: base,
        base_svma: 0,
        text_svma: None,
        got_svma: None,
        eh_frame_svma: None,
        eh_frame_hdr_svma: None,
    }
}

#[test]
fn registry_keeps_modules_sorted_by_base() {
    let mut reg = Registry::new();
    assert!(reg.insert(module("c", 0x3000, 0x3100, 0x3200)));
    assert!(reg.insert(module("a", 0x1000, 0x1100, 0x1200)));
    assert!(reg.insert(module("b", 0x2000, 0x2100, 0x2200)));
    assert_eq!(reg.len(), 3);
    let mut prev_base = 0u64;
    let mut prev_end = 0u64;
    for i in 0..reg.len() {
        let m = reg.get(i);
        assert!(m.base_avma > prev_base || i == 0);
        assert!(m.avma_start >= prev_end);
        prev_base = m.base_avma;
        prev_end = m.avma_end;
    }
}

#[test]
fn registry_refuses_overlapping_text_ranges() {
    let mut reg = Registry::new();
    assert!(reg.insert(module("a", 0x1000, 0x1100, 0x1300)));
    assert!(!reg.insert(module("b", 0x1200, 0x1250, 0x1400)));
    assert_eq!(reg.len(), 1);
    assert_eq!(reg.get(0).name, "a");
}

#[test]
fn registry_refuses_duplicate_bases() {
    let mut reg = Registry::new();
    assert!(reg.insert(module("a", 0x1000, 0x1100, 0x1200)));
    assert!(!reg.insert(module("b", 0x1000, 0x1400, 0x1500)));
    assert_eq!(reg.len(), 1);
}

#[test]
fn find_on_an_empty_registry_yields_nothing() {
    let reg = Registry::new();
    assert_eq!(reg.len(), 0);
    assert_eq!(reg.find(0x1000), None);
}

#[test]
fn find_locates_the_owning_module() {
    let mut reg = Registry::new();
    assert!(reg.insert(module("a", 0x1000, 0x1100, 0x1200)));
    assert!(reg.insert(module("b", 0x2000, 0x2100, 0x2200)));
    assert_eq!(reg.find(0x1150), Some(0));
    assert_eq!(reg.find(0x2100), Some(1));
    assert_eq!(reg.find(0x21ff), Some(1));
}

#[test]
fn find_rejects_out_of_module_addresses() {
    let mut reg = Registry::new();
    assert!(reg.insert(module("a", 0x1000, 0x1100, 0x1200)));
    assert!(reg.insert(module("b", 0x2000, 0x2100, 0x2200)));
    // Below every module.
    assert_eq!(reg.find(0x500), None);
    // Exactly a base address.
    assert_eq!(reg.find(0x1000), None);
    assert_eq!(reg.find(0x2000), None);
    // In the gap between text ranges.
    assert_eq!(reg.find(0x1300), None);
    // One past the last text range.
    assert_eq!(reg.find(0x2200), None);
}

#[test]
fn build_registry_sorts_and_counts_skips() {
    let mods = vec![
        module("b", 0x2000, 0x2100, 0x2200),
        module("a", 0x1000, 0x1100, 0x1200),
        // Collides with "a" by text range.
        module("x", 0x1080, 0x1180, 0x1280),
        // Malformed: the text range ends before it starts.
        module("y", 0x5000, 0x5200, 0x5100),
        module("c", 0x3000, 0x3100, 0x3200),
    ];
    let (reg, skipped) = runwind::object::build_registry(mods);
    assert_eq!(skipped, 2);
    assert_eq!(reg.len(), 3);
    assert_eq!(reg.get(0).name, "a");
    assert_eq!(reg.get(1).name, "b");
    assert_eq!(reg.get(2).name, "c");
}

#[test]
fn phdr_scan_takes_the_first_text_segment() {
    let phdrs = vec![
        PhdrRecord { p_type: PT_LOAD, p_flags: PF_R, p_vaddr: 0, p_memsz: 0x400 },
        PhdrRecord { p_type: PT_LOAD, p_flags: PF_X | PF_R, p_vaddr: 0x1000, p_memsz: 0x800 },
        PhdrRecord { p_type: PT_GNU_EH_FRAME, p_flags: PF_R, p_vaddr: 0x3000, p_memsz: 0x100 },
        PhdrRecord { p_type: PT_LOAD, p_flags: PF_X | PF_R, p_vaddr: 0x2000, p_memsz: 0x100 },
    ];
    let scan = scan_phdrs(&phdrs);
    assert_eq!(scan.text, Some(1));
    assert_eq!(scan.eh_frame_hdr, Some(2));
    assert!(scan.dup_text);
    assert!(!scan.dup_eh_frame_hdr);
}

#[test]
fn phdr_scan_reports_missing_text() {
    let phdrs = vec![
        PhdrRecord { p_type: PT_LOAD, p_flags: PF_R, p_vaddr: 0, p_memsz: 0x400 },
        PhdrRecord { p_type: 2, p_flags: PF_R, p_vaddr: 0x100, p_memsz: 0x10 },
    ];
    let scan = scan_phdrs(&phdrs);
    assert_eq!(scan.text, None);
    assert_eq!(scan.eh_frame_hdr, None);
    assert!(!scan.dup_text);
    assert!(!scan.dup_eh_frame_hdr);
}
