use runwind::object::{
    EhFrameData, Object, ObjectPhdr, SectionRanges, Segment, UnwindData,
};

fn phdr() -> ObjectPhdr {
    ObjectPhdr {
        base_addr: 0x7000_0000,
        path: "/usr/lib/sample.so".to_string(),
        text: Segment { p_vaddr: 0x1000, p_memsz: 0x4000 },
    }
}

#[test]
fn getters_report_the_placement() {
    let obj = Object {
        phdr: phdr(),
        unwind_data: UnwindData::Mmap(SectionRanges {
            text: None,
            eh_frame_hdr: None,
            eh_frame: None,
            got: None,
        }),
    };
    assert_eq!(obj.base_addr(), 0x7000_0000);
    assert_eq!(obj.text_svma(), (0x1000, 0x5000));
}

#[test]
fn mapped_file_sections_pass_through() {
    let obj = Object {
        phdr: phdr(),
        unwind_data: UnwindData::Mmap(SectionRanges {
            text: Some((0x1000, 0x5000)),
            eh_frame_hdr: Some((0x6000, 0x6100)),
            eh_frame: Some((0x6100, 0x7100)),
            got: Some((0x8000, 0x8040)),
        }),
    };
    let m = obj.to_module();
    assert_eq!(m.name, "/usr/lib/sample.so");
    assert_eq!(m.base_avma, 0x7000_0000);
    assert_eq!(m.avma_start, 0x7000_1000);
    assert_eq!(m.avma_end, 0x7000_5000);
    assert_eq!(m.base_svma, 0);
    assert_eq!(m.text_svma, Some((0x1000, 0x5000)));
    assert_eq!(m.eh_frame_hdr_svma, Some((0x6000, 0x6100)));
    assert_eq!(m.eh_frame_svma, Some((0x6100, 0x7100)));
    assert_eq!(m.got_svma, Some((0x8000, 0x8040)));
}

#[test]
fn live_scanned_ranges_are_rebased() {
    let obj = Object {
        phdr: phdr(),
        unwind_data: UnwindData::EhFrame(EhFrameData {
            eh_frame_hdr_start: 0x7000_6000,
            eh_frame_hdr_end: 0x7000_6100,
            eh_frame_start: 0x7000_6100,
            eh_frame_end: 0x7000_7100,
        }),
    };
    let m = obj.to_module();
    assert_eq!(m.base_avma, 0x7000_0000);
    assert_eq!(m.text_svma, Some((0x1000, 0x5000)));
    assert_eq!(m.eh_frame_hdr_svma, Some((0x6000, 0x6100)));
    assert_eq!(m.eh_frame_svma, Some((0x6100, 0x7100)));
    assert_eq!(m.got_svma, None);
}
