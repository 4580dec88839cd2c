use runwind::addr_validate::{
    drain_step, write_step, DrainStep, PipeRead, PipeWrite, Validator, WriteStep, CHECK_LENGTH,
};

#[test]
fn fresh_validator_is_closed() {
    let v = Validator::new();
    assert_eq!(v.fds(), (-1, -1));
}

#[test]
fn reopen_creates_a_pipe() {
    let mut v = Validator::new();
    assert!(v.reopen());
    let (r, w) = v.fds();
    assert!(r >= 0);
    assert!(w >= 0);
    assert_ne!(r, w);
}

#[test]
fn probe_bytes_accepts_readable_heap_memory() {
    let mut v = Validator::new();
    let data = vec![0u8; CHECK_LENGTH];
    assert!(v.probe_bytes(&data));
}

#[test]
fn probe_bytes_accepts_readable_stack_memory() {
    let mut v = Validator::new();
    let data = [0u8; CHECK_LENGTH];
    assert!(v.probe_bytes(&data));
}

#[test]
fn probe_is_idempotent_and_keeps_descriptors() {
    let mut v = Validator::new();
    let data = vec![7u8; CHECK_LENGTH];
    assert!(v.probe_bytes(&data));
    let fds_after_first = v.fds();
    for _ in 0..10_000 {
        assert!(v.probe_bytes(&data));
    }
    assert_eq!(v.fds(), fds_after_first);
}

#[test]
fn drain_leaves_the_validator_untouched() {
    let mut v = Validator::new();
    assert!(v.reopen());
    let fds = v.fds();
    for _ in 0..1_000 {
        assert!(v.drain());
    }
    assert_eq!(v.fds(), fds);
}

#[test]
fn drain_classification_matches_the_design() {
    assert_eq!(drain_step(&PipeRead::Count(8)), DrainStep::Ready);
    assert_eq!(drain_step(&PipeRead::Count(0)), DrainStep::Reopen);
    assert_eq!(drain_step(&PipeRead::WouldBlock), DrainStep::Ready);
    assert_eq!(drain_step(&PipeRead::Interrupted), DrainStep::Retry);
    assert_eq!(drain_step(&PipeRead::Failed), DrainStep::Reopen);
}

#[test]
fn write_classification_matches_the_design() {
    assert_eq!(write_step(&PipeWrite::Count(16)), WriteStep::Done(true));
    assert_eq!(write_step(&PipeWrite::Count(1)), WriteStep::Done(true));
    assert_eq!(write_step(&PipeWrite::Count(0)), WriteStep::Done(false));
    assert_eq!(write_step(&PipeWrite::Failed), WriteStep::Done(false));
    assert_eq!(write_step(&PipeWrite::Interrupted), WriteStep::Retry);
}

#[test]
fn probe_setup_hands_out_the_write_end() {
    let mut v = Validator::new();
    let fd = v.probe_setup();
    assert!(fd.is_some());
    assert_eq!(fd.unwrap(), v.fds().1);
}
