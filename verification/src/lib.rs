pub mod addr_validate;
pub mod eh_frame;
pub mod macho;
pub mod object;
pub mod unwinder;

pub use crate::addr_validate::Validator;
pub use crate::object::{Object, ObjectPhdr, Registry, Segment};
pub use crate::unwinder::{
    AllocationMode, FrameAddress, MayAllocate, ModuleInfo, MustNotAllocate, RegisterSnapshot,
    StepError, UnwindIterator, Unwinder,
};
