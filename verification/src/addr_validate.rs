use vstd::prelude::*;

verus! {

/// How many bytes one probe asks the kernel to copy: two native words.
pub const CHECK_LENGTH: usize = 16;

/// How many times an interrupted pipe operation is retried before the probe
/// conservatively reports the address invalid.
pub const RETRY_LIMIT: usize = 64;

/// The outcome of one read from the probe pipe, as plain values.
#[derive(Clone, Copy, Debug, PartialEq, Eq, Structural)]
pub enum PipeRead {
    /// The read returned this many bytes.
    Count(usize),
    /// The read was interrupted by a signal.
    Interrupted,
    /// The pipe held no data.
    WouldBlock,
    /// The read failed for any other reason.
    Failed,
}

/// The outcome of one write to the probe pipe, as plain values.
#[derive(Clone, Copy, Debug, PartialEq, Eq, Structural)]
pub enum PipeWrite {
    /// The write accepted this many bytes.
    Count(usize),
    /// The write was interrupted by a signal.
    Interrupted,
    /// The write failed for any other reason.
    Failed,
}

/// What a drain outcome asks the validator to do next.
#[derive(Clone, Copy, Debug, PartialEq, Eq, Structural)]
pub enum DrainStep {
    /// The pipe is usable: empty, or holding leftovers that were read off.
    Ready,
    /// The pipe is broken and must be re-created before probing.
    Reopen,
    /// The read was interrupted; try draining again.
    Retry,
}

/// What a probe-write outcome means for the probed address.
#[derive(Clone, Copy, Debug, PartialEq, Eq, Structural)]
pub enum WriteStep {
    /// The probe is decided: the address is readable or it is not.
    Done(bool),
    /// The write was interrupted; try probing again.
    Retry,
}

/// Relies on nix's unistd::pipe2 with O_CLOEXEC | O_NONBLOCK: on success the
/// kernel hands back two fresh, non-negative descriptors (read end, write
/// end) of a non-blocking, close-on-exec pipe.
#[verifier::external_body]
fn pipe_nonblocking() -> (r: Option<(i32, i32)>)
    ensures
        r matches Some(fds) ==> fds.0 >= 0 && fds.1 >= 0,
{
    match nix::unistd::pipe2(nix::fcntl::OFlag::O_CLOEXEC | nix::fcntl::OFlag::O_NONBLOCK) {
        Ok(fds) => Some(fds),
        Err(_) => None,
    }
}

/// Relies on nix's unistd::close: gives the descriptor back to the kernel.
/// The result is ignored, as it is when the validator discards a pipe.
#[verifier::external_body]
fn close_fd(fd: i32) {
    let _ = nix::unistd::close(fd);
}

/// Relies on nix's unistd::read: one non-blocking read of at most
/// CHECK_LENGTH bytes from the descriptor, with the errno values the
/// validator distinguishes mapped one arm each.
#[verifier::external_body]
fn drain_read(fd: i32) -> (r: PipeRead)
    ensures
        r matches PipeRead::Count(n) ==> n <= CHECK_LENGTH,
{
    let mut buf: [u8; 16] = [0u8; 16];
    match nix::unistd::read(fd, &mut buf) {
        Ok(n) => PipeRead::Count(n),
        Err(nix::errno::Errno::EINTR) => PipeRead::Interrupted,
        Err(nix::errno::Errno::EAGAIN) => PipeRead::WouldBlock,
        Err(_) => PipeRead::Failed,
    }
}

/// Relies on nix's unistd::write: one write of the given bytes to the
/// descriptor, with the errno values the validator distinguishes mapped one
/// arm each.
#[verifier::external_body]
fn pipe_write(fd: i32, data: &[u8]) -> (r: PipeWrite)
    ensures
        r matches PipeWrite::Count(n) ==> n <= data@.len(),
{
    match nix::unistd::write(fd, data) {
        Ok(n) => PipeWrite::Count(n),
        Err(nix::errno::Errno::EINTR) => PipeWrite::Interrupted,
        Err(_) => PipeWrite::Failed,
    }
}

/// What each drain outcome asks for: data read off or an empty pipe mean the
/// pipe is usable; an interruption asks for another try; an end-of-file
/// (zero-byte) read or any other failure condemns the pipe.
pub open spec fn drain_step_of(r: PipeRead) -> DrainStep {
    match r {
        PipeRead::Count(n) => if n > 0 { DrainStep::Ready } else { DrainStep::Reopen },
        PipeRead::WouldBlock => DrainStep::Ready,
        PipeRead::Interrupted => DrainStep::Retry,
        PipeRead::Failed => DrainStep::Reopen,
    }
}

/// Classifies one drain outcome.
pub fn drain_step(r: &PipeRead) -> (c: DrainStep)
    ensures
        c == drain_step_of(*r),
{
    match r {
        PipeRead::Count(n) => if *n > 0 { DrainStep::Ready } else { DrainStep::Reopen },
        PipeRead::WouldBlock => DrainStep::Ready,
        PipeRead::Interrupted => DrainStep::Retry,
        PipeRead::Failed => DrainStep::Reopen,
    }
}

/// What each probe-write outcome decides: bytes accepted mean the kernel
/// could copy from the probed memory, so the address is readable; a write
/// that accepted nothing or failed means it is not; an interruption asks for
/// another try.
pub open spec fn write_step_of(r: PipeWrite) -> WriteStep {
    match r {
        PipeWrite::Count(n) => WriteStep::Done(n > 0),
        PipeWrite::Interrupted => WriteStep::Retry,
        PipeWrite::Failed => WriteStep::Done(false),
    }
}

/// Classifies one probe-write outcome.
pub fn write_step(r: &PipeWrite) -> (c: WriteStep)
    ensures
        c == write_step_of(*r),
{
    match r {
        PipeWrite::Count(n) => WriteStep::Done(*n > 0),
        PipeWrite::Interrupted => WriteStep::Retry,
        PipeWrite::Failed => WriteStep::Done(false),
    }
}

/// The owned probe capability of one thread: a non-blocking pipe whose write
/// end is used to ask the kernel to copy from an address. Each thread that
/// validates owns an independent pair, created lazily and re-created when a
/// probe finds it broken.
pub struct Validator {
    read_fd: i32,
    write_fd: i32,
}

impl Validator {
    /// The descriptor of the pipe's read end, or -1 when closed.
    pub closed spec fn spec_read_fd(&self) -> i32 {
        self.read_fd
    }

    /// The descriptor of the pipe's write end, or -1 when closed.
    pub closed spec fn spec_write_fd(&self) -> i32 {
        self.write_fd
    }

    /// Whether the validator currently owns a pipe.
    pub open spec fn is_open(&self) -> bool {
        self.spec_read_fd() >= 0 && self.spec_write_fd() >= 0
    }

    /// The validator owns both ends of one pipe or nothing at all.
    pub open spec fn wf(&self) -> bool {
        self.is_open() || (self.spec_read_fd() == -1 && self.spec_write_fd() == -1)
    }

    /// A fresh validator that owns no pipe yet.
    pub fn new() -> (v: Validator)
        ensures
            v.wf(),
            !v.is_open(),
    {
        Validator { read_fd: -1, write_fd: -1 }
    }

    /// The descriptor pair, for observation; (-1, -1) when closed.
    pub fn fds(&self) -> (r: (i32, i32))
        ensures
            r.0 == self.spec_read_fd(),
            r.1 == self.spec_write_fd(),
    {
        (self.read_fd, self.write_fd)
    }

    /// Discards the current pipe, if any, and opens a fresh one. Both old
    /// descriptors are handed back to the kernel before new ones are taken,
    /// so the validator never holds more than one pair. This is the only
    /// path that acquires resources; it is off the probing hot path.
    pub fn reopen(&mut self) -> (ok: bool)
        requires
            old(self).wf(),
        ensures
            final(self).wf(),
            ok == final(self).is_open(),
    {
        if self.read_fd >= 0 {
            close_fd(self.read_fd);
        }
        if self.write_fd >= 0 {
            close_fd(self.write_fd);
        }
        match pipe_nonblocking() {
            Some((rfd, wfd)) => {
                self.read_fd = rfd;
                self.write_fd = wfd;
                true
            }
            None => {
                self.read_fd = -1;
                self.write_fd = -1;
                false
            }
        }
    }

    /// Drains leftovers from the pipe's read end without blocking. Takes the
    /// validator immutably: draining never changes which pipe is owned.
    /// Reports whether the pipe is usable for the next probe write; on an
    /// interruption it retries a bounded number of times and then gives the
    /// pipe up for lost rather than spinning.
    pub fn drain(&self) -> (ok: bool) {
        let mut attempts: usize = 0;
        loop
            invariant
                attempts <= RETRY_LIMIT,
            decreases RETRY_LIMIT - attempts,
        {
            let r = drain_read(self.read_fd);
            match drain_step(&r) {
                DrainStep::Ready => {
                    return true;
                }
                DrainStep::Reopen => {
                    return false;
                }
                DrainStep::Retry => {
                    if attempts >= RETRY_LIMIT {
                        return false;
                    }
                    attempts = attempts + 1;
                }
            }
        }
    }

    /// Makes the validator ready for one probe write: drains the pipe, and
    /// re-creates it if the drain found it broken or none was open. Returns
    /// the write end to probe into, or None when no pipe could be opened, in
    /// which case every probe reports the address invalid until a later
    /// attempt reopens one.
    pub fn probe_setup(&mut self) -> (r: Option<i32>)
        requires
            old(self).wf(),
        ensures
            final(self).wf(),
            r matches Some(fd) ==> final(self).is_open() && fd == final(self).spec_write_fd(),
            r is None ==> !final(self).is_open(),
    {
        if self.read_fd >= 0 && self.write_fd >= 0 && self.drain() {
            return Some(self.write_fd);
        }
        if self.reopen() {
            Some(self.write_fd)
        } else {
            None
        }
    }

    /// One full validation round with the probe bytes supplied by the
    /// caller: drain (re-creating the pipe if needed), then write the bytes
    /// into the pipe, retrying a bounded number of times when interrupted.
    /// True exactly when the kernel accepted at least one byte, which is its
    /// report that the memory the bytes came from was readable at that
    /// instant.
    pub fn probe_bytes(&mut self, data: &[u8]) -> (ok: bool)
        requires
            old(self).wf(),
        ensures
            final(self).wf(),
            ok ==> final(self).is_open(),
    {
        let fd = match self.probe_setup() {
            Some(fd) => fd,
            None => {
                return false;
            }
        };
        let mut attempts: usize = 0;
        loop
            invariant
                attempts <= RETRY_LIMIT,
                self.wf(),
                self.is_open(),
            decreases RETRY_LIMIT - attempts,
        {
            let r = pipe_write(fd, data);
            match write_step(&r) {
                WriteStep::Done(ok) => {
                    return ok;
                }
                WriteStep::Retry => {
                    if attempts >= RETRY_LIMIT {
                        return false;
                    }
                    attempts = attempts + 1;
                }
            }
        }
    }
}

} // verus!
