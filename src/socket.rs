use vstd::prelude::*;

verus! {

/// Why a readiness check failed.
#[derive(Clone, Copy, Debug, PartialEq, Eq, Structural)]
pub enum PollError {
    /// The descriptor does not name an open socket.
    InvalidDescriptor,
    /// The operating system's wait failed with this error number.
    Os(i32),
}

/// The socket's file descriptor, as each queue keeps a copy of it for polling.
#[derive(Clone, Copy, Debug, PartialEq, Eq, Structural)]
pub struct Fd {
    id: i32,
}

impl View for Fd {
    type V = i32;

    closed spec fn view(&self) -> i32 {
        self.id
    }
}

impl Fd {
    pub fn new(id: i32) -> (r: Fd)
        ensures
            r@ == id,
    {
        Fd { id }
    }

    /// The raw descriptor number.
    pub fn id(&self) -> (r: i32)
        ensures
            r == self@,
    {
        self.id
    }

    /// Whether the number can name an open descriptor at all.
    pub fn is_valid(&self) -> (r: bool)
        ensures
            r == (self@ >= 0),
    {
        self.id >= 0
    }

    /// Reads the value returned by the operating system's readiness wait on
    /// this one descriptor: a negative value is a failure whose cause is
    /// `errno`, zero means the timeout passed with nothing ready, and a
    /// positive value means the descriptor is ready.
    pub fn poll_outcome(ret: i32, errno: i32) -> (r: Result<bool, PollError>)
        ensures
            ret < 0 ==> r == Err::<bool, PollError>(PollError::Os(errno)),
            ret >= 0 ==> r == Ok::<bool, PollError>(ret > 0),
    {
        if ret < 0 {
            Err(PollError::Os(errno))
        } else {
            Ok(ret > 0)
        }
    }
}

/// The kernel resource behind the four queues, bound to one shared memory
/// region. Each queue holds it through a shared handle, so it is released
/// only after the last queue is dropped.
#[derive(Debug)]
pub struct Socket {
    fd: Fd,
    region: u32,
}

impl Socket {
    pub fn new(fd: Fd, region: u32) -> (r: Socket)
        ensures
            r.fd_spec() == fd,
            r.region_spec() == region,
    {
        Socket { fd, region }
    }

    pub closed spec fn region_spec(&self) -> u32 {
        self.region
    }

    /// The region the socket is bound to.
    pub fn region(&self) -> (r: u32)
        ensures
            r == self.region_spec(),
    {
        self.region
    }

    pub closed spec fn fd_spec(&self) -> Fd {
        self.fd
    }

    /// A copy of the socket's descriptor.
    pub fn fd(&self) -> (r: Fd)
        ensures
            r == self.fd_spec(),
    {
        self.fd
    }
}

} // verus!
