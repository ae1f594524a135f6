//! Listener-side operations: binding, the cached resolution of the
//! extension accept function, and the accept sequence with its post-accept
//! context promotion.

use vstd::prelude::*;

use crate::error::IoError;
use crate::iocp_threadpool::{
    disable_callbacks_on_synchronous_completion, immediate_result, is_pending, HandleState,
    IocpResult, SubmissionOutcome, Tpio,
};
use crate::stream::AsyncTcpStream;

verus! {

/// The address family of a socket.
#[derive(Clone, Copy, PartialEq, Eq, Structural, Debug)]
pub enum AddressFamily {
    V4,
    V6,
}

pub const AF_INET: i32 = 2;

pub const AF_INET6: i32 = 23;

pub const SOCK_STREAM: i32 = 1;

pub const IPPROTO_TCP: i32 = 6;

pub const WSA_FLAG_OVERLAPPED: u32 = 1;

pub const WSA_FLAG_NO_HANDLE_INHERIT: u32 = 0x80;

/// The numeric address-family constant a new accept socket is created with,
/// so that it matches the listener's family.
pub fn address_family_constant(family: AddressFamily) -> (af: i32)
    ensures
        family is V4 ==> af == AF_INET,
        family is V6 ==> af == AF_INET6,
{
    match family {
        AddressFamily::V4 => AF_INET,
        AddressFamily::V6 => AF_INET6,
    }
}

/// The parameters a fresh accept socket is created with: the listener's own
/// address family, a stream socket over TCP, overlapped and not inheritable.
pub fn accept_socket_parameters(family: AddressFamily) -> (p: (i32, i32, i32, u32))
    ensures
        p.0 == (if family is V4 {
            AF_INET
        } else {
            AF_INET6
        }),
        p.1 == SOCK_STREAM,
        p.2 == IPPROTO_TCP,
        p.3 == (WSA_FLAG_OVERLAPPED | WSA_FLAG_NO_HANDLE_INHERIT),
{
    (
        address_family_constant(family),
        SOCK_STREAM,
        IPPROTO_TCP,
        WSA_FLAG_OVERLAPPED | WSA_FLAG_NO_HANDLE_INHERIT,
    )
}

/// The space the extension accept call needs for one address of the given
/// family: the address structure itself plus the sixteen bytes of padding
/// the call demands.
pub open spec fn spec_socket_addr_size(family: AddressFamily) -> usize {
    match family {
        AddressFamily::V4 => (16 + 16) as usize,
        AddressFamily::V6 => (16 + 28) as usize,
    }
}

/// See [`spec_socket_addr_size`].
pub fn socket_addr_size(family: AddressFamily) -> (n: usize)
    ensures
        n == spec_socket_addr_size(family),
{
    16 + match family {
        AddressFamily::V4 => 16,
        AddressFamily::V6 => 28,
    }
}

/// The receive buffer handed to the extension accept call: sized for the
/// local and the remote address and nothing else, so that no payload byte
/// can ever be captured by the accept itself.
pub fn accept_receive_buffer(family: AddressFamily) -> (buf: Vec<u8>)
    ensures
        buf@.len() == 2 * spec_socket_addr_size(family),
        forall|i: int| 0 <= i < buf@.len() ==> buf@[i] == 0,
{
    let size: usize = socket_addr_size(family);
    let mut buf: Vec<u8> = Vec::new();
    let mut i: usize = 0;
    while i < 2 * size
        invariant
            i <= 2 * size,
            size == spec_socket_addr_size(family),
            buf@.len() == i,
            forall|j: int| 0 <= j < i ==> buf@[j] == 0,
        decreases 2 * size - i,
    {
        buf.push(0);
        i = i + 1;
    }
    buf
}

/// An extension-function identifier: the four fields of a GUID, the final
/// eight bytes packed big-endian.
#[derive(Clone, Copy, PartialEq, Eq, Structural, Debug)]
pub struct Guid {
    pub data1: u32,
    pub data2: u16,
    pub data3: u16,
    pub data4: u64,
}

/// The identifier under which the extension accept function is resolved.
pub fn wsaid_acceptex() -> (g: Guid)
    ensures
        g == (Guid { data1: 0xb5367df1, data2: 0xcbac, data3: 0x11cf, data4: 0x95ca00805f48a192 }),
{
    Guid { data1: 0xb5367df1, data2: 0xcbac, data3: 0x11cf, data4: 0x95ca00805f48a192 }
}

/// The identifier under which the companion function that decodes the
/// accept buffer's addresses is resolved.
pub fn wsaid_getacceptexsockaddrs() -> (g: Guid)
    ensures
        g == (Guid { data1: 0xb5367df2, data2: 0xcbac, data3: 0x11cf, data4: 0x95ca00805f48a192 }),
{
    Guid { data1: 0xb5367df2, data2: 0xcbac, data3: 0x11cf, data4: 0x95ca00805f48a192 }
}

/// A memoised lookup of one extension function, keyed by address family.
/// A slot holds the resolved function's address, or zero while unresolved.
/// The resolved value is invariant, so racing writers storing it again are
/// harmless; the model resolves each key at most once.
#[derive(Clone, Copy, PartialEq, Eq, Structural, Debug)]
pub struct WsaFunctionCache {
    pub guid: Guid,
    pub ipv4_ptr: u64,
    pub ipv6_ptr: u64,
}

impl WsaFunctionCache {
    /// The slot for the given family.
    pub open spec fn slot(self, family: AddressFamily) -> u64 {
        match family {
            AddressFamily::V4 => self.ipv4_ptr,
            AddressFamily::V6 => self.ipv6_ptr,
        }
    }

    /// An empty cache for the function named by `guid`.
    pub fn new(guid: Guid) -> (c: WsaFunctionCache)
        ensures
            c.guid == guid,
            c.ipv4_ptr == 0,
            c.ipv6_ptr == 0,
    {
        WsaFunctionCache { guid, ipv4_ptr: 0, ipv6_ptr: 0 }
    }

    /// Look the function up for the given family.  A resolved slot is
    /// returned as it stands; an unresolved one is filled from
    /// `ioctl_result`, the outcome of the control query on the listening
    /// socket for this cache's identifier.  The other family's slot is
    /// never touched.
    pub fn get_ptr(&mut self, family: AddressFamily, ioctl_result: Result<u64, u32>) -> (r: Result<
        u64,
        IoError,
    >)
        ensures
            old(self).slot(family) != 0 ==> {
                &&& r == Ok::<u64, IoError>(old(self).slot(family))
                &&& *final(self) == *old(self)
            },
            (old(self).slot(family) == 0 && ioctl_result is Ok) ==> {
                &&& r == Ok::<u64, IoError>(ioctl_result->Ok_0)
                &&& final(self).slot(family) == ioctl_result->Ok_0
            },
            (old(self).slot(family) == 0 && ioctl_result is Err) ==> {
                &&& r == Err::<u64, IoError>(IoError::Os(ioctl_result->Err_0))
                &&& *final(self) == *old(self)
            },
            final(self).guid == old(self).guid,
            forall|other: AddressFamily|
                other != family ==> final(self).slot(other) == old(self).slot(other),
    {
        let cached: u64 = match family {
            AddressFamily::V4 => self.ipv4_ptr,
            AddressFamily::V6 => self.ipv6_ptr,
        };
        if cached != 0 {
            return Ok(cached);
        }
        match ioctl_result {
            Ok(p) => {
                match family {
                    AddressFamily::V4 => {
                        self.ipv4_ptr = p;
                    }
                    AddressFamily::V6 => {
                        self.ipv6_ptr = p;
                    }
                }
                Ok(p)
            }
            Err(e) => Err(IoError::Os(e)),
        }
    }
}

/// A bound listener: its handle, configured for bridged operations, the
/// registration accepts go through, the resolved extension accept function,
/// and the family new accept sockets must share.
#[derive(Clone, Copy, PartialEq, Eq, Structural, Debug)]
pub struct AsyncTcpListener {
    pub handle: HandleState,
    pub tp_io: Tpio,
    pub accept_fnptr: u64,
    pub family: AddressFamily,
}

impl AsyncTcpListener {
    /// A usable listener: suppression succeeded on its handle, the handle
    /// is registered, and the registration is the handle's own.
    pub open spec fn wf(self) -> bool {
        crate::iocp_threadpool::bridged_start_allowed(self.handle, self.tp_io)
    }

    /// Bind a listener.  `listen_result` is the listening socket the bind
    /// produced, or the error code it failed with; `family` is the bound
    /// address's family; the cache is the one for the extension accept
    /// function, consulted with `ioctl_result`; the last two arguments are
    /// the outcome of the registration call.  The first failure aborts the
    /// setup and is returned unchanged.
    pub fn bind(
        listen_result: Result<u64, u32>,
        family: AddressFamily,
        suppress_ok: bool,
        suppress_err: u32,
        cache: &mut WsaFunctionCache,
        ioctl_result: Result<u64, u32>,
        tpio_created: bool,
        tpio_err: u32,
    ) -> (r: Result<AsyncTcpListener, IoError>)
        ensures
            listen_result matches Err(e) ==> r == Err::<AsyncTcpListener, IoError>(IoError::Os(e)),
            listen_result is Ok && !suppress_ok ==> r == Err::<AsyncTcpListener, IoError>(
                IoError::Os(suppress_err),
            ),
            r matches Ok(l) ==> {
                &&& l.wf()
                &&& l.handle.id == listen_result->Ok_0
                &&& l.family == family
                &&& l.accept_fnptr == if old(cache).slot(family) != 0 {
                    old(cache).slot(family)
                } else {
                    ioctl_result->Ok_0
                }
            },
            listen_result is Ok && suppress_ok && (old(cache).slot(family) != 0
                || ioctl_result is Ok) && tpio_created ==> r is Ok,
            (listen_result is Ok && suppress_ok && old(cache).slot(family) == 0
                && ioctl_result is Err) ==> r == Err::<AsyncTcpListener, IoError>(
                IoError::Os(ioctl_result->Err_0),
            ),
            listen_result is Ok && suppress_ok && (old(cache).slot(family) != 0
                || ioctl_result is Ok) && !tpio_created ==> r == Err::<AsyncTcpListener, IoError>(
                IoError::Os(tpio_err),
            ),
    {
        let sock: u64 = match listen_result {
            Ok(s) => s,
            Err(e) => {
                return Err(IoError::Os(e));
            }
        };
        let mut handle = HandleState::new(sock);
        match disable_callbacks_on_synchronous_completion(&mut handle, suppress_ok, suppress_err) {
            Ok(()) => {}
            Err(e) => {
                return Err(e);
            }
        }
        let accept_fnptr: u64 = match cache.get_ptr(family, ioctl_result) {
            Ok(p) => p,
            Err(e) => {
                return Err(e);
            }
        };
        let tp_io = match Tpio::new(&mut handle, tpio_created, tpio_err) {
            Ok(t) => t,
            Err(e) => {
                return Err(e);
            }
        };
        Ok(AsyncTcpListener { handle, tp_io, accept_fnptr, family })
    }
}

/// Everything the operating system reported during one accept sequence, in
/// the order the sequence consumes it.
#[derive(Clone, Copy, PartialEq, Eq, Debug)]
pub struct AcceptEvents {
    /// The fresh not-yet-connected socket, or the error creating it failed
    /// with.
    pub socket_create: Result<u64, u32>,
    /// The outcome of suppressing synchronous completions on that socket.
    pub suppress_ok: bool,
    pub suppress_err: u32,
    /// What the extension accept call reported when issued.
    pub submission: SubmissionOutcome,
    /// The completion callback's event, if one has fired.
    pub completion: Option<IocpResult>,
    /// The return code of the context-promotion control call.
    pub promote_rc: u32,
    /// The outcome of suppressing synchronous completions once more while
    /// wrapping the socket as a stream.
    pub wrap_suppress_ok: bool,
    pub wrap_suppress_err: u32,
    /// The outcome of registering the new socket with the completion
    /// facility.
    pub tpio_created: bool,
    pub tpio_err: u32,
}

/// How one accept sequence ended.
#[derive(Clone, Copy, PartialEq, Eq, Structural, Debug)]
pub enum AcceptOutcome {
    /// The accepted socket, promoted and wrapped, ready for use.
    Ready(AsyncTcpStream),
    /// The accept went pending and no completion has arrived yet.
    StillPending,
    /// The completion reported transferred bytes although the receive
    /// buffer left no room for payload: an implementation invariant is
    /// broken, and the sequence must be aborted as fatal, not surfaced as a
    /// recoverable error.
    UnexpectedData { bytes: usize },
    /// A step failed; the first failure's error, unchanged.
    Failed(IoError),
}

/// The result the accept operation itself came to: what the extension call
/// reported synchronously, or what the completion callback delivered.
pub open spec fn accept_io_result(ev: AcceptEvents) -> IocpResult
    recommends
        !is_pending(ev.submission) || ev.completion is Some,
{
    if is_pending(ev.submission) {
        ev.completion->Some_0
    } else {
        immediate_result(ev.submission)
    }
}

/// The accept sequence's verdict over what the operating system reported.
/// Each step's failure aborts the sequence with that step's error; no
/// partial retry is attempted.
pub open spec fn accept_spec(ev: AcceptEvents) -> AcceptOutcome {
    if ev.socket_create is Err {
        AcceptOutcome::Failed(IoError::Os(ev.socket_create->Err_0))
    } else if !ev.suppress_ok {
        AcceptOutcome::Failed(IoError::Os(ev.suppress_err))
    } else if is_pending(ev.submission) && ev.completion is None {
        AcceptOutcome::StillPending
    } else if accept_io_result(ev).io_result != 0 {
        AcceptOutcome::Failed(IoError::Os(accept_io_result(ev).io_result))
    } else if accept_io_result(ev).number_of_bytes_transferred != 0 {
        AcceptOutcome::UnexpectedData {
            bytes: accept_io_result(ev).number_of_bytes_transferred,
        }
    } else if ev.promote_rc != 0 {
        AcceptOutcome::Failed(IoError::Os(ev.promote_rc))
    } else if !ev.wrap_suppress_ok {
        AcceptOutcome::Failed(IoError::Os(ev.wrap_suppress_err))
    } else if !ev.tpio_created {
        AcceptOutcome::Failed(IoError::Os(ev.tpio_err))
    } else {
        AcceptOutcome::Ready(
            AsyncTcpStream {
                handle: HandleState {
                    id: ev.socket_create->Ok_0,
                    sync_suppressed: true,
                    registered: true,
                },
                tp_io: Tpio { handle_id: ev.socket_create->Ok_0 },
            },
        )
    }
}

/// An accept sequence never hands out a stream whose accept completion
/// reported transferred bytes, and the stream it does hand out is the
/// freshly created socket, fully configured.
pub proof fn lemma_accept_no_captured_data(ev: AcceptEvents)
    ensures
        accept_spec(ev) matches AcceptOutcome::Ready(s) ==> {
            &&& accept_io_result(ev).number_of_bytes_transferred == 0
            &&& accept_io_result(ev).io_result == 0
            &&& s.wf()
            &&& s.handle.id == ev.socket_create->Ok_0
        },
{
}

impl AsyncTcpListener {
    /// Run one accept sequence: create a fresh socket of the listener's
    /// family, suppress synchronous completions on it, issue the extension
    /// accept call through the bridge, and after completion promote the
    /// socket's accept context and wrap it as a stream.
    ///
    /// `ev` is everything the operating system reported along the way.  The
    /// outcome follows [`accept_spec`] exactly; in particular a completion
    /// that moved bytes into the exactly-sized address buffer is reported
    /// as [`AcceptOutcome::UnexpectedData`], never as a usable stream.
    pub fn accept(&self, ev: AcceptEvents) -> (r: AcceptOutcome)
        requires
            self.wf(),
        ensures
            r == accept_spec(ev),
    {
        let sock: u64 = match ev.socket_create {
            Ok(s) => s,
            Err(e) => {
                return AcceptOutcome::Failed(IoError::Os(e));
            }
        };
        let mut accept_handle = HandleState::new(sock);
        match disable_callbacks_on_synchronous_completion(
            &mut accept_handle,
            ev.suppress_ok,
            ev.suppress_err,
        ) {
            Ok(()) => {}
            Err(e) => {
                return AcceptOutcome::Failed(e);
            }
        }
        let result = match crate::iocp_threadpool::run_bridged_operation(
            &self.tp_io,
            &self.handle,
            ev.submission,
            ev.completion,
            0,
        ) {
            Some(Ok(bytes)) => IocpResult { io_result: 0, number_of_bytes_transferred: bytes },
            Some(Err(IoError::Os(code))) => IocpResult {
                io_result: code,
                number_of_bytes_transferred: 0,
            },
            Some(Err(IoError::Disconnected)) => {
                return AcceptOutcome::Failed(IoError::Disconnected);
            }
            None => {
                return AcceptOutcome::StillPending;
            }
        };
        if result.io_result != 0 {
            return AcceptOutcome::Failed(IoError::Os(result.io_result));
        }
        if result.number_of_bytes_transferred != 0 {
            return AcceptOutcome::UnexpectedData {
                bytes: result.number_of_bytes_transferred,
            };
        }
        if ev.promote_rc != 0 {
            return AcceptOutcome::Failed(IoError::Os(ev.promote_rc));
        }
        match AsyncTcpStream::new(
            accept_handle,
            ev.wrap_suppress_ok,
            ev.wrap_suppress_err,
            ev.tpio_created,
            ev.tpio_err,
        ) {
            Ok(stream) => AcceptOutcome::Ready(stream),
            Err(e) => AcceptOutcome::Failed(e),
        }
    }
}

} // verus!
