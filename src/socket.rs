//! A socket that owns one native handle for the protocol it was created with.
//!
//! The native calls themselves (create, bind, shut down) are made by the
//! caller; this type takes what they returned and decides what follows.
use vstd::prelude::*;
use vstd::string::StringSliceAdditionalSpecFns;

use crate::protocol::{spec_native_id, Protocol, AF_SP};
use crate::result::{ErrorKind, NanoError, NanoResult};

verus! {

/// What a socket is, mathematically: a live native handle, the protocol it
/// was created with, and the address it was last bound to, if any.
pub struct SocketView {
    pub handle: int,
    pub protocol: Protocol,
    pub bound: Option<Seq<char>>,
}

/// Whether a native "create socket" result stands for a live handle. The
/// native library returns a negative sentinel on failure.
pub open spec fn created(handle: i32) -> bool {
    handle >= 0
}

/// Whether a native "bind" status stands for success: the native library
/// signals failure with the sentinel `-1` and nothing else.
pub open spec fn bind_accepted(status: i32) -> bool {
    status != -1
}

/// The socket that a successful creation with `handle` yields.
pub open spec fn fresh(protocol: Protocol, handle: i32) -> SocketView {
    SocketView { handle: handle as int, protocol, bound: None }
}

/// The socket after a successful bind to `addr`: only the bound address changes.
pub open spec fn after_bind(s: SocketView, addr: Seq<char>) -> SocketView {
    SocketView { bound: Some(addr), ..s }
}

/// Every socket value holds a live handle.
pub open spec fn live(s: SocketView) -> bool {
    s.handle >= 0
}

/// The description of a failed creation.
pub open spec fn init_failure_message() -> Seq<char> {
    "Failed to create a new nanomsg socket"@
}

/// The description of a failed bind: a fixed prefix, then the address.
pub open spec fn bind_failure_message(addr: Seq<char>) -> Seq<char> {
    "Failed to bind the socket to the address: "@ + addr
}

/// The bytes that the native "bind" call reads for `addr`: its UTF-8
/// encoding followed by the terminating zero byte that the native side
/// expects. The native side reads an address that holds a zero byte of its
/// own only up to that byte.
pub fn native_address(addr: &str) -> (r: Vec<u8>)
    ensures
        r@ == addr.spec_bytes().push(0u8),
{
    let bytes = addr.as_bytes();
    let mut out: Vec<u8> = Vec::new();
    let mut i: usize = 0;
    while i < bytes.len()
        invariant
            bytes@ == addr.spec_bytes(),
            i <= bytes@.len(),
            out@ == bytes@.subrange(0, i as int),
        decreases bytes@.len() - i,
    {
        out.push(bytes[i]);
        i = i + 1;
    }
    out.push(0u8);
    assert(bytes@.subrange(0, i as int) =~= bytes@);
    out
}

/// The description of a failed bind holds the address it was attempted with.
pub proof fn lemma_bind_failure_names_address(addr: Seq<char>)
    ensures
        exists|i: int|
            0 <= i && i + addr.len() <= bind_failure_message(addr).len()
                && #[trigger] bind_failure_message(addr).subrange(i, i + addr.len()) == addr,
{
    let m = bind_failure_message(addr);
    let i = m.len() - addr.len();
    assert(m.subrange(i, i + addr.len()) =~= addr);
}

/// Binding twice: a live socket stays live after a successful bind, so a
/// second bind may follow; after both it holds its own handle and protocol
/// and is bound to the second address.
pub proof fn lemma_bind_twice(s: SocketView, a1: Seq<char>, a2: Seq<char>)
    requires
        live(s),
    ensures
        live(after_bind(s, a1)),
        after_bind(after_bind(s, a1), a2) == (SocketView { bound: Some(a2), ..s }),
{
}

/// A type-safe socket over one native socket handle. It records the protocol
/// it was created with and borrows the address it is bound to, so that it
/// cannot outlive that address.
pub struct Socket<'a> {
    addr: Option<&'a str>,
    socket: i32,
    protocol: Protocol,
}

impl<'a> View for Socket<'a> {
    type V = SocketView;

    closed spec fn view(&self) -> SocketView {
        SocketView {
            handle: self.socket as int,
            protocol: self.protocol,
            bound: match self.addr {
                Some(a) => Some(a@),
                None => None,
            },
        }
    }
}

impl<'a> Socket<'a> {
    /// A socket never holds a failed handle.
    #[verifier::type_invariant]
    closed spec fn inv(self) -> bool {
        self.socket >= 0
    }

    /// The address family and protocol identifier to hand to the native
    /// "create socket" call for `protocol`.
    pub fn create_args(protocol: Protocol) -> (r: (i32, i32))
        ensures
            r == (AF_SP, spec_native_id(protocol)),
    {
        (AF_SP, protocol.native_id())
    }

    /// Takes the result of the native "create socket" call made with
    /// `create_args(protocol)`. A non-negative result is the new socket's
    /// handle; the failure sentinel gives `SocketInitializationError` and no
    /// socket, so nothing was allocated that could leak.
    pub fn new(protocol: Protocol, handle: i32) -> (r: NanoResult<Socket<'a>>)
        ensures
            created(handle) <==> r is Ok,
            r matches Ok(s) ==> s@ == fresh(protocol, handle) && live(s@),
            r matches Err(e) ==> e.kind == ErrorKind::SocketInitializationError
                && e.description@ == init_failure_message(),
    {
        if handle < 0 {
            return Err(
                NanoError::new("Failed to create a new nanomsg socket", ErrorKind::SocketInitializationError),
            );
        }
        Ok(Socket { addr: None, socket: handle, protocol })
    }

    /// The native handle, for the native calls that take it.
    pub fn handle(&self) -> (r: i32)
        ensures
            r as int == self@.handle,
            r >= 0,
    {
        proof {
            use_type_invariant(self);
        }
        self.socket
    }

    /// The protocol the socket was created with.
    pub fn protocol(&self) -> (r: Protocol)
        ensures
            r == self@.protocol,
    {
        self.protocol
    }

    /// The address the socket was last bound to, if any.
    pub fn address(&self) -> (r: Option<&'a str>)
        ensures
            r matches Some(a) ==> self@.bound == Some(a@),
            r is None <==> self@.bound is None,
    {
        self.addr
    }

    /// Takes the status of the native "bind" call made on this socket's
    /// handle with `addr`. Binding never blocks. On success the socket
    /// records `addr` and keeps it borrowed; on the failure sentinel it is
    /// unchanged and the error names the address.
    pub fn bind(&mut self, addr: &'a str, status: i32) -> (r: NanoResult<()>)
        ensures
            bind_accepted(status) <==> r is Ok,
            r is Ok ==> final(self)@ == after_bind(old(self)@, addr@),
            r is Err ==> final(self)@ == old(self)@,
            r matches Err(e) ==> e.kind == ErrorKind::SocketBindError
                && e.description@ == bind_failure_message(addr@),
    {
        if status == -1 {
            let msg = "Failed to bind the socket to the address: ".to_owned().concat(addr);
            return Err(NanoError::new(msg.as_str(), ErrorKind::SocketBindError));
        }
        proof {
            use_type_invariant(&*self);
        }
        self.addr = Some(addr);
        Ok(())
    }

    /// Gives up the socket and returns the handle for the native shutdown
    /// call. The socket is consumed, so no operation can follow its release.
    pub fn release(self) -> (r: i32)
        ensures
            r as int == self@.handle,
            r >= 0,
    {
        proof {
            use_type_invariant(&self);
        }
        self.socket
    }
}

} // verus!
