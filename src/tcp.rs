//! The steps of creating, binding, connecting, listening on and accepting
//! TCP sockets.
use vstd::prelude::*;
use crate::event::Handle;
use crate::native::{from_abi, os_error, then_call, unspecified_v4, Error, NativeCall, SockAddr};

verus! {

/// The first call of a connect: bind the stream to the unspecified local
/// address, since the native stack binds nothing by itself.
pub open spec fn connect_first(stream: Handle) -> NativeCall {
    NativeCall::TcpBind { socket: stream, addr: unspecified_v4() }
}

/// What follows the local bind of a connect: the connect call once the bind
/// succeeded, the bind's error otherwise.
pub open spec fn connect_next(stream: Handle, addr: SockAddr, bind_reply: Result<(), i32>) -> Result<NativeCall, Error> {
    match bind_reply {
        Ok(()) => Ok(NativeCall::TcpConnect { socket: stream, addr }),
        Err(c) => Err(os_error(c)),
    }
}

/// First step of creating a socket for an address: ask for a socket. The
/// native stack sizes it for any family.
pub fn new_for_addr(_address: SockAddr) -> (r: NativeCall)
    ensures
        r == NativeCall::Socket,
{
    NativeCall::Socket
}

/// Second step: switch the new socket to non-blocking mode, or fail with the
/// socket call's error.
pub fn new_for_addr_created(reply: Result<Handle, i32>) -> (r: Result<NativeCall, Error>)
    ensures
        reply matches Ok(s) ==> r == Ok::<NativeCall, Error>(
            NativeCall::SetNonBlocking { socket: s, non_blocking: true },
        ),
        reply matches Err(c) ==> r == Err::<NativeCall, Error>(os_error(c)),
{
    match reply {
        Ok(socket) => Ok(NativeCall::SetNonBlocking { socket, non_blocking: true }),
        Err(code) => Err(from_abi(code)),
    }
}

/// Last step: the non-blocking socket, or the mode call's error.
pub fn new_for_addr_done(socket: Handle, reply: Result<(), i32>) -> (r: Result<Handle, Error>)
    ensures
        reply is Ok ==> r == Ok::<Handle, Error>(socket),
        reply matches Err(c) ==> r == Err::<Handle, Error>(os_error(c)),
{
    match reply {
        Ok(()) => Ok(socket),
        Err(code) => Err(from_abi(code)),
    }
}

/// Binds `listener` to the local address `addr`.
pub fn bind(listener: Handle, addr: SockAddr) -> (r: NativeCall)
    ensures
        r == (NativeCall::TcpBind { socket: listener, addr }),
{
    NativeCall::TcpBind { socket: listener, addr }
}

/// First step of connecting `stream` to `addr`: the local bind.
pub fn connect(stream: Handle, addr: SockAddr) -> (r: NativeCall)
    ensures
        r == connect_first(stream),
{
    NativeCall::TcpBind { socket: stream, addr: SockAddr::V4 { ip: 0, port: 0 } }
}

/// Second step of connecting: the connect call, only after the local bind
/// succeeded.
pub fn connect_bound(stream: Handle, addr: SockAddr, reply: Result<(), i32>) -> (r: Result<NativeCall, Error>)
    ensures
        r == connect_next(stream, addr, reply),
{
    then_call(reply, NativeCall::TcpConnect { socket: stream, addr })
}

/// A connect asks for the local bind first, and asks for the connect itself
/// only after that bind succeeded: a failed bind ends it with the bind's
/// error.
pub proof fn connect_binds_first(stream: Handle, addr: SockAddr, bind_reply: Result<(), i32>)
    ensures
        connect_first(stream) matches NativeCall::TcpBind { socket, addr: local } && socket == stream
            && local == unspecified_v4(),
        bind_reply matches Err(c) ==> connect_next(stream, addr, bind_reply) == Err::<NativeCall, Error>(
            os_error(c),
        ),
        connect_next(stream, addr, bind_reply) matches Ok(NativeCall::TcpConnect { .. }) ==> bind_reply is Ok,
{
}

/// Listens on `listener` with room for `backlog` pending connections; the
/// backlog is widened, never truncated.
pub fn listen(listener: Handle, backlog: u32) -> (r: NativeCall)
    ensures
        r == (NativeCall::TcpListen { socket: listener, backlog: backlog as usize }),
        backlog as usize == backlog as int,
{
    NativeCall::TcpListen { socket: listener, backlog: backlog as usize }
}

/// First step of accepting on `listener`.
pub fn accept(listener: Handle) -> (r: NativeCall)
    ensures
        r == (NativeCall::TcpAccept { socket: listener }),
{
    NativeCall::TcpAccept { socket: listener }
}

/// Second step of accepting: ask for the peer address of the accepted
/// stream, or fail with the accept call's error.
pub fn accept_accepted(reply: Result<Handle, i32>) -> (r: Result<NativeCall, Error>)
    ensures
        reply matches Ok(s) ==> r == Ok::<NativeCall, Error>(NativeCall::PeerAddr { socket: s }),
        reply matches Err(c) ==> r == Err::<NativeCall, Error>(os_error(c)),
{
    match reply {
        Ok(socket) => Ok(NativeCall::PeerAddr { socket }),
        Err(code) => Err(from_abi(code)),
    }
}

/// Last step of accepting: the stream with the peer address the query
/// returned, or the query's error, in the same category as a failed accept.
pub fn accept_done(stream: Handle, reply: Result<SockAddr, i32>) -> (r: Result<(Handle, SockAddr), Error>)
    ensures
        reply matches Ok(peer) ==> r == Ok::<(Handle, SockAddr), Error>((stream, peer)),
        reply matches Err(c) ==> r == Err::<(Handle, SockAddr), Error>(os_error(c)),
{
    match reply {
        Ok(peer) => Ok((stream, peer)),
        Err(code) => Err(from_abi(code)),
    }
}

} // verus!
