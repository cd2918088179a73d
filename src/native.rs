//! The native calls this layer asks for, the addresses they take, and the
//! translation of native failures into the library's error.
use vstd::prelude::*;
use core::time::Duration;
use crate::event::{Event, Handle};

verus! {

/// A socket address as the native stack takes it.
#[derive(Clone, Copy, Debug, PartialEq, Eq, Hash, Structural)]
pub enum SockAddr {
    /// IPv4: the address as a big-endian number, and the port.
    V4 { ip: u32, port: u16 },
    /// IPv6: the address as a big-endian number, and the port.
    V6 { ip6: u128, port: u16 },
}

/// The unspecified IPv4 address with port zero.
pub open spec fn unspecified_v4() -> SockAddr {
    SockAddr::V4 { ip: 0, port: 0 }
}

/// One call into the native socket and event-queue interface.
#[derive(Clone, Copy, Debug, PartialEq, Eq)]
pub enum NativeCall {
    /// Create a socket.
    Socket,
    /// Turn `socket` into an event queue.
    EventBind { socket: Handle },
    /// Turn `socket` into a waker socket.
    WakerBind { socket: Handle },
    /// Switch non-blocking mode of `socket`.
    SetNonBlocking { socket: Handle, non_blocking: bool },
    /// Set how long a wait on `socket` may block; `None` blocks without end.
    SetTimeout { socket: Handle, timeout: Option<Duration> },
    /// Wait on `queue` and fill up to `capacity` readiness records.
    EventWait { queue: Handle, capacity: usize },
    /// Add the registration `event` to `queue`.
    EventAdd { queue: Handle, event: Event },
    /// Replace the registration of `event.socket` on `queue`.
    EventModify { queue: Handle, event: Event },
    /// Remove the registration of `socket` from `queue`.
    EventRemove { queue: Handle, socket: Handle },
    /// Signal readiness `flags` on the waker socket `socket`.
    WakerSendEvent { socket: Handle, flags: u32 },
    /// Bind `socket` to the local address `addr`.
    TcpBind { socket: Handle, addr: SockAddr },
    /// Connect `socket` to `addr`.
    TcpConnect { socket: Handle, addr: SockAddr },
    /// Listen on `socket` with a queue of `backlog` pending connections.
    TcpListen { socket: Handle, backlog: usize },
    /// Accept a connection on `socket`.
    TcpAccept { socket: Handle },
    /// Ask for the peer address of `socket`.
    PeerAddr { socket: Handle },
    /// Close `socket`.
    Close { socket: Handle },
}

/// An I/O failure as callers see it.
#[derive(Clone, Copy, Debug, PartialEq, Eq, Structural)]
pub enum Error {
    /// A native failure, with its status code unchanged.
    Os(i32),
    /// The operation is not available on this backend.
    Unsupported,
}

/// The error a native status code stands for.
pub open spec fn os_error(code: i32) -> Error {
    Error::Os(code)
}

/// What a native reply becomes for the caller: the value, or the error its
/// status code stands for.
pub open spec fn translated<T>(reply: Result<T, i32>) -> Result<T, Error> {
    match reply {
        Ok(v) => Ok(v),
        Err(code) => Err(os_error(code)),
    }
}

/// Translates a native status code, one to one.
pub fn from_abi(code: i32) -> (r: Error)
    ensures
        r == os_error(code),
{
    Error::Os(code)
}

/// Translates a native reply: a value passes, a status code becomes an error.
pub fn translate<T>(reply: Result<T, i32>) -> (r: Result<T, Error>)
    ensures
        r == translated(reply),
{
    match reply {
        Ok(v) => Ok(v),
        Err(code) => Err(from_abi(code)),
    }
}

/// Continues with `next` after a native step that succeeded; stops with the
/// translated error after one that failed.
pub fn then_call(reply: Result<(), i32>, next: NativeCall) -> (r: Result<NativeCall, Error>)
    ensures
        reply is Ok ==> r == Ok::<NativeCall, Error>(next),
        reply matches Err(code) ==> r == Err::<NativeCall, Error>(os_error(code)),
{
    match reply {
        Ok(()) => Ok(next),
        Err(code) => Err(from_abi(code)),
    }
}

} // verus!
