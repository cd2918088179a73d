//! The waker: a socket registered for read readiness on a selector, which
//! another thread signals to end a wait.
use vstd::prelude::*;
use crate::event::{has_flag, token_of, Handle, READABLE};
use crate::interest::{Interest, Token};
use crate::native::{from_abi, os_error, then_call, Error, NativeCall};
use crate::selector::{delivered, delivery_follows_interest, registration, Selector};

verus! {

/// Owner of the socket a wake is signalled on.
#[derive(Debug)]
pub struct Waker {
    socket: Handle,
}

impl Waker {
    /// The waker's own socket.
    pub closed spec fn socket_spec(&self) -> Handle {
        self.socket
    }

    /// First step of creating a waker: ask for a socket. The selector and
    /// token come into play when the socket is registered.
    pub fn new(_selector: &Selector, _token: Token) -> (r: NativeCall)
        ensures
            r == NativeCall::Socket,
    {
        NativeCall::Socket
    }

    /// Second step: turn the new socket into a waker socket, or fail with the
    /// socket call's error.
    pub fn new_created(reply: Result<Handle, i32>) -> (r: Result<NativeCall, Error>)
        ensures
            reply matches Ok(s) ==> r == Ok::<NativeCall, Error>(NativeCall::WakerBind { socket: s }),
            reply matches Err(c) ==> r == Err::<NativeCall, Error>(os_error(c)),
    {
        match reply {
            Ok(socket) => Ok(NativeCall::WakerBind { socket }),
            Err(code) => Err(from_abi(code)),
        }
    }

    /// Third step: register the waker socket on `selector` for read
    /// readiness under `token`, or fail with the bind call's error. Nothing
    /// closes the socket on failure.
    pub fn new_bound(selector: &Selector, socket: Handle, token: Token, reply: Result<(), i32>) -> (r: Result<
        NativeCall,
        Error,
    >)
        ensures
            reply is Ok ==> r == Ok::<NativeCall, Error>(
                NativeCall::EventAdd {
                    queue: selector.queue(),
                    event: registration(socket, token, Interest::read_only()),
                },
            ),
            reply matches Err(c) ==> r == Err::<NativeCall, Error>(os_error(c)),
    {
        then_call(reply, selector.register(socket, token, Interest::readable()))
    }

    /// Last step: the waker over `socket`, or the registration's error.
    pub fn new_registered(socket: Handle, reply: Result<(), i32>) -> (r: Result<Waker, Error>)
        ensures
            reply is Ok ==> (r matches Ok(w) && w.socket_spec() == socket),
            reply matches Err(c) ==> r == Err::<Waker, Error>(os_error(c)),
    {
        match reply {
            Ok(()) => Ok(Waker { socket }),
            Err(code) => Err(from_abi(code)),
        }
    }

    /// Signals read readiness on the waker's socket.
    pub fn wake(&self) -> (r: NativeCall)
        ensures
            r == (NativeCall::WakerSendEvent { socket: self.socket_spec(), flags: READABLE }),
    {
        NativeCall::WakerSendEvent { socket: self.socket, flags: READABLE }
    }
}

/// The read readiness a wake signals, delivered through the waker's
/// registration, is a readable record that carries the waker's token.
pub proof fn wake_reaches_token(socket: Handle, token: Token)
    ensures
        ({
            let e = delivered(socket, token, Interest::read_only(), READABLE);
            has_flag(e.flags, READABLE) && token_of(e) == token
        }),
{
    Interest::read_only_reads();
    delivery_follows_interest(socket, token, Interest::read_only(), READABLE);
    assert(READABLE & READABLE != 0) by (bit_vector);
}

} // verus!
