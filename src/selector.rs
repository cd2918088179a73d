//! The selector: owner of one native event queue, and the decisions of its
//! set-up, wait and registration steps.
use vstd::prelude::*;
use core::time::Duration;
use vstd::math::min;
use crate::event::{has_flag, token_of, Event, Handle, NONE, RCLOSED, READABLE, WCLOSED, WRITABLE};
use crate::events::Events;
use crate::interest::{Interest, Token};
use crate::native::{from_abi, os_error, then_call, Error, NativeCall};

verus! {

/// The readiness bits a registration asks the queue for. Read interest also
/// asks for `RCLOSED`, write interest also for `WCLOSED`, so a half-close is
/// seen wherever the matching readiness was requested.
pub open spec fn flags_of(interests: Interest) -> u32 {
    (if interests.reads() { READABLE | RCLOSED } else { NONE })
        | (if interests.writes() { WRITABLE | WCLOSED } else { NONE })
}

/// The record a registration of `socket` under `token` hands the queue.
pub open spec fn registration(socket: Handle, token: Token, interests: Interest) -> Event {
    Event { socket, flags: flags_of(interests), data: token.0 as u64 }
}

/// What the queue delivers for a registration when the conditions `occurred`
/// came about: the requested bits among them.
pub open spec fn delivered(socket: Handle, token: Token, interests: Interest, occurred: u32) -> Event {
    Event { socket, flags: flags_of(interests) & occurred, data: token.0 as u64 }
}

/// Translates interest into native readiness bits.
pub fn interests_to_flags(interests: Interest) -> (r: u32)
    ensures
        r == flags_of(interests),
{
    let read_bits: u32 = if interests.is_readable() { READABLE | RCLOSED } else { NONE };
    let write_bits: u32 = if interests.is_writable() { WRITABLE | WCLOSED } else { NONE };
    read_bits | write_bits
}

proof fn lemma_bits_of_parts(x: u32, y: u32)
    by (bit_vector)
    requires
        x == 0 || x == 5,
        y == 0 || y == 10,
    ensures
        ((x | y) & 1 != 0) == (x == 5),
        ((x | y) & 4 != 0) == (x == 5),
        ((x | y) & 2 != 0) == (y == 10),
        ((x | y) & 8 != 0) == (y == 10),
{
}

proof fn lemma_mask_bit(x: u32, o: u32, b: u32)
    by (bit_vector)
    requires
        b == 1 || b == 2 || b == 4 || b == 8,
    ensures
        ((x & o) & b != 0) == ((x & b != 0) && (o & b != 0)),
{
}

/// Each readiness bit of a registration is set exactly when the matching
/// interest was requested.
pub proof fn flags_of_bits(interests: Interest)
    ensures
        has_flag(flags_of(interests), READABLE) == interests.reads(),
        has_flag(flags_of(interests), RCLOSED) == interests.reads(),
        has_flag(flags_of(interests), WRITABLE) == interests.writes(),
        has_flag(flags_of(interests), WCLOSED) == interests.writes(),
{
    assert(READABLE | RCLOSED == 5) by (bit_vector);
    assert(WRITABLE | WCLOSED == 10) by (bit_vector);
    let x: u32 = if interests.reads() { 5 } else { 0 };
    let y: u32 = if interests.writes() { 10 } else { 0 };
    lemma_bits_of_parts(x, y);
}

/// A delivered record reports a readiness only where the registration asked
/// for it, and reports every requested condition that came about: read-only
/// interest never yields write readiness, and always yields a half-close of
/// the peer once it happens.
pub proof fn delivery_follows_interest(socket: Handle, token: Token, interests: Interest, occurred: u32)
    ensures
        ({
            let e = delivered(socket, token, interests, occurred);
            &&& has_flag(e.flags, READABLE) == (interests.reads() && has_flag(occurred, READABLE))
            &&& has_flag(e.flags, RCLOSED) == (interests.reads() && has_flag(occurred, RCLOSED))
            &&& has_flag(e.flags, WRITABLE) == (interests.writes() && has_flag(occurred, WRITABLE))
            &&& has_flag(e.flags, WCLOSED) == (interests.writes() && has_flag(occurred, WCLOSED))
            &&& token_of(e) == token
        }),
{
    flags_of_bits(interests);
    let f = flags_of(interests);
    lemma_mask_bit(f, occurred, READABLE);
    lemma_mask_bit(f, occurred, RCLOSED);
    lemma_mask_bit(f, occurred, WRITABLE);
    lemma_mask_bit(f, occurred, WCLOSED);
}

/// Owner of one native event queue.
pub struct Selector {
    id: usize,
    event_socket: Handle,
    has_waker: bool,
}

impl Selector {
    /// The native event queue this selector owns.
    pub closed spec fn queue(&self) -> Handle {
        self.event_socket
    }

    /// The identifier given at set-up.
    pub closed spec fn id_spec(&self) -> usize {
        self.id
    }

    /// Whether a waker has been recorded against this selector.
    pub closed spec fn waker_recorded(&self) -> bool {
        self.has_waker
    }

    /// First step of set-up: ask for a socket.
    pub fn new() -> (r: NativeCall)
        ensures
            r == NativeCall::Socket,
    {
        NativeCall::Socket
    }

    /// Second step of set-up: turn the new socket into an event queue, or
    /// fail with the socket call's error.
    pub fn new_created(reply: Result<Handle, i32>) -> (r: Result<NativeCall, Error>)
        ensures
            reply matches Ok(s) ==> r == Ok::<NativeCall, Error>(NativeCall::EventBind { socket: s }),
            reply matches Err(c) ==> r == Err::<NativeCall, Error>(os_error(c)),
    {
        match reply {
            Ok(socket) => Ok(NativeCall::EventBind { socket }),
            Err(code) => Err(from_abi(code)),
        }
    }

    /// Last step of set-up: a selector over `socket`, once it is an event
    /// queue, or the bind call's error.
    pub fn new_bound(id: usize, socket: Handle, reply: Result<(), i32>) -> (r: Result<Selector, Error>)
        ensures
            reply is Ok ==> (r matches Ok(s) && s.queue() == socket && s.id_spec() == id
                && !s.waker_recorded()),
            reply matches Err(c) ==> r == Err::<Selector, Error>(os_error(c)),
    {
        match reply {
            Ok(()) => Ok(Selector { id, event_socket: socket, has_waker: false }),
            Err(code) => Err(from_abi(code)),
        }
    }

    /// A selector cannot be duplicated on this backend: always the
    /// unsupported error.
    pub fn try_clone(&self) -> (r: Result<Selector, Error>)
        ensures
            r matches Err(e) && e == Error::Unsupported,
    {
        Err(Error::Unsupported)
    }

    /// First step of a wait: empty `events` and set how long the wait may
    /// block, `None` meaning without end.
    pub fn select(&self, events: &mut Events, timeout: Option<Duration>) -> (r: NativeCall)
        ensures
            final(events)@ == Seq::<Event>::empty(),
            final(events).cap_spec() == old(events).cap_spec(),
            r == (NativeCall::SetTimeout { socket: self.queue(), timeout }),
    {
        events.clear();
        NativeCall::SetTimeout { socket: self.event_socket, timeout }
    }

    /// Second step of a wait: block on the queue for up to the buffer's
    /// capacity of records, or fail with the timeout call's error.
    pub fn select_timeout_set(&self, events: &Events, reply: Result<(), i32>) -> (r: Result<NativeCall, Error>)
        ensures
            reply is Ok ==> r == Ok::<NativeCall, Error>(
                NativeCall::EventWait { queue: self.queue(), capacity: events.cap_spec() as usize },
            ),
            reply matches Err(c) ==> r == Err::<NativeCall, Error>(os_error(c)),
    {
        then_call(reply, NativeCall::EventWait { queue: self.event_socket, capacity: events.capacity() })
    }

    /// Last step of a wait: `events` takes the records the queue filled, never
    /// more than its capacity; on failure it stays empty and the wait call's
    /// error is returned.
    pub fn select_done(&self, events: &mut Events, reply: Result<Vec<Event>, i32>) -> (r: Result<(), Error>)
        ensures
            final(events).cap_spec() == old(events).cap_spec(),
            final(events)@.len() <= final(events).cap_spec(),
            reply matches Ok(filled) ==> r is Ok && final(events)@ == filled@.take(
                min(filled@.len() as int, old(events).cap_spec() as int),
            ),
            reply matches Err(c) ==> r == Err::<(), Error>(os_error(c)) && final(events)@
                == Seq::<Event>::empty(),
    {
        match reply {
            Ok(filled) => {
                events.fill(&filled);
                Ok(())
            },
            Err(code) => {
                events.clear();
                Err(from_abi(code))
            },
        }
    }

    /// Adds `socket` to the queue under `token`, for `interests`.
    pub fn register(&self, socket: Handle, token: Token, interests: Interest) -> (r: NativeCall)
        ensures
            r == (NativeCall::EventAdd { queue: self.queue(), event: registration(socket, token, interests) }),
    {
        let event = Event { flags: interests_to_flags(interests), socket, data: token.0 as u64 };
        NativeCall::EventAdd { queue: self.event_socket, event }
    }

    /// Replaces the registration of `socket` with `token` and `interests`.
    pub fn reregister(&self, socket: Handle, token: Token, interests: Interest) -> (r: NativeCall)
        ensures
            r == (NativeCall::EventModify { queue: self.queue(), event: registration(socket, token, interests) }),
    {
        let event = Event { flags: interests_to_flags(interests), socket, data: token.0 as u64 };
        NativeCall::EventModify { queue: self.event_socket, event }
    }

    /// Removes the registration of `socket`.
    pub fn deregister(&self, socket: Handle) -> (r: NativeCall)
        ensures
            r == (NativeCall::EventRemove { queue: self.queue(), socket }),
    {
        NativeCall::EventRemove { queue: self.event_socket, socket }
    }

    /// Records that a waker now exists for this selector, and tells whether
    /// one had been recorded before.
    pub fn register_waker(&mut self) -> (r: bool)
        ensures
            r == old(self).waker_recorded(),
            final(self).waker_recorded(),
            final(self).queue() == old(self).queue(),
            final(self).id_spec() == old(self).id_spec(),
    {
        let before = self.has_waker;
        self.has_waker = true;
        before
    }

    /// The identifier given at set-up.
    pub fn id(&self) -> (r: usize)
        ensures
            r == self.id_spec(),
    {
        self.id
    }

    /// The native event queue.
    pub fn as_abi(&self) -> (r: Handle)
        ensures
            r == self.queue(),
    {
        self.event_socket
    }

    /// The call that releases the event queue when the selector goes away.
    pub fn close(&self) -> (r: NativeCall)
        ensures
            r == (NativeCall::Close { socket: self.queue() }),
    {
        NativeCall::Close { socket: self.event_socket }
    }
}

/// A registration's record carries its token back unchanged.
pub proof fn registration_keeps_token(socket: Handle, token: Token, interests: Interest)
    ensures
        token_of(registration(socket, token, interests)) == token,
{
}

} // verus!
