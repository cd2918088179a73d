//! Readiness records as the native event queue fills them, and the
//! predicates that read them.
use vstd::prelude::*;
use crate::interest::Token;

verus! {

/// Native handle of a socket or of an event queue.
pub type Handle = i32;

/// No readiness.
pub const NONE: u32 = 0;
/// The socket can be read.
pub const READABLE: u32 = 1;
/// The socket can be written.
pub const WRITABLE: u32 = 2;
/// The peer stopped sending.
pub const RCLOSED: u32 = 4;
/// The peer stopped receiving.
pub const WCLOSED: u32 = 8;

/// One native readiness record.
#[derive(Clone, Copy, Debug, PartialEq, Eq, Structural)]
pub struct Event {
    /// The socket the record is about.
    pub socket: Handle,
    /// Readiness bits: `READABLE`, `WRITABLE`, `RCLOSED`, `WCLOSED`.
    pub flags: u32,
    /// The token given at registration.
    pub data: u64,
}

/// Whether `flags` holds the bit `bit`.
pub open spec fn has_flag(flags: u32, bit: u32) -> bool {
    flags & bit != 0
}

/// The token of the registration a record comes from.
pub open spec fn token_of(event: Event) -> Token {
    Token(event.data as usize)
}

/// The token the record carries.
pub fn token(event: &Event) -> (r: Token)
    ensures
        r == token_of(*event),
{
    Token(event.data as usize)
}

/// Whether the record reports read readiness.
pub fn is_readable(event: &Event) -> (r: bool)
    ensures
        r == has_flag(event.flags, READABLE),
{
    event.flags & READABLE != 0
}

/// Whether the record reports write readiness.
pub fn is_writable(event: &Event) -> (r: bool)
    ensures
        r == has_flag(event.flags, WRITABLE),
{
    event.flags & WRITABLE != 0
}

/// Errors are not reported by this event queue.
pub fn is_error(event: &Event) -> (r: bool)
    ensures
        !r,
{
    false
}

/// Whether the record reports that the peer stopped sending.
pub fn is_read_closed(event: &Event) -> (r: bool)
    ensures
        r == has_flag(event.flags, RCLOSED),
{
    event.flags & RCLOSED != 0
}

/// Whether the record reports that the peer stopped receiving.
pub fn is_write_closed(event: &Event) -> (r: bool)
    ensures
        r == has_flag(event.flags, WCLOSED),
{
    event.flags & WCLOSED != 0
}

/// Priority readiness is not reported by this event queue.
pub fn is_priority(event: &Event) -> (r: bool)
    ensures
        !r,
{
    false
}

/// Asynchronous I/O completion is not reported by this event queue.
pub fn is_aio(event: &Event) -> (r: bool)
    ensures
        !r,
{
    false
}

/// List I/O completion is not reported by this event queue.
pub fn is_lio(event: &Event) -> (r: bool)
    ensures
        !r,
{
    false
}

/// What a debug view of a record shows.
#[derive(Clone, Copy, Debug, PartialEq, Eq, Structural)]
pub struct EventDetails {
    pub readable: bool,
    pub writable: bool,
    pub rclosed: bool,
    pub wclosed: bool,
    pub socket: Handle,
    pub data: u64,
}

/// The fields a debug view of `event` lists, in the order it lists them.
pub fn debug_details(event: &Event) -> (r: EventDetails)
    ensures
        r.readable == has_flag(event.flags, READABLE),
        r.writable == has_flag(event.flags, WRITABLE),
        r.rclosed == has_flag(event.flags, RCLOSED),
        r.wclosed == has_flag(event.flags, WCLOSED),
        r.socket == event.socket,
        r.data == event.data,
{
    EventDetails {
        readable: is_readable(event),
        writable: is_writable(event),
        rclosed: is_read_closed(event),
        wclosed: is_write_closed(event),
        socket: event.socket,
        data: event.data,
    }
}

} // verus!
