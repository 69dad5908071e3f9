//! The two operations of a datagram socket.
//!
//! Sending and receiving on a non-blocking datagram socket are single-shot
//! operations: each is made without any I/O, is then driven step by step,
//! and is discarded once it has completed. A send waits on the write half
//! of the socket and completes with the number of bytes written. A receive
//! waits on the read half and completes with the number of bytes read and
//! the address they came from.
//!
//! An operation borrows its socket exclusively for as long as it lives, so
//! that no second operation can be made on the socket meanwhile. The handle
//! inside the socket and the address are the caller's types: nothing here
//! looks into them.

use crate::operation::{Action, Direction, Event, Operation, Phase};
use vstd::prelude::*;

verus! {

/// A UDP socket.
///
/// It owns the handle through which the descriptor and its readiness
/// registration are reached. Dropping the socket drops the handle.
#[derive(Debug)]
pub struct UdpSocket<H> {
    /// The handle to the registered descriptor.
    pub io: H,
}

impl<H> UdpSocket<H> {
    /// The socket that owns `io`.
    pub fn new(io: H) -> (socket: UdpSocket<H>)
        ensures
            socket.io == io,
    {
        UdpSocket { io }
    }

    /// Sends data on the socket to the given address. The operation that
    /// comes back holds the socket, the payload and the target as they were
    /// given, and has not been polled: no I/O is done. The socket is the
    /// caller's again once the operation is dropped.
    pub fn send_to<'a, 'b, A>(&'a mut self, buf: &'b [u8], target: &'b A) -> (send: SendTo<
        'a,
        'b,
        H,
        A,
    >)
        ensures
            *send.socket == *old(self),
            *final(send.socket) == *final(self),
            send.buf == buf,
            send.target == target,
            send.phase == Phase::Parked,
    {
        SendTo { socket: self, buf, target, phase: Phase::Parked }
    }

    /// Receives data from the socket. The operation that comes back holds
    /// the socket and the buffer as they were given, and has not been
    /// polled: no I/O is done. The socket and the buffer are the caller's
    /// again, with whatever was written to the buffer, once the operation
    /// is dropped.
    pub fn recv_from<'a, 'b>(&'a mut self, buf: &'b mut [u8]) -> (recv: RecvFrom<'a, 'b, H>)
        ensures
            *recv.socket == *old(self),
            *final(recv.socket) == *final(self),
            recv.buf@ == old(buf)@,
            final(recv.buf)@ == final(buf)@,
            recv.phase == Phase::Parked,
    {
        RecvFrom { socket: self, buf, phase: Phase::Parked }
    }
}

/// A pending send of one datagram, as made by [`UdpSocket::send_to`].
#[derive(Debug)]
pub struct SendTo<'a, 'b, H, A> {
    /// The socket that the datagram is sent on.
    pub socket: &'a mut UdpSocket<H>,
    /// The payload. It goes to the operating system as it is, whatever its
    /// length.
    pub buf: &'b [u8],
    /// Where the datagram is to go.
    pub target: &'b A,
    /// Where the operation stands.
    pub phase: Phase,
}

impl<'a, 'b, H, A> SendTo<'a, 'b, H, A> {
    /// The progress of this send: an operation on the write half.
    pub open spec fn operation(&self) -> Operation {
        Operation { direction: Direction::Write, phase: self.phase }
    }

    /// Takes one event and says what to do next, as [`Operation::step`]
    /// does. A send completes with the number of bytes written, as the
    /// attempt reported it. The socket, the payload and the target stay as
    /// they are.
    pub fn step<E>(&mut self, event: Event<usize, E>) -> (r: Result<
        Action<usize, E>,
        Event<usize, E>,
    >)
        ensures
            final(self).operation() == old(self).operation().after(event),
            old(self).operation().expects(event) ==> r == Ok::<Action<usize, E>, Event<usize, E>>(
                old(self).operation().action(event),
            ),
            !old(self).operation().expects(event) ==> r == Err::<
                Action<usize, E>,
                Event<usize, E>,
            >(event),
            *final(self).socket == *old(self).socket,
            *final(final(self).socket) == *final(old(self).socket),
            final(self).buf == old(self).buf,
            final(self).target == old(self).target,
    {
        let mut op = Operation { direction: Direction::Write, phase: self.phase };
        let r = op.step(event);
        self.phase = op.phase;
        r
    }
}

/// A pending receive of one datagram into a borrowed buffer, as made by
/// [`UdpSocket::recv_from`].
#[derive(Debug)]
pub struct RecvFrom<'a, 'b, H> {
    /// The socket that the datagram is received on.
    pub socket: &'a mut UdpSocket<H>,
    /// The buffer that the datagram is read into. The driver hands it to the
    /// operating system at each attempt.
    pub buf: &'b mut [u8],
    /// Where the operation stands.
    pub phase: Phase,
}

impl<'a, 'b, H> RecvFrom<'a, 'b, H> {
    /// The progress of this receive: an operation on the read half.
    pub open spec fn operation(&self) -> Operation {
        Operation { direction: Direction::Read, phase: self.phase }
    }

    /// Takes one event and says what to do next, as [`Operation::step`]
    /// does. A receive completes with the number of bytes read and the
    /// address of the sender, both as the attempt reported them. The socket
    /// and the buffer are not touched.
    pub fn step<A, E>(&mut self, event: Event<(usize, A), E>) -> (r: Result<
        Action<(usize, A), E>,
        Event<(usize, A), E>,
    >)
        ensures
            final(self).operation() == old(self).operation().after(event),
            old(self).operation().expects(event) ==> r == Ok::<
                Action<(usize, A), E>,
                Event<(usize, A), E>,
            >(old(self).operation().action(event)),
            !old(self).operation().expects(event) ==> r == Err::<
                Action<(usize, A), E>,
                Event<(usize, A), E>,
            >(event),
            *final(self).socket == *old(self).socket,
            *final(final(self).socket) == *final(old(self).socket),
            final(self).buf@ == old(self).buf@,
            final(final(self).buf)@ == final(old(self).buf)@,
    {
        let mut op = Operation { direction: Direction::Read, phase: self.phase };
        let r = op.step(event);
        self.phase = op.phase;
        r
    }
}

/// A send asks for the readiness of the write half of the socket, and has
/// that half cleared, and no other.
pub proof fn lemma_a_send_waits_on_the_write_half<'a, 'b, H, A, E>(
    send: SendTo<'a, 'b, H, A>,
    event: Event<usize, E>,
    direction: Direction,
)
    requires
        send.operation().action(event) == Action::<usize, E>::QueryReadiness(direction)
            || send.operation().action(event) == Action::<usize, E>::ClearReadiness(direction),
    ensures
        direction == Direction::Write,
{
}

/// A receive asks for the readiness of the read half of the socket, and has
/// that half cleared, and no other.
pub proof fn lemma_a_receive_waits_on_the_read_half<'a, 'b, H, A, E>(
    recv: RecvFrom<'a, 'b, H>,
    event: Event<(usize, A), E>,
    direction: Direction,
)
    requires
        recv.operation().action(event) == Action::<(usize, A), E>::QueryReadiness(direction)
            || recv.operation().action(event) == Action::<(usize, A), E>::ClearReadiness(
            direction,
        ),
    ensures
        direction == Direction::Read,
{
}

} // verus!
