//! The receiving side of a simulated serial line: bytes that have come in
//! wait in a queue until they are read, first in, first out.

use std::collections::VecDeque;
use vstd::prelude::*;

verus! {

/// The queue of bytes that have come in and have not been read. Its value is
/// that queue, oldest byte first.
pub struct UartSimulator {
    queue: VecDeque<u8>,
}

impl View for UartSimulator {
    type V = Seq<u8>;

    closed spec fn view(&self) -> Seq<u8> {
        self.queue@
    }
}

impl UartSimulator {
    /// A line on which nothing has come in.
    pub fn new() -> (uart: UartSimulator)
        ensures
            uart@ == Seq::<u8>::empty(),
    {
        UartSimulator { queue: VecDeque::new() }
    }

    /// Takes in a byte that has arrived on the line.
    pub fn receive(&mut self, byte: u8)
        ensures
            final(self)@ == old(self)@.push(byte),
    {
        self.queue.push_back(byte);
    }

    /// Whether a byte waits to be read.
    pub fn has_input(&self) -> (waiting: bool)
        ensures
            waiting == (self@.len() > 0),
    {
        self.queue.len() > 0
    }

    /// The oldest byte that waits, if there is one.
    pub fn read_byte_nonblock(&mut self) -> (byte: Option<u8>)
        ensures
            old(self)@.len() == 0 ==> byte.is_none() && final(self)@ == old(self)@,
            old(self)@.len() > 0 ==> byte == Some(old(self)@[0]) && final(self)@ == old(
                self,
            )@.skip(1),
    {
        let byte = self.queue.pop_front();
        proof {
            if old(self)@.len() > 0 {
                assert(old(self)@.subrange(1, old(self)@.len() as int) =~= old(self)@.skip(1));
            }
        }
        byte
    }

    /// The oldest byte that waits. A read that blocks returns only once a
    /// byte is there, so the caller waits for `has_input` first.
    pub fn read_byte_blocking(&mut self) -> (byte: u8)
        requires
            old(self)@.len() > 0,
        ensures
            byte == old(self)@[0],
            final(self)@ == old(self)@.skip(1),
    {
        match self.read_byte_nonblock() {
            Some(byte) => byte,
            None => 0,
        }
    }
}

} // verus!
