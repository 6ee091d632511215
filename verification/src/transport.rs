//! The byte transport the codec runs over: a duplex channel offering a
//! single-byte read attempt and a single-byte write attempt, each with three
//! possible outcomes (ready, pending, fatal). The codec composes these into
//! blocking whole-byte operations by retrying on `Pending` until the byte
//! goes through or the transport reports a hard failure; the retry never
//! gives up on its own, so a transport that stays pending forever stalls the
//! caller, as the constrained target environment accepts.
//!
//! An in-memory transport is provided here, both as the test double and as
//! the reference implementation of the contract.

use vstd::prelude::*;

use crate::Error;

verus! {

/// Outcome of one attempt to read a byte.
pub enum ReadOutcome {
    /// A byte arrived.
    Ready(u8),
    /// Nothing to read yet; try again.
    Pending,
    /// The transport failed for good.
    Fatal,
}

/// Outcome of one attempt to write a byte.
pub enum WriteOutcome {
    /// The byte was accepted.
    Accepted,
    /// The transport cannot take a byte yet; try again.
    Pending,
    /// The transport failed for good.
    Fatal,
}

/// The receiving half of a transport. `incoming` is the sequence of bytes
/// still to be delivered, oldest first; a successful read attempt hands out
/// the head of that sequence, and no attempt reorders or invents bytes.
pub trait VescRead {
    /// The bytes still to be delivered, oldest first.
    spec fn incoming(&self) -> Seq<u8>;

    /// How many more read attempts may report `Pending` before one must
    /// deliver a byte or fail for good: a ghost bound each implementation
    /// chooses, so that retrying until ready provably terminates.
    spec fn read_fuel(&self) -> nat;

    /// Attempts to read one byte without blocking.
    fn try_read(&mut self) -> (outcome: ReadOutcome)
        ensures
            match outcome {
                ReadOutcome::Ready(b) => old(self).incoming().len() > 0
                    && b == old(self).incoming()[0]
                    && final(self).incoming() == old(self).incoming().skip(1),
                ReadOutcome::Pending => final(self).incoming() == old(self).incoming()
                    && final(self).read_fuel() < old(self).read_fuel(),
                ReadOutcome::Fatal => final(self).incoming() == old(self).incoming(),
            },
    ;
}

/// The sending half of a transport. `outgoing` is the sequence of bytes the
/// transport has accepted so far, oldest first; a successful write attempt
/// appends exactly the offered byte.
pub trait VescWrite {
    /// The bytes accepted so far, oldest first.
    spec fn outgoing(&self) -> Seq<u8>;

    /// How many more write attempts may report `Pending` before one must
    /// accept the byte or fail for good: a ghost bound each implementation
    /// chooses, so that retrying until ready provably terminates.
    spec fn write_fuel(&self) -> nat;

    /// Attempts to write one byte without blocking.
    fn try_write(&mut self, byte: u8) -> (outcome: WriteOutcome)
        ensures
            match outcome {
                WriteOutcome::Accepted => final(self).outgoing()
                    == old(self).outgoing().push(byte),
                WriteOutcome::Pending => final(self).outgoing() == old(self).outgoing()
                    && final(self).write_fuel() < old(self).write_fuel(),
                WriteOutcome::Fatal => final(self).outgoing() == old(self).outgoing(),
            },
    ;
}

/// Reads one byte, retrying while the transport is pending. Returns the head
/// of the incoming sequence, or `IoError` on a hard transport failure. Does
/// not return while the transport stays pending.
pub fn read_byte<R: VescRead>(r: &mut R) -> (res: Result<u8, Error>)
    ensures
        match res {
            Ok(b) => old(r).incoming().len() > 0
                && b == old(r).incoming()[0]
                && final(r).incoming() == old(r).incoming().skip(1),
            Err(e) => e == Error::IoError && final(r).incoming() == old(r).incoming(),
        },
{
    loop
        invariant
            r.incoming() == old(r).incoming(),
        decreases r.read_fuel(),
    {
        match r.try_read() {
            ReadOutcome::Ready(b) => {
                return Ok(b);
            },
            ReadOutcome::Pending => {
            },
            ReadOutcome::Fatal => {
                return Err(Error::IoError);
            },
        }
    }
}

/// Writes one byte, retrying while the transport is pending. Appends the byte
/// to the outgoing sequence, or returns `IoError` on a hard transport
/// failure. Does not return while the transport stays pending.
pub fn write_byte<W: VescWrite>(w: &mut W, byte: u8) -> (res: Result<(), Error>)
    ensures
        match res {
            Ok(_) => final(w).outgoing() == old(w).outgoing().push(byte),
            Err(e) => e == Error::IoError && final(w).outgoing() == old(w).outgoing(),
        },
{
    loop
        invariant
            w.outgoing() == old(w).outgoing(),
        decreases w.write_fuel(),
    {
        match w.try_write(byte) {
            WriteOutcome::Accepted => {
                return Ok(());
            },
            WriteOutcome::Pending => {
            },
            WriteOutcome::Fatal => {
                return Err(Error::IoError);
            },
        }
    }
}

/// An in-memory duplex transport: reads deliver a fixed byte sequence and
/// writes collect into a buffer. Reading past the end of the fixed sequence
/// is a hard failure. A pending budget makes the first attempts report
/// `Pending`, to exercise the retry path.
pub struct MemoryTransport {
    data: Vec<u8>,
    pos: usize,
    written: Vec<u8>,
    pending_budget: usize,
}

impl MemoryTransport {
    /// Creates a transport that will deliver `data` and never report
    /// `Pending`.
    pub fn new(data: Vec<u8>) -> (t: Self)
        ensures
            t.incoming() == data@,
            t.outgoing() == Seq::<u8>::empty(),
    {
        MemoryTransport { data, pos: 0, written: Vec::new(), pending_budget: 0 }
    }

    /// Creates a transport that will deliver `data`, reporting `Pending` on
    /// the first `budget` attempts.
    pub fn with_pending(data: Vec<u8>, budget: usize) -> (t: Self)
        ensures
            t.incoming() == data@,
            t.outgoing() == Seq::<u8>::empty(),
    {
        MemoryTransport { data, pos: 0, written: Vec::new(), pending_budget: budget }
    }

    /// The bytes written so far.
    pub fn written(&self) -> (r: &Vec<u8>)
        ensures
            r@ == self.outgoing(),
    {
        &self.written
    }

    /// How many bytes are still to be delivered.
    pub fn remaining(&self) -> (r: usize)
        ensures
            r == self.incoming().len(),
    {
        if self.pos <= self.data.len() {
            self.data.len() - self.pos
        } else {
            0
        }
    }
}

impl VescRead for MemoryTransport {
    closed spec fn incoming(&self) -> Seq<u8> {
        if self.pos <= self.data.len() {
            self.data@.skip(self.pos as int)
        } else {
            Seq::empty()
        }
    }

    closed spec fn read_fuel(&self) -> nat {
        self.pending_budget as nat
    }

    fn try_read(&mut self) -> (outcome: ReadOutcome) {
        if self.pending_budget > 0 {
            self.pending_budget = self.pending_budget - 1;
            return ReadOutcome::Pending;
        }
        if self.pos < self.data.len() {
            let b = self.data[self.pos];
            self.pos = self.pos + 1;
            proof {
                assert(old(self).data@.skip(old(self).pos as int).drop_first() =~= self.data@.skip(
                    self.pos as int,
                ));
            }
            ReadOutcome::Ready(b)
        } else {
            ReadOutcome::Fatal
        }
    }
}

impl VescWrite for MemoryTransport {
    closed spec fn outgoing(&self) -> Seq<u8> {
        self.written@
    }

    closed spec fn write_fuel(&self) -> nat {
        self.pending_budget as nat
    }

    fn try_write(&mut self, byte: u8) -> (outcome: WriteOutcome) {
        if self.pending_budget > 0 {
            self.pending_budget = self.pending_budget - 1;
            return WriteOutcome::Pending;
        }
        self.written.push(byte);
        WriteOutcome::Accepted
    }
}

} // verus!
