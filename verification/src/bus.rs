//! The two-wire bus transport the driver writes through.
//!
//! The driver never touches the wire itself: it is generic over an
//! [`I2cBus`], the narrow capability a platform supplies. The trait's
//! contract speaks of an abstract history of issued operations, so every
//! driver operation can state exactly which transactions it puts on the
//! bus and that a rejected input puts none.

use vstd::prelude::*;

verus! {

/// One operation issued on the bus, as the driver's contracts see it: a
/// raw write of a starting register address and payload to a device, or
/// the mode-register write that enables auto-increment addressing.
pub enum BusOperation {
    Write { address: u8, bytes: Seq<u8> },
    EnableAutoIncrement,
}

/// The bus-transport capability: raw byte writes to a device address, and
/// the mode-register write that makes consecutive registers auto-advance
/// within one transaction.
///
/// Platforms implement this for their two-wire peripheral. The history is
/// the abstract sequence of operations the transport has carried out; a
/// call that fails carries out none.
pub trait I2cBus: Sized {
    /// The transport's own fault type, surfaced to the driver's caller
    /// unmodified.
    type BusError;

    /// The operations issued on the bus so far, oldest first.
    spec fn history(&self) -> Seq<BusOperation>;

    /// Sends `bytes` to the device at `address`: the first byte names the
    /// starting register, the rest are the payload.
    fn write(&mut self, address: u8, bytes: &Vec<u8>) -> (result: Result<(), Self::BusError>)
        ensures
            result is Ok ==> final(self).history() == old(self).history().push(
                (BusOperation::Write { address: address, bytes: bytes@ }),
            ),
            result is Err ==> final(self).history() == old(self).history(),
    ;

    /// Enables auto-increment addressing on the device, so that one write
    /// transaction can fill a run of consecutive registers.
    fn enable_auto_increment(&mut self) -> (result: Result<(), Self::BusError>)
        ensures
            result is Ok ==> final(self).history() == old(self).history().push(
                BusOperation::EnableAutoIncrement,
            ),
            result is Err ==> final(self).history() == old(self).history(),
    ;
}

/// One operation kept by a [`RecordingBus`].
#[derive(Debug, Clone, PartialEq, Eq)]
pub enum RecordedOperation {
    Write { address: u8, bytes: Vec<u8> },
    EnableAutoIncrement,
}

impl View for RecordedOperation {
    type V = BusOperation;

    open spec fn view(&self) -> BusOperation {
        match self {
            RecordedOperation::Write { address, bytes } => (BusOperation::Write {
                address: *address,
                bytes: bytes@,
            }),
            RecordedOperation::EnableAutoIncrement => BusOperation::EnableAutoIncrement,
        }
    }
}

/// A bus that carries out every operation by recording it: a test double
/// whose kept operations are exactly the history the contracts speak of.
pub struct RecordingBus {
    pub operations: Vec<RecordedOperation>,
}

impl RecordingBus {
    /// A recording bus with nothing issued on it yet.
    pub fn new() -> (bus: RecordingBus)
        ensures
            bus.history() == Seq::<BusOperation>::empty(),
            bus.operations@.len() == 0,
    {
        let bus = RecordingBus { operations: Vec::new() };
        proof {
            assert(bus.history() =~= Seq::<BusOperation>::empty());
        }
        bus
    }
}

fn copy_bytes(bytes: &Vec<u8>) -> (copied: Vec<u8>)
    ensures
        copied@ == bytes@,
{
    let mut copied: Vec<u8> = Vec::new();
    let mut i: usize = 0;
    while i < bytes.len()
        invariant
            i <= bytes@.len(),
            copied@.len() == i,
            forall|j: int| 0 <= j < i ==> copied@[j] == bytes@[j],
        decreases bytes@.len() - i,
    {
        copied.push(bytes[i]);
        i = i + 1;
    }
    proof {
        assert(copied@ =~= bytes@);
    }
    copied
}

impl I2cBus for RecordingBus {
    type BusError = ();

    open spec fn history(&self) -> Seq<BusOperation> {
        self.operations@.map_values(|op: RecordedOperation| op@)
    }

    fn write(&mut self, address: u8, bytes: &Vec<u8>) -> (result: Result<(), ()>)
        ensures
            result is Ok,
    {
        let entry = RecordedOperation::Write { address: address, bytes: copy_bytes(bytes) };
        self.operations.push(entry);
        proof {
            assert(self.history() =~= old(self).history().push(
                (BusOperation::Write { address: address, bytes: bytes@ }),
            ));
        }
        Ok(())
    }

    fn enable_auto_increment(&mut self) -> (result: Result<(), ()>)
        ensures
            result is Ok,
    {
        self.operations.push(RecordedOperation::EnableAutoIncrement);
        proof {
            assert(self.history() =~= old(self).history().push(
                BusOperation::EnableAutoIncrement,
            ));
        }
        Ok(())
    }
}

} // verus!
