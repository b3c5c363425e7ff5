use vstd::prelude::*;

verus! {

/// One write transaction as observed at the transport boundary: the bus
/// address that was targeted, the frame that was transmitted, and the outcome
/// the transport reported.
pub struct WriteRecord<E> {
    /// Bus address of the device the frame was written to.
    pub address: u8,
    /// The bytes transmitted, in order.
    pub frame: Seq<u8>,
    /// The outcome the transport reported for this transaction.
    pub result: Result<(), E>,
}

/// One combined write-then-read transaction as observed at the transport
/// boundary: the bus address that was targeted, the request bytes written,
/// the bytes read back, and the outcome the transport reported.
pub struct WriteReadRecord<E> {
    /// Bus address of the device addressed by the transaction.
    pub address: u8,
    /// The bytes written before the read, in order.
    pub request: Seq<u8>,
    /// The bytes the transport placed in the caller's buffer, in order.
    pub response: Seq<u8>,
    /// The outcome the transport reported for this transaction.
    pub result: Result<(), E>,
}

/// A blocking bus transport that can write a frame of bytes to a device.
///
/// An implementation describes every transaction it has performed through
/// [`Self::write_history`]; the contract of [`Self::write`] says that one
/// call appends exactly one record to that history, carrying the address and
/// frame the caller supplied and the outcome the call returned. A caller's
/// proof therefore sees, for each transaction, what was put on the bus and
/// with what result.
pub trait I2cWrite {
    /// The transport's failure type, opaque to this crate and forwarded
    /// unchanged.
    type Error;

    /// All write transactions this transport has performed, oldest first.
    ///
    /// The default stands for an implementation that keeps no history; such
    /// an implementation cannot meet the contract of [`Self::write`], so a
    /// verified transport overrides this with its real history.
    open spec fn write_history(&self) -> Seq<WriteRecord<Self::Error>> {
        Seq::empty()
    }

    /// Write `frame` to the device at `address` as one bus transaction.
    fn write(&mut self, address: u8, frame: &[u8]) -> (r: Result<(), Self::Error>)
        ensures
            final(self).write_history() == old(self).write_history().push(
                (WriteRecord { address, frame: frame@, result: r }),
            ),
    ;
}

/// A blocking bus transport that can write a request and then read a reply
/// from a device as one bus transaction.
///
/// As with [`I2cWrite`], the contract of [`Self::write_read`] says that one
/// call appends exactly one record to [`Self::write_read_history`]; the
/// record's response bytes are exactly the bytes left in the caller's buffer,
/// whose length the call preserves.
pub trait I2cWriteRead {
    /// The transport's failure type, opaque to this crate and forwarded
    /// unchanged.
    type Error;

    /// All write-then-read transactions this transport has performed, oldest
    /// first.
    ///
    /// The default stands for an implementation that keeps no history; such
    /// an implementation cannot meet the contract of [`Self::write_read`], so
    /// a verified transport overrides this with its real history.
    open spec fn write_read_history(&self) -> Seq<WriteReadRecord<Self::Error>> {
        Seq::empty()
    }

    /// Write `request` to the device at `address`, then read exactly
    /// `buffer.len()` bytes into `buffer`, as one bus transaction.
    fn write_read(&mut self, address: u8, request: &[u8], buffer: &mut Vec<u8>) -> (r: Result<
        (),
        Self::Error,
    >)
        ensures
            final(buffer)@.len() == old(buffer)@.len(),
            final(self).write_read_history() == old(self).write_read_history().push(
                (WriteReadRecord {
                    address,
                    request: request@,
                    response: final(buffer)@,
                    result: r,
                }),
            ),
    ;
}

} // verus!
