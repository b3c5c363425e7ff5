use crate::transport::I2cWrite;
use crate::transport::I2cWriteRead;
use crate::transport::WriteReadRecord;
use crate::transport::WriteRecord;
use vstd::prelude::*;
use vstd::slice::slice_to_vec;

verus! {

/// A scripted transport for exercising [`crate::I2cInterface`] without bus
/// hardware.
///
/// Every transaction is recorded in plain fields so that unverified test
/// code can inspect it; the abstract histories of the transport traits are
/// those records viewed one for one. Each write-then-read answers with the
/// configured response bytes, padded with zeroes when the request asks for
/// more. When a fault code is configured, every transaction reports it as
/// its error — after still being recorded, response bytes included.
pub struct MockI2c {
    /// Bytes each write-then-read hands back, padded with zeroes when a
    /// request asks for more than are configured.
    pub response: Vec<u8>,
    /// Error code every transaction reports, if any.
    pub fault: Option<u8>,
    /// Each completed write: bus address, frame, error code reported.
    pub writes: Vec<(u8, Vec<u8>, Option<u8>)>,
    /// Each completed write-then-read: bus address, request, bytes delivered,
    /// error code reported.
    pub reads: Vec<(u8, Vec<u8>, Vec<u8>, Option<u8>)>,
}

/// The outcome a mock transaction reports when `fault` is its configured
/// error code.
pub open spec fn mock_result(fault: Option<u8>) -> Result<(), u8> {
    match fault {
        Option::None => Result::Ok(()),
        Option::Some(code) => Result::Err(code),
    }
}

/// The write record one entry of [`MockI2c::writes`] stands for.
pub open spec fn mock_write_record(entry: (u8, Vec<u8>, Option<u8>)) -> WriteRecord<u8> {
    WriteRecord { address: entry.0, frame: entry.1@, result: mock_result(entry.2) }
}

/// The write-then-read record one entry of [`MockI2c::reads`] stands for.
pub open spec fn mock_write_read_record(entry: (u8, Vec<u8>, Vec<u8>, Option<u8>)) -> WriteReadRecord<
    u8,
> {
    WriteReadRecord {
        address: entry.0,
        request: entry.1@,
        response: entry.2@,
        result: mock_result(entry.3),
    }
}

/// The bytes the mock delivers for a read of `len` bytes when `response` is
/// configured: the configured bytes, truncated or padded with zeroes to the
/// requested length.
pub open spec fn mock_delivery(response: Seq<u8>, len: nat) -> Seq<u8> {
    Seq::new(
        len,
        |i: int|
            if i < response.len() {
                response[i]
            } else {
                0u8
            },
    )
}

impl MockI2c {
    /// A mock that answers every read from `response` and reports no fault.
    pub fn new(response: Vec<u8>) -> (r: MockI2c)
        ensures
            r.response@ == response@,
            r.fault is None,
            r.write_history() == Seq::<WriteRecord<u8>>::empty(),
            r.write_read_history() == Seq::<WriteReadRecord<u8>>::empty(),
    {
        let r = MockI2c { response, fault: None, writes: Vec::new(), reads: Vec::new() };
        proof {
            assert(r.write_history() =~= Seq::<WriteRecord<u8>>::empty());
            assert(r.write_read_history() =~= Seq::<WriteReadRecord<u8>>::empty());
        }
        r
    }
}

impl I2cWrite for MockI2c {
    type Error = u8;

    open spec fn write_history(&self) -> Seq<WriteRecord<u8>> {
        self.writes@.map(|i: int, entry: (u8, Vec<u8>, Option<u8>)| mock_write_record(entry))
    }

    fn write(&mut self, address: u8, frame: &[u8]) -> (r: Result<(), u8>)
        ensures
            final(self).response@ == old(self).response@,
            final(self).fault == old(self).fault,
            final(self).reads@ == old(self).reads@,
    {
        let entry_frame: Vec<u8> = slice_to_vec(frame);
        let fault: Option<u8> = self.fault;
        self.writes.push((address, entry_frame, fault));
        proof {
            assert(self.write_history() =~= old(self).write_history().push(
                mock_write_record(self.writes@.last()),
            ));
        }
        match fault {
            Option::None => Result::Ok(()),
            Option::Some(code) => Result::Err(code),
        }
    }
}

impl I2cWriteRead for MockI2c {
    type Error = u8;

    open spec fn write_read_history(&self) -> Seq<WriteReadRecord<u8>> {
        self.reads@.map(
            |i: int, entry: (u8, Vec<u8>, Vec<u8>, Option<u8>)| mock_write_read_record(entry),
        )
    }

    fn write_read(&mut self, address: u8, request: &[u8], buffer: &mut Vec<u8>) -> (r: Result<
        (),
        u8,
    >)
        ensures
            final(self).response@ == old(self).response@,
            final(self).fault == old(self).fault,
            final(self).writes@ == old(self).writes@,
            final(buffer)@ == mock_delivery(old(self).response@, old(buffer)@.len() as nat),
    {
        let n: usize = buffer.len();
        let mut filled: Vec<u8> = Vec::new();
        let mut i: usize = 0;
        while i < n
            invariant
                i <= n,
                filled@.len() == i,
                filled@ =~= mock_delivery(self.response@, i as nat),
            decreases n - i,
        {
            if i < self.response.len() {
                let b: u8 = self.response[i];
                filled.push(b);
            } else {
                filled.push(0u8);
            }
            i = i + 1;
            proof {
                assert(filled@ =~= mock_delivery(self.response@, i as nat));
            }
        }
        let delivered: Vec<u8> = slice_to_vec(filled.as_slice());
        let req: Vec<u8> = slice_to_vec(request);
        let fault: Option<u8> = self.fault;
        self.reads.push((address, req, delivered, fault));
        *buffer = filled;
        proof {
            assert(self.write_read_history() =~= old(self).write_read_history().push(
                mock_write_read_record(self.reads@.last()),
            ));
        }
        match fault {
            Option::None => Result::Ok(()),
            Option::Some(code) => Result::Err(code),
        }
    }
}

} // verus!
