use crate::transport::I2cWrite;
use crate::transport::I2cWriteRead;
use crate::transport::WriteRecord;
use vstd::array::ArrayAdditionalExecFns;
use vstd::prelude::*;
use vstd::slice::slice_to_vec;

verus! {

/// The frame a register write transmits: the register index followed by the
/// payload bytes in their original order.
pub open spec fn write_frame(register: u8, payload: Seq<u8>) -> Seq<u8> {
    seq![register] + payload
}

/// Frame composition, spelled out byte by byte: a write frame is one byte
/// longer than its payload, starts with the register index, and carries the
/// payload bytes unchanged and in order after it.
pub proof fn lemma_write_frame(register: u8, payload: Seq<u8>)
    ensures
        write_frame(register, payload).len() == payload.len() + 1,
        write_frame(register, payload)[0] == register,
        forall|i: int|
            0 <= i < payload.len() ==> write_frame(register, payload)[i + 1] == payload[i],
{
}

/// Reads and writes the numbered registers of one peripheral through a
/// caller-supplied bus transport.
///
/// The transport is owned for the interface's lifetime; the bus address
/// names the peripheral on the shared bus and is fixed at construction.
/// Neither operation mutates the address, and each performs exactly one
/// transport transaction at that address.
pub struct I2cInterface<I2C> {
    /// The bus transport used for every transaction.
    pub i2c: I2C,
    /// The peripheral's address on the bus.
    pub address: u8,
}

impl<I2C> I2cInterface<I2C> {
    /// Read a register's value as `N` bytes, `N` fixed by the type the
    /// caller binds the result to.
    ///
    /// Performs exactly one write-then-read transaction: the single-byte
    /// request `[register]` is written to the configured bus address, and
    /// `N` bytes are read back. On success the bytes are returned exactly
    /// as the transport delivered them, in order; on failure the transport's
    /// error is returned unchanged and no bytes are exposed.
    pub fn read_register<const N: usize>(&mut self, register: u8) -> (r: Result<
        [u8; N],
        I2C::Error,
    >) where I2C: I2cWriteRead
        ensures
            final(self).address == old(self).address,
            final(self).i2c.write_read_history().len()
                == old(self).i2c.write_read_history().len() + 1,
            final(self).i2c.write_read_history().drop_last()
                == old(self).i2c.write_read_history(),
            final(self).i2c.write_read_history().last().address == old(self).address,
            final(self).i2c.write_read_history().last().request == seq![register],
            final(self).i2c.write_read_history().last().response.len() == N,
            (match r {
                Ok(data) => final(self).i2c.write_read_history().last().result is Ok
                    && data@ == final(self).i2c.write_read_history().last().response,
                Err(e) => final(self).i2c.write_read_history().last().result is Err
                    && final(self).i2c.write_read_history().last().result->Err_0 == e,
            }),
    {
        let mut buffer: Vec<u8> = Vec::new();
        let mut i: usize = 0;
        while i < N
            invariant
                i <= N,
                buffer@.len() == i,
            decreases N - i,
        {
            buffer.push(0u8);
            i = i + 1;
        }
        let mut request: Vec<u8> = Vec::new();
        request.push(register);
        proof {
            assert(request@ =~= seq![register]);
        }
        let res = self.i2c.write_read(self.address, request.as_slice(), &mut buffer);
        proof {
            let pre = old(self).i2c.write_read_history();
            let post = self.i2c.write_read_history();
            assert(post.drop_last() =~= pre);
        }
        match res {
            Ok(()) => {
                let mut data: [u8; N] = [0u8; N];
                let mut j: usize = 0;
                while j < N
                    invariant
                        j <= N,
                        buffer@.len() == N,
                        data@.len() == N,
                        forall|k: int| 0 <= k < j ==> data@[k] == buffer@[k],
                    decreases N - j,
                {
                    let b: u8 = buffer[j];
                    data.set(j, b);
                    j = j + 1;
                }
                proof {
                    assert(data@ =~= buffer@);
                }
                Ok(data)
            },
            Err(e) => Err(e),
        }
    }

    /// Write an `N`-byte payload to a register, `N` fixed at the call site
    /// by the payload's type.
    ///
    /// Performs exactly one write transaction: the frame transmitted is the
    /// register index followed by the payload bytes in order — one byte
    /// longer than the payload — at the configured bus address. The
    /// transport's outcome, success or its error unchanged, is returned as
    /// is.
    pub fn write_register<const N: usize>(&mut self, register: u8, payload: [u8; N]) -> (r: Result<
        (),
        I2C::Error,
    >) where I2C: I2cWrite
        ensures
            final(self).address == old(self).address,
            final(self).i2c.write_history() == old(self).i2c.write_history().push(
                (WriteRecord {
                    address: old(self).address,
                    frame: write_frame(register, payload@),
                    result: r,
                }),
            ),
    {
        let mut frame: Vec<u8> = Vec::new();
        frame.push(register);
        let mut rest: Vec<u8> = slice_to_vec(payload.as_slice());
        frame.append(&mut rest);
        proof {
            assert(frame@ =~= write_frame(register, payload@));
        }
        self.i2c.write(self.address, frame.as_slice())
    }
}

} // verus!
