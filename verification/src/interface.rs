use crate::transaction::{BusRequest, BusRequestView, Transaction, TransactionView};
use vstd::prelude::*;

verus! {

/// `len` zero bytes.
pub open spec fn zeros(len: nat) -> Seq<u8> {
    Seq::new(len, |i: int| 0u8)
}

impl TransactionView {
    /// A write: `write_buffer` goes out as one outbound transfer and nothing
    /// comes back. The busy line is awaited unless the command puts the chip
    /// to sleep.
    pub open spec fn write(write_buffer: Seq<u8>, is_sleep_command: bool) -> TransactionView {
        TransactionView {
            request: BusRequestView::Write { outbound: write_buffer },
            awaits_ready: !is_sleep_command,
            status_at: None,
            data_from: 0,
        }
    }

    /// A write with payload: `write_buffer` followed by `payload` goes out as
    /// one frame in one transaction. As many bytes are captured as are sent,
    /// and all of them are discarded.
    pub open spec fn write_with_payload(
        write_buffer: Seq<u8>,
        payload: Seq<u8>,
        is_sleep_command: bool,
    ) -> TransactionView {
        TransactionView {
            request: BusRequestView::Transfer {
                outbound: write_buffer + payload,
                inbound_len: write_buffer.len() + payload.len(),
            },
            awaits_ready: !is_sleep_command,
            status_at: None,
            data_from: write_buffer.len() + payload.len(),
        }
    }

    /// A read: `write_buffer` goes out while `read_len` bytes are captured, and
    /// all of them belong to the caller. The busy line is always awaited.
    pub open spec fn read(write_buffer: Seq<u8>, read_len: nat) -> TransactionView {
        TransactionView {
            request: BusRequestView::Transfer { outbound: write_buffer, inbound_len: read_len },
            awaits_ready: true,
            status_at: None,
            data_from: 0,
        }
    }

    /// A read with status: the frame is `write_buffer`, one zero byte in the
    /// place of the status and `read_len` zero bytes in the place of the data.
    /// As many bytes are captured; the one at offset `write_buffer.len()` is
    /// the status, those behind it belong to the caller. The busy line is
    /// always awaited.
    pub open spec fn read_with_status(write_buffer: Seq<u8>, read_len: nat) -> TransactionView {
        TransactionView {
            request: BusRequestView::Transfer {
                outbound: write_buffer + seq![0u8] + zeros(read_len),
                inbound_len: write_buffer.len() + 1 + read_len,
            },
            awaits_ready: true,
            status_at: Some(write_buffer.len()),
            data_from: write_buffer.len() + 1,
        }
    }
}

/// Appends the bytes of `source` to `frame`.
fn append(frame: &mut Vec<u8>, source: &[u8])
    ensures
        final(frame)@ == old(frame)@ + source@,
{
    let mut i: usize = 0;
    while i < source.len()
        invariant
            i <= source@.len(),
            frame@ == old(frame)@ + source@.subrange(0, i as int),
        decreases source@.len() - i,
    {
        frame.push(source[i]);
        i = i + 1;
    }
}

/// Appends `count` zero bytes to `frame`.
fn append_zeros(frame: &mut Vec<u8>, count: usize)
    ensures
        final(frame)@ == old(frame)@ + zeros(count as nat),
{
    let mut i: usize = 0;
    while i < count
        invariant
            i <= count,
            frame@ == old(frame)@ + zeros(i as nat),
        decreases count - i,
    {
        frame.push(0u8);
        i = i + 1;
    }
}

/// The command interface to the radio: sole owner of the transport link `spi`
/// and of the readiness monitor `iv` for the lifetime of the driver session.
///
/// Each of the four primitive operations plans exactly one bus operation and
/// returns it as a [`Transaction`]; the interface itself keeps no state from
/// one operation to the next.
pub struct SpiInterface<SPI, IV> {
    pub spi: SPI,
    pub iv: IV,
}

impl<SPI, IV> SpiInterface<SPI, IV> {
    /// Takes ownership of the two handles.
    pub fn new(spi: SPI, iv: IV) -> (interface: Self)
        ensures
            interface.spi == spi,
            interface.iv == iv,
    {
        Self { spi, iv }
    }

    /// Write a buffer to the radio.
    ///
    /// Plans one outbound transfer of `write_buffer`, empty or not, followed
    /// by a readiness wait unless `is_sleep_command` is set: a chip on its way
    /// to sleep gives no readiness signal to wait for.
    pub fn write(&mut self, write_buffer: &[u8], is_sleep_command: bool) -> (transaction:
        Transaction)
        ensures
            *final(self) == *old(self),
            transaction@ == TransactionView::write(write_buffer@, is_sleep_command),
    {
        let mut outbound: Vec<u8> = Vec::new();
        append(&mut outbound, write_buffer);
        Transaction::planned(BusRequest::Write { outbound }, !is_sleep_command, None, 0)
    }

    /// Write a buffer and a payload to the radio as one uninterrupted frame.
    ///
    /// Plans one full-duplex transaction that sends `write_buffer` followed by
    /// `payload` and discards what comes back, with the same readiness policy
    /// as [`SpiInterface::write`].
    pub fn write_with_payload(
        &mut self,
        write_buffer: &[u8],
        payload: &[u8],
        is_sleep_command: bool,
    ) -> (transaction: Transaction)
        ensures
            *final(self) == *old(self),
            transaction@ == TransactionView::write_with_payload(
                write_buffer@,
                payload@,
                is_sleep_command,
            ),
            transaction@.request.outbound().len() == write_buffer@.len() + payload@.len(),
    {
        let mut outbound: Vec<u8> = Vec::new();
        append(&mut outbound, write_buffer);
        append(&mut outbound, payload);
        let inbound_len = outbound.len();
        Transaction::planned(
            BusRequest::Transfer { outbound, inbound_len },
            !is_sleep_command,
            None,
            inbound_len,
        )
    }

    /// Request a read of `read_len` bytes.
    ///
    /// Plans one full-duplex transaction that sends `write_buffer` and
    /// captures `read_len` bytes for the caller; the two lengths need not
    /// agree. A read is always followed by a readiness wait.
    pub fn read(&mut self, write_buffer: &[u8], read_len: usize) -> (transaction: Transaction)
        ensures
            *final(self) == *old(self),
            transaction@ == TransactionView::read(write_buffer@, read_len as nat),
    {
        let mut outbound: Vec<u8> = Vec::new();
        append(&mut outbound, write_buffer);
        Transaction::planned(BusRequest::Transfer { outbound, inbound_len: read_len }, true, None, 0)
    }

    /// Request a read of `read_len` bytes preceded by the chip's status byte.
    ///
    /// Plans one full-duplex transaction over a frame of three segments:
    /// `write_buffer`, one zero byte where the status comes back, and
    /// `read_len` zero bytes where the data comes back. Always followed by a
    /// readiness wait.
    pub fn read_with_status(&mut self, write_buffer: &[u8], read_len: usize) -> (transaction:
        Transaction)
        ensures
            *final(self) == *old(self),
            transaction@ == TransactionView::read_with_status(write_buffer@, read_len as nat),
            transaction@.request.outbound().len() == write_buffer@.len() + 1 + read_len,
    {
        let mut outbound: Vec<u8> = Vec::new();
        append(&mut outbound, write_buffer);
        outbound.push(0u8);
        append_zeros(&mut outbound, read_len);
        assert(outbound@ == write_buffer@ + seq![0u8] + zeros(read_len as nat));
        let inbound_len = outbound.len();
        Transaction::planned(
            BusRequest::Transfer { outbound, inbound_len },
            true,
            Some(write_buffer.len()),
            write_buffer.len() + 1,
        )
    }
}

} // verus!
