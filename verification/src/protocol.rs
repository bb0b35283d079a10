use crate::mod_params::RadioError;
use crate::transaction::{after_wait, BusRequestView, ReplyView, StepView, TransactionView};
use vstd::prelude::*;

verus! {

/// One thing that the driver does on behalf of an operation.
pub enum Action {
    /// It performs this bus operation.
    Bus(BusRequestView),
    /// It waits for the chip to signal ready.
    WaitOnBusy,
}

impl TransactionView {
    /// Everything the driver is asked to do in the course of the operation, in
    /// order, when the bus answers with `inbound`: the bus request, and the
    /// readiness wait if the step after the bus operation asks for it.
    pub open spec fn actions(self, inbound: Option<Seq<u8>>) -> Seq<Action> {
        match self.after_bus(inbound) {
            Ok(StepView::WaitOnBusy(_)) => seq![Action::Bus(self.request), Action::WaitOnBusy],
            _ => seq![Action::Bus(self.request)],
        }
    }

    /// How the operation ends when the bus answers with `inbound` and the
    /// readiness wait, if there is one, with `ready`.
    pub open spec fn outcome(self, inbound: Option<Seq<u8>>, ready: Result<(), RadioError>) -> Result<
        ReplyView,
        RadioError,
    > {
        match self.after_bus(inbound) {
            Ok(StepView::Finished(reply)) => Ok(reply),
            Ok(StepView::WaitOnBusy(reply)) => after_wait(reply, ready),
            Err(e) => Err(e),
        }
    }
}

/// An operation that succeeds has performed exactly one bus operation and,
/// if it awaits the busy line, exactly one readiness wait after it.
pub proof fn lemma_success_is_one_transfer_then_one_wait(
    transaction: TransactionView,
    inbound: Option<Seq<u8>>,
    ready: Result<(), RadioError>,
)
    requires
        transaction.outcome(inbound, ready) is Ok,
    ensures
        transaction.awaits_ready ==> transaction.actions(inbound) == seq![
            Action::Bus(transaction.request),
            Action::WaitOnBusy,
        ],
        !transaction.awaits_ready ==> transaction.actions(inbound) == seq![
            Action::Bus(transaction.request),
        ],
{
}

/// Of the four operations, the two reads always await the busy line, and the
/// two writes do unless they are flagged as a sleep command.
pub proof fn lemma_only_sleep_writes_skip_the_wait(
    write_buffer: Seq<u8>,
    payload: Seq<u8>,
    read_len: nat,
    is_sleep_command: bool,
)
    ensures
        TransactionView::write(write_buffer, is_sleep_command).awaits_ready == !is_sleep_command,
        TransactionView::write_with_payload(write_buffer, payload, is_sleep_command).awaits_ready
            == !is_sleep_command,
        TransactionView::read(write_buffer, read_len).awaits_ready,
        TransactionView::read_with_status(write_buffer, read_len).awaits_ready,
{
}

/// An operation that does not await the busy line asks for no readiness wait,
/// whatever the bus answers: its one action is the bus operation.
pub proof fn lemma_sleep_command_never_waits(transaction: TransactionView, inbound: Option<Seq<u8>>)
    requires
        !transaction.awaits_ready,
    ensures
        transaction.actions(inbound) == seq![Action::Bus(transaction.request)],
        !transaction.actions(inbound).contains(Action::WaitOnBusy),
{
}

/// If the bus reports failure, or hands back a malformed capture, the
/// operation ends with the transport error and the readiness monitor is
/// never consulted, whatever it would have answered.
pub proof fn lemma_bus_failure_ends_the_operation(
    transaction: TransactionView,
    inbound: Option<Seq<u8>>,
    ready: Result<(), RadioError>,
)
    requires
        !transaction.accepts(inbound),
    ensures
        transaction.outcome(inbound, ready) == Err::<ReplyView, RadioError>(RadioError::SPI),
        transaction.actions(inbound) == seq![Action::Bus(transaction.request)],
        !transaction.actions(inbound).contains(Action::WaitOnBusy),
{
}

/// If the bus succeeds and the readiness wait then fails, the operation ends
/// with the monitor's own error, unchanged. Unless the monitor itself reports
/// `SPI`, that result differs from the one a failed transfer gives.
pub proof fn lemma_readiness_error_is_reported(
    transaction: TransactionView,
    inbound: Seq<u8>,
    error: RadioError,
)
    requires
        transaction.awaits_ready,
        transaction.accepts(Some(inbound)),
    ensures
        transaction.outcome(Some(inbound), Err(error)) == Err::<ReplyView, RadioError>(error),
        error != RadioError::SPI ==> transaction.outcome(Some(inbound), Err(error))
            != transaction.outcome(None, Err(error)),
{
}

/// A read that succeeds hands back exactly the bytes that the bus captured:
/// its result depends on nothing but its arguments and the bus's answer, so
/// the same call with the same answer gives the same bytes again.
pub proof fn lemma_read_is_repeatable(write_buffer: Seq<u8>, read_len: nat, inbound: Seq<u8>)
    requires
        inbound.len() == read_len,
    ensures
        TransactionView::read(write_buffer, read_len).outcome(Some(inbound), Ok(())) == Ok::<
            ReplyView,
            RadioError,
        >(ReplyView { status: None, data: inbound }),
{
    let reply = TransactionView::read(write_buffer, read_len).reply(inbound);
    assert(reply.data == inbound);
}

/// A read with status takes the byte at offset `write_buffer.len()` of the
/// captured bytes as the status, and the `read_len` bytes behind it as the
/// caller's data.
pub proof fn lemma_read_with_status_layout(write_buffer: Seq<u8>, read_len: nat, inbound: Seq<u8>)
    requires
        inbound.len() == write_buffer.len() + 1 + read_len,
    ensures
        TransactionView::read_with_status(write_buffer, read_len).outcome(Some(inbound), Ok(()))
            == Ok::<ReplyView, RadioError>(
            ReplyView {
                status: Some(inbound[write_buffer.len() as int]),
                data: inbound.subrange(write_buffer.len() as int + 1, inbound.len() as int),
            },
        ),
        inbound.subrange(write_buffer.len() as int + 1, inbound.len() as int).len() == read_len,
{
}

/// A write that succeeds hands nothing back, with or without payload: what
/// the chip sends while the frame goes out is discarded.
pub proof fn lemma_writes_hand_nothing_back(
    write_buffer: Seq<u8>,
    payload: Seq<u8>,
    is_sleep_command: bool,
    inbound: Seq<u8>,
)
    requires
        inbound.len() == write_buffer.len() + payload.len(),
    ensures
        TransactionView::write(write_buffer, is_sleep_command).outcome(Some(Seq::empty()), Ok(()))
            == Ok::<ReplyView, RadioError>(ReplyView { status: None, data: Seq::empty() }),
        TransactionView::write_with_payload(write_buffer, payload, is_sleep_command).outcome(
            Some(inbound),
            Ok(()),
        ) == Ok::<ReplyView, RadioError>(ReplyView { status: None, data: Seq::empty() }),
{
    let plain = TransactionView::write(write_buffer, is_sleep_command);
    assert(plain.reply(Seq::empty()).data == Seq::<u8>::empty());
    let framed = TransactionView::write_with_payload(write_buffer, payload, is_sleep_command);
    assert(framed.reply(inbound).data == Seq::<u8>::empty());
}

/// The two operations that build a frame capture exactly as many bytes as
/// they send, and the frame of a read with status begins with the command
/// and holds zeros from the status byte's place on.
pub proof fn lemma_frames_are_full_duplex(
    write_buffer: Seq<u8>,
    payload: Seq<u8>,
    read_len: nat,
    is_sleep_command: bool,
)
    ensures
        ({
            let request = TransactionView::write_with_payload(
                write_buffer,
                payload,
                is_sleep_command,
            ).request;
            request.inbound_len() == request.outbound().len()
        }),
        ({
            let request = TransactionView::read_with_status(write_buffer, read_len).request;
            &&& request.inbound_len() == request.outbound().len()
            &&& request.outbound().subrange(0, write_buffer.len() as int) == write_buffer
            &&& forall|i: int|
                write_buffer.len() <= i < request.outbound().len() ==> request.outbound()[i] == 0
        }),
{
}

} // verus!
