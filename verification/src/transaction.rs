use crate::mod_params::RadioError;
use vstd::prelude::*;

verus! {

/// The single bus operation that a primitive operation asks the driver to perform.
#[derive(Debug, PartialEq, Eq)]
pub enum BusRequest {
    /// One outbound transfer of `outbound`; nothing is captured.
    Write { outbound: Vec<u8> },
    /// One full-duplex transaction: `outbound` goes out while `inbound_len`
    /// bytes are captured, chip-select held over the whole of it.
    Transfer { outbound: Vec<u8>, inbound_len: usize },
}

/// Mathematical content of a [`BusRequest`].
pub enum BusRequestView {
    Write { outbound: Seq<u8> },
    Transfer { outbound: Seq<u8>, inbound_len: nat },
}

impl BusRequestView {
    /// The bytes sent to the chip.
    pub open spec fn outbound(self) -> Seq<u8> {
        match self {
            BusRequestView::Write { outbound } => outbound,
            BusRequestView::Transfer { outbound, .. } => outbound,
        }
    }

    /// The number of bytes captured from the chip; none for a plain write.
    pub open spec fn inbound_len(self) -> nat {
        match self {
            BusRequestView::Write { .. } => 0,
            BusRequestView::Transfer { inbound_len, .. } => inbound_len,
        }
    }
}

impl View for BusRequest {
    type V = BusRequestView;

    open spec fn view(&self) -> BusRequestView {
        match *self {
            BusRequest::Write { outbound } => BusRequestView::Write { outbound: outbound@ },
            BusRequest::Transfer { outbound, inbound_len } => BusRequestView::Transfer {
                outbound: outbound@,
                inbound_len: inbound_len as nat,
            },
        }
    }
}

impl BusRequest {
    /// The bytes to send.
    pub fn outbound(&self) -> (bytes: &[u8])
        ensures
            bytes@ == self@.outbound(),
    {
        match self {
            BusRequest::Write { outbound } => outbound.as_slice(),
            BusRequest::Transfer { outbound, .. } => outbound.as_slice(),
        }
    }

    /// The number of bytes to capture.
    pub fn inbound_len(&self) -> (len: usize)
        ensures
            len == self@.inbound_len(),
    {
        match self {
            BusRequest::Write { .. } => 0,
            BusRequest::Transfer { inbound_len, .. } => *inbound_len,
        }
    }
}

/// What a completed operation hands back to its caller.
#[derive(Debug, PartialEq, Eq)]
pub struct Reply {
    /// The status byte, for an operation that reads one.
    pub status: Option<u8>,
    /// The bytes read for the caller; empty for a write.
    pub data: Vec<u8>,
}

/// Mathematical content of a [`Reply`].
pub struct ReplyView {
    pub status: Option<u8>,
    pub data: Seq<u8>,
}

impl View for Reply {
    type V = ReplyView;

    open spec fn view(&self) -> ReplyView {
        ReplyView { status: self.status, data: self.data@ }
    }
}

/// Mathematical content of a [`Transaction`]: the bus request, whether a
/// readiness wait follows it, and where in the captured bytes the reply lies.
pub struct TransactionView {
    /// The one bus operation to perform.
    pub request: BusRequestView,
    /// Whether the busy line is awaited after a successful bus operation.
    pub awaits_ready: bool,
    /// Offset of the status byte among the captured bytes, if one is read.
    pub status_at: Option<nat>,
    /// Offset from which the captured bytes belong to the caller.
    pub data_from: nat,
}

/// Mathematical content of a [`Step`].
pub enum StepView {
    Finished(ReplyView),
    WaitOnBusy(ReplyView),
}

impl TransactionView {
    /// The reply lies within the captured bytes.
    pub open spec fn wf(self) -> bool {
        &&& self.data_from <= self.request.inbound_len()
        &&& self.status_at matches Some(at) ==> at < self.request.inbound_len()
    }

    /// The reply read out of the captured bytes `inbound`.
    pub open spec fn reply(self, inbound: Seq<u8>) -> ReplyView {
        ReplyView {
            status: match self.status_at {
                Some(at) => Some(inbound[at as int]),
                None => None,
            },
            data: inbound.subrange(self.data_from as int, inbound.len() as int),
        }
    }

    /// Whether the bus's answer is a completed transfer. `inbound` holds the
    /// captured bytes if the bus reported success, and `None` if it reported
    /// failure. A capture of another length than was asked for is a malformed
    /// transfer, and no more a success than a reported failure.
    pub open spec fn accepts(self, inbound: Option<Seq<u8>>) -> bool {
        inbound matches Some(bytes) && bytes.len() == self.request.inbound_len()
    }

    /// What follows the bus operation: the transport error if the transfer
    /// failed; otherwise the reply, behind a readiness wait if one is called
    /// for.
    pub open spec fn after_bus(self, inbound: Option<Seq<u8>>) -> Result<StepView, RadioError> {
        if !self.accepts(inbound) {
            Err(RadioError::SPI)
        } else if self.awaits_ready {
            Ok(StepView::WaitOnBusy(self.reply(inbound->Some_0)))
        } else {
            Ok(StepView::Finished(self.reply(inbound->Some_0)))
        }
    }
}

/// What follows the readiness wait: the reply withheld so far, or the
/// monitor's own error, unchanged.
pub open spec fn after_wait(reply: ReplyView, ready: Result<(), RadioError>) -> Result<
    ReplyView,
    RadioError,
> {
    match ready {
        Ok(_) => Ok(reply),
        Err(e) => Err(e),
    }
}

/// The captured bytes that a bus outcome carries, if it is a success.
pub open spec fn captured<E>(outcome: Result<Vec<u8>, E>) -> Option<Seq<u8>> {
    match outcome {
        Ok(inbound) => Some(inbound@),
        Err(_) => None,
    }
}

/// A primitive operation in flight: its bus request has been handed out and
/// the bus outcome is awaited.
#[derive(Debug, PartialEq, Eq)]
pub struct Transaction {
    request: BusRequest,
    awaits_ready: bool,
    status_at: Option<usize>,
    data_from: usize,
}

/// An operation whose bus transfer succeeded and which now awaits the busy
/// line. It withholds the reply until the monitor's outcome is known.
#[derive(Debug, PartialEq, Eq)]
pub struct Waiting {
    reply: Reply,
}

/// What the driver does after a successful bus operation.
#[derive(Debug, PartialEq, Eq)]
pub enum Step {
    /// Nothing: the operation is complete, with this reply.
    Finished(Reply),
    /// Wait for the chip to signal ready, then report to [`Waiting::ready`].
    WaitOnBusy(Waiting),
}

impl View for Transaction {
    type V = TransactionView;

    closed spec fn view(&self) -> TransactionView {
        TransactionView {
            request: self.request@,
            awaits_ready: self.awaits_ready,
            status_at: match self.status_at {
                Some(at) => Some(at as nat),
                None => None,
            },
            data_from: self.data_from as nat,
        }
    }
}

impl View for Waiting {
    type V = ReplyView;

    closed spec fn view(&self) -> ReplyView {
        self.reply@
    }
}

impl View for Step {
    type V = StepView;

    open spec fn view(&self) -> StepView {
        match *self {
            Step::Finished(reply) => StepView::Finished(reply@),
            Step::WaitOnBusy(waiting) => StepView::WaitOnBusy(waiting@),
        }
    }
}

/// The bytes of `bytes` from offset `from` to the end.
fn tail(bytes: &Vec<u8>, from: usize) -> (rest: Vec<u8>)
    requires
        from <= bytes@.len(),
    ensures
        rest@ == bytes@.subrange(from as int, bytes@.len() as int),
{
    let mut rest: Vec<u8> = Vec::new();
    let mut i: usize = from;
    while i < bytes.len()
        invariant
            from <= i <= bytes@.len(),
            rest@ == bytes@.subrange(from as int, i as int),
        decreases bytes@.len() - i,
    {
        rest.push(bytes[i]);
        i = i + 1;
    }
    rest
}

impl Transaction {
    #[verifier::type_invariant]
    spec fn inv(self) -> bool {
        self@.wf()
    }

    /// A transaction with the given content.
    pub(crate) fn planned(
        request: BusRequest,
        awaits_ready: bool,
        status_at: Option<usize>,
        data_from: usize,
    ) -> (transaction: Transaction)
        requires
            data_from <= request@.inbound_len(),
            status_at matches Some(at) ==> at < request@.inbound_len(),
        ensures
            transaction@.request == request@,
            transaction@.awaits_ready == awaits_ready,
            transaction@.status_at == match status_at {
                Some(at) => Some(at as nat),
                None => None,
            },
            transaction@.data_from == data_from,
    {
        Transaction { request, awaits_ready, status_at, data_from }
    }

    /// The bus operation that the driver must now perform, exactly once.
    pub fn request(&self) -> (request: &BusRequest)
        ensures
            request@ == self@.request,
    {
        &self.request
    }

    /// Whether a readiness wait follows a successful bus operation.
    pub fn awaits_ready(&self) -> (awaits: bool)
        ensures
            awaits == self@.awaits_ready,
    {
        self.awaits_ready
    }

    /// Takes the outcome of the bus operation: `Ok` with the bytes captured,
    /// or the transport's error, whose content does not matter.
    ///
    /// A failed or malformed transfer ends the operation with
    /// [`RadioError::SPI`], and no readiness wait is asked for. Otherwise the
    /// reply is read out of the captured bytes, and is either handed over at
    /// once or withheld behind a readiness wait.
    pub fn bus_done<E>(self, outcome: Result<Vec<u8>, E>) -> (next: Result<Step, RadioError>)
        ensures
            next is Ok <==> self@.accepts(captured(outcome)),
            match next {
                Ok(step) => self@.after_bus(captured(outcome)) == Ok::<StepView, RadioError>(step@),
                Err(e) => self@.after_bus(captured(outcome)) == Err::<StepView, RadioError>(e),
            },
    {
        proof {
            use_type_invariant(&self);
        }
        match outcome {
            Err(_) => Err(RadioError::SPI),
            Ok(inbound) => {
                if inbound.len() != self.request.inbound_len() {
                    return Err(RadioError::SPI);
                }
                let status = match self.status_at {
                    Some(at) => Some(inbound[at]),
                    None => None,
                };
                let data = tail(&inbound, self.data_from);
                let reply = Reply { status, data };
                if self.awaits_ready {
                    Ok(Step::WaitOnBusy(Waiting { reply }))
                } else {
                    Ok(Step::Finished(reply))
                }
            },
        }
    }
}

impl Waiting {
    /// Takes the outcome of the readiness wait and ends the operation: with
    /// the reply if the chip signalled ready, with the monitor's error if not.
    pub fn ready(self, outcome: Result<(), RadioError>) -> (result: Result<Reply, RadioError>)
        ensures
            result is Ok <==> outcome is Ok,
            match result {
                Ok(reply) => after_wait(self@, outcome) == Ok::<ReplyView, RadioError>(reply@),
                Err(e) => after_wait(self@, outcome) == Err::<ReplyView, RadioError>(e),
            },
    {
        match outcome {
            Ok(_) => Ok(self.reply),
            Err(e) => Err(e),
        }
    }
}

} // verus!
