//! One port-mapping exchange with a gateway, as a machine that is told what
//! happened on the socket and answers what to do next.
//!
//! The caller owns the socket and the clock. It sends what the exchange
//! hands it, listens until the time it was given runs out, and reports each
//! datagram, each expired wait and each socket failure as an [`Event`].

use crate::retry::{
    lemma_after_timeout_well_formed, lemma_timeout_bounds, lemma_timeout_doubles,
    RetryModel, RetryState,
};
use crate::wire::{
    decode_response, decoded, encode_request, lemma_response_round_trip, CodecError,
    MappingRequest, MappingResponse, Protocol,
};
use vstd::arithmetic::power2::{lemma2_to64, pow2};
use vstd::prelude::*;

verus! {

/// The port on which a gateway listens for requests.
pub const GATEWAY_PORT: u16 = 5351;

/// Why an exchange brought no mapping.
#[derive(Clone, Copy, Debug, PartialEq, Eq, Structural)]
pub enum ClientError {
    /// The request names internal port 0.
    InvalidArgument,
    /// Nine attempts went unanswered.
    NoResponse,
    /// The socket could not be set up, or failed while sending or receiving.
    Io,
    /// The gateway answered and declined, with this result code.
    GatewayRejected { code: u16 },
}

/// How an exchange ended.
pub type Outcome = Result<MappingResponse, ClientError>;

/// What happened on the socket since the last action was handed out.
#[derive(Debug, PartialEq, Eq)]
pub enum Event {
    /// A datagram arrived before the current wait ran out.
    Datagram(Vec<u8>),
    /// The current wait ran out.
    TimedOut,
    /// The socket reported an error.
    Failed,
}

/// An [`Event`] with its datagram as a sequence of bytes.
pub ghost enum EventModel {
    Datagram(Seq<u8>),
    TimedOut,
    Failed,
}

impl View for Event {
    type V = EventModel;

    open spec fn view(&self) -> EventModel {
        match self {
            Event::Datagram(bytes) => EventModel::Datagram(bytes@),
            Event::TimedOut => EventModel::TimedOut,
            Event::Failed => EventModel::Failed,
        }
    }
}

/// What the caller has to do next.
#[derive(Debug, PartialEq, Eq)]
pub enum Action {
    /// Send `datagram` to the gateway, then listen for `timeout_ms`
    /// milliseconds, counted from now.
    Send { datagram: Vec<u8>, timeout_ms: u64 },
    /// Go on listening until the wait that the last `Send` began runs out.
    Wait,
    /// Stop: the exchange is over, with this outcome.
    Finish(Outcome),
}

/// An [`Action`] with its datagram as a sequence of bytes.
pub ghost enum ActionModel {
    Send { datagram: Seq<u8>, timeout_ms: nat },
    Wait,
    Finish(Outcome),
}

impl View for Action {
    type V = ActionModel;

    open spec fn view(&self) -> ActionModel {
        match self {
            Action::Send { datagram, timeout_ms } => ActionModel::Send {
                datagram: datagram@,
                timeout_ms: *timeout_ms as nat,
            },
            Action::Wait => ActionModel::Wait,
            Action::Finish(outcome) => ActionModel::Finish(*outcome),
        }
    }
}

/// Whether an exchange still waits for the gateway.
pub ghost enum PhaseModel {
    /// A request is out and its wait has not run out.
    Awaiting(RetryModel),
    /// The exchange is over.
    Settled(Outcome),
}

/// The state of an exchange.
pub ghost struct ExchangeModel {
    pub request: MappingRequest,
    /// The gateway's IPv4 address as a 32-bit number.
    pub gateway: u32,
    pub phase: PhaseModel,
}

/// What a reply that parsed means to the caller: the mapping, or the
/// gateway's refusal with its result code.
pub open spec fn settled_by(reply: MappingResponse) -> Outcome {
    if reply.result_code != 0 {
        Err(ClientError::GatewayRejected { code: reply.result_code })
    } else {
        Ok(reply)
    }
}

/// A datagram that is no reply to a request for `sent`: too short, of
/// another version, with another opcode, or granting no port.
pub open spec fn is_noise(bytes: Seq<u8>, sent: Protocol) -> bool {
    decoded(bytes, sent) is Err
}

impl ExchangeModel {
    /// The request is valid, and while a reply is awaited the attempt
    /// counter and the timeout are a state of the schedule.
    pub open spec fn well_formed(self) -> bool {
        &&& self.request.is_valid()
        &&& match self.phase {
            PhaseModel::Awaiting(retry) => retry.well_formed(),
            PhaseModel::Settled(_) => true,
        }
    }

    /// The exchange as it is opened: the first attempt is about to be sent.
    pub open spec fn opened(request: MappingRequest, gateway: u32) -> ExchangeModel {
        ExchangeModel { request, gateway, phase: PhaseModel::Awaiting(RetryModel::first()) }
    }

    /// The action that opens the exchange: the first attempt.
    pub open spec fn start(self) -> ActionModel {
        match self.phase {
            PhaseModel::Awaiting(retry) => ActionModel::Send {
                datagram: self.request.bytes(),
                timeout_ms: retry.timeout_ms,
            },
            PhaseModel::Settled(outcome) => ActionModel::Finish(outcome),
        }
    }

    /// The exchange ended with `outcome`, and the action that says so.
    pub open spec fn settle(self, outcome: Outcome) -> (ExchangeModel, ActionModel) {
        (
            ExchangeModel { phase: PhaseModel::Settled(outcome), ..self },
            ActionModel::Finish(outcome),
        )
    }

    /// The state after `event`, and the action that it calls for.
    ///
    /// While a reply is awaited: a datagram that parses as a reply to the
    /// request ends the exchange at once; any other datagram changes
    /// nothing; an expired wait brings the next attempt with twice the
    /// timeout, or ends the exchange after the ninth; a socket failure ends
    /// it. Once the exchange is over, every event is answered with its
    /// outcome.
    pub open spec fn step(self, event: EventModel) -> (ExchangeModel, ActionModel) {
        match self.phase {
            PhaseModel::Settled(outcome) => (self, ActionModel::Finish(outcome)),
            PhaseModel::Awaiting(retry) => match event {
                EventModel::Datagram(bytes) => match decoded(bytes, self.request.protocol) {
                    Ok(reply) => self.settle(settled_by(reply)),
                    Err(_) => (self, ActionModel::Wait),
                },
                EventModel::TimedOut => match retry.after_timeout() {
                    Some(next) => (
                        ExchangeModel { phase: PhaseModel::Awaiting(next), ..self },
                        ActionModel::Send {
                            datagram: self.request.bytes(),
                            timeout_ms: next.timeout_ms,
                        },
                    ),
                    None => self.settle(Err(ClientError::NoResponse)),
                },
                EventModel::Failed => self.settle(Err(ClientError::Io)),
            },
        }
    }

    /// The state after a run of events, first to last.
    pub open spec fn run(self, events: Seq<EventModel>) -> ExchangeModel
        decreases events.len(),
    {
        if events.len() == 0 {
            self
        } else {
            self.run(events.drop_last()).step(events.last()).0
        }
    }

    /// How many datagrams a run of events made the caller send, the one
    /// that opened the exchange not counted.
    pub open spec fn resends(self, events: Seq<EventModel>) -> nat
        decreases events.len(),
    {
        if events.len() == 0 {
            0
        } else {
            let before = events.drop_last();
            let sent: nat = if self.run(before).step(events.last()).1 is Send {
                1
            } else {
                0
            };
            self.resends(before) + sent
        }
    }
}

/// How many of the events are expired waits.
pub open spec fn timeouts_in(events: Seq<EventModel>) -> nat
    decreases events.len(),
{
    if events.len() == 0 {
        0
    } else {
        let expired: nat = if events.last() is TimedOut {
            1
        } else {
            0
        };
        timeouts_in(events.drop_last()) + expired
    }
}

/// Every event is an expired wait or a datagram that is no reply to a
/// request for `sent`.
pub open spec fn unanswered(events: Seq<EventModel>, sent: Protocol) -> bool {
    forall|i: int|
        0 <= i < events.len() ==> match #[trigger] events[i] {
            EventModel::Datagram(bytes) => is_noise(bytes, sent),
            EventModel::TimedOut => true,
            EventModel::Failed => false,
        }
}

/// The client of one gateway: the configuration from which exchanges are
/// opened. It keeps nothing from one exchange to the next.
#[derive(Clone, Copy, Debug, PartialEq, Eq, Structural)]
pub struct ProtocolClient {
    /// The gateway's IPv4 address as a 32-bit number.
    pub gateway: u32,
}

#[derive(Debug)]
enum Phase {
    Awaiting(RetryState),
    Settled(Outcome),
}

/// An exchange under way: the request, where it goes, and how far the
/// schedule has come.
#[derive(Debug)]
pub struct Exchange {
    request: MappingRequest,
    gateway: u32,
    phase: Phase,
}

impl View for Exchange {
    type V = ExchangeModel;

    closed spec fn view(&self) -> ExchangeModel {
        ExchangeModel {
            request: self.request,
            gateway: self.gateway,
            phase: match self.phase {
                Phase::Awaiting(retry) => PhaseModel::Awaiting(retry@),
                Phase::Settled(outcome) => PhaseModel::Settled(outcome),
            },
        }
    }
}

impl ProtocolClient {
    /// The client of the gateway at this IPv4 address.
    pub fn new(gateway: u32) -> (client: ProtocolClient)
        ensures
            client.gateway == gateway,
    {
        ProtocolClient { gateway }
    }

    /// Opens the exchange that asks the gateway to map `internal_port`.
    ///
    /// Internal port 0 is turned down here, before anything is sent.
    /// Otherwise the exchange stands at its first attempt, and
    /// [`Exchange::start`] hands out the datagram to send.
    pub fn request_mapping(
        &self,
        protocol: Protocol,
        internal_port: u16,
        requested_external_port: u16,
        lifetime_seconds: u32,
    ) -> (res: Result<Exchange, ClientError>)
        ensures
            internal_port == 0 ==> res is Err && res->Err_0 == ClientError::InvalidArgument,
            internal_port != 0 ==> res is Ok && res->Ok_0@ == ExchangeModel::opened(
                MappingRequest { protocol, internal_port, requested_external_port, lifetime_seconds },
                self.gateway,
            ),
    {
        match MappingRequest::new(protocol, internal_port, requested_external_port, lifetime_seconds) {
            Some(request) => Ok(
                Exchange {
                    request,
                    gateway: self.gateway,
                    phase: Phase::Awaiting(RetryState::first()),
                },
            ),
            None => Err(ClientError::InvalidArgument),
        }
    }
}

impl Exchange {
    #[verifier::type_invariant]
    closed spec fn inv(self) -> bool {
        self@.well_formed()
    }

    /// The request that this exchange carries.
    pub fn request(&self) -> (request: MappingRequest)
        ensures
            request == self@.request,
            request.is_valid(),
    {
        proof {
            use_type_invariant(self);
        }
        self.request
    }

    /// Where the datagrams go: the gateway's address and port 5351.
    pub fn destination(&self) -> (to: (u32, u16))
        ensures
            to == (self@.gateway, GATEWAY_PORT),
    {
        (self.gateway, GATEWAY_PORT)
    }

    /// The number of the attempt under way, or `None` once the exchange is over.
    pub fn attempt(&self) -> (attempt: Option<u32>)
        ensures
            self@.well_formed(),
            match self@.phase {
                PhaseModel::Awaiting(retry) => attempt == Some(retry.attempt as u32),
                PhaseModel::Settled(_) => attempt is None,
            },
    {
        proof {
            use_type_invariant(self);
        }
        match &self.phase {
            Phase::Awaiting(retry) => Some(retry.attempt()),
            Phase::Settled(_) => None,
        }
    }

    /// How the exchange ended, or `None` while it still waits.
    pub fn outcome(&self) -> (outcome: Option<Outcome>)
        ensures
            match self@.phase {
                PhaseModel::Awaiting(_) => outcome is None,
                PhaseModel::Settled(ended) => outcome == Some(ended),
            },
    {
        match &self.phase {
            Phase::Awaiting(_) => None,
            Phase::Settled(ended) => Some(*ended),
        }
    }

    /// The action that opens the exchange: send the request and listen for
    /// a quarter of a second.
    pub fn start(&self) -> (action: Action)
        ensures
            action@ == self@.start(),
    {
        match &self.phase {
            Phase::Awaiting(retry) => Action::Send {
                datagram: encode_request(&self.request),
                timeout_ms: retry.current_timeout_ms(),
            },
            Phase::Settled(outcome) => Action::Finish(*outcome),
        }
    }

    /// Takes in what happened on the socket and says what to do next.
    pub fn step(&mut self, event: &Event) -> (action: Action)
        ensures
            (final(self)@, action@) == old(self)@.step(event@),
    {
        proof {
            use_type_invariant(&*self);
        }
        let retry = match &self.phase {
            Phase::Settled(outcome) => {
                return Action::Finish(*outcome);
            },
            Phase::Awaiting(retry) => *retry,
        };
        match event {
            Event::Datagram(bytes) => match decode_response(bytes.as_slice(), self.request.protocol) {
                Ok(reply) => {
                    let outcome: Outcome = if reply.result_code != 0 {
                        Err(ClientError::GatewayRejected { code: reply.result_code })
                    } else {
                        Ok(reply)
                    };
                    self.phase = Phase::Settled(outcome);
                    Action::Finish(outcome)
                },
                Err(_) => Action::Wait,
            },
            Event::TimedOut => match retry.after_timeout() {
                Some(next) => {
                    proof {
                        lemma_after_timeout_well_formed(retry@);
                    }
                    self.phase = Phase::Awaiting(next);
                    Action::Send {
                        datagram: encode_request(&self.request),
                        timeout_ms: next.current_timeout_ms(),
                    }
                },
                None => {
                    self.phase = Phase::Settled(Err(ClientError::NoResponse));
                    Action::Finish(Err(ClientError::NoResponse))
                },
            },
            Event::Failed => {
                self.phase = Phase::Settled(Err(ClientError::Io));
                Action::Finish(Err(ClientError::Io))
            },
        }
    }
}

/// A step leads from a well-formed state to a well-formed state.
pub proof fn lemma_step_well_formed(exchange: ExchangeModel, event: EventModel)
    requires
        exchange.well_formed(),
    ensures
        exchange.step(event).0.well_formed(),
        exchange.step(event).0.request == exchange.request,
        exchange.step(event).0.gateway == exchange.gateway,
{
    if let PhaseModel::Awaiting(retry) = exchange.phase {
        lemma_after_timeout_well_formed(retry);
    }
}

/// A datagram that is too short, or whose opcode is not that of a reply to
/// the request that was sent, is noise.
pub proof fn lemma_short_or_foreign_is_noise(bytes: Seq<u8>, sent: Protocol)
    requires
        bytes.len() < 16 || bytes[1] != sent.reply_opcode(),
    ensures
        is_noise(bytes, sent),
        bytes.len() < 16 ==> decoded(bytes, sent) == Err::<MappingResponse, CodecError>(
            CodecError::Truncated,
        ),
        bytes.len() >= 16 && bytes[0] == 0 ==> decoded(bytes, sent) == Err::<
            MappingResponse,
            CodecError,
        >(CodecError::OpcodeMismatch),
{
}

/// Noise neither ends the exchange nor begins a new attempt: the state,
/// with its attempt counter and its timeout, stays as it was, nothing is
/// sent, and the caller goes on listening until the wait under way runs out.
pub proof fn lemma_noise_is_ignored(exchange: ExchangeModel, bytes: Seq<u8>)
    requires
        exchange.phase is Awaiting,
        is_noise(bytes, exchange.request.protocol),
    ensures
        exchange.step(EventModel::Datagram(bytes)) == (exchange, ActionModel::Wait),
{
}

/// Noise at the head of a run of events changes neither where the run ends
/// nor how often the request is sent again.
pub proof fn lemma_noise_changes_nothing(
    exchange: ExchangeModel,
    bytes: Seq<u8>,
    later: Seq<EventModel>,
)
    requires
        is_noise(bytes, exchange.request.protocol),
    ensures
        exchange.run(seq![EventModel::Datagram(bytes)] + later) == exchange.run(later),
        exchange.resends(seq![EventModel::Datagram(bytes)] + later) == exchange.resends(later),
    decreases later.len(),
{
    let noise = EventModel::Datagram(bytes);
    let all = seq![noise] + later;
    if later.len() == 0 {
        assert(all.drop_last() =~= Seq::<EventModel>::empty());
        assert(exchange.resends(all.drop_last()) == 0);
    } else {
        lemma_noise_changes_nothing(exchange, bytes, later.drop_last());
        assert(all.drop_last() =~= seq![noise] + later.drop_last());
    }
}

/// Once an exchange is over, no event changes its state or makes the caller
/// send anything.
pub proof fn lemma_settled_is_final(exchange: ExchangeModel, events: Seq<EventModel>)
    requires
        exchange.phase is Settled,
    ensures
        exchange.run(events) == exchange,
        exchange.resends(events) == 0,
    decreases events.len(),
{
    if events.len() > 0 {
        lemma_settled_is_final(exchange, events.drop_last());
    }
}

/// The first reply that parses ends the exchange, in whichever attempt it
/// arrives: the outcome is the mapping or the gateway's refusal, and
/// whatever happens afterwards, no further attempt is sent.
pub proof fn lemma_reply_ends_exchange(
    exchange: ExchangeModel,
    bytes: Seq<u8>,
    later: Seq<EventModel>,
)
    requires
        exchange.phase is Awaiting,
        decoded(bytes, exchange.request.protocol) is Ok,
    ensures
        ({
            let reply = decoded(bytes, exchange.request.protocol)->Ok_0;
            let (ended, action) = exchange.step(EventModel::Datagram(bytes));
            &&& action == ActionModel::Finish(settled_by(reply))
            &&& ended.phase == PhaseModel::Settled(settled_by(reply))
            &&& ended.run(later) == ended
            &&& ended.resends(later) == 0
        }),
{
    lemma_settled_is_final(exchange.step(EventModel::Datagram(bytes)).0, later);
}

/// When the wait of attempt `k` runs out and `k` is less than nine, the
/// request is sent again unchanged and attempt `k + 1` waits
/// `250 * 2^k` milliseconds, twice as long as attempt `k`; when the wait of
/// the ninth attempt runs out, the exchange ends with `NoResponse`.
pub proof fn lemma_timeout_step(exchange: ExchangeModel)
    requires
        exchange.well_formed(),
        exchange.phase is Awaiting,
    ensures
        ({
            let retry = exchange.phase->Awaiting_0;
            let (next, action) = exchange.step(EventModel::TimedOut);
            &&& retry.attempt < 9 ==> {
                &&& next.phase == PhaseModel::Awaiting(
                    RetryModel {
                        attempt: retry.attempt + 1,
                        timeout_ms: 250 * pow2(retry.attempt),
                    },
                )
                &&& action == ActionModel::Send {
                    datagram: exchange.request.bytes(),
                    timeout_ms: 250 * pow2(retry.attempt),
                }
                &&& 250 * pow2(retry.attempt) == 2 * retry.timeout_ms
            }
            &&& retry.attempt == 9 ==> {
                &&& next.phase == PhaseModel::Settled(Err(ClientError::NoResponse))
                &&& action == ActionModel::Finish(Err(ClientError::NoResponse))
            }
        }),
{
    let retry = exchange.phase->Awaiting_0;
    lemma_timeout_doubles(retry.attempt);
}

/// While no reply arrives, the schedule depends on the expired waits alone.
/// After `n` of them, with any noise in between, and `n` less than nine:
/// attempt `n + 1` is under way, it waits `250 * 2^n` milliseconds, and the
/// request went out `n + 1` times. After the ninth the exchange has ended
/// with `NoResponse`, and the request went out nine times in all.
pub proof fn lemma_unanswered_schedule(
    request: MappingRequest,
    gateway: u32,
    events: Seq<EventModel>,
)
    requires
        request.is_valid(),
        unanswered(events, request.protocol),
    ensures
        ({
            let opened = ExchangeModel::opened(request, gateway);
            let n = timeouts_in(events);
            &&& n < 9 ==> {
                &&& opened.run(events).phase == PhaseModel::Awaiting(
                    RetryModel { attempt: n + 1, timeout_ms: 250 * pow2(n) },
                )
                &&& 1 + opened.resends(events) == n + 1
            }
            &&& n >= 9 ==> {
                &&& opened.run(events).phase == PhaseModel::Settled(Err(ClientError::NoResponse))
                &&& 1 + opened.resends(events) == 9
            }
            &&& opened.run(events).request == request
            &&& opened.run(events).gateway == gateway
        }),
    decreases events.len(),
{
    let opened = ExchangeModel::opened(request, gateway);
    if events.len() == 0 {
        lemma2_to64();
    } else {
        let before = events.drop_last();
        assert(unanswered(before, request.protocol)) by {
            assert forall|i: int| 0 <= i < before.len() implies match #[trigger] before[i] {
                EventModel::Datagram(bytes) => is_noise(bytes, request.protocol),
                EventModel::TimedOut => true,
                EventModel::Failed => false,
            } by {
                assert(before[i] == events[i]);
            }
        }
        lemma_unanswered_schedule(request, gateway, before);
        let m = timeouts_in(before);
        assert(events[events.len() - 1] == events.last());
        if m < 9 && events.last() is TimedOut {
            lemma_timeout_bounds(m + 1);
            lemma_timeout_step(opened.run(before));
        }
    }
}

/// Two exchanges that ask for the same mapping do not touch each other:
/// whatever the gateway granted the first, the second succeeds with exactly
/// what the gateway grants in its own reply.
pub proof fn lemma_repeated_request_is_independent(
    request: MappingRequest,
    gateway: u32,
    first_port: u16,
    first_epoch: u32,
    second_port: u16,
    second_epoch: u32,
)
    requires
        request.is_valid(),
        first_port != 0,
        second_port != 0,
    ensures
        ({
            let first = MappingResponse::granting(request, first_port, first_epoch);
            let second = MappingResponse::granting(request, second_port, second_epoch);
            let opened = ExchangeModel::opened(request, gateway);
            &&& opened.step(EventModel::Datagram(first.bytes())).1 == ActionModel::Finish(Ok(first))
            &&& opened.step(EventModel::Datagram(second.bytes())).1 == ActionModel::Finish(
                Ok(second),
            )
        }),
{
    lemma_response_round_trip(MappingResponse::granting(request, first_port, first_epoch));
    lemma_response_round_trip(MappingResponse::granting(request, second_port, second_epoch));
}

} // verus!
