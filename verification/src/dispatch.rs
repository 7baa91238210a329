//! The request dispatch pipeline.
//!
//! Every stateful operation goes through the same envelope: acquire an
//! execution context, convert the inbound request into the operation's
//! internal shape, invoke the operation, record the outcome under the
//! resolved metrics label, and map failures into the error taxonomy. The
//! pipeline is transport-agnostic: any adapter drives one `Dispatch`
//! machine per request, performs the outside work it is asked for —
//! context acquisition, the provider call, the metric write — and reports
//! each outcome back; the machine makes every decision.

use crate::error::Error;
use crate::strutil::str_eq;
use vstd::prelude::*;

verus! {

/// The stateful operations of the execution backend. The legacy evaluate
/// endpoint is an alias of `Execute` and is expressed through a metrics
/// label override, not a separate operation.
#[derive(Clone, Copy, PartialEq, Eq, Structural, Debug)]
pub enum Operation {
    Compile,
    Execute,
    Format,
    Lint,
    Interpret,
    Expand,
}

/// Metrics labels, one per endpoint. `Evaluate` exists only as an override
/// so the backward-compatibility shim keeps a stable metrics identity; the
/// metadata labels classify cache fetches, which carry no request.
#[derive(Clone, Copy, PartialEq, Eq, Structural, Debug)]
pub enum Endpoint {
    Compile,
    Execute,
    Format,
    Lint,
    Interpret,
    Expand,
    Evaluate,
    MetaCrates,
    MetaVersionStable,
    MetaVersionBeta,
    MetaVersionNightly,
    MetaVersionRustfmt,
    MetaVersionClippy,
    MetaVersionMiri,
}

/// Toolchain channel named by a request.
#[derive(Clone, Copy, PartialEq, Eq, Structural, Debug)]
pub enum Channel {
    Stable,
    Beta,
    Nightly,
}

/// Build mode named by a request.
#[derive(Clone, Copy, PartialEq, Eq, Structural, Debug)]
pub enum Mode {
    Debug,
    Release,
}

/// Language edition named by a request.
#[derive(Clone, Copy, PartialEq, Eq, Structural, Debug)]
pub enum Edition {
    E2015,
    E2018,
    E2021,
}

/// A request as a transport adapter hands it in: raw strings.
pub struct InboundRequest {
    pub channel: String,
    pub mode: String,
    pub edition: String,
    pub code: String,
}

/// A request in the shape the provider expects.
pub struct InternalRequest {
    pub channel: Channel,
    pub mode: Mode,
    pub edition: Edition,
    pub code: String,
}

/// What the provider reports for one operation run.
pub struct OperationResponse {
    pub success: bool,
    pub stdout: String,
    pub stderr: String,
}

/// One classification record for the metrics recorder: the resolved label
/// and whether the operation succeeded. The recorder adds the elapsed time.
pub struct MetricRecord {
    pub label: Endpoint,
    pub success: bool,
}

/// The channel a raw channel field names, if any.
pub open spec fn spec_parse_channel(s: Seq<char>) -> Option<Channel> {
    if s == "stable"@ {
        Some(Channel::Stable)
    } else if s == "beta"@ {
        Some(Channel::Beta)
    } else if s == "nightly"@ {
        Some(Channel::Nightly)
    } else {
        None
    }
}

/// The mode a raw mode field names, if any.
pub open spec fn spec_parse_mode(s: Seq<char>) -> Option<Mode> {
    if s == "debug"@ {
        Some(Mode::Debug)
    } else if s == "release"@ {
        Some(Mode::Release)
    } else {
        None
    }
}

/// The edition a raw edition field names, if any.
pub open spec fn spec_parse_edition(s: Seq<char>) -> Option<Edition> {
    if s == "2015"@ {
        Some(Edition::E2015)
    } else if s == "2018"@ {
        Some(Edition::E2018)
    } else if s == "2021"@ {
        Some(Edition::E2021)
    } else {
        None
    }
}

/// Parses the channel field of an inbound request.
pub fn parse_channel(s: &str) -> (r: Option<Channel>)
    ensures
        r == spec_parse_channel(s@),
{
    if str_eq(s, "stable") {
        Some(Channel::Stable)
    } else if str_eq(s, "beta") {
        Some(Channel::Beta)
    } else if str_eq(s, "nightly") {
        Some(Channel::Nightly)
    } else {
        None
    }
}

/// Parses the mode field of an inbound request.
pub fn parse_mode(s: &str) -> (r: Option<Mode>)
    ensures
        r == spec_parse_mode(s@),
{
    if str_eq(s, "debug") {
        Some(Mode::Debug)
    } else if str_eq(s, "release") {
        Some(Mode::Release)
    } else {
        None
    }
}

/// Parses the edition field of an inbound request.
pub fn parse_edition(s: &str) -> (r: Option<Edition>)
    ensures
        r == spec_parse_edition(s@),
{
    if str_eq(s, "2015") {
        Some(Edition::E2015)
    } else if str_eq(s, "2018") {
        Some(Edition::E2018)
    } else if str_eq(s, "2021") {
        Some(Edition::E2021)
    } else {
        None
    }
}

/// The internal request an inbound request converts to: defined exactly
/// when all three raw fields parse.
pub open spec fn spec_convert(req: InboundRequest) -> Option<InternalRequest> {
    match spec_parse_channel(req.channel@) {
        None => None,
        Some(channel) => match spec_parse_mode(req.mode@) {
            None => None,
            Some(mode) => match spec_parse_edition(req.edition@) {
                None => None,
                Some(edition) => Some(
                    InternalRequest { channel, mode, edition, code: req.code },
                ),
            },
        },
    }
}

/// Converts an inbound request into the internal shape. A malformed payload
/// is reported as a conversion error, never as an operation failure, and
/// conversion failure short-circuits before the operation is invoked.
pub fn convert(req: InboundRequest) -> (r: Result<InternalRequest, Error>)
    ensures
        spec_convert(req) matches Some(i) ==> r == Ok::<InternalRequest, Error>(i),
        spec_convert(req) is None ==> r == Err::<InternalRequest, Error>(
            Error::RequestConversionFailed,
        ),
{
    let channel = match parse_channel(req.channel.as_str()) {
        Some(c) => c,
        None => {
            return Err(Error::RequestConversionFailed);
        },
    };
    let mode = match parse_mode(req.mode.as_str()) {
        Some(m) => m,
        None => {
            return Err(Error::RequestConversionFailed);
        },
    };
    let edition = match parse_edition(req.edition.as_str()) {
        Some(e) => e,
        None => {
            return Err(Error::RequestConversionFailed);
        },
    };
    Ok(InternalRequest { channel, mode, edition, code: req.code })
}

/// The label derived from the operation, used where no override is given.
pub open spec fn spec_derived_label(op: Operation) -> Endpoint {
    match op {
        Operation::Compile => Endpoint::Compile,
        Operation::Execute => Endpoint::Execute,
        Operation::Format => Endpoint::Format,
        Operation::Lint => Endpoint::Lint,
        Operation::Interpret => Endpoint::Interpret,
        Operation::Expand => Endpoint::Expand,
    }
}

/// Progress of one dispatched request.
pub enum DispatchState {
    /// The execution context has not been acquired yet.
    AwaitingContext(InboundRequest),
    /// The context is ready and the request converted: the provider may be
    /// invoked with the carried internal request.
    ReadyToInvoke(InternalRequest),
    /// The request finished, successfully or not.
    Finished(Result<OperationResponse, Error>),
}

/// The dispatch machine for one request.
pub struct Dispatch {
    pub op: Operation,
    pub label_override: Option<Endpoint>,
    pub state: DispatchState,
}

impl Dispatch {
    /// The resolved metrics label: the override where one is supplied, else
    /// the label derived from the operation.
    pub open spec fn spec_label(&self) -> Endpoint {
        match self.label_override {
            Some(l) => l,
            None => spec_derived_label(self.op),
        }
    }

    /// What the context step decides: failure to create the context is
    /// reported distinctly from operation failure; with a context at hand
    /// the inbound request is converted, and a malformed one
    /// short-circuits to a conversion error.
    pub open spec fn spec_on_context(self, ok: bool) -> Dispatch {
        match self.state {
            DispatchState::AwaitingContext(req) => if !ok {
                Dispatch {
                    op: self.op,
                    label_override: self.label_override,
                    state: DispatchState::Finished(Err(Error::ContextCreationFailed)),
                }
            } else {
                match spec_convert(req) {
                    None => Dispatch {
                        op: self.op,
                        label_override: self.label_override,
                        state: DispatchState::Finished(Err(Error::RequestConversionFailed)),
                    },
                    Some(i) => Dispatch {
                        op: self.op,
                        label_override: self.label_override,
                        state: DispatchState::ReadyToInvoke(i),
                    },
                }
            },
            _ => self,
        }
    }

    /// A machine awaiting its execution context.
    pub fn new(inbound: InboundRequest, op: Operation, label_override: Option<Endpoint>) -> (d:
        Dispatch)
        ensures
            d.op == op,
            d.label_override == label_override,
            d.state == DispatchState::AwaitingContext(inbound),
    {
        Dispatch { op, label_override, state: DispatchState::AwaitingContext(inbound) }
    }

    /// Step taken when context acquisition reports back.
    pub fn on_context(self, ok: bool) -> (d: Dispatch)
        requires
            self.state matches DispatchState::AwaitingContext(_),
        ensures
            d == self.spec_on_context(ok),
    {
        let op = self.op;
        let label_override = self.label_override;
        match self.state {
            DispatchState::AwaitingContext(req) => {
                if !ok {
                    Dispatch {
                        op,
                        label_override,
                        state: DispatchState::Finished(Err(Error::ContextCreationFailed)),
                    }
                } else {
                    match convert(req) {
                        Ok(i) => Dispatch {
                            op,
                            label_override,
                            state: DispatchState::ReadyToInvoke(i),
                        },
                        Err(e) => Dispatch {
                            op,
                            label_override,
                            state: DispatchState::Finished(Err(e)),
                        },
                    }
                }
            },
            _ => vstd::pervasive::unreached(),
        }
    }

    /// The internal request the provider is to be invoked with.
    pub fn pending_request(&self) -> (r: &InternalRequest)
        requires
            self.state matches DispatchState::ReadyToInvoke(_),
        ensures
            self.state == DispatchState::ReadyToInvoke(*r),
    {
        match &self.state {
            DispatchState::ReadyToInvoke(i) => i,
            _ => vstd::pervasive::unreached(),
        }
    }

    /// The resolved metrics label.
    pub fn resolved_label(&self) -> (r: Endpoint)
        ensures
            r == self.spec_label(),
    {
        match self.label_override {
            Some(l) => l,
            None => match self.op {
                Operation::Compile => Endpoint::Compile,
                Operation::Execute => Endpoint::Execute,
                Operation::Format => Endpoint::Format,
                Operation::Lint => Endpoint::Lint,
                Operation::Interpret => Endpoint::Interpret,
                Operation::Expand => Endpoint::Expand,
            },
        }
    }

    /// Step taken when the provider's outcome reports back: the response is
    /// mapped outward, a provider failure is tagged with the operation that
    /// failed, and the metric record is produced under the resolved label
    /// regardless of the result.
    pub fn on_outcome(self, outcome: Option<OperationResponse>) -> (r: (Dispatch, MetricRecord))
        requires
            self.state matches DispatchState::ReadyToInvoke(_),
        ensures
            r.0.op == self.op,
            r.0.label_override == self.label_override,
            r.1.label == self.spec_label(),
            r.1.success == (outcome is Some),
            outcome matches Some(resp) ==> r.0.state == DispatchState::Finished(
                Ok::<OperationResponse, Error>(resp),
            ),
            outcome is None ==> r.0.state == DispatchState::Finished(
                Err::<OperationResponse, Error>(Error::OperationFailed(self.op)),
            ),
    {
        let label = self.resolved_label();
        match outcome {
            Some(resp) => (
                Dispatch {
                    op: self.op,
                    label_override: self.label_override,
                    state: DispatchState::Finished(Ok(resp)),
                },
                MetricRecord { label, success: true },
            ),
            None => (
                Dispatch {
                    op: self.op,
                    label_override: self.label_override,
                    state: DispatchState::Finished(Err(Error::OperationFailed(self.op))),
                },
                MetricRecord { label, success: false },
            ),
        }
    }

    /// The finished request's outcome, handed to the transport adapter.
    pub fn into_outcome(self) -> (r: Result<OperationResponse, Error>)
        requires
            self.state matches DispatchState::Finished(_),
        ensures
            self.state matches DispatchState::Finished(o) && r == o,
    {
        match self.state {
            DispatchState::Finished(o) => o,
            _ => vstd::pervasive::unreached(),
        }
    }
}

/// Dispatch short-circuit law: a malformed inbound request never results in
/// a provider invocation. After the context step the machine is `Finished`
/// with a conversion error — never `ReadyToInvoke`, the only state from
/// which `on_outcome` accepts a provider result.
pub proof fn lemma_dispatch_short_circuit(d: Dispatch, ok: bool)
    requires
        d.state matches DispatchState::AwaitingContext(req) && spec_convert(req) is None,
    ensures
        !(d.spec_on_context(ok).state matches DispatchState::ReadyToInvoke(_)),
        ok ==> d.spec_on_context(ok).state == DispatchState::Finished(
            Err::<OperationResponse, Error>(Error::RequestConversionFailed),
        ),
{
}

} // verus!
