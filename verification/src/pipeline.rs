//! The pipeline that every request runs through, as a state machine. The
//! machine does no I/O: it names the next action, and whoever drives it
//! performs the action and hands back what came of it.

use crate::credential::Credential;
use crate::error::{ApiError, ApiErrorView};
use crate::http::{
    OutboundRequest, OutboundRequestView, ProxyRequest, ProxyRequestView, Response, ResponseView,
};
use crate::middlewares::{
    inquiry_of, outcome_of, validation_of, Authorized, AuthorityReply, AuthorizedMiddleware,
    Inquiry, InquiryView, Outcome, Rejection, ValidationResult,
};
use crate::models::{NewRequest, NewRequestView};
use crate::routes::{
    failure_response, failure_response_of, forward, outbound_of, rejection_response,
    rejection_response_of, relay, relayed, UpstreamFailure, UpstreamFailureView,
};
use vstd::prelude::*;
use vstd::string::*;

verus! {

/// Where a request stands.
#[derive(Debug)]
pub enum State {
    /// The request came in and nothing was done yet.
    Received(ProxyRequest),
    /// The authority is being asked about the credential.
    Authorizing { request: ProxyRequest, credential: Credential },
    /// The request passed the authorization gate; its audit record is being
    /// written.
    Recording(ProxyRequest),
    /// The request is with the upstream.
    Forwarding,
    /// The end for a request that the authorization gate turned away.
    Rejected(Rejection),
    /// The end for a request whose response was relayed.
    Forwarded,
    /// The end for a request that did not reach the upstream.
    UpstreamFailure,
}

/// What a [`State`] holds, as the values that contracts speak of.
pub enum StateView {
    Received(ProxyRequestView),
    Authorizing { request: ProxyRequestView, credential: Credential },
    Recording(ProxyRequestView),
    Forwarding,
    Rejected(Rejection),
    Forwarded,
    UpstreamFailure,
}

impl View for State {
    type V = StateView;

    open spec fn view(&self) -> StateView {
        match *self {
            State::Received(request) => StateView::Received(request@),
            State::Authorizing { request, credential } => StateView::Authorizing {
                request: request@,
                credential,
            },
            State::Recording(request) => StateView::Recording(request@),
            State::Forwarding => StateView::Forwarding,
            State::Rejected(rejection) => StateView::Rejected(rejection),
            State::Forwarded => StateView::Forwarded,
            State::UpstreamFailure => StateView::UpstreamFailure,
        }
    }
}

/// What the machine is told.
#[derive(Debug)]
pub enum Event {
    /// The request is taken up.
    Start,
    /// The authority was asked; this is what came of it.
    AuthorityReplied(AuthorityReply),
    /// The audit record was handed to the store; this is what came of it.
    AuditWritten(Result<(), ApiError>),
    /// The request was sent to the upstream; this is what came of it.
    UpstreamReplied(Result<Response, UpstreamFailure>),
}

/// What an [`Event`] holds, as the values that contracts speak of.
pub enum EventView {
    Start,
    AuthorityReplied(ValidationResult),
    AuditWritten(Option<ApiErrorView>),
    UpstreamReplied(Result<ResponseView, UpstreamFailureView>),
}

impl View for Event {
    type V = EventView;

    open spec fn view(&self) -> EventView {
        match *self {
            Event::Start => EventView::Start,
            Event::AuthorityReplied(reply) => EventView::AuthorityReplied(validation_of(reply)),
            Event::AuditWritten(Ok(_)) => EventView::AuditWritten(None),
            Event::AuditWritten(Err(e)) => EventView::AuditWritten(Some(e@)),
            Event::UpstreamReplied(Ok(response)) => EventView::UpstreamReplied(Ok(response@)),
            Event::UpstreamReplied(Err(failure)) => EventView::UpstreamReplied(Err(failure@)),
        }
    }
}

/// What the machine asks for.
#[derive(Debug)]
pub enum Action {
    /// Ask the authority with a GET of `url`.
    AskAuthority { url: String },
    /// Hand `record` to the audit store.
    WriteAudit { record: NewRequest },
    /// Send `request` to the upstream.
    SendUpstream { request: OutboundRequest },
    /// Give `response` to the client. Nothing follows.
    Respond { response: Response },
}

/// What an [`Action`] holds, as the values that contracts speak of.
pub enum ActionView {
    AskAuthority { url: Seq<char> },
    WriteAudit { record: NewRequestView },
    SendUpstream { request: OutboundRequestView },
    Respond { response: ResponseView },
}

impl View for Action {
    type V = ActionView;

    open spec fn view(&self) -> ActionView {
        match *self {
            Action::AskAuthority { url } => ActionView::AskAuthority { url: url@ },
            Action::WriteAudit { record } => ActionView::WriteAudit { record: record@ },
            Action::SendUpstream { request } => ActionView::SendUpstream { request: request@ },
            Action::Respond { response } => ActionView::Respond { response: response@ },
        }
    }
}

/// The action that was asked for, by its view.
pub open spec fn action_view(action: Option<Action>) -> Option<ActionView> {
    match action {
        Some(a) => Some(a@),
        None => None,
    }
}

/// `request` as it goes on once it passed the authorization gate under
/// `credential`.
pub open spec fn admitted(request: ProxyRequestView, credential: Credential) -> ProxyRequestView {
    ProxyRequestView { credential: Some(credential), ..request }
}

/// The audit record of a request that passed the authorization gate under
/// `credential`.
pub open spec fn audit_record(request: ProxyRequestView, credential: Credential) -> NewRequestView {
    NewRequestView {
        method: request.method,
        path: request.path,
        authorization: Some(credential),
    }
}

/// The step that a request takes when it is taken up.
pub open spec fn on_start(authority: Seq<char>, request: ProxyRequestView) -> (
    StateView,
    Option<ActionView>,
) {
    match inquiry_of(authority, request.headers) {
        InquiryView::Rejected(rejection) => (
            StateView::Rejected(rejection),
            Some(ActionView::Respond { response: rejection_response_of(rejection) }),
        ),
        InquiryView::Lookup { url, credential } => (
            StateView::Authorizing { request, credential },
            Some(ActionView::AskAuthority { url }),
        ),
    }
}

/// The step that a request takes when the authority has been asked.
pub open spec fn on_authority(
    request: ProxyRequestView,
    credential: Credential,
    validation: ValidationResult,
) -> (StateView, Option<ActionView>) {
    match outcome_of(credential, validation) {
        Outcome::Rejected(rejection) => (
            StateView::Rejected(rejection),
            Some(ActionView::Respond { response: rejection_response_of(rejection) }),
        ),
        Outcome::Authorized(credential) => (
            StateView::Recording(admitted(request, credential)),
            Some(ActionView::WriteAudit { record: audit_record(request, credential) }),
        ),
    }
}

/// The step that a request takes when its audit record has been handed to
/// the store, whatever came of that.
pub open spec fn on_audit(upstream: Seq<char>, request: ProxyRequestView) -> (
    StateView,
    Option<ActionView>,
) {
    match outbound_of(request, upstream) {
        Some(outbound) => (
            StateView::Forwarding,
            Some(ActionView::SendUpstream { request: outbound }),
        ),
        None => (
            StateView::UpstreamFailure,
            Some(ActionView::Respond { response: failure_response_of(no_target()) }),
        ),
    }
}

/// The step that a request takes when the upstream has been tried.
pub open spec fn on_upstream(reply: Result<ResponseView, UpstreamFailureView>) -> (
    StateView,
    Option<ActionView>,
) {
    match reply {
        Ok(response) => (
            StateView::Forwarded,
            Some(ActionView::Respond { response: relayed(response) }),
        ),
        Err(failure) => (
            StateView::UpstreamFailure,
            Some(ActionView::Respond { response: failure_response_of(failure) }),
        ),
    }
}

/// The failure that is reported where no address of the upstream can be
/// formed for a request.
pub open spec fn no_target() -> UpstreamFailureView {
    UpstreamFailureView { timed_out: false, detail: "no upstream address for this request"@ }
}

/// The machine: the state that follows `state` on `event`, and the action
/// that is asked for. An event that `state` does not wait for leaves the
/// state as it is and asks for nothing; so does every event at an end.
pub open spec fn next(
    authority: Seq<char>,
    upstream: Seq<char>,
    state: StateView,
    event: EventView,
) -> (StateView, Option<ActionView>) {
    match (state, event) {
        (StateView::Received(request), EventView::Start) => on_start(authority, request),
        (
            StateView::Authorizing { request, credential },
            EventView::AuthorityReplied(validation),
        ) => on_authority(request, credential, validation),
        (StateView::Recording(request), EventView::AuditWritten(_)) => on_audit(upstream, request),
        (StateView::Forwarding, EventView::UpstreamReplied(reply)) => on_upstream(reply),
        _ => (state, None),
    }
}

/// What the collaborators do for one request: what the authority says of
/// its credential, what comes of writing its audit record, and what comes
/// of sending it to the upstream.
pub struct World {
    pub validation: ValidationResult,
    pub audit: Option<ApiErrorView>,
    pub upstream: Result<ResponseView, UpstreamFailureView>,
}

/// The event that answers an action in a world. A response to the client
/// is answered by nothing.
pub open spec fn reply_to(action: ActionView, world: World) -> Option<EventView> {
    match action {
        ActionView::AskAuthority { .. } => Some(EventView::AuthorityReplied(world.validation)),
        ActionView::WriteAudit { .. } => Some(EventView::AuditWritten(world.audit)),
        ActionView::SendUpstream { .. } => Some(EventView::UpstreamReplied(world.upstream)),
        ActionView::Respond { .. } => None,
    }
}

/// The actions that the machine asks for when it is driven from `state`
/// with `event`: each action is performed in `world` and answered with the
/// event that came of it, until the machine asks for nothing more or
/// `steps` steps were taken.
pub open spec fn run(
    authority: Seq<char>,
    upstream: Seq<char>,
    state: StateView,
    event: EventView,
    world: World,
    steps: nat,
) -> Seq<ActionView>
    decreases steps,
{
    if steps == 0 {
        Seq::empty()
    } else {
        let (state, asked) = next(authority, upstream, state, event);
        match asked {
            None => Seq::empty(),
            Some(action) => match reply_to(action, world) {
                None => seq![action],
                Some(event) => seq![action] + run(
                    authority,
                    upstream,
                    state,
                    event,
                    world,
                    (steps - 1) as nat,
                ),
            },
        }
    }
}

/// The longest way through the pipeline: ask the authority, write the
/// audit record, send to the upstream, respond.
pub open spec fn longest_way() -> nat {
    4
}

/// All the actions that the pipeline asks for on behalf of one request.
pub open spec fn trace(
    authority: Seq<char>,
    upstream: Seq<char>,
    request: ProxyRequestView,
    world: World,
) -> Seq<ActionView> {
    run(authority, upstream, StateView::Received(request), EventView::Start, world, longest_way())
}

/// The pipeline as it is configured: it knows the address of the authority
/// and the address of the upstream, and holds nothing that a request could
/// change.
#[derive(Debug)]
pub struct Pipeline {
    gate: AuthorizedMiddleware,
    forward_url: String,
}

impl Pipeline {
    /// The address of the authority.
    pub closed spec fn authority(&self) -> Seq<char> {
        self.gate.authority()
    }

    /// The address of the upstream.
    pub closed spec fn upstream(&self) -> Seq<char> {
        self.forward_url@
    }

    /// A pipeline that asks the authority at `auth_url` and forwards to the
    /// upstream at `forward_url`.
    pub fn new(auth_url: &str, forward_url: &str) -> (r: Pipeline)
        ensures
            r.authority() == auth_url@,
            r.upstream() == forward_url@,
    {
        Pipeline {
            gate: Authorized::new(auth_url).new_transform(),
            forward_url: String::from_str(forward_url),
        }
    }

    /// The state in which a request enters the pipeline.
    pub fn receive(request: ProxyRequest) -> (r: State)
        ensures
            r@ == StateView::Received(request@),
    {
        State::Received(request)
    }

    /// Takes one step: from `state`, on `event`, to the state that follows
    /// and the action that is asked for.
    pub fn step(&self, state: State, event: Event) -> (r: (State, Option<Action>))
        ensures
            (r.0@, action_view(r.1)) == next(self.authority(), self.upstream(), state@, event@),
    {
        match (state, event) {
            (State::Received(request), Event::Start) => {
                match self.gate.call(&request.headers) {
                    Inquiry::Rejected(rejection) => (
                        State::Rejected(rejection),
                        Some(Action::Respond { response: rejection_response(rejection) }),
                    ),
                    Inquiry::Lookup { url, credential } => (
                        State::Authorizing { request, credential },
                        Some(Action::AskAuthority { url }),
                    ),
                }
            },
            (State::Authorizing { request, credential }, Event::AuthorityReplied(reply)) => {
                let validation = AuthorizedMiddleware::validate(&reply);
                match AuthorizedMiddleware::conclude(credential, validation) {
                    Outcome::Rejected(rejection) => (
                        State::Rejected(rejection),
                        Some(Action::Respond { response: rejection_response(rejection) }),
                    ),
                    Outcome::Authorized(credential) => {
                        let record = NewRequest {
                            method: request.method.clone(),
                            path: request.path.clone(),
                            authorization: Some(credential),
                        };
                        let mut request = request;
                        request.credential = Some(credential);
                        (State::Recording(request), Some(Action::WriteAudit { record }))
                    },
                }
            },
            (State::Recording(request), Event::AuditWritten(_)) => {
                match forward(request, self.forward_url.as_str()) {
                    Some(outbound) => (
                        State::Forwarding,
                        Some(Action::SendUpstream { request: outbound }),
                    ),
                    None => {
                        let failure = UpstreamFailure {
                            timed_out: false,
                            detail: String::from_str("no upstream address for this request"),
                        };
                        (
                            State::UpstreamFailure,
                            Some(Action::Respond { response: failure_response(&failure) }),
                        )
                    },
                }
            },
            (State::Forwarding, Event::UpstreamReplied(reply)) => {
                match reply {
                    Ok(response) => (
                        State::Forwarded,
                        Some(Action::Respond { response: relay(response) }),
                    ),
                    Err(failure) => (
                        State::UpstreamFailure,
                        Some(Action::Respond { response: failure_response(&failure) }),
                    ),
                }
            },
            (state, _) => (state, None),
        }
    }
}

} // verus!
