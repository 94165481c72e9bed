//! What holds of every request that runs through the pipeline, whatever the
//! collaborators do.

use crate::credential::Credential;
use crate::http::{
    has_named, value_of, values_of, without, HeaderView, ProxyRequestView, ResponseView,
};
use crate::middlewares::{inquiry_of, outcome_of, InquiryView, Outcome, Rejection};
use crate::models::NewRequestView;
use crate::pipeline::{
    admitted, audit_record, longest_way, no_target, run, trace, ActionView, EventView, StateView,
    World,
};
use crate::routes::{
    failure_response_of, outbound_headers, outbound_of, rejection_response_of, relayed,
    UpstreamFailureView,
};
use crate::text::same_name;
use crate::url::target_of;
use vstd::prelude::*;
use vstd::utf8::encode_utf8;

verus! {

/// The answer to the client, as an action.
pub open spec fn respond(response: ResponseView) -> ActionView {
    ActionView::Respond { response }
}

/// What the pipeline does for a request in a world, case by case.
///
/// A request that the authorization gate turns away at once is answered,
/// and nothing else happens. A request that presents a credential has the
/// authority asked once; if it is then turned away, it is answered and
/// nothing else happens. A request that passes has its audit record handed
/// to the store once and is then sent to the upstream once, unless no
/// address can be formed for it; in the end it is answered once.
pub open spec fn course(
    authority: Seq<char>,
    upstream: Seq<char>,
    request: ProxyRequestView,
    world: World,
) -> Seq<ActionView> {
    match inquiry_of(authority, request.headers) {
        InquiryView::Rejected(rejection) => seq![respond(rejection_response_of(rejection))],
        InquiryView::Lookup { url, credential } => match outcome_of(credential, world.validation) {
            Outcome::Rejected(rejection) => seq![
                ActionView::AskAuthority { url },
                respond(rejection_response_of(rejection)),
            ],
            Outcome::Authorized(credential) => match outbound_of(
                admitted(request, credential),
                upstream,
            ) {
                None => seq![
                    ActionView::AskAuthority { url },
                    ActionView::WriteAudit { record: audit_record(request, credential) },
                    respond(failure_response_of(no_target())),
                ],
                Some(outbound) => seq![
                    ActionView::AskAuthority { url },
                    ActionView::WriteAudit { record: audit_record(request, credential) },
                    ActionView::SendUpstream { request: outbound },
                    respond(
                        match world.upstream {
                            Ok(response) => relayed(response),
                            Err(failure) => failure_response_of(failure),
                        },
                    ),
                ],
            },
        },
    }
}

/// The actions that the pipeline asks for on behalf of a request are those
/// of its course, in that order, and no others: the authority is asked at
/// most once, the audit record is written at most once, the upstream is
/// tried at most once, and the client is answered exactly once, at the end.
pub proof fn law_trace_shapes(
    authority: Seq<char>,
    upstream: Seq<char>,
    request: ProxyRequestView,
    world: World,
)
    ensures
        trace(authority, upstream, request, world) == course(authority, upstream, request, world),
{
    law_pipeline_ends(authority, upstream, request, world, longest_way());
}

/// The pipeline comes to its end within four steps: however much longer it
/// is driven, it asks for nothing more than the actions of its course.
pub proof fn law_pipeline_ends(
    authority: Seq<char>,
    upstream: Seq<char>,
    request: ProxyRequestView,
    world: World,
    steps: nat,
)
    requires
        steps >= longest_way(),
    ensures
        run(authority, upstream, StateView::Received(request), EventView::Start, world, steps)
            == course(authority, upstream, request, world),
{
    reveal_with_fuel(run, 5);
    assert(run(authority, upstream, StateView::Received(request), EventView::Start, world, steps)
        =~= course(authority, upstream, request, world));
}

/// Where no header is called `name`, no value is found under `name`.
pub proof fn lemma_no_name_no_value(headers: Seq<HeaderView>, name: Seq<char>)
    requires
        !has_named(headers, name),
    ensures
        value_of(headers, name) is None,
    decreases headers.len(),
{
    if headers.len() > 0 {
        assert(!same_name(headers[0].name, name));
        let rest = headers.drop_first();
        assert forall|i: int| 0 <= i < rest.len() implies !same_name(
            #[trigger] rest[i].name,
            name,
        ) by {
            assert(rest[i] == headers[i + 1]);
        }
        lemma_no_name_no_value(rest, name);
    }
}

/// Where no header is called `name`, the list of values under `name` is
/// empty.
pub proof fn lemma_no_name_no_values(headers: Seq<HeaderView>, name: Seq<char>)
    requires
        !has_named(headers, name),
    ensures
        values_of(headers, name) == Seq::<Seq<u8>>::empty(),
    decreases headers.len(),
{
    reveal(Seq::filter);
    let named = |h: HeaderView| same_name(h.name, name);
    if headers.len() > 0 {
        let front = headers.drop_last();
        assert(!same_name(headers[headers.len() - 1].name, name));
        assert forall|i: int| 0 <= i < front.len() implies !same_name(
            #[trigger] front[i].name,
            name,
        ) by {
            assert(front[i] == headers[i]);
        }
        lemma_no_name_no_values(front, name);
        assert(front.filter(named).map_values(|h: HeaderView| h.value) =~= Seq::<Seq<u8>>::empty());
        assert(front.filter(named) =~= Seq::<HeaderView>::empty());
        assert(headers.filter(named) =~= front.filter(named));
    }
    assert(values_of(headers, name) =~= Seq::<Seq<u8>>::empty());
}

/// A request without an Authorization header is answered with status 401,
/// and that answer is all that happens: neither the authority nor the
/// upstream is contacted.
pub proof fn law_missing_header_is_rejected(
    authority: Seq<char>,
    upstream: Seq<char>,
    request: ProxyRequestView,
    world: World,
)
    requires
        !has_named(request.headers, "authorization"@),
    ensures
        trace(authority, upstream, request, world) == seq![
            respond(rejection_response_of(Rejection::AuthRequired)),
        ],
        rejection_response_of(Rejection::AuthRequired).status == 401,
{
    lemma_no_name_no_value(request.headers, "authorization"@);
    law_trace_shapes(authority, upstream, request, world);
}

/// A request whose credential the authority reports as disabled is answered
/// with status 401. The upstream is never contacted for it, and nothing is
/// written to the audit store.
pub proof fn law_disabled_is_rejected(
    authority: Seq<char>,
    upstream: Seq<char>,
    request: ProxyRequestView,
    world: World,
)
    requires
        world.validation.valid,
        world.validation.disabled,
    ensures
        ({
            let t = trace(authority, upstream, request, world);
            &&& t.len() >= 1
            &&& t.last() matches ActionView::Respond { response } && response.status == 401
            &&& forall|i: int|
                0 <= i < t.len() ==> !(#[trigger] t[i] is SendUpstream) && !(t[i] is WriteAudit)
            &&& inquiry_of(authority, request.headers) is Lookup ==> t.last() == respond(
                rejection_response_of(Rejection::AuthDisabled),
            )
        }),
{
    law_trace_shapes(authority, upstream, request, world);
}

/// A request that the authorization gate turns away, for whatever reason, is
/// answered with status 401, the upstream is never contacted for it, and
/// nothing is written to the audit store.
pub proof fn law_rejected_touches_nothing(
    authority: Seq<char>,
    upstream: Seq<char>,
    request: ProxyRequestView,
    world: World,
)
    requires
        passes(authority, request, world) is None,
    ensures
        ({
            let t = trace(authority, upstream, request, world);
            &&& t.len() >= 1
            &&& t.last() matches ActionView::Respond { response } && response.status == 401
            &&& forall|i: int|
                0 <= i < t.len() ==> !(#[trigger] t[i] is SendUpstream) && !(t[i] is WriteAudit)
        }),
{
    law_trace_shapes(authority, upstream, request, world);
}

/// The credential under which a request passes the authorization gate in a
/// world, if it passes: it presents a credential, and the authority confirms
/// that credential and does not know it as disabled.
pub open spec fn passes(authority: Seq<char>, request: ProxyRequestView, world: World) -> Option<
    Credential,
> {
    match inquiry_of(authority, request.headers) {
        InquiryView::Rejected(_) => None,
        InquiryView::Lookup { url, credential } => match outcome_of(credential, world.validation) {
            Outcome::Rejected(_) => None,
            Outcome::Authorized(credential) => Some(credential),
        },
    }
}

/// A request with a valid, enabled credential reaches the upstream as it
/// came: with its method, its path and its query, its header lines and its
/// body. What the upstream answers reaches the client as it came: with its
/// status and its body, and with its header lines but for those called
/// `Connection`.
pub proof fn law_forward_is_faithful(
    authority: Seq<char>,
    upstream: Seq<char>,
    request: ProxyRequestView,
    world: World,
    response: ResponseView,
)
    requires
        passes(authority, request, world) is Some,
        target_of(upstream, request.path, request.query) is Some,
        world.upstream == Ok::<ResponseView, UpstreamFailureView>(response),
    ensures
        ({
            let t = trace(authority, upstream, request, world);
            &&& t.len() == 4
            &&& t[2] matches ActionView::SendUpstream { request: sent }
            &&& sent.method == request.method
            &&& Some(sent.url) == target_of(upstream, request.path, request.query)
            &&& sent.headers == outbound_headers(request.headers, request.peer_address)
            &&& sent.body == request.body
            &&& t[3] matches ActionView::Respond { response: given }
            &&& given.status == response.status
            &&& given.headers == without(response.headers, "connection"@)
            &&& given.body == response.body
        }),
{
    law_trace_shapes(authority, upstream, request, world);
}

/// A request that passed the authorization gate and did not reach the
/// upstream is answered with a status of the 5xx class.
pub proof fn law_unreachable_upstream_is_a_server_error(
    authority: Seq<char>,
    upstream: Seq<char>,
    request: ProxyRequestView,
    world: World,
)
    requires
        passes(authority, request, world) is Some,
        world.upstream is Err || target_of(upstream, request.path, request.query) is None,
    ensures
        ({
            let t = trace(authority, upstream, request, world);
            &&& t.len() >= 1
            &&& t.last() matches ActionView::Respond { response }
            &&& 500 <= response.status <= 599
        }),
{
    law_trace_shapes(authority, upstream, request, world);
}

/// The header lines that go to the upstream are those that came, with the
/// peer's address behind them as one more `x-forwarded-for` value where the
/// address is known.
pub proof fn law_forwarded_for_is_appended(headers: Seq<HeaderView>, peer: Option<Seq<char>>)
    ensures
        values_of(outbound_headers(headers, peer), "x-forwarded-for"@) == (match peer {
            Some(address) => values_of(headers, "x-forwarded-for"@).push(encode_utf8(address)),
            None => values_of(headers, "x-forwarded-for"@),
        }),
{
    let name = "x-forwarded-for"@;
    let named = |h: HeaderView| same_name(h.name, name);
    match peer {
        Some(address) => {
            let line = HeaderView { name, value: encode_utf8(address) };
            headers.lemma_filter_push(line, named);
            assert(named(line));
            assert(headers.push(line).filter(named) == headers.filter(named).push(line));
            assert(values_of(headers.push(line), name) =~= values_of(headers, name).push(
                encode_utf8(address),
            ));
        },
        None => {},
    }
}

/// For a request that brings no `x-forwarded-for` line of its own, the
/// `x-forwarded-for` of what goes to the upstream is the peer's address
/// where that is known, and is absent where it is not.
pub proof fn law_forwarded_for(headers: Seq<HeaderView>, peer: Option<Seq<char>>)
    requires
        !has_named(headers, "x-forwarded-for"@),
    ensures
        values_of(outbound_headers(headers, peer), "x-forwarded-for"@) == (match peer {
            Some(address) => seq![encode_utf8(address)],
            None => Seq::<Seq<u8>>::empty(),
        }),
        peer is None ==> !has_named(outbound_headers(headers, peer), "x-forwarded-for"@),
{
    lemma_no_name_no_values(headers, "x-forwarded-for"@);
    law_forwarded_for_is_appended(headers, peer);
    match peer {
        Some(address) => {
            assert(Seq::<Seq<u8>>::empty().push(encode_utf8(address)) =~= seq![
                encode_utf8(address),
            ]);
        },
        None => {},
    }
}

/// What comes of writing the audit record changes nothing: in two worlds
/// that differ in nothing but that, the pipeline asks for the same actions
/// and the client is given the same response.
pub proof fn law_audit_outcome_changes_nothing(
    authority: Seq<char>,
    upstream: Seq<char>,
    request: ProxyRequestView,
    world: World,
    other: World,
)
    requires
        world.validation == other.validation,
        world.upstream == other.upstream,
    ensures
        trace(authority, upstream, request, world) == trace(authority, upstream, request, other),
{
    law_trace_shapes(authority, upstream, request, world);
    law_trace_shapes(authority, upstream, request, other);
}

/// The audit records that are handed to the store in the course of a
/// trace, in their order.
pub open spec fn records_written(actions: Seq<ActionView>) -> Seq<NewRequestView>
    decreases actions.len(),
{
    if actions.len() == 0 {
        Seq::empty()
    } else {
        let before = records_written(actions.drop_last());
        match actions.last() {
            ActionView::WriteAudit { record } => before.push(record),
            _ => before,
        }
    }
}

/// One request and what the collaborators do for it.
pub struct Run {
    pub request: ProxyRequestView,
    pub world: World,
}

/// The audit records that are handed to the store for a number of
/// requests. Each request runs through the pipeline on its own: no step of
/// one reads or changes anything of another, so it does not matter how
/// their steps are interleaved.
pub open spec fn all_records_written(
    authority: Seq<char>,
    upstream: Seq<char>,
    runs: Seq<Run>,
) -> Seq<NewRequestView>
    decreases runs.len(),
{
    if runs.len() == 0 {
        Seq::empty()
    } else {
        all_records_written(authority, upstream, runs.drop_last()) + records_written(
            trace(authority, upstream, runs.last().request, runs.last().world),
        )
    }
}

/// For a request that passes the authorization gate, exactly one audit record
/// is handed to the store: the one with the method, the path and the
/// credential of the request. For a request that is turned away, none is.
pub proof fn law_one_record_per_passing_request(
    authority: Seq<char>,
    upstream: Seq<char>,
    request: ProxyRequestView,
    world: World,
)
    ensures
        records_written(trace(authority, upstream, request, world)) == (match passes(
            authority,
            request,
            world,
        ) {
            Some(credential) => seq![audit_record(request, credential)],
            None => Seq::<NewRequestView>::empty(),
        }),
{
    law_trace_shapes(authority, upstream, request, world);
    let t = trace(authority, upstream, request, world);
    reveal_with_fuel(records_written, 5);
    if t.len() == 1 {
        assert(t.drop_last() =~= Seq::<ActionView>::empty());
    } else if t.len() == 2 {
        assert(t.drop_last().drop_last() =~= Seq::<ActionView>::empty());
    } else if t.len() == 3 {
        let record = audit_record(request, passes(authority, request, world)->0);
        assert(t.drop_last().drop_last().drop_last() =~= Seq::<ActionView>::empty());
        assert(records_written(t) =~= seq![record]);
    } else {
        let record = audit_record(request, passes(authority, request, world)->0);
        assert(t.drop_last().drop_last().drop_last().drop_last() =~= Seq::<ActionView>::empty());
        assert(records_written(t) =~= seq![record]);
    }
}

/// For any number of requests that all pass the authorization gate, as many
/// audit records are handed to the store as there are requests, and the
/// record of each holds the method, the path and the credential of that
/// request.
pub proof fn law_one_record_for_each_of_many(
    authority: Seq<char>,
    upstream: Seq<char>,
    runs: Seq<Run>,
)
    requires
        forall|i: int|
            0 <= i < runs.len() ==> passes(authority, #[trigger] runs[i].request, runs[i].world)
                is Some,
    ensures
        all_records_written(authority, upstream, runs).len() == runs.len(),
        forall|i: int|
            0 <= i < runs.len() ==> #[trigger] all_records_written(authority, upstream, runs)[i]
                == audit_record(
                runs[i].request,
                passes(authority, runs[i].request, runs[i].world)->0,
            ),
    decreases runs.len(),
{
    if runs.len() > 0 {
        let front = runs.drop_last();
        let last = runs.last();
        assert forall|i: int| 0 <= i < front.len() implies passes(
            authority,
            #[trigger] front[i].request,
            front[i].world,
        ) is Some by {
            assert(front[i] == runs[i]);
        }
        law_one_record_for_each_of_many(authority, upstream, front);
        assert(passes(authority, runs[runs.len() - 1].request, runs[runs.len() - 1].world) is Some);
        law_one_record_per_passing_request(authority, upstream, last.request, last.world);
        let all = all_records_written(authority, upstream, runs);
        assert forall|i: int| 0 <= i < runs.len() implies #[trigger] all[i] == audit_record(
            runs[i].request,
            passes(authority, runs[i].request, runs[i].world)->0,
        ) by {
            if i < front.len() {
                assert(front[i] == runs[i]);
                assert(all[i] == all_records_written(authority, upstream, front)[i]);
            }
        }
    }
}

} // verus!
