//! Envelopes that carry control messages across an opaque transform chain,
//! between the restore stage and its save-side counterpart.
use vstd::prelude::*;

verus! {

/// Name of the envelope that carries an upstream-directed event.
pub open spec fn event_tunnel_name() -> Seq<char> {
    "forward-upstream-event"@
}

/// Name of the envelope that carries a query.
pub open spec fn query_tunnel_name() -> Seq<char> {
    "forward-query"@
}

/// The name of the event envelope, as a string.
pub fn event_tunnel_label() -> (r: String)
    ensures
        r@ == event_tunnel_name(),
{
    "forward-upstream-event".to_owned()
}

/// The name of the query envelope, as a string.
pub fn query_tunnel_label() -> (r: String)
    ensures
        r@ == query_tunnel_name(),
{
    "forward-query".to_owned()
}

/// An envelope holding one event in its `event` field.
#[derive(Clone, Debug, PartialEq, Eq)]
pub struct EventEnvelope<E> {
    pub name: String,
    pub event: E,
}

/// An event travelling upstream from the primary output: whether it is a
/// renegotiation request, and the name of its structure, if any.
#[derive(Clone, Debug, PartialEq, Eq)]
pub struct UpstreamEvent<E> {
    pub reconfigure: bool,
    pub name: Option<String>,
    pub event: E,
}

/// Where an upstream event from the primary output goes.
#[derive(Clone, Debug, PartialEq, Eq)]
pub enum UpstreamRoute<E> {
    /// Send the envelope upstream of the control input.
    Tunnel(EventEnvelope<E>),
    /// Handle the event in the default way.
    Default(E),
}

/// Whether the upstream event `ev` is sent through the tunnel: a
/// renegotiation request, or an envelope of the tunnel itself.
pub open spec fn tunnels<E>(ev: UpstreamEvent<E>) -> bool {
    ev.reconfigure || (ev.name matches Some(n) && n@ == event_tunnel_name())
}

/// Whether `env` is the event envelope holding `event`.
pub open spec fn wraps_event<E>(env: EventEnvelope<E>, event: E) -> bool {
    env.name@ == event_tunnel_name() && env.event == event
}

/// What the save side finds in the event envelope `env`.
pub open spec fn unwrapped_event<E>(env: EventEnvelope<E>) -> Option<E> {
    if env.name@ == event_tunnel_name() {
        Some(env.event)
    } else {
        None
    }
}

/// Wraps `event` in the event envelope.
pub fn wrap_upstream_event<E>(event: E) -> (r: EventEnvelope<E>)
    ensures
        wraps_event(r, event),
{
    EventEnvelope { name: event_tunnel_label(), event }
}

/// Save side: the event held in `env`, if `env` is the event envelope.
pub fn unwrap_upstream_event<E>(env: EventEnvelope<E>) -> (r: Option<E>)
    ensures
        r == unwrapped_event(env),
{
    let label = event_tunnel_label();
    if env.name == label {
        Some(env.event)
    } else {
        None
    }
}

/// Routes an event travelling upstream from the primary output: tunnelled
/// events are wrapped, all others get default handling.
pub fn route_upstream_event<E>(ev: UpstreamEvent<E>) -> (r: UpstreamRoute<E>)
    ensures
        tunnels(ev) ==> (r matches UpstreamRoute::Tunnel(env) && wraps_event(env, ev.event)),
        !tunnels(ev) ==> r == UpstreamRoute::Default(ev.event),
{
    let named = match &ev.name {
        Some(n) => {
            let label = event_tunnel_label();
            *n == label
        },
        None => false,
    };
    if ev.reconfigure || named {
        UpstreamRoute::Tunnel(wrap_upstream_event(ev.event))
    } else {
        UpstreamRoute::Default(ev.event)
    }
}

/// A custom query structure: its name, its embedded `query` field and its
/// `result` field, each if present.
#[derive(Clone, Debug, PartialEq, Eq)]
pub struct QueryEnvelope<Q> {
    pub name: String,
    pub query: Option<Q>,
    pub result: Option<bool>,
}

/// A query reaching the control input.
#[derive(Clone, Debug, PartialEq, Eq)]
pub enum ControlQuery<Q> {
    Custom(QueryEnvelope<Q>),
    Other(Q),
}

/// What to do with a query reaching the control input.
#[derive(Clone, Debug, PartialEq, Eq)]
pub enum QueryRoute<Q> {
    /// Issue the embedded query to the primary output's peer, then answer
    /// with `answer_query`.
    AskPeer(Q),
    /// Handle the query in the default way.
    Default(ControlQuery<Q>),
}

/// The route of query `q`.
pub open spec fn query_route<Q>(q: ControlQuery<Q>) -> QueryRoute<Q> {
    match q {
        ControlQuery::Custom(env) => {
            if env.name@ == query_tunnel_name() && env.query is Some {
                QueryRoute::AskPeer(env.query->0)
            } else {
                QueryRoute::Default(q)
            }
        },
        ControlQuery::Other(_) => QueryRoute::Default(q),
    }
}

/// Whether `env` is a tunnel request for `q`, as the save side sends it.
pub open spec fn requests<Q>(env: QueryEnvelope<Q>, q: Q) -> bool {
    env.name@ == query_tunnel_name() && env.query == Some(q) && env.result is None
}

/// Whether `env` is the tunnel's answer holding `q` and `result`.
pub open spec fn answers<Q>(env: QueryEnvelope<Q>, q: Q, result: bool) -> bool {
    env.name@ == query_tunnel_name() && env.query == Some(q) && env.result == Some(result)
}

/// What the save side reads from an answered envelope: the answered
/// query and the peer's result.
pub open spec fn reply_of<Q>(env: QueryEnvelope<Q>) -> Option<(Q, bool)> {
    if env.name@ == query_tunnel_name() && env.query is Some && env.result is Some {
        Some((env.query->0, env.result->0))
    } else {
        None
    }
}

/// Routes a query reaching the control input: a tunnel request goes to the
/// primary output's peer, anything else gets default handling.
pub fn route_sink_query<Q>(q: ControlQuery<Q>) -> (r: QueryRoute<Q>)
    ensures
        r == query_route(q),
{
    match q {
        ControlQuery::Custom(env) => {
            let label = query_tunnel_label();
            if env.name == label {
                match env.query {
                    Some(inner) => QueryRoute::AskPeer(inner),
                    None => QueryRoute::Default(
                        ControlQuery::Custom(
                            QueryEnvelope { name: env.name, query: None, result: env.result },
                        ),
                    ),
                }
            } else {
                QueryRoute::Default(ControlQuery::Custom(env))
            }
        },
        ControlQuery::Other(o) => QueryRoute::Default(ControlQuery::Other(o)),
    }
}

/// The envelope answering a tunnel request: the query as the peer left it,
/// and whether the peer answered it.
pub fn answer_query<Q>(answered: Q, result: bool) -> (r: QueryEnvelope<Q>)
    ensures
        answers(r, answered, result),
{
    QueryEnvelope { name: query_tunnel_label(), query: Some(answered), result: Some(result) }
}

/// Save side: the tunnel request for `q`.
pub fn tunnel_query<Q>(q: Q) -> (r: QueryEnvelope<Q>)
    ensures
        requests(r, q),
{
    QueryEnvelope { name: query_tunnel_label(), query: Some(q), result: None }
}

/// Save side: the answered query and the peer's result, if `env` is an
/// answered tunnel envelope.
pub fn tunnel_reply<Q>(env: QueryEnvelope<Q>) -> (r: Option<(Q, bool)>)
    ensures
        r == reply_of(env),
{
    let label = query_tunnel_label();
    if env.name == label {
        match (env.query, env.result) {
            (Some(q), Some(res)) => Some((q, res)),
            _ => None,
        }
    } else {
        None
    }
}

/// A query sent into the tunnel reaches the primary output's peer as it
/// was sent, and the save side reads back exactly what the peer made of
/// it and the peer's result.
pub proof fn lemma_query_tunnel_round_trip<Q>(
    q: Q,
    request: QueryEnvelope<Q>,
    answered: Q,
    result: bool,
    reply: QueryEnvelope<Q>,
)
    requires
        requests(request, q),
        answers(reply, answered, result),
    ensures
        query_route(ControlQuery::Custom(request)) == QueryRoute::AskPeer(q),
        reply_of(reply) == Some((answered, result)),
{
}

/// An event wrapped for the tunnel is found unchanged by the save side.
pub proof fn lemma_event_tunnel_round_trip<E>(event: E, env: EventEnvelope<E>)
    requires
        wraps_event(env, event),
    ensures
        unwrapped_event(env) == Some(event),
{
}

} // verus!
