//! The restore stage: its state, and its decisions on every event, query
//! and data unit it receives.
//!
//! The stage does not talk to its peers itself. Each handler returns what
//! to send where; where the outcome of a send matters to what follows, the
//! caller reports it to the next handler (`caps_announced`,
//! `segment_forwarded`).
use vstd::prelude::*;
use crate::flow::GstFlowReturn;
use crate::format::{Caps, CapsState, VideoGeometry};
use crate::tunnel::{ControlQuery, QueryRoute, UpstreamEvent, UpstreamRoute, query_route, route_sink_query, route_upstream_event, tunnels, wraps_event};
use crate::unit::{DataUnit, PendingUnit, Restored, restores};

verus! {

/// Mutable state of the restore stage.
#[derive(Clone, Debug, PartialEq, Eq)]
pub struct State<S> {
    /// Format last seen on the control input.
    pub sinkpad_caps: CapsState,
    /// Format last seen in consumed identity metadata, and announced on the
    /// primary output.
    pub meta_caps: CapsState,
    /// Boundary-range notification waiting for the next reconstructed unit.
    pub sinkpad_segment: Option<S>,
    /// Whether the auxiliary output has been requested.
    pub modified_src_pad_requested: bool,
}

/// A notification reaching the control input.
#[derive(Clone, Debug, PartialEq, Eq)]
pub enum SinkEvent<S> {
    /// A format change, with the geometry derived from the new format when
    /// it has one.
    Caps { caps: Caps, vinfo: Option<VideoGeometry> },
    /// A boundary-range notification.
    Segment(S),
    /// Any other notification.
    Other(S),
}

/// What to do after a notification reached the control input.
#[derive(Clone, Debug, PartialEq, Eq)]
pub enum SinkEventAction<S> {
    /// The notification was taken in; when `to_aux`, forward the same
    /// notification on the auxiliary output (its outcome is ignored).
    Handled { to_aux: bool },
    /// Handle the notification in the default way.
    Default(S),
}

/// A reconstructed unit ready to go out. When `to_aux`, the incoming
/// transformed unit is first pushed, unchanged, on the auxiliary output
/// (its outcome is ignored); then `restored` is pushed on the primary
/// output, and the outcome of that push is the outcome of the unit.
#[derive(Clone, Debug, PartialEq, Eq)]
pub struct Delivery<P> {
    pub restored: Restored<P>,
    pub to_aux: bool,
}

/// The next thing to do for a data unit.
#[derive(Clone, Debug, PartialEq, Eq)]
pub enum ChainStep<P, S> {
    /// Push this unit, unchanged, on the primary output; the outcome of the
    /// push is the outcome of the unit.
    PassThrough(DataUnit<P>),
    /// Announce the unit's format (`caps`) on the primary output, then
    /// report whether the peer accepted it to `caps_announced`.
    AnnounceCaps(PendingUnit<P>),
    /// Push `segment` on the primary output, then report whether that
    /// succeeded to `segment_forwarded`.
    ForwardSegment { segment: S, delivery: Delivery<P> },
    /// Deliver the reconstructed unit.
    Deliver(Delivery<P>),
    /// The unit fails with this outcome.
    Fail(GstFlowReturn),
}

/// Transitions of the host pipeline's lifecycle.
#[derive(Clone, Copy, Debug, PartialEq, Eq, Structural)]
pub enum StateChange {
    NullToReady,
    ReadyToPaused,
    PausedToPlaying,
    PlayingToPaused,
    PausedToReady,
    ReadyToNull,
    NullToNull,
    ReadyToReady,
    PausedToPaused,
    PlayingToPlaying,
}

/// Outcome of a request for an extra output port.
#[derive(Clone, Debug, PartialEq, Eq)]
pub enum PadRequest {
    /// Create the auxiliary output; push a stream-start announcement with
    /// this stream id on it before it is added and before any data.
    Create { stream_id: String },
    /// The auxiliary output was requested before: no port is created.
    AlreadyRequested,
    /// The template names no port this stage offers.
    UnknownTemplate,
}

/// Name of the template of the auxiliary output.
pub open spec fn aux_template_name() -> Seq<char> {
    "modified_src"@
}

/// Stream id announced on a newly created auxiliary output.
pub open spec fn aux_stream_id() -> Seq<char> {
    "originalbufferrestore"@
}

impl<S> State<S> {
    /// The idle state: both format slots empty, no pending boundary, no
    /// auxiliary output requested.
    pub open spec fn idle() -> State<S> {
        State {
            sinkpad_caps: CapsState::empty(),
            meta_caps: CapsState::empty(),
            sinkpad_segment: None,
            modified_src_pad_requested: false,
        }
    }

    /// The idle state.
    pub fn new() -> (r: State<S>)
        ensures
            r == State::<S>::idle(),
    {
        State {
            sinkpad_caps: CapsState { caps: None, vinfo: None },
            meta_caps: CapsState { caps: None, vinfo: None },
            sinkpad_segment: None,
            modified_src_pad_requested: false,
        }
    }

    /// The state after notification `ev` reached the control input.
    pub open spec fn after_sink_event(self, ev: SinkEvent<S>) -> State<S> {
        match ev {
            SinkEvent::Caps { caps, vinfo } => State {
                sinkpad_caps: CapsState { caps: Some(caps), vinfo },
                ..self
            },
            SinkEvent::Segment(s) => State { sinkpad_segment: Some(s), ..self },
            SinkEvent::Other(_) => self,
        }
    }

    /// What to do after notification `ev` reached the control input.
    pub open spec fn sink_event_action(self, ev: SinkEvent<S>) -> SinkEventAction<S> {
        match ev {
            SinkEvent::Other(e) => SinkEventAction::Default(e),
            _ => SinkEventAction::Handled { to_aux: self.modified_src_pad_requested },
        }
    }

    /// The state once the metadata-format slot holds `caps`.
    pub open spec fn with_meta_caps(self, caps: Caps, vinfo: Option<VideoGeometry>) -> State<S> {
        State { meta_caps: CapsState { caps: Some(caps), vinfo }, ..self }
    }

    /// The state once the pending boundary has been taken.
    pub open spec fn segment_taken(self) -> State<S> {
        State { sinkpad_segment: None, ..self }
    }

    /// Whether handling `unit` announces a new format on the primary output.
    pub open spec fn announces<P>(self, unit: DataUnit<P>) -> bool {
        unit.identity matches Some(id) && !self.meta_caps.holds(id.caps)
    }

    /// Whether `unit` is reconstructed, the format announcement (if one is
    /// made) being answered `accepted`.
    pub open spec fn reconstructs<P>(self, unit: DataUnit<P>, accepted: bool) -> bool {
        unit.identity is Some && (!self.announces(unit) || accepted)
    }

    /// The state after `unit` has been handled, the format announcement (if
    /// one is made) being answered `accepted`.
    pub open spec fn after_unit<P>(self, unit: DataUnit<P>, accepted: bool) -> State<S> {
        if !self.reconstructs(unit, accepted) {
            self
        } else if self.announces(unit) {
            self.with_meta_caps(unit.identity->0.caps, unit.identity->0.vinfo).segment_taken()
        } else {
            self.segment_taken()
        }
    }

    /// The boundary notification forwarded on the primary output while
    /// `unit` is handled.
    pub open spec fn forwarded_segment<P>(self, unit: DataUnit<P>, accepted: bool) -> Option<S> {
        if self.reconstructs(unit, accepted) {
            self.sinkpad_segment
        } else {
            None
        }
    }

    /// Whether, from state `self`, `post` and `r` are the state and step
    /// that follow once pending unit `p` is under a format already
    /// announced.
    pub open spec fn proceeds<P>(self, p: PendingUnit<P>, post: State<S>, r: ChainStep<P, S>) -> bool {
        &&& post == self.segment_taken()
        &&& match self.sinkpad_segment {
            Some(s) => r matches ChainStep::ForwardSegment { segment, delivery } && segment == s
                && delivery.to_aux == self.modified_src_pad_requested && restores(
                delivery.restored,
                p,
                self.meta_caps.vinfo,
                self.sinkpad_caps.vinfo,
            ),
            None => r matches ChainStep::Deliver(delivery) && delivery.to_aux
                == self.modified_src_pad_requested && restores(
                delivery.restored,
                p,
                self.meta_caps.vinfo,
                self.sinkpad_caps.vinfo,
            ),
        }
    }

    /// Whether `r` answers a request for a port from template `template`.
    pub open spec fn answers_request(self, template: Seq<char>, r: PadRequest) -> bool {
        if template != aux_template_name() {
            r is UnknownTemplate
        } else if self.modified_src_pad_requested {
            r is AlreadyRequested
        } else {
            r matches PadRequest::Create { stream_id } && stream_id@ == aux_stream_id()
        }
    }

    /// The state after a request for a port from template `template`.
    pub open spec fn after_request(self, template: Seq<char>) -> State<S> {
        if template == aux_template_name() {
            State { modified_src_pad_requested: true, ..self }
        } else {
            self
        }
    }
}

/// The restore stage.
#[derive(Clone, Debug, PartialEq, Eq)]
pub struct OriginalBufferRestore<S> {
    pub state: State<S>,
}

impl<S> OriginalBufferRestore<S> {
    /// A stage in the idle state.
    pub fn new() -> (r: OriginalBufferRestore<S>)
        ensures
            r.state == State::<S>::idle(),
    {
        OriginalBufferRestore { state: State::new() }
    }

    /// Takes in a notification reaching the control input. A format change
    /// fills the control-input slot; a boundary-range notification becomes
    /// the pending boundary, replacing any earlier one; both are to be
    /// forwarded on the auxiliary output if it exists. Anything else gets
    /// default handling.
    pub fn sink_event(&mut self, ev: SinkEvent<S>) -> (r: SinkEventAction<S>)
        ensures
            final(self).state == old(self).state.after_sink_event(ev),
            r == old(self).state.sink_event_action(ev),
    {
        let to_aux = self.state.modified_src_pad_requested;
        match ev {
            SinkEvent::Caps { caps, vinfo } => {
                self.state.sinkpad_caps = CapsState { caps: Some(caps), vinfo };
                SinkEventAction::Handled { to_aux }
            },
            SinkEvent::Segment(s) => {
                self.state.sinkpad_segment = Some(s);
                SinkEventAction::Handled { to_aux }
            },
            SinkEvent::Other(e) => SinkEventAction::Default(e),
        }
    }

    /// Routes an event travelling upstream from the primary output: a
    /// renegotiation request, or an event envelope, is wrapped in the event
    /// envelope and sent upstream of the control input; anything else gets
    /// default handling.
    pub fn src_event<E>(&self, ev: UpstreamEvent<E>) -> (r: UpstreamRoute<E>)
        ensures
            tunnels(ev) ==> (r matches UpstreamRoute::Tunnel(env) && wraps_event(env, ev.event)),
            !tunnels(ev) ==> r == UpstreamRoute::Default(ev.event),
    {
        route_upstream_event(ev)
    }

    /// Routes a query reaching the control input: a tunnel request goes to
    /// the primary output's peer, anything else gets default handling.
    pub fn sink_query<Q>(&self, q: ControlQuery<Q>) -> (r: QueryRoute<Q>)
        ensures
            r == query_route(q),
    {
        route_sink_query(q)
    }

    /// Handles a request for a port from template `template`. The auxiliary
    /// output is created on the first request only.
    pub fn request_new_pad(&mut self, template: &String) -> (r: PadRequest)
        ensures
            final(self).state == old(self).state.after_request(template@),
            old(self).state.answers_request(template@, r),
    {
        let name = "modified_src".to_owned();
        if *template != name {
            return PadRequest::UnknownTemplate;
        }
        if self.state.modified_src_pad_requested {
            return PadRequest::AlreadyRequested;
        }
        self.state.modified_src_pad_requested = true;
        PadRequest::Create { stream_id: "originalbufferrestore".to_owned() }
    }

    /// Records that the auxiliary output granted by `request_new_pad`
    /// could not be created after all, so that a later request may create
    /// it.
    pub fn pad_creation_failed(&mut self)
        ensures
            final(self).state == (State {
                modified_src_pad_requested: false,
                ..old(self).state
            }),
    {
        self.state.modified_src_pad_requested = false;
    }

    /// Applies a lifecycle transition: going from paused to ready empties
    /// all state; no other transition changes it.
    pub fn change_state(&mut self, transition: StateChange)
        ensures
            transition == StateChange::PausedToReady ==> final(self).state == State::<S>::idle(),
            transition != StateChange::PausedToReady ==> final(self).state == old(self).state,
    {
        if transition == StateChange::PausedToReady {
            self.state = State::new();
        }
    }

    /// Reconstructs pending unit `p`, whose format has been announced, and
    /// takes the pending boundary along.
    fn proceed<P>(&mut self, p: PendingUnit<P>) -> (r: ChainStep<P, S>)
        ensures
            old(self).state.proceeds(p, final(self).state, r),
    {
        let to_aux = self.state.modified_src_pad_requested;
        let restored = p.restore(&self.state.meta_caps.vinfo, &self.state.sinkpad_caps.vinfo);
        let delivery = Delivery { restored, to_aux };
        match self.state.sinkpad_segment.take() {
            Some(segment) => ChainStep::ForwardSegment { segment, delivery },
            None => ChainStep::Deliver(delivery),
        }
    }

    /// Takes in a transformed data unit. A unit without identity metadata
    /// passes through unchanged. A unit whose format differs from the one
    /// last announced first has its format announced. Otherwise the
    /// original unit is reconstructed, preceded by the pending boundary if
    /// there is one.
    pub fn sink_chain<P>(&mut self, unit: DataUnit<P>) -> (r: ChainStep<P, S>)
        ensures
            unit.identity is None ==> r == ChainStep::<P, S>::PassThrough(unit) && final(self).state
                == old(self).state,
            old(self).state.announces(unit) ==> r == ChainStep::<P, S>::AnnounceCaps(unit.pending())
                && final(self).state == old(self).state,
            unit.identity is Some && !old(self).state.announces(unit) ==> old(self).state.proceeds(
                unit.pending(),
                final(self).state,
                r,
            ),
            final(self).state == old(self).state.after_unit(unit, false),
    {
        match unit.into_pending() {
            Err(plain) => ChainStep::PassThrough(plain),
            Ok(p) => {
                if self.state.meta_caps.holds_caps(&p.caps) {
                    self.proceed(p)
                } else {
                    ChainStep::AnnounceCaps(p)
                }
            },
        }
    }

    /// Continues with pending unit `p` once the peer of the primary output
    /// has answered the announcement of its format: a refusal fails the
    /// unit as not negotiated; on acceptance the metadata-format slot takes
    /// the new format and the unit is reconstructed.
    pub fn caps_announced<P>(&mut self, p: PendingUnit<P>, accepted: bool) -> (r: ChainStep<P, S>)
        ensures
            !accepted ==> r == ChainStep::<P, S>::Fail(GstFlowReturn::NotNegotiated)
                && final(self).state == old(self).state,
            accepted ==> old(self).state.with_meta_caps(p.caps, p.vinfo).proceeds(
                p,
                final(self).state,
                r,
            ),
    {
        if !accepted {
            return ChainStep::Fail(GstFlowReturn::NotNegotiated);
        }
        self.state.meta_caps = CapsState { caps: Some(p.caps.duplicate()), vinfo: p.vinfo };
        self.proceed(p)
    }
}

/// Continues with `delivery` once the pending boundary has been pushed on
/// the primary output: a failed push fails the unit with an error.
pub fn segment_forwarded<P, S>(delivery: Delivery<P>, forwarded: bool) -> (r: ChainStep<P, S>)
    ensures
        !forwarded ==> r == ChainStep::<P, S>::Fail(GstFlowReturn::Error),
        forwarded ==> r == ChainStep::<P, S>::Deliver(delivery),
{
    if forwarded {
        ChainStep::Deliver(delivery)
    } else {
        ChainStep::Fail(GstFlowReturn::Error)
    }
}

/// The number of format announcements made while handling every unit of
/// `units` in turn, each announcement being accepted.
pub open spec fn announcements<S, P>(st: State<S>, units: Seq<DataUnit<P>>) -> nat
    decreases units.len(),
{
    if units.len() == 0 {
        0
    } else {
        (if st.announces(units[0]) {
            1nat
        } else {
            0nat
        }) + announcements(st.after_unit(units[0], true), units.drop_first())
    }
}

/// Whether `unit` carries identity metadata of format `f`.
pub open spec fn of_format<P>(unit: DataUnit<P>, f: Caps) -> bool {
    unit.identity matches Some(id) && id.caps.desc@ == f.desc@
}

/// Whether every unit of `units` carries identity metadata of format `f`.
pub open spec fn all_of_format<P>(units: Seq<DataUnit<P>>, f: Caps) -> bool {
    forall|i: int| 0 <= i < units.len() ==> of_format(#[trigger] units[i], f)
}

/// A unit without identity metadata changes no state, announces no format
/// and takes no boundary along.
pub proof fn lemma_no_identity_is_noop<S, P>(st: State<S>, unit: DataUnit<P>, accepted: bool)
    requires
        unit.identity is None,
    ensures
        !st.announces(unit),
        st.after_unit(unit, accepted) == st,
        st.forwarded_segment(unit, accepted) is None,
{
}

/// Once the metadata-format slot holds `f`, units of format `f` announce
/// nothing more.
pub proof fn lemma_known_format_not_announced<S, P>(st: State<S>, units: Seq<DataUnit<P>>, f: Caps)
    requires
        st.meta_caps.holds(f),
        all_of_format(units, f),
    ensures
        announcements(st, units) == 0,
    decreases units.len(),
{
    if units.len() > 0 {
        let next = st.after_unit(units[0], true);
        assert(next.meta_caps == st.meta_caps);
        assert(all_of_format(units.drop_first(), f)) by {
            assert forall|i: int| 0 <= i < units.drop_first().len() implies of_format(
                #[trigger] units.drop_first()[i],
                f,
            ) by {
                assert(units.drop_first()[i] == units[i + 1]);
            }
        }
        lemma_known_format_not_announced(next, units.drop_first(), f);
    }
}

/// A run of one or more units that all carry format `f`, not yet
/// announced, announces `f` exactly once, however long the run.
pub proof fn lemma_format_announced_once<S, P>(st: State<S>, units: Seq<DataUnit<P>>, f: Caps)
    requires
        units.len() > 0,
        all_of_format(units, f),
        !st.meta_caps.holds(f),
    ensures
        announcements(st, units) == 1,
{
    assert(of_format(units[0], f));
    let next = st.after_unit(units[0], true);
    assert(st.announces(units[0]));
    assert(next.meta_caps.holds(f));
    assert(all_of_format(units.drop_first(), f)) by {
        assert forall|i: int| 0 <= i < units.drop_first().len() implies of_format(
            #[trigger] units.drop_first()[i],
            f,
        ) by {
            assert(units.drop_first()[i] == units[i + 1]);
        }
    }
    lemma_known_format_not_announced(next, units.drop_first(), f);
}

/// A boundary notification is not forwarded on the primary output when it
/// arrives; it goes out with the next reconstructed unit, exactly once,
/// and not with the unit after; a unit that is not reconstructed leaves it
/// pending.
pub proof fn lemma_boundary_forwarded_once<S, P>(
    st: State<S>,
    segment: S,
    first: DataUnit<P>,
    first_accepted: bool,
    second: DataUnit<P>,
    second_accepted: bool,
)
    ensures
        st.sink_event_action(SinkEvent::Segment(segment)) is Handled,
        ({
            let held = st.after_sink_event(SinkEvent::Segment(segment));
            let after = held.after_unit(first, first_accepted);
            if held.reconstructs(first, first_accepted) {
                &&& held.forwarded_segment(first, first_accepted) == Some(segment)
                &&& after.forwarded_segment(second, second_accepted) is None
            } else {
                &&& held.forwarded_segment(first, first_accepted) is None
                &&& after.sinkpad_segment == Some(segment)
            }
        }),
{
}

/// The first request for the auxiliary output creates it, with a stream
/// start to announce on it; a second request creates nothing.
pub proof fn lemma_aux_port_created_once<S>(st: State<S>, first: PadRequest, second: PadRequest)
    requires
        !st.modified_src_pad_requested,
        st.answers_request(aux_template_name(), first),
        st.after_request(aux_template_name()).answers_request(aux_template_name(), second),
    ensures
        first matches PadRequest::Create { stream_id } && stream_id@ == aux_stream_id(),
        second is AlreadyRequested,
        st.after_request(aux_template_name()).after_request(aux_template_name()).modified_src_pad_requested,
{
}

/// Events and units never change whether the auxiliary output has been
/// requested: only a port request sets it, so a unit reaches the auxiliary
/// output only after the port was created with its stream start.
pub proof fn lemma_aux_flag_set_only_by_request<S, P>(
    st: State<S>,
    ev: SinkEvent<S>,
    unit: DataUnit<P>,
    accepted: bool,
)
    ensures
        st.after_sink_event(ev).modified_src_pad_requested == st.modified_src_pad_requested,
        st.after_unit(unit, accepted).modified_src_pad_requested == st.modified_src_pad_requested,
{
}

} // verus!
