//! What holds of the bridge over whole runs, proved from the steps.

use crate::bridge::bound_step;
use crate::bridge::command_settles;
use crate::bridge::created_step;
use crate::bridge::layout_step;
use crate::bridge::output_step;
use crate::bridge::registry_step;
use crate::bridge::settles;
use crate::bridge::BridgeView;
use crate::error::ErrorView;
use crate::error::Inconsistency;
use crate::layout::GeneratedLayoutView;
use crate::layout::Layout;
use crate::negotiation::demand_reply_spec;
use crate::negotiation::push_request;
use crate::negotiation::PlanView;
use crate::negotiation::ReactionView;
use crate::output::SessionView;
use crate::protocol::LayoutEventView;
use crate::protocol::OutputEventView;
use crate::protocol::RegistryEventView;
use crate::protocol::RequestView;
use crate::registry::handle_owner;
use crate::registry::has_handle;
use crate::registry::has_session;
use crate::registry::holds_session;
use crate::registry::outputs_wf;
use crate::registry::session_owner;
use vstd::prelude::*;

verus! {

/// Anything that is fed to the bridge in a run.
pub enum Event {
    /// An event of the registry.
    Registry(RegistryEventView),
    /// The report of a bound output.
    OutputBound { reg_name: u32, handle: u32, version: u32 },
    /// An event of the output with this handle.
    Output { handle: u32, event: OutputEventView },
    /// The report of a session opened for the output with this handle.
    LayoutCreated { handle: u32, layout: u32 },
    /// An event of the session with this handle.
    Layout { layout: u32, event: LayoutEventView },
}

/// The state after an event; an event that does not fit leaves the state as
/// it was.
pub open spec fn step(state: BridgeView, event: Event, namespace: Seq<char>) -> BridgeView {
    match event {
        Event::Registry(event) => match registry_step(state, event) {
            Ok((next, _)) => next,
            Err(_) => state,
        },
        Event::OutputBound { reg_name, handle, version } => match bound_step(
            state,
            reg_name,
            handle,
            version,
        ) {
            Ok(next) => next,
            Err(_) => state,
        },
        Event::Output { handle, event } => match output_step(state, handle, event, namespace) {
            Ok((next, _)) => next,
            Err(_) => state,
        },
        Event::LayoutCreated { handle, layout } => match created_step(state, handle, layout) {
            Ok(next) => next,
            Err(_) => state,
        },
        Event::Layout { layout, event } => match layout_step(state, layout, event, namespace) {
            Ok((next, _)) => next,
            Err(_) => state,
        },
    }
}

/// The state after a run of events from the start.
pub open spec fn state_after(events: Seq<Event>, namespace: Seq<char>) -> BridgeView
    decreases events.len(),
{
    if events.len() == 0 {
        BridgeView::initial()
    } else {
        step(state_after(events.drop_last(), namespace), events.last(), namespace)
    }
}

/// The registry names of the outputs that a run added and did not remove
/// afterwards.
pub open spec fn live_names(events: Seq<Event>) -> Set<u32>
    decreases events.len(),
{
    if events.len() == 0 {
        Set::empty()
    } else {
        let before = live_names(events.drop_last());
        match events.last() {
            Event::OutputBound { reg_name, .. } => before.insert(reg_name),
            Event::Registry(RegistryEventView::GlobalRemove(reg_name)) => before.remove(reg_name),
            _ => before,
        }
    }
}

/// Whether every output that a run binds under a new registry name comes
/// with a handle that no live output has: the ids of live protocol objects
/// differ.
pub open spec fn fresh_handles(events: Seq<Event>, namespace: Seq<char>) -> bool
    decreases events.len(),
{
    if events.len() == 0 {
        true
    } else {
        &&& fresh_handles(events.drop_last(), namespace)
        &&& match events.last() {
            Event::OutputBound { reg_name, handle, .. } => {
                let before = state_after(events.drop_last(), namespace).outputs;
                before.dom().contains(reg_name) || !has_handle(before, handle)
            },
            _ => true,
        }
    }
}

/// Every run ends with a valid set of outputs.
pub proof fn runs_keep_outputs_valid(events: Seq<Event>, namespace: Seq<char>)
    ensures
        outputs_wf(state_after(events, namespace).outputs),
    decreases events.len(),
{
    if events.len() > 0 {
        let before = state_after(events.drop_last(), namespace);
        runs_keep_outputs_valid(events.drop_last(), namespace);
        match events.last() {
            Event::Registry(event) => registry_step_keeps_outputs_valid(before, event),
            Event::OutputBound { reg_name, handle, version } => {
                bound_step_keeps_outputs_valid(before, reg_name, handle, version)
            },
            Event::Output { handle, event } => {
                output_step_keeps_outputs_valid(before, handle, event, namespace)
            },
            Event::LayoutCreated { handle, layout } => {
                created_step_keeps_outputs_valid(before, handle, layout)
            },
            Event::Layout { layout, event } => {
                layout_step_keeps_outputs_valid(before, layout, event, namespace)
            },
        }
    }
}

/// After any run the live outputs are those whose registry names were added
/// and not removed since, whatever else happened in between, and the
/// removal of any other name is rejected.
pub proof fn live_outputs_follow_registry(events: Seq<Event>, namespace: Seq<char>)
    requires
        fresh_handles(events, namespace),
    ensures
        state_after(events, namespace).outputs.dom() == live_names(events),
        forall|reg_name: u32|
            !live_names(events).contains(reg_name) <==> #[trigger] registry_step(
                state_after(events, namespace),
                RegistryEventView::GlobalRemove(reg_name),
            ) == Err::<(BridgeView, Seq<RequestView>), Inconsistency>(Inconsistency::UnknownName),
    decreases events.len(),
{
    if events.len() == 0 {
        assert(state_after(events, namespace).outputs.dom() =~= live_names(events));
    } else {
        let before = state_after(events.drop_last(), namespace);
        live_outputs_follow_registry(events.drop_last(), namespace);
        runs_keep_outputs_valid(events.drop_last(), namespace);
        match events.last() {
            Event::Output { handle, event } => {
                output_step_keeps_outputs_valid(before, handle, event, namespace)
            },
            Event::LayoutCreated { handle, layout } => {
                created_step_keeps_outputs_valid(before, handle, layout)
            },
            _ => {},
        }
        assert(state_after(events, namespace).outputs.dom() =~= live_names(events));
    }
}

/// The announcement of a live output's name asks for a session exactly when
/// the output has none, and then for one session of that output under the
/// namespace.
pub proof fn session_wanted_iff_none(
    state: BridgeView,
    handle: u32,
    name: Seq<char>,
    namespace: Seq<char>,
)
    requires
        has_handle(state.outputs, handle),
    ensures
        output_step(state, handle, OutputEventView::Name(name), namespace) matches Ok(
            (_, requests),
        ) && if state.outputs[handle_owner(state.outputs, handle)].session is None {
            requests == seq![RequestView::GetLayout { output: handle, namespace }]
        } else {
            requests == Seq::<RequestView>::empty()
        },
{
}

/// For an output that has a session, the announcement of a name changes
/// nothing and asks for nothing.
pub proof fn naming_twice_is_idle(
    state: BridgeView,
    handle: u32,
    name: Seq<char>,
    namespace: Seq<char>,
)
    requires
        has_handle(state.outputs, handle),
        state.outputs[handle_owner(state.outputs, handle)].session is Some,
    ensures
        output_step(state, handle, OutputEventView::Name(name), namespace) == Ok::<
            (BridgeView, Seq<RequestView>),
            Inconsistency,
        >((state, Seq::empty())),
{
}

/// A run starts with a valid set of outputs.
pub proof fn initial_outputs_are_valid()
    ensures
        outputs_wf(BridgeView::initial().outputs),
{
}

/// An event of the registry keeps the outputs valid.
pub proof fn registry_step_keeps_outputs_valid(state: BridgeView, event: RegistryEventView)
    requires
        outputs_wf(state.outputs),
    ensures
        registry_step(state, event) matches Ok((next, _)) ==> outputs_wf(next.outputs),
{
}

/// The report of a bound output keeps the outputs valid.
pub proof fn bound_step_keeps_outputs_valid(state: BridgeView, reg_name: u32, handle: u32, version: u32)
    requires
        outputs_wf(state.outputs),
    ensures
        bound_step(state, reg_name, handle, version) matches Ok(next) ==> outputs_wf(next.outputs),
{
}

/// An event of an output keeps the outputs valid, and keeps the set of live outputs and every
/// session.
pub proof fn output_step_keeps_outputs_valid(
    state: BridgeView,
    handle: u32,
    event: OutputEventView,
    namespace: Seq<char>,
)
    requires
        outputs_wf(state.outputs),
    ensures
        output_step(state, handle, event, namespace) matches Ok((next, _)) ==> {
            &&& outputs_wf(next.outputs)
            &&& next.outputs.dom() == state.outputs.dom()
            &&& forall|n: u32| #[trigger]
                next.outputs.dom().contains(n) ==> next.outputs[n].session
                    == state.outputs[n].session && next.outputs[n].handle
                    == state.outputs[n].handle
        },
{
    if let Ok((next, _)) = output_step(state, handle, event, namespace) {
        assert(next.outputs.dom() =~= state.outputs.dom());
        assert forall|a: u32, b: u32|
            next.outputs.dom().contains(a) && next.outputs.dom().contains(b)
                && next.outputs[a].handle == next.outputs[b].handle implies a == b by {
            assert(state.outputs.dom().contains(a) && state.outputs.dom().contains(b));
        }
        assert forall|a: u32, b: u32, l: u32|
            next.outputs.dom().contains(a) && next.outputs.dom().contains(b) && holds_session(
                next.outputs[a],
                l,
            ) && holds_session(next.outputs[b], l) implies a == b by {
            assert(holds_session(state.outputs[a], l) && holds_session(state.outputs[b], l));
        }
    }
}

/// The report of an opened session keeps the outputs valid and keeps the set of live
/// outputs, and changes the session of the one output only.
pub proof fn created_step_keeps_outputs_valid(state: BridgeView, handle: u32, layout: u32)
    requires
        outputs_wf(state.outputs),
    ensures
        created_step(state, handle, layout) matches Ok(next) ==> {
            &&& outputs_wf(next.outputs)
            &&& next.outputs.dom() == state.outputs.dom()
            &&& forall|n: u32| #[trigger]
                next.outputs.dom().contains(n) && n != handle_owner(state.outputs, handle)
                    ==> next.outputs[n] == state.outputs[n]
        },
{
    if let Ok(next) = created_step(state, handle, layout) {
        let owner = handle_owner(state.outputs, handle);
        assert(next.outputs.dom() =~= state.outputs.dom());
        assert forall|a: u32, b: u32|
            next.outputs.dom().contains(a) && next.outputs.dom().contains(b)
                && next.outputs[a].handle == next.outputs[b].handle implies a == b by {
            assert(state.outputs.dom().contains(a) && state.outputs.dom().contains(b));
        }
        assert forall|a: u32, b: u32, l: u32|
            next.outputs.dom().contains(a) && next.outputs.dom().contains(b) && holds_session(
                next.outputs[a],
                l,
            ) && holds_session(next.outputs[b], l) implies a == b by {
            assert(state.outputs.dom().contains(a) && state.outputs.dom().contains(b));
            if a != owner && b != owner {
                assert(holds_session(state.outputs[a], l) && holds_session(state.outputs[b], l));
            } else if a != owner {
                assert(holds_session(state.outputs[a], layout));
            } else if b != owner {
                assert(holds_session(state.outputs[b], layout));
            }
        }
    }
}

/// An event of a session leaves the outputs as they were.
pub proof fn layout_step_keeps_outputs_valid(
    state: BridgeView,
    layout: u32,
    event: LayoutEventView,
    namespace: Seq<char>,
)
    requires
        outputs_wf(state.outputs),
    ensures
        layout_step(state, layout, event, namespace) matches Ok((next, _)) ==> outputs_wf(next.outputs)
            && next.outputs == state.outputs,
{
}

/// An output gets one session: once its name is announced and the session
/// that was asked for is reported, the output holds that session under the
/// announced name, a further announcement is idle, and a further session is
/// rejected.
pub proof fn one_session_per_output(
    state: BridgeView,
    handle: u32,
    name: Seq<char>,
    layout: u32,
    namespace: Seq<char>,
)
    requires
        outputs_wf(state.outputs),
        has_handle(state.outputs, handle),
        state.outputs[handle_owner(state.outputs, handle)].session is None,
        !has_session(state.outputs, layout),
    ensures
        ({
            let owner = handle_owner(state.outputs, handle);
            &&& output_step(state, handle, OutputEventView::Name(name), namespace) matches Ok(
                (named, _),
            )
            &&& created_step(named, handle, layout) matches Ok(active)
            &&& active.outputs[owner].session == Some(
                SessionView { handle: layout, output_name: name },
            )
            &&& forall|again: Seq<char>|
                #[trigger] output_step(active, handle, OutputEventView::Name(again), namespace)
                    == Ok::<(BridgeView, Seq<RequestView>), Inconsistency>((active, Seq::empty()))
            &&& forall|other: u32|
                #[trigger] created_step(active, handle, other) == Err::<BridgeView, Inconsistency>(
                    Inconsistency::UnrequestedSession,
                )
        }),
{
    let owner = handle_owner(state.outputs, handle);
    let event = OutputEventView::Name(name);
    output_step_keeps_outputs_valid(state, handle, event, namespace);
    let named = output_step(state, handle, event, namespace)->Ok_0.0;
    assert(named.outputs.dom().contains(owner) && named.outputs[owner].handle == handle);
    assert(handle_owner(named.outputs, handle) == owner);
    assert(!has_session(named.outputs, layout)) by {
        if has_session(named.outputs, layout) {
            let n = session_owner(named.outputs, layout);
            assert(holds_session(state.outputs[n], layout));
        }
    }
    created_step_keeps_outputs_valid(named, handle, layout);
    let active = created_step(named, handle, layout)->Ok_0;
    assert(active.outputs.dom().contains(owner) && active.outputs[owner].handle == handle);
    assert(handle_owner(active.outputs, handle) == owner);
}

/// A command is handed to the generator with the tags announced last, on
/// whichever session they were announced, and the tags stay for the commands
/// that follow.
pub proof fn command_sees_announced_tags<L: Layout>(
    state: BridgeView,
    announced_on: u32,
    tags: u32,
    layout: u32,
    command: Seq<char>,
    namespace: Seq<char>,
    before: L,
    after: L,
    reaction: ReactionView<L::Error>,
)
    requires
        has_session(state.outputs, announced_on),
        has_session(state.outputs, layout),
    ensures
        ({
            let output = state.outputs[session_owner(state.outputs, layout)].session->0.output_name;
            let announced = BridgeView { pending_tags: Some(tags), ..state };
            let plan = PlanView::Command { command, tags: Some(tags), output };
            &&& layout_step(state, announced_on, LayoutEventView::UserCommandTags(tags), namespace)
                == Ok::<(BridgeView, PlanView), Inconsistency>((announced, PlanView::Idle))
            &&& layout_step(announced, layout, LayoutEventView::UserCommand(command), namespace)
                == Ok::<(BridgeView, PlanView), Inconsistency>((announced, plan))
            &&& settles(before, plan, layout, after, reaction) <==> command_settles(
                before,
                command,
                Some(tags),
                output,
                after,
                reaction,
            )
        }),
{
}

/// Nothing but the announcement of tags on a live session changes the tags
/// that commands are handed; such an announcement sets them.
pub proof fn only_announcements_set_tags(state: BridgeView, event: Event, namespace: Seq<char>)
    ensures
        step(state, event, namespace).pending_tags == match event {
            Event::Layout { layout, event: LayoutEventView::UserCommandTags(tags) } => if has_session(
                state.outputs,
                layout,
            ) {
                Some(tags)
            } else {
                state.pending_tags
            },
            _ => state.pending_tags,
        },
{
}

/// A command that no announcement of tags came before is handed to the
/// generator without tags.
pub proof fn command_without_tags<L: Layout>(
    state: BridgeView,
    layout: u32,
    command: Seq<char>,
    namespace: Seq<char>,
    before: L,
    after: L,
    reaction: ReactionView<L::Error>,
)
    requires
        has_session(state.outputs, layout),
        state.pending_tags == BridgeView::initial().pending_tags,
    ensures
        ({
            let output = state.outputs[session_owner(state.outputs, layout)].session->0.output_name;
            let plan = PlanView::Command { command, tags: None, output };
            &&& layout_step(state, layout, LayoutEventView::UserCommand(command), namespace)
                == Ok::<(BridgeView, PlanView), Inconsistency>((state, plan))
            &&& settles(before, plan, layout, after, reaction) <==> command_settles(
                before,
                command,
                None,
                output,
                after,
                reaction,
            )
        }),
{
}

/// That the namespace is in use ends the run, whichever session reports it:
/// the generator is not asked, and the only reaction is to abort with the
/// namespace as the cause.
pub proof fn namespace_in_use_ends_run<L: Layout>(
    state: BridgeView,
    layout: u32,
    namespace: Seq<char>,
    before: L,
    after: L,
    reaction: ReactionView<L::Error>,
)
    requires
        has_session(state.outputs, layout),
    ensures
        layout_step(state, layout, LayoutEventView::NamespaceInUse, namespace) == Ok::<
            (BridgeView, PlanView),
            Inconsistency,
        >((state, PlanView::Abort { namespace })),
        settles(before, PlanView::Abort { namespace }, layout, after, reaction) <==> after
            == before && reaction == ReactionView::<L::Error>::Abort(
            ErrorView::NamespaceInUse(namespace),
        ),
{
}

/// A layout of as many rectangles as views were demanded is answered with
/// one placement per rectangle, in order, and then one commit, all under the
/// demand's serial. A layout of any other size ends the run and nothing is
/// sent.
pub proof fn demand_reply_shape<E>(
    layout: u32,
    generated: GeneratedLayoutView,
    view_count: u32,
    serial: u32,
)
    ensures
        generated.views.len() == view_count ==> ({
            &&& demand_reply_spec::<E>(layout, Ok(generated), view_count, serial) matches
                ReactionView::Send(requests)
            &&& requests.len() == view_count + 1
            &&& forall|i: int|
                0 <= i < view_count ==> #[trigger] requests[i] == push_request(
                    layout,
                    generated.views[i],
                    serial,
                )
            &&& requests[view_count as int] == RequestView::Commit {
                layout,
                layout_name: generated.layout_name,
                serial,
            }
        }),
        generated.views.len() != view_count ==> demand_reply_spec::<E>(
            layout,
            Ok(generated),
            view_count,
            serial,
        ) == ReactionView::<E>::Abort(ErrorView::InvalidGeneratedLayout),
{
}

} // verus!
