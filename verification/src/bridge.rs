//! The bridge's state and its handlers, one per kind of event.
//!
//! A handler takes the state and an event to the next state and the
//! requests to send. Two requests have an answer that the bridge needs:
//! the handle of a bound output is reported with
//! [`Bridge::on_output_bound`], that of an opened session with
//! [`Bridge::on_layout_created`].

use crate::error::Error;
use crate::error::ErrorView;
use crate::error::Inconsistency;
use crate::layout::GeneratedLayout;
use crate::layout::Layout;
use crate::negotiation::command_reply;
use crate::negotiation::command_reply_spec;
use crate::negotiation::demand_reply;
use crate::negotiation::demand_reply_spec;
use crate::negotiation::generated_view;
use crate::negotiation::Plan;
use crate::negotiation::PlanView;
use crate::negotiation::Reaction;
use crate::negotiation::ReactionView;
use crate::protocol::requests_view;
use crate::protocol::LayoutDemand;
use crate::protocol::LayoutEvent;
use crate::protocol::LayoutEventView;
use crate::protocol::OutputEvent;
use crate::protocol::OutputEventView;
use crate::protocol::RegistryEvent;
use crate::protocol::RegistryEventView;
use crate::protocol::Request;
use crate::protocol::RequestView;
use crate::protocol::OUTPUT_VERSION;
use crate::registry::add_spec;
use crate::registry::attach_spec;
use crate::registry::has_handle;
use crate::registry::has_session;
use crate::registry::name_spec;
use crate::registry::outputs_wf;
use crate::registry::remove_spec;
use crate::registry::session_owner;
use crate::registry::Outputs;
use crate::registry::Registry;
use vstd::prelude::*;

verus! {

/// Mathematical value of a [`Bridge`], but for its generator.
pub struct BridgeView {
    /// The live outputs by registry name.
    pub outputs: Outputs,
    /// The tags last announced for a command, if any were.
    pub pending_tags: Option<u32>,
}

impl BridgeView {
    /// The state at the start of a run.
    pub open spec fn initial() -> BridgeView {
        BridgeView { outputs: Map::empty(), pending_tags: None }
    }
}

/// What an event of the registry does. A new global is bound if it is an
/// output; the removal of a live output takes that output down.
pub open spec fn registry_step(state: BridgeView, event: RegistryEventView) -> Result<
    (BridgeView, Seq<RequestView>),
    Inconsistency,
> {
    match event {
        RegistryEventView::Global(global) => if !global.is_output() {
            Ok((state, Seq::empty()))
        } else if state.outputs.dom().contains(global.name) {
            Err(Inconsistency::DuplicateName)
        } else {
            Ok(
                (
                    state,
                    seq![
                        RequestView::BindOutput { reg_name: global.name, version: OUTPUT_VERSION },
                    ],
                ),
            )
        },
        RegistryEventView::GlobalRemove(reg_name) => match remove_spec(state.outputs, reg_name) {
            Ok((outputs, removed)) => Ok((BridgeView { outputs, ..state }, removed.teardown())),
            Err(e) => Err(e),
        },
    }
}

/// What the report of a bound output does.
pub open spec fn bound_step(state: BridgeView, reg_name: u32, handle: u32, version: u32) -> Result<
    BridgeView,
    Inconsistency,
> {
    match add_spec(state.outputs, reg_name, handle, version) {
        Ok(outputs) => Ok(BridgeView { outputs, ..state }),
        Err(e) => Err(e),
    }
}

/// What an event of the output with this handle does. The announcement of
/// its name opens a session under the namespace, unless the output has one.
pub open spec fn output_step(
    state: BridgeView,
    handle: u32,
    event: OutputEventView,
    namespace: Seq<char>,
) -> Result<(BridgeView, Seq<RequestView>), Inconsistency> {
    if !has_handle(state.outputs, handle) {
        Err(Inconsistency::UnknownOutput)
    } else {
        match event {
            OutputEventView::Other => Ok((state, Seq::empty())),
            OutputEventView::Name(name) => match name_spec(state.outputs, handle, name) {
                Ok((outputs, wanted)) => Ok(
                    (
                        BridgeView { outputs, ..state },
                        if wanted {
                            seq![RequestView::GetLayout { output: handle, namespace }]
                        } else {
                            Seq::empty()
                        },
                    ),
                ),
                Err(e) => Err(e),
            },
        }
    }
}

/// What the report of an opened session does.
pub open spec fn created_step(state: BridgeView, handle: u32, layout: u32) -> Result<
    BridgeView,
    Inconsistency,
> {
    match attach_spec(state.outputs, handle, layout) {
        Ok(outputs) => Ok(BridgeView { outputs, ..state }),
        Err(e) => Err(e),
    }
}

/// What an event of the session with this handle does before the generator
/// is asked anything. Announced tags are kept for the commands to come; a
/// command is handed on with the tags kept and a demand as it came, each
/// with the name of the session's output.
pub open spec fn layout_step(
    state: BridgeView,
    layout: u32,
    event: LayoutEventView,
    namespace: Seq<char>,
) -> Result<(BridgeView, PlanView), Inconsistency> {
    if !has_session(state.outputs, layout) {
        Err(Inconsistency::UnknownSession)
    } else {
        let output = state.outputs[session_owner(state.outputs, layout)].session->0.output_name;
        match event {
            LayoutEventView::NamespaceInUse => Ok((state, PlanView::Abort { namespace })),
            LayoutEventView::LayoutDemand(demand) => Ok(
                (state, PlanView::Demand { demand, output }),
            ),
            LayoutEventView::UserCommand(command) => Ok(
                (state, PlanView::Command { command, tags: state.pending_tags, output }),
            ),
            LayoutEventView::UserCommandTags(tags) => Ok(
                (BridgeView { pending_tags: Some(tags), ..state }, PlanView::Idle),
            ),
        }
    }
}

/// Whether handing the generator a command can take it from `before` to
/// `after` and end in this reaction: the reaction is what
/// [`command_reply_spec`] makes of the generator's answer.
pub open spec fn command_settles<L: Layout>(
    before: L,
    command: Seq<char>,
    tags: Option<u32>,
    output: Seq<char>,
    after: L,
    reaction: ReactionView<L::Error>,
) -> bool {
    exists|result: Result<(), L::Error>|
        #![trigger before.command_effect(command, tags, output, &after, result)]
        before.command_effect(command, tags, output, &after, result) && reaction
            == command_reply_spec(result)
}

/// Whether asking the generator for the layout of a demand on the session
/// with this handle can take it from `before` to `after` and end in this
/// reaction: the reaction is what [`demand_reply_spec`] makes of the
/// generator's answer.
pub open spec fn demand_settles<L: Layout>(
    before: L,
    demand: LayoutDemand,
    output: Seq<char>,
    layout: u32,
    after: L,
    reaction: ReactionView<L::Error>,
) -> bool {
    exists|result: Result<GeneratedLayout, L::Error>|
        #![trigger before.demand_effect(
            demand.view_count,
            demand.usable_width,
            demand.usable_height,
            demand.tags,
            output,
            &after,
            result,
        )]
        before.demand_effect(
            demand.view_count,
            demand.usable_width,
            demand.usable_height,
            demand.tags,
            output,
            &after,
            result,
        ) && reaction == demand_reply_spec(
            layout,
            generated_view(result),
            demand.view_count,
            demand.serial,
        )
}

/// Whether carrying out a plan for the session with this handle can take
/// the generator from `before` to `after` and end in this reaction. A plan
/// that asks nothing leaves the generator alone; otherwise the generator is
/// handed exactly what the plan holds.
pub open spec fn settles<L: Layout>(
    before: L,
    plan: PlanView,
    layout: u32,
    after: L,
    reaction: ReactionView<L::Error>,
) -> bool {
    match plan {
        PlanView::Abort { namespace } => after == before && reaction == ReactionView::<
            L::Error,
        >::Abort(ErrorView::NamespaceInUse(namespace)),
        PlanView::Idle => after == before && reaction == ReactionView::<L::Error>::Send(
            Seq::empty(),
        ),
        PlanView::Command { command, tags, output } => command_settles(
            before,
            command,
            tags,
            output,
            after,
            reaction,
        ),
        PlanView::Demand { demand, output } => demand_settles(
            before,
            demand,
            output,
            layout,
            after,
            reaction,
        ),
    }
}

/// The state of a run: the generator, the live outputs and the tags last
/// announced for a command.
pub struct Bridge<L> {
    layout: L,
    registry: Registry,
    last_user_cmd_tags: Option<u32>,
}

impl<L> View for Bridge<L> {
    type V = BridgeView;

    closed spec fn view(&self) -> BridgeView {
        BridgeView { outputs: self.registry@, pending_tags: self.last_user_cmd_tags }
    }
}

impl<L: Layout> Bridge<L> {
    /// The generator, as a value.
    pub closed spec fn generator(&self) -> L {
        self.layout
    }

    /// Validity of a bridge.
    pub closed spec fn wf(&self) -> bool {
        self.registry.wf()
    }

    /// A valid bridge has a valid set of outputs.
    pub proof fn lemma_wf(&self)
        requires
            self.wf(),
        ensures
            outputs_wf(self@.outputs),
    {
    }

    /// The bridge at the start of a run: it owns the generator, knows no
    /// output and has seen no tags.
    pub fn new(layout: L) -> (bridge: Bridge<L>)
        ensures
            bridge.wf(),
            bridge@ == BridgeView::initial(),
            bridge.generator() == layout,
    {
        Bridge { layout, registry: Registry::new(), last_user_cmd_tags: None }
    }

    /// Handles an event of the registry.
    pub fn on_registry_event(&mut self, event: RegistryEvent) -> (r: Result<
        Vec<Request>,
        Inconsistency,
    >)
        requires
            old(self).wf(),
        ensures
            final(self).wf(),
            final(self).generator() == old(self).generator(),
            match registry_step(old(self)@, event@) {
                Ok((state, requests)) => final(self)@ == state && r is Ok && requests_view(
                    r->Ok_0@,
                ) == requests,
                Err(e) => final(self)@ == old(self)@ && r == Err::<Vec<Request>, Inconsistency>(e),
            },
    {
        match event {
            RegistryEvent::Global(global) => {
                let mut requests: Vec<Request> = Vec::new();
                if !global.is_output() {
                    assert(requests_view(requests@) =~= Seq::empty());
                    return Ok(requests);
                }
                if self.registry.contains_name(global.name) {
                    return Err(Inconsistency::DuplicateName);
                }
                requests.push(Request::BindOutput { reg_name: global.name, version: OUTPUT_VERSION });
                assert(requests_view(requests@) =~= seq![
                    RequestView::BindOutput { reg_name: global.name, version: OUTPUT_VERSION },
                ]);
                Ok(requests)
            },
            RegistryEvent::GlobalRemove(reg_name) => match self.registry.remove(reg_name) {
                Ok(output) => Ok(output.teardown()),
                Err(e) => Err(e),
            },
        }
    }

    /// Records the output that was bound for a [`Request::BindOutput`].
    pub fn on_output_bound(&mut self, reg_name: u32, handle: u32, version: u32) -> (r: Result<
        (),
        Inconsistency,
    >)
        requires
            old(self).wf(),
        ensures
            final(self).wf(),
            final(self).generator() == old(self).generator(),
            match bound_step(old(self)@, reg_name, handle, version) {
                Ok(state) => final(self)@ == state && r is Ok,
                Err(e) => final(self)@ == old(self)@ && r == Err::<(), Inconsistency>(e),
            },
    {
        self.registry.add(reg_name, handle, version)
    }

    /// Handles an event of the output with this handle.
    pub fn on_output_event(&mut self, handle: u32, event: OutputEvent) -> (r: Result<
        Vec<Request>,
        Inconsistency,
    >)
        requires
            old(self).wf(),
        ensures
            final(self).wf(),
            final(self).generator() == old(self).generator(),
            match output_step(old(self)@, handle, event@, L::NAMESPACE@) {
                Ok((state, requests)) => final(self)@ == state && r is Ok && requests_view(
                    r->Ok_0@,
                ) == requests,
                Err(e) => final(self)@ == old(self)@ && r == Err::<Vec<Request>, Inconsistency>(e),
            },
    {
        let mut requests: Vec<Request> = Vec::new();
        assert(requests_view(requests@) =~= Seq::empty());
        match event {
            OutputEvent::Other => {
                if self.registry.output_by_handle(handle).is_none() {
                    return Err(Inconsistency::UnknownOutput);
                }
                Ok(requests)
            },
            OutputEvent::Name(name) => match self.registry.record_name(handle, name) {
                Ok(wanted) => {
                    if wanted {
                        requests.push(
                            Request::GetLayout {
                                output: handle,
                                namespace: L::NAMESPACE.to_owned(),
                            },
                        );
                        assert(requests_view(requests@) =~= seq![
                            RequestView::GetLayout { output: handle, namespace: L::NAMESPACE@ },
                        ]);
                    }
                    Ok(requests)
                },
                Err(e) => Err(e),
            },
        }
    }

    /// Records the session that was opened for a [`Request::GetLayout`].
    pub fn on_layout_created(&mut self, handle: u32, layout: u32) -> (r: Result<
        (),
        Inconsistency,
    >)
        requires
            old(self).wf(),
        ensures
            final(self).wf(),
            final(self).generator() == old(self).generator(),
            match created_step(old(self)@, handle, layout) {
                Ok(state) => final(self)@ == state && r is Ok,
                Err(e) => final(self)@ == old(self)@ && r == Err::<(), Inconsistency>(e),
            },
    {
        self.registry.attach(handle, layout)
    }

    /// Decides what an event of the session with this handle asks for, and
    /// keeps announced tags.
    pub fn prepare(&mut self, layout: u32, event: LayoutEvent) -> (r: Result<Plan, Inconsistency>)
        requires
            old(self).wf(),
        ensures
            final(self).wf(),
            final(self).generator() == old(self).generator(),
            match layout_step(old(self)@, layout, event@, L::NAMESPACE@) {
                Ok((state, plan)) => final(self)@ == state && r is Ok && r->Ok_0@ == plan,
                Err(e) => final(self)@ == old(self)@ && r == Err::<Plan, Inconsistency>(e),
            },
    {
        let output = match self.registry.session(layout) {
            Some(session) => session.output_name.clone(),
            None => {
                return Err(Inconsistency::UnknownSession);
            },
        };
        match event {
            LayoutEvent::NamespaceInUse => Ok(Plan::Abort { namespace: L::NAMESPACE.to_owned() }),
            LayoutEvent::LayoutDemand(demand) => Ok(Plan::Demand { demand, output }),
            LayoutEvent::UserCommand(command) => Ok(
                Plan::Command { command, tags: self.last_user_cmd_tags, output },
            ),
            LayoutEvent::UserCommandTags(tags) => {
                self.last_user_cmd_tags = Some(tags);
                Ok(Plan::Idle)
            },
        }
    }

    /// Carries out a plan for the session with this handle: asks the
    /// generator what the plan says and judges its answer.
    pub fn carry_out(&mut self, layout: u32, plan: Plan) -> (reaction: Reaction<L::Error>)
        requires
            old(self).wf(),
        ensures
            final(self).wf(),
            final(self)@ == old(self)@,
            settles(old(self).generator(), plan@, layout, final(self).generator(), reaction@),
    {
        match plan {
            Plan::Abort { namespace } => Reaction::Abort(Error::NamespaceInUse(namespace)),
            Plan::Idle => {
                let requests: Vec<Request> = Vec::new();
                assert(requests_view(requests@) =~= Seq::empty());
                Reaction::Send(requests)
            },
            Plan::Command { command, tags, output } => {
                let result = self.layout.user_cmd(command, tags, output.as_str());
                command_reply(result)
            },
            Plan::Demand { demand, output } => {
                let result = self.layout.generate_layout(
                    demand.view_count,
                    demand.usable_width,
                    demand.usable_height,
                    demand.tags,
                    output.as_str(),
                );
                demand_reply(layout, result, demand.view_count, demand.serial)
            },
        }
    }

    /// Handles an event of the session with this handle.
    pub fn on_layout_event(&mut self, layout: u32, event: LayoutEvent) -> (r: Result<
        Reaction<L::Error>,
        Inconsistency,
    >)
        requires
            old(self).wf(),
        ensures
            final(self).wf(),
            match layout_step(old(self)@, layout, event@, L::NAMESPACE@) {
                Ok((state, plan)) => final(self)@ == state && r is Ok && settles(
                    old(self).generator(),
                    plan,
                    layout,
                    final(self).generator(),
                    r->Ok_0@,
                ),
                Err(e) => final(self)@ == old(self)@ && r == Err::<
                    Reaction<L::Error>,
                    Inconsistency,
                >(e) && final(self).generator() == old(self).generator(),
            },
    {
        match self.prepare(layout, event) {
            Ok(plan) => Ok(self.carry_out(layout, plan)),
            Err(e) => Err(e),
        }
    }

    /// The generator.
    pub fn layout(&self) -> (layout: &L)
        ensures
            *layout == self.generator(),
    {
        &self.layout
    }

    /// The live outputs.
    pub fn registry(&self) -> (registry: &Registry)
        ensures
            registry@ == self@.outputs,
            self.wf() ==> registry.wf(),
    {
        &self.registry
    }

    /// The tags last announced for a command, if any were.
    pub fn pending_tags(&self) -> (tags: Option<u32>)
        ensures
            tags == self@.pending_tags,
    {
        self.last_user_cmd_tags
    }
}

} // verus!
