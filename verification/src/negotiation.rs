//! The exchange on one layout session: what the bridge asks of the
//! generator for an event, and what it makes of the generator's answer.

use crate::error::Error;
use crate::error::ErrorView;
use crate::layout::GeneratedLayout;
use crate::layout::GeneratedLayoutView;
use crate::layout::Rectangle;
use crate::protocol::requests_view;
use crate::protocol::LayoutDemand;
use crate::protocol::Request;
use crate::protocol::RequestView;
use vstd::prelude::*;

verus! {

/// What the dispatch loop does after an event of a layout session.
#[derive(Debug)]
pub enum Reaction<E> {
    /// Send these requests, in this order, and go on.
    Send(Vec<Request>),
    /// The generator refused a command: report its error and go on.
    CommandFailed(E),
    /// End the run with this cause.
    Abort(Error<E>),
}

/// Mathematical value of a [`Reaction`].
pub enum ReactionView<E> {
    Send(Seq<RequestView>),
    CommandFailed(E),
    Abort(ErrorView<E>),
}

impl<E> View for Reaction<E> {
    type V = ReactionView<E>;

    open spec fn view(&self) -> ReactionView<E> {
        match *self {
            Reaction::Send(requests) => ReactionView::Send(requests_view(requests@)),
            Reaction::CommandFailed(e) => ReactionView::CommandFailed(e),
            Reaction::Abort(e) => ReactionView::Abort(e@),
        }
    }
}

/// What the bridge does for an event of a layout session, before the
/// generator is asked anything.
#[derive(Debug, PartialEq, Eq)]
pub enum Plan {
    /// End the run: the namespace is in use.
    Abort { namespace: String },
    /// Nothing is left to do.
    Idle,
    /// Hand the generator this command, with these tags, for this output.
    Command { command: String, tags: Option<u32>, output: String },
    /// Ask the generator for the layout of this demand on this output.
    Demand { demand: LayoutDemand, output: String },
}

/// Mathematical value of a [`Plan`].
pub enum PlanView {
    Abort { namespace: Seq<char> },
    Idle,
    Command { command: Seq<char>, tags: Option<u32>, output: Seq<char> },
    Demand { demand: LayoutDemand, output: Seq<char> },
}

impl View for Plan {
    type V = PlanView;

    open spec fn view(&self) -> PlanView {
        match *self {
            Plan::Abort { namespace } => PlanView::Abort { namespace: namespace@ },
            Plan::Idle => PlanView::Idle,
            Plan::Command { command, tags, output } => PlanView::Command {
                command: command@,
                tags,
                output: output@,
            },
            Plan::Demand { demand, output } => PlanView::Demand { demand, output: output@ },
        }
    }
}

/// The request that places one view of a layout.
pub open spec fn push_request(layout: u32, rect: Rectangle, serial: u32) -> RequestView {
    RequestView::PushViewDimensions {
        layout,
        x: rect.x,
        y: rect.y,
        width: rect.width,
        height: rect.height,
        serial,
    }
}

/// The requests that answer a demand with a generated layout: one placement
/// per rectangle, in the generator's order, then the commit.
pub open spec fn layout_requests(
    layout: u32,
    generated: GeneratedLayoutView,
    serial: u32,
) -> Seq<RequestView> {
    Seq::new(generated.views.len(), |i: int| push_request(layout, generated.views[i], serial)).push(
        RequestView::Commit { layout, layout_name: generated.layout_name, serial },
    )
}

/// The answer to a demand for `view_count` views, given what the generator
/// returned: its error ends the run, so does a layout with another number of
/// rectangles, and a layout of the right size is sent.
pub open spec fn demand_reply_spec<E>(
    layout: u32,
    generated: Result<GeneratedLayoutView, E>,
    view_count: u32,
    serial: u32,
) -> ReactionView<E> {
    match generated {
        Err(e) => ReactionView::Abort(ErrorView::LayoutError(e)),
        Ok(g) => if g.views.len() == view_count {
            ReactionView::Send(layout_requests(layout, g, serial))
        } else {
            ReactionView::Abort(ErrorView::InvalidGeneratedLayout)
        },
    }
}

/// The mathematical value of what a generator returned for a demand.
pub open spec fn generated_view<E>(generated: Result<GeneratedLayout, E>) -> Result<
    GeneratedLayoutView,
    E,
> {
    match generated {
        Ok(g) => Ok(g@),
        Err(e) => Err(e),
    }
}

/// Answers a demand for `view_count` views on the session `layout` with what
/// the generator returned for it.
pub fn demand_reply<E>(
    layout: u32,
    generated: Result<GeneratedLayout, E>,
    view_count: u32,
    serial: u32,
) -> (reaction: Reaction<E>)
    ensures
        reaction@ == demand_reply_spec(layout, generated_view(generated), view_count, serial),
{
    let generated_layout = match generated {
        Ok(l) => l,
        Err(e) => {
            return Reaction::Abort(Error::LayoutError(e));
        },
    };
    let count: usize = generated_layout.views.len();
    if count as u64 != view_count as u64 {
        return Reaction::Abort(Error::InvalidGeneratedLayout);
    }
    let ghost g = generated_layout@;
    let mut requests: Vec<Request> = Vec::new();
    let mut i: usize = 0;
    while i < count
        invariant
            i <= count,
            count == generated_layout.views.len(),
            g == generated_layout@,
            requests@.len() == i,
            forall|j: int|
                0 <= j < i ==> (#[trigger] requests@[j])@ == push_request(layout, g.views[j], serial),
        decreases count - i,
    {
        let rect = generated_layout.views[i];
        requests.push(
            Request::PushViewDimensions {
                layout,
                x: rect.x,
                y: rect.y,
                width: rect.width,
                height: rect.height,
                serial,
            },
        );
        i = i + 1;
    }
    requests.push(Request::Commit { layout, layout_name: generated_layout.layout_name, serial });
    assert(requests_view(requests@) =~= layout_requests(layout, g, serial));
    Reaction::Send(requests)
}

/// What follows from the generator's answer to a command: nothing is sent
/// either way, and an error is handed on to be reported.
pub open spec fn command_reply_spec<E>(result: Result<(), E>) -> ReactionView<E> {
    match result {
        Ok(_) => ReactionView::Send(Seq::empty()),
        Err(e) => ReactionView::CommandFailed(e),
    }
}

/// Judges the generator's answer to a command.
pub fn command_reply<E>(result: Result<(), E>) -> (reaction: Reaction<E>)
    ensures
        reaction@ == command_reply_spec(result),
{
    match result {
        Ok(_) => {
            let requests: Vec<Request> = Vec::new();
            assert(requests_view(requests@) =~= Seq::empty());
            Reaction::Send(requests)
        },
        Err(e) => Reaction::CommandFailed(e),
    }
}

} // verus!
