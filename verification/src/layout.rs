//! The interface between the bridge and a layout generator.

use vstd::prelude::*;

verus! {

/// Placement of one view: position of its top-left corner and its size.
#[derive(Debug, Clone, Copy, PartialEq, Eq)]
pub struct Rectangle {
    pub x: i32,
    pub y: i32,
    pub width: u32,
    pub height: u32,
}

/// What a generator hands back for one layout demand: the layout's display
/// name and one rectangle per view, in view order.
#[derive(Debug)]
pub struct GeneratedLayout {
    pub layout_name: String,
    pub views: Vec<Rectangle>,
}

/// Mathematical value of a [`GeneratedLayout`].
pub struct GeneratedLayoutView {
    pub layout_name: Seq<char>,
    pub views: Seq<Rectangle>,
}

impl View for GeneratedLayout {
    type V = GeneratedLayoutView;

    open spec fn view(&self) -> GeneratedLayoutView {
        GeneratedLayoutView { layout_name: self.layout_name@, views: self.views@ }
    }
}

/// A layout generator.
///
/// The bridge owns exactly one generator for its whole life and is the only
/// caller of its methods. Nothing is assumed about what an implementation
/// answers: the two relations below only give a name to what a call was
/// handed and what came back, and hold of every call unless an
/// implementation says more.
pub trait Layout: 'static {
    /// The error of [`user_cmd`](Self::user_cmd) and
    /// [`generate_layout`](Self::generate_layout).
    type Error: std::fmt::Debug + std::fmt::Display;

    /// The namespace by which the compositor tells layout generators apart.
    /// Two clients may not share one.
    const NAMESPACE: &'static str;

    /// Whether the generator, handed this command with these tags for this
    /// output, may become `after` and answer `result`.
    open spec fn command_effect(
        &self,
        cmd: Seq<char>,
        tags: Option<u32>,
        output: Seq<char>,
        after: &Self,
        result: Result<(), Self::Error>,
    ) -> bool {
        true
    }

    /// Whether the generator, asked for this layout on this output, may
    /// become `after` and answer `result`.
    open spec fn demand_effect(
        &self,
        view_count: u32,
        usable_width: u32,
        usable_height: u32,
        tags: u32,
        output: Seq<char>,
        after: &Self,
        result: Result<GeneratedLayout, Self::Error>,
    ) -> bool {
        true
    }

    /// Called for every command the user sends to this generator, with the
    /// tags announced for it, if any were, and the name of the output.
    ///
    /// An error is reported and otherwise ignored.
    fn user_cmd(&mut self, cmd: String, tags: Option<u32>, output: &str) -> (result: Result<
        (),
        Self::Error,
    >)
        ensures
            old(self).command_effect(cmd@, tags, output@, final(self), result),
    ;

    /// Called whenever the compositor demands a layout for `view_count`
    /// views on the named output.
    ///
    /// An error, or a number of rectangles other than `view_count`, ends the
    /// run.
    fn generate_layout(
        &mut self,
        view_count: u32,
        usable_width: u32,
        usable_height: u32,
        tags: u32,
        output: &str,
    ) -> (result: Result<GeneratedLayout, Self::Error>)
        ensures
            old(self).demand_effect(
                view_count,
                usable_width,
                usable_height,
                tags,
                output@,
                final(self),
                result,
            ),
    ;
}

} // verus!
