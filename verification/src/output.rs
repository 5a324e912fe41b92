//! One output and its layout session.

use crate::protocol::requests_view;
use crate::protocol::Request;
use crate::protocol::RequestView;
use crate::protocol::OUTPUT_RELEASE_SINCE;
use vstd::prelude::*;

verus! {

/// The layout session of one output.
#[derive(Debug, PartialEq, Eq)]
pub struct Session {
    /// The id of the session's protocol object.
    pub handle: u32,
    /// The output's name when the session was opened.
    pub output_name: String,
}

/// Mathematical value of a [`Session`].
pub struct SessionView {
    pub handle: u32,
    pub output_name: Seq<char>,
}

impl View for Session {
    type V = SessionView;

    open spec fn view(&self) -> SessionView {
        SessionView { handle: self.handle, output_name: self.output_name@ }
    }
}

/// A live output.
#[derive(Debug, PartialEq, Eq)]
pub struct Output {
    /// The id of the output's protocol object.
    pub handle: u32,
    /// The version at which the output was bound.
    pub version: u32,
    /// The name under which the registry advertised the output.
    pub reg_name: u32,
    /// The output's name, once the compositor has announced it.
    pub name: Option<String>,
    /// The output's layout session, once it is open.
    pub session: Option<Session>,
}

/// Mathematical value of an [`Output`].
pub struct OutputView {
    pub handle: u32,
    pub version: u32,
    pub reg_name: u32,
    pub name: Option<Seq<char>>,
    pub session: Option<SessionView>,
}

impl OutputView {
    /// A freshly bound output: no name and no session.
    pub open spec fn bound(reg_name: u32, handle: u32, version: u32) -> OutputView {
        OutputView { handle, version, reg_name, name: None, session: None }
    }

    /// The requests that take the output down: its session, if it has one,
    /// is destroyed first; then the output is released, if the version it
    /// was bound at has that request.
    pub open spec fn teardown(self) -> Seq<RequestView> {
        let destroy = match self.session {
            Some(session) => seq![RequestView::DestroyLayout { layout: session.handle }],
            None => Seq::<RequestView>::empty(),
        };
        let release = if self.version >= OUTPUT_RELEASE_SINCE {
            seq![RequestView::ReleaseOutput { output: self.handle }]
        } else {
            Seq::<RequestView>::empty()
        };
        destroy + release
    }
}

impl View for Output {
    type V = OutputView;

    open spec fn view(&self) -> OutputView {
        OutputView {
            handle: self.handle,
            version: self.version,
            reg_name: self.reg_name,
            name: match self.name {
                Some(name) => Some(name@),
                None => None,
            },
            session: match self.session {
                Some(session) => Some(session@),
                None => None,
            },
        }
    }
}

impl Output {
    /// The record of an output that was just bound.
    pub fn bound(reg_name: u32, handle: u32, version: u32) -> (output: Output)
        ensures
            output@ == OutputView::bound(reg_name, handle, version),
    {
        Output { handle, version, reg_name, name: None, session: None }
    }

    /// Takes the output down and returns the requests that do so.
    pub fn teardown(self) -> (requests: Vec<Request>)
        ensures
            requests_view(requests@) == self@.teardown(),
    {
        let mut requests: Vec<Request> = Vec::new();
        if let Some(session) = self.session {
            requests.push(Request::DestroyLayout { layout: session.handle });
        }
        if self.version >= OUTPUT_RELEASE_SINCE {
            requests.push(Request::ReleaseOutput { output: self.handle });
        }
        assert(requests_view(requests@) =~= self@.teardown());
        requests
    }
}

} // verus!
