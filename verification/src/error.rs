//! Causes that end a run, and violations of the event protocol.

use vstd::prelude::*;

verus! {

/// `wayrs_client::ConnectError`, carried through unexamined.
#[verifier::external_type_specification]
#[verifier::external_body]
pub struct ExConnectError(wayrs_client::ConnectError);

/// `wayrs_client::global::BindError`, carried through unexamined.
#[verifier::external_type_specification]
#[verifier::external_body]
pub struct ExBindError(wayrs_client::global::BindError);

/// `std::io::Error`, carried through unexamined.
#[verifier::external_type_specification]
#[verifier::external_body]
pub struct ExIoError(std::io::Error);

/// Why a run ended. `E` is the generator's own error.
#[derive(Debug)]
pub enum Error<E> {
    /// No connection to the compositor could be made.
    WaylandConnect(wayrs_client::ConnectError),
    /// The compositor does not offer a usable layout manager.
    WaylandBind(wayrs_client::global::BindError),
    /// Reading from or writing to the compositor failed.
    Io(std::io::Error),
    /// Another client already uses this namespace.
    NamespaceInUse(String),
    /// The generator produced a number of rectangles other than the number
    /// of views demanded.
    InvalidGeneratedLayout,
    /// The generator failed to produce a layout.
    LayoutError(E),
}

/// Mathematical value of an [`Error`].
pub enum ErrorView<E> {
    WaylandConnect(wayrs_client::ConnectError),
    WaylandBind(wayrs_client::global::BindError),
    Io(std::io::Error),
    NamespaceInUse(Seq<char>),
    InvalidGeneratedLayout,
    LayoutError(E),
}

impl<E> View for Error<E> {
    type V = ErrorView<E>;

    open spec fn view(&self) -> ErrorView<E> {
        match *self {
            Error::WaylandConnect(e) => ErrorView::WaylandConnect(e),
            Error::WaylandBind(e) => ErrorView::WaylandBind(e),
            Error::Io(e) => ErrorView::Io(e),
            Error::NamespaceInUse(namespace) => ErrorView::NamespaceInUse(namespace@),
            Error::InvalidGeneratedLayout => ErrorView::InvalidGeneratedLayout,
            Error::LayoutError(e) => ErrorView::LayoutError(e),
        }
    }
}

/// An event that does not fit the bridge's state. The compositor never sends
/// one; the state is left as it was.
#[derive(Debug, Clone, Copy, PartialEq, Eq)]
pub enum Inconsistency {
    /// Removal of a registry name that no live output has.
    UnknownName,
    /// A registry name that a live output already has.
    DuplicateName,
    /// An event for an output handle that no live output has.
    UnknownOutput,
    /// An event for a layout handle that no session has.
    UnknownSession,
    /// A handle that is already in use.
    DuplicateHandle,
    /// A session for an output that asked for none.
    UnrequestedSession,
}

} // verus!
