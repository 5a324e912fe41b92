//! The messages exchanged with the compositor, as plain values.
//!
//! Objects are named by their protocol ids. Events are what the compositor
//! sends; requests are what the bridge wants sent back.

use vstd::prelude::*;

verus! {

/// The version at which outputs are bound: the first that announces names.
pub const OUTPUT_VERSION: u32 = 4;

/// The first output version that has a release request.
pub const OUTPUT_RELEASE_SINCE: u32 = 3;

/// The interface name of output globals.
pub open spec fn output_interface() -> Seq<char> {
    "wl_output"@
}

/// A global object as the registry advertises it.
#[derive(Debug, PartialEq, Eq)]
pub struct Global {
    pub name: u32,
    pub interface: String,
    pub version: u32,
}

/// Mathematical value of a [`Global`].
pub struct GlobalView {
    pub name: u32,
    pub interface: Seq<char>,
    pub version: u32,
}

impl GlobalView {
    /// Whether the global is an output.
    pub open spec fn is_output(self) -> bool {
        self.interface == output_interface()
    }
}

impl View for Global {
    type V = GlobalView;

    open spec fn view(&self) -> GlobalView {
        GlobalView { name: self.name, interface: self.interface@, version: self.version }
    }
}

impl Global {
    /// Whether the global is an output.
    pub fn is_output(&self) -> (r: bool)
        ensures
            r == self@.is_output(),
    {
        self.interface == "wl_output".to_owned()
    }
}

/// A request of the bridge to the compositor.
#[derive(Debug, PartialEq, Eq)]
pub enum Request {
    /// Bind the output global with this registry name at this version.
    BindOutput { reg_name: u32, version: u32 },
    /// Open a layout session for this output under this namespace.
    GetLayout { output: u32, namespace: String },
    /// Destroy this layout session.
    DestroyLayout { layout: u32 },
    /// Release this output.
    ReleaseOutput { output: u32 },
    /// Place the next view of the layout demanded under `serial`.
    PushViewDimensions { layout: u32, x: i32, y: i32, width: u32, height: u32, serial: u32 },
    /// Close the layout demanded under `serial` and give it its name.
    Commit { layout: u32, layout_name: String, serial: u32 },
}

/// Mathematical value of a [`Request`].
pub enum RequestView {
    BindOutput { reg_name: u32, version: u32 },
    GetLayout { output: u32, namespace: Seq<char> },
    DestroyLayout { layout: u32 },
    ReleaseOutput { output: u32 },
    PushViewDimensions { layout: u32, x: i32, y: i32, width: u32, height: u32, serial: u32 },
    Commit { layout: u32, layout_name: Seq<char>, serial: u32 },
}

impl View for Request {
    type V = RequestView;

    open spec fn view(&self) -> RequestView {
        match *self {
            Request::BindOutput { reg_name, version } => RequestView::BindOutput {
                reg_name,
                version,
            },
            Request::GetLayout { output, namespace } => RequestView::GetLayout {
                output,
                namespace: namespace@,
            },
            Request::DestroyLayout { layout } => RequestView::DestroyLayout { layout },
            Request::ReleaseOutput { output } => RequestView::ReleaseOutput { output },
            Request::PushViewDimensions {
                layout,
                x,
                y,
                width,
                height,
                serial,
            } => RequestView::PushViewDimensions { layout, x, y, width, height, serial },
            Request::Commit { layout, layout_name, serial } => RequestView::Commit {
                layout,
                layout_name: layout_name@,
                serial,
            },
        }
    }
}

/// The mathematical values of a sequence of requests, in order.
pub open spec fn requests_view(requests: Seq<Request>) -> Seq<RequestView> {
    requests.map_values(|r: Request| r@)
}

/// A demand of the compositor for a layout of `view_count` views.
#[derive(Debug, Clone, Copy, PartialEq, Eq)]
pub struct LayoutDemand {
    pub view_count: u32,
    pub usable_width: u32,
    pub usable_height: u32,
    pub tags: u32,
    pub serial: u32,
}

/// An event of the registry.
#[derive(Debug, PartialEq, Eq)]
pub enum RegistryEvent {
    /// A global object became available.
    Global(Global),
    /// The global object with this registry name is gone.
    GlobalRemove(u32),
}

/// Mathematical value of a [`RegistryEvent`].
pub enum RegistryEventView {
    Global(GlobalView),
    GlobalRemove(u32),
}

impl View for RegistryEvent {
    type V = RegistryEventView;

    open spec fn view(&self) -> RegistryEventView {
        match *self {
            RegistryEvent::Global(global) => RegistryEventView::Global(global@),
            RegistryEvent::GlobalRemove(reg_name) => RegistryEventView::GlobalRemove(reg_name),
        }
    }
}

/// An event of an output.
#[derive(Debug, PartialEq, Eq)]
pub enum OutputEvent {
    /// The compositor announced the output's name.
    Name(String),
    /// Any other event: the bridge has no use for it.
    Other,
}

/// Mathematical value of an [`OutputEvent`].
pub enum OutputEventView {
    Name(Seq<char>),
    Other,
}

impl View for OutputEvent {
    type V = OutputEventView;

    open spec fn view(&self) -> OutputEventView {
        match *self {
            OutputEvent::Name(name) => OutputEventView::Name(name@),
            OutputEvent::Other => OutputEventView::Other,
        }
    }
}

/// An event of a layout session.
#[derive(Debug, PartialEq, Eq)]
pub enum LayoutEvent {
    /// Another client already uses the namespace.
    NamespaceInUse,
    /// The compositor demands a layout.
    LayoutDemand(LayoutDemand),
    /// The user sent a command.
    UserCommand(String),
    /// The tags that the next command applies to.
    UserCommandTags(u32),
}

/// Mathematical value of a [`LayoutEvent`].
pub enum LayoutEventView {
    NamespaceInUse,
    LayoutDemand(LayoutDemand),
    UserCommand(Seq<char>),
    UserCommandTags(u32),
}

impl View for LayoutEvent {
    type V = LayoutEventView;

    open spec fn view(&self) -> LayoutEventView {
        match *self {
            LayoutEvent::NamespaceInUse => LayoutEventView::NamespaceInUse,
            LayoutEvent::LayoutDemand(demand) => LayoutEventView::LayoutDemand(demand),
            LayoutEvent::UserCommand(command) => LayoutEventView::UserCommand(command@),
            LayoutEvent::UserCommandTags(tags) => LayoutEventView::UserCommandTags(tags),
        }
    }
}

} // verus!
