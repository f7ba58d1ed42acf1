use vstd::prelude::*;

verus! {

/// Identity of a pane in the host; equal ids name the same pane.
#[derive(PartialEq, Eq, Structural, Clone, Copy, Debug)]
pub enum PaneId {
    Terminal(u32),
    Plugin(u32),
}

/// One connected client: the pane it focuses, and whether it is the client
/// that issues commands.
#[derive(PartialEq, Eq, Structural, Clone, Copy, Debug)]
pub struct ClientInfo {
    pub client_id: u16,
    pub pane_id: PaneId,
    pub is_current_client: bool,
}

/// One tab: its position among the tabs and whether it has the focus.
#[derive(PartialEq, Eq, Structural, Clone, Copy, Debug)]
pub struct TabInfo {
    pub position: usize,
    pub active: bool,
}

/// A notification from the host.
#[derive(Debug, PartialEq, Eq)]
pub enum Event {
    PermissionGranted,
    PermissionDenied,
    ListClients(Vec<ClientInfo>),
    TabUpdate(Vec<TabInfo>),
}

/// Whether the host granted the permissions the picker asked for.
#[derive(PartialEq, Eq, Structural, Clone, Copy, Debug)]
pub enum Permission {
    Unknown,
    Granted,
    Denied,
}

/// A call that the host is asked to perform.
#[derive(Debug, PartialEq, Eq)]
pub enum Action {
    /// Ask for a fresh list of clients (answered by `Event::ListClients`).
    ListClients,
    HidePane(PaneId),
    /// Show a hidden pane again, without floating it.
    ShowPane(PaneId),
    /// Move the panes, in this order, into the tab at this position, and focus it.
    BreakPanesToTab(Vec<PaneId>, usize),
    NewTab,
    FloatPanes(Vec<PaneId>),
    EmbedPanes(Vec<PaneId>),
    HideSelf,
    SetSelectable(bool),
    CloseSelf,
}

/// What an `Action` asks for, with its pane lists as sequences.
pub enum ActionView {
    ListClients,
    HidePane(PaneId),
    ShowPane(PaneId),
    BreakPanesToTab(Seq<PaneId>, usize),
    NewTab,
    FloatPanes(Seq<PaneId>),
    EmbedPanes(Seq<PaneId>),
    HideSelf,
    SetSelectable(bool),
    CloseSelf,
}

impl View for Action {
    type V = ActionView;

    open spec fn view(&self) -> ActionView {
        match self {
            Action::ListClients => ActionView::ListClients,
            Action::HidePane(p) => ActionView::HidePane(*p),
            Action::ShowPane(p) => ActionView::ShowPane(*p),
            Action::BreakPanesToTab(ps, i) => ActionView::BreakPanesToTab(ps@, *i),
            Action::NewTab => ActionView::NewTab,
            Action::FloatPanes(ps) => ActionView::FloatPanes(ps@),
            Action::EmbedPanes(ps) => ActionView::EmbedPanes(ps@),
            Action::HideSelf => ActionView::HideSelf,
            Action::SetSelectable(b) => ActionView::SetSelectable(*b),
            Action::CloseSelf => ActionView::CloseSelf,
        }
    }
}

/// The views of a list of actions, in order.
pub open spec fn actions_view(a: Seq<Action>) -> Seq<ActionView> {
    a.map_values(|x: Action| x@)
}

} // verus!
