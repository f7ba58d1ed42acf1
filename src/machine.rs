//! The picker as a mathematical state machine: every entry point is a function
//! from a state and an input to the next state and the host calls to make.
use vstd::prelude::*;
use crate::command::{Command, CommandError, command_of};
use crate::model::{ActionView, ClientInfo, Event, PaneId, Permission, TabInfo};

verus! {

/// The whole state of a picker.
pub struct State {
    pub permission: Permission,
    /// Notifications received while the permission was unknown, oldest first.
    pub buffered: Seq<Event>,
    /// The one command waiting for a complete inventory.
    pub pending: Option<Command>,
    pub clients: Option<Seq<ClientInfo>>,
    pub tabs: Option<Seq<TabInfo>>,
    /// The picked panes, in the order they were picked.
    pub picked: Seq<PaneId>,
    /// Whether the picker stays on screen (it then neither hides nor closes itself).
    pub visible: bool,
}

/// The state of a picker that was just loaded.
pub open spec fn initial(visible: bool) -> State {
    State {
        permission: Permission::Unknown,
        buffered: Seq::empty(),
        pending: None,
        clients: None,
        tabs: None,
        picked: Seq::empty(),
        visible,
    }
}

/// Commands may run only when both the clients and the tabs are known.
pub open spec fn ready(s: State) -> bool {
    s.clients is Some && s.tabs is Some
}

/// The pane focused by the first current client among the first `n` clients.
pub open spec fn focused_pane_in(clients: Seq<ClientInfo>, n: int) -> Option<PaneId>
    decreases n,
{
    if n <= 0 {
        None
    } else {
        match focused_pane_in(clients, n - 1) {
            Some(p) => Some(p),
            None => if clients[n - 1].is_current_client {
                Some(clients[n - 1].pane_id)
            } else {
                None
            },
        }
    }
}

/// The pane focused by the first client flagged as current, if any.
pub open spec fn focused_pane(clients: Seq<ClientInfo>) -> Option<PaneId> {
    focused_pane_in(clients, clients.len() as int)
}

/// The first focused tab among the first `n` tabs.
pub open spec fn focused_tab_in(tabs: Seq<TabInfo>, n: int) -> Option<TabInfo>
    decreases n,
{
    if n <= 0 {
        None
    } else {
        match focused_tab_in(tabs, n - 1) {
            Some(t) => Some(t),
            None => if tabs[n - 1].active {
                Some(tabs[n - 1])
            } else {
                None
            },
        }
    }
}

/// The first tab flagged as focused, if any.
pub open spec fn focused_tab(tabs: Seq<TabInfo>) -> Option<TabInfo> {
    focused_tab_in(tabs, tabs.len() as int)
}

/// Closing the picker, unless it stays on screen.
pub open spec fn close_calls(s: State) -> Seq<ActionView> {
    if s.visible {
        Seq::empty()
    } else {
        seq![ActionView::CloseSelf]
    }
}

/// Showing each pane again, in order.
pub open spec fn show_calls(panes: Seq<PaneId>) -> Seq<ActionView> {
    panes.map_values(|p: PaneId| ActionView::ShowPane(p))
}

/// Pick: hide the pane of the current client and add it, unless already picked.
pub open spec fn pick_step(s: State) -> (State, Seq<ActionView>) {
    match s.clients {
        Some(cs) => match focused_pane(cs) {
            Some(p) => if s.picked.contains(p) {
                (s, Seq::empty())
            } else {
                (State { picked: s.picked.push(p), ..s }, seq![ActionView::HidePane(p)])
            },
            None => (s, Seq::empty()),
        },
        None => (s, Seq::empty()),
    }
}

/// Place: move the picked panes into the focused tab; without one, nothing happens.
pub open spec fn place_step(s: State) -> (State, Seq<ActionView>) {
    match s.tabs {
        Some(ts) => match focused_tab(ts) {
            Some(t) => (
                State { picked: Seq::empty(), ..s },
                show_calls(s.picked) + seq![ActionView::BreakPanesToTab(s.picked, t.position)]
                    + close_calls(s),
            ),
            None => (s, Seq::empty()),
        },
        None => (s, Seq::empty()),
    }
}

/// Toss: float the picked panes.
pub open spec fn toss_step(s: State) -> (State, Seq<ActionView>) {
    (
        State { picked: Seq::empty(), ..s },
        show_calls(s.picked) + seq![ActionView::FloatPanes(s.picked)] + close_calls(s),
    )
}

/// Spike: embed the picked panes among the tiled ones.
pub open spec fn spike_step(s: State) -> (State, Seq<ActionView>) {
    (
        State { picked: Seq::empty(), ..s },
        show_calls(s.picked) + seq![ActionView::EmbedPanes(s.picked)] + close_calls(s),
    )
}

/// Runs the pending command if the inventory is complete.
///
/// Chuck asks for a new tab, forgets the tabs, and leaves Place pending: the
/// panes go to the new tab once the refreshed inventory arrives.
pub open spec fn dispatch(s: State) -> (State, Seq<ActionView>) {
    if !ready(s) {
        (s, Seq::empty())
    } else {
        match s.pending {
            None => (s, Seq::empty()),
            Some(Command::Chuck) => (
                State { tabs: None, pending: Some(Command::Place), ..s },
                seq![ActionView::NewTab],
            ),
            Some(Command::Pick) => {
                let r = pick_step(s);
                (State { pending: None, ..r.0 }, r.1)
            },
            Some(Command::Place) => {
                let r = place_step(s);
                (State { pending: None, ..r.0 }, r.1)
            },
            Some(Command::Toss) => {
                let r = toss_step(s);
                (State { pending: None, ..r.0 }, r.1)
            },
            Some(Command::Spike) => {
                let r = spike_step(s);
                (State { pending: None, ..r.0 }, r.1)
            },
        }
    }
}

/// A notification once the permission is granted.
///
/// New tabs make the known clients stale: they are dropped and asked for again.
/// New clients complete the inventory and may let the pending command run.
pub open spec fn handle_event(s: State, e: Event) -> (State, Seq<ActionView>) {
    match e {
        Event::ListClients(cs) => dispatch(State { clients: Some(cs@), ..s }),
        Event::TabUpdate(ts) => (
            State { tabs: Some(ts@), clients: None, ..s },
            seq![ActionView::ListClients],
        ),
        _ => (s, Seq::empty()),
    }
}

/// Handles the notifications in order, oldest first.
pub open spec fn replay(s: State, events: Seq<Event>) -> (State, Seq<ActionView>)
    decreases events.len(),
{
    if events.len() == 0 {
        (s, Seq::empty())
    } else {
        let first = handle_event(s, events[0]);
        let rest = replay(first.0, events.drop_first());
        (rest.0, first.1 + rest.1)
    }
}

/// The calls made when the permission is granted, before the replay.
pub open spec fn setup_calls(visible: bool) -> Seq<ActionView> {
    if visible {
        seq![ActionView::ListClients]
    } else {
        seq![ActionView::HideSelf, ActionView::SetSelectable(false), ActionView::ListClients]
    }
}

/// Entering the granted state: hide the picker, ask for the clients, and
/// replay the buffered notifications in the order they came.
pub open spec fn setup(s: State) -> (State, Seq<ActionView>) {
    let s1 = State {
        permission: Permission::Granted,
        buffered: Seq::empty(),
        clients: None,
        ..s
    };
    let r = replay(s1, s.buffered);
    (r.0, setup_calls(s.visible) + r.1)
}

/// A notification from the host, whatever the permission.
pub open spec fn update(s: State, e: Event) -> (State, Seq<ActionView>) {
    match e {
        Event::PermissionDenied => (State { permission: Permission::Denied, ..s }, Seq::empty()),
        Event::PermissionGranted => match s.permission {
            Permission::Unknown => setup(s),
            _ => (s, Seq::empty()),
        },
        _ => match s.permission {
            Permission::Unknown => (State { buffered: s.buffered.push(e), ..s }, Seq::empty()),
            Permission::Granted => handle_event(s, e),
            Permission::Denied => (s, Seq::empty()),
        },
    }
}

/// A command request: a missing word does nothing, an unknown word or a denied
/// permission is an error without effect; otherwise the command becomes the
/// pending one, replacing any earlier, and runs if it can.
pub open spec fn pipe(s: State, payload: Option<Seq<char>>) -> (State, Result<Seq<ActionView>, CommandError>) {
    match payload {
        None => (s, Ok(Seq::empty())),
        Some(word) => match command_of(word) {
            None => (s, Err(CommandError::UnknownCommand)),
            Some(c) => if s.permission == Permission::Denied {
                (s, Err(CommandError::PermissionDenied))
            } else {
                let r = dispatch(State { pending: Some(c), ..s });
                (r.0, Ok(r.1))
            },
        },
    }
}

} // verus!
