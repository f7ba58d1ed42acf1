//! The picker itself: one owned state, stepped by the host's callbacks.
use vstd::prelude::*;
use crate::command::{Command, CommandError};
use crate::machine::{
    State, close_calls, dispatch, focused_pane, focused_pane_in, focused_tab, focused_tab_in,
    handle_event, initial, pick_step, pipe, place_step, replay, setup, show_calls, spike_step,
    toss_step, update,
};
use crate::model::{Action, ActionView, ClientInfo, Event, PaneId, Permission, TabInfo, actions_view};

verus! {

/// The view of a command result: the actions as views, or the error.
pub open spec fn result_view(r: Result<Vec<Action>, CommandError>) -> Result<Seq<ActionView>, CommandError> {
    match r {
        Ok(a) => Ok(actions_view(a@)),
        Err(e) => Err(e),
    }
}

/// The word of a command request, if it carries one.
pub open spec fn payload_view(p: Option<String>) -> Option<Seq<char>> {
    match p {
        Some(w) => Some(w@),
        None => None,
    }
}

proof fn lemma_actions_view_concat(a: Seq<Action>, b: Seq<Action>)
    ensures
        actions_view(a + b) == actions_view(a) + actions_view(b),
{
    assert(actions_view(a + b) =~= actions_view(a) + actions_view(b));
}

/// The pane focused by the first current client.
fn find_focused_pane(clients: &Vec<ClientInfo>) -> (r: Option<PaneId>)
    ensures
        r == focused_pane(clients@),
{
    let mut r: Option<PaneId> = None;
    let mut i: usize = 0;
    while i < clients.len()
        invariant
            i <= clients@.len(),
            r == focused_pane_in(clients@, i as int),
        decreases clients@.len() - i,
    {
        if r.is_none() && clients[i].is_current_client {
            r = Some(clients[i].pane_id);
        }
        i = i + 1;
    }
    r
}

/// The first focused tab.
fn find_focused_tab(tabs: &Vec<TabInfo>) -> (r: Option<TabInfo>)
    ensures
        r == focused_tab(tabs@),
{
    let mut r: Option<TabInfo> = None;
    let mut i: usize = 0;
    while i < tabs.len()
        invariant
            i <= tabs@.len(),
            r == focused_tab_in(tabs@, i as int),
        decreases tabs@.len() - i,
    {
        if r.is_none() && tabs[i].active {
            r = Some(tabs[i]);
        }
        i = i + 1;
    }
    r
}

/// Whether the pane is among the panes.
fn contains_pane(panes: &Vec<PaneId>, p: PaneId) -> (r: bool)
    ensures
        r == panes@.contains(p),
{
    let mut i: usize = 0;
    while i < panes.len()
        invariant
            i <= panes@.len(),
            forall|j: int| 0 <= j < i ==> panes@[j] != p,
        decreases panes@.len() - i,
    {
        if panes[i] == p {
            return true;
        }
        i = i + 1;
    }
    false
}

/// A call to show each pane again, in order.
fn show_all(panes: &Vec<PaneId>) -> (r: Vec<Action>)
    ensures
        actions_view(r@) == show_calls(panes@),
{
    let mut r: Vec<Action> = Vec::new();
    let mut i: usize = 0;
    while i < panes.len()
        invariant
            i <= panes@.len(),
            r@.len() == i,
            forall|j: int| 0 <= j < i ==> r@[j]@ == ActionView::ShowPane(panes@[j]),
        decreases panes@.len() - i,
    {
        r.push(Action::ShowPane(panes[i]));
        i = i + 1;
    }
    assert(actions_view(r@) =~= show_calls(panes@));
    r
}

/// The state of one picker instance.
pub struct Plugin {
    permission: Permission,
    buffered_events: Vec<Event>,
    buffered_command: Option<Command>,
    clients: Option<Vec<ClientInfo>>,
    tabs: Option<Vec<TabInfo>>,
    picked: Vec<PaneId>,
    visible: bool,
}

impl View for Plugin {
    type V = State;

    closed spec fn view(&self) -> State {
        State {
            permission: self.permission,
            buffered: self.buffered_events@,
            pending: self.buffered_command,
            clients: match self.clients {
                Some(c) => Some(c@),
                None => None,
            },
            tabs: match self.tabs {
                Some(t) => Some(t@),
                None => None,
            },
            picked: self.picked@,
            visible: self.visible,
        }
    }
}

impl Plugin {
    /// A picker that was just loaded; a visible one never hides or closes itself.
    pub fn new(visible: bool) -> (r: Plugin)
        ensures
            r@ == initial(visible),
    {
        let r = Plugin {
            permission: Permission::Unknown,
            buffered_events: Vec::new(),
            buffered_command: None,
            clients: None,
            tabs: None,
            picked: Vec::new(),
            visible,
        };
        assert(r@.buffered =~= Seq::<Event>::empty());
        assert(r@.picked =~= Seq::<PaneId>::empty());
        r
    }

    /// The calls that close the picker, unless it stays on screen.
    fn close(&self) -> (r: Vec<Action>)
        ensures
            actions_view(r@) == close_calls(self@),
    {
        let mut r: Vec<Action> = Vec::new();
        if !self.visible {
            r.push(Action::CloseSelf);
        }
        assert(actions_view(r@) =~= close_calls(self@));
        r
    }

    /// Picks the pane of the current client, hiding it, unless already picked.
    fn pick(&mut self) -> (r: Vec<Action>)
        requires
            old(self)@.clients is Some,
        ensures
            (final(self)@, actions_view(r@)) == pick_step(old(self)@),
    {
        let mut r: Vec<Action> = Vec::new();
        let focused = match &self.clients {
            Some(cs) => find_focused_pane(cs),
            None => None,
        };
        if let Some(pane) = focused {
            if !contains_pane(&self.picked, pane) {
                self.picked.push(pane);
                r.push(Action::HidePane(pane));
            }
        }
        assert(actions_view(r@) =~= pick_step(old(self)@).1);
        r
    }

    /// Moves the picked panes into the focused tab; without one, does nothing.
    fn place(&mut self) -> (r: Vec<Action>)
        requires
            old(self)@.tabs is Some,
        ensures
            (final(self)@, actions_view(r@)) == place_step(old(self)@),
    {
        let focused = match &self.tabs {
            Some(ts) => find_focused_tab(ts),
            None => None,
        };
        match focused {
            Some(tab) => {
                let mut r = show_all(&self.picked);
                let ghost shown = r@;
                let mut closing = self.close();
                let mut picked: Vec<PaneId> = Vec::new();
                std::mem::swap(&mut picked, &mut self.picked);
                r.push(Action::BreakPanesToTab(picked, tab.position));
                let ghost moved = r@;
                let ghost closes = closing@;
                r.append(&mut closing);
                proof {
                    lemma_actions_view_concat(moved, closes);
                    assert(actions_view(moved) =~= actions_view(shown).push(moved.last()@));
                    assert(self@.picked =~= Seq::<PaneId>::empty());
                }
                r
            },
            None => {
                let r: Vec<Action> = Vec::new();
                assert(actions_view(r@) =~= Seq::<ActionView>::empty());
                r
            },
        }
    }

    /// Shows the picked panes again and floats (or embeds) them in one call.
    fn release(&mut self, float: bool) -> (r: Vec<Action>)
        ensures
            float ==> (final(self)@, actions_view(r@)) == toss_step(old(self)@),
            !float ==> (final(self)@, actions_view(r@)) == spike_step(old(self)@),
    {
        let mut r = show_all(&self.picked);
        let ghost shown = r@;
        let mut closing = self.close();
        let mut picked: Vec<PaneId> = Vec::new();
        std::mem::swap(&mut picked, &mut self.picked);
        if float {
            r.push(Action::FloatPanes(picked));
        } else {
            r.push(Action::EmbedPanes(picked));
        }
        let ghost moved = r@;
        let ghost closes = closing@;
        r.append(&mut closing);
        proof {
            lemma_actions_view_concat(moved, closes);
            assert(actions_view(moved) =~= actions_view(shown).push(moved.last()@));
            assert(self@.picked =~= Seq::<PaneId>::empty());
        }
        r
    }

    fn toss(&mut self) -> (r: Vec<Action>)
        ensures
            (final(self)@, actions_view(r@)) == toss_step(old(self)@),
    {
        self.release(true)
    }

    fn spike(&mut self) -> (r: Vec<Action>)
        ensures
            (final(self)@, actions_view(r@)) == spike_step(old(self)@),
    {
        self.release(false)
    }

    /// Runs the pending command once both clients and tabs are known.
    fn handle_command(&mut self) -> (r: Vec<Action>)
        ensures
            (final(self)@, actions_view(r@)) == dispatch(old(self)@),
    {
        if self.tabs.is_none() || self.clients.is_none() {
            let r: Vec<Action> = Vec::new();
            assert(actions_view(r@) =~= Seq::<ActionView>::empty());
            return r;
        }
        match self.buffered_command {
            None => {
                let r: Vec<Action> = Vec::new();
                assert(actions_view(r@) =~= Seq::<ActionView>::empty());
                r
            },
            Some(Command::Chuck) => {
                self.tabs = None;
                self.buffered_command = Some(Command::Place);
                let r = vec![Action::NewTab];
                assert(actions_view(r@) =~= seq![ActionView::NewTab]);
                r
            },
            Some(command) => {
                let r = match command {
                    Command::Pick => self.pick(),
                    Command::Place => self.place(),
                    Command::Toss => self.toss(),
                    _ => self.spike(),
                };
                self.buffered_command = None;
                r
            },
        }
    }

    /// A notification once the permission is granted.
    fn handle_event(&mut self, event: Event) -> (r: Vec<Action>)
        ensures
            (final(self)@, actions_view(r@)) == handle_event(old(self)@, event),
    {
        match event {
            Event::ListClients(clients) => {
                self.clients = Some(clients);
                self.handle_command()
            },
            Event::TabUpdate(tabs) => {
                self.tabs = Some(tabs);
                self.clients = None;
                let r = vec![Action::ListClients];
                assert(actions_view(r@) =~= seq![ActionView::ListClients]);
                r
            },
            _ => {
                let r: Vec<Action> = Vec::new();
                assert(actions_view(r@) =~= Seq::<ActionView>::empty());
                r
            },
        }
    }

    /// Enters the granted state and replays the buffered notifications, oldest first.
    fn finish_setup(&mut self) -> (r: Vec<Action>)
        ensures
            (final(self)@, actions_view(r@)) == setup(old(self)@),
    {
        let mut r: Vec<Action> = Vec::new();
        if !self.visible {
            r.push(Action::HideSelf);
            r.push(Action::SetSelectable(false));
        }
        r.push(Action::ListClients);
        assert(actions_view(r@) =~= crate::machine::setup_calls(self.visible));
        let ghost calls = r@;
        self.permission = Permission::Granted;
        self.clients = None;
        let mut events: Vec<Event> = Vec::new();
        std::mem::swap(&mut events, &mut self.buffered_events);
        let ghost start = self@;
        let ghost all = events@;
        assert(start == State { permission: Permission::Granted, buffered: Seq::empty(), clients: None, ..old(self)@ });
        let mut replayed: Vec<Action> = Vec::new();
        while events.len() > 0
            invariant
                replay(start, all).0 == replay(self@, events@).0,
                replay(start, all).1 == actions_view(replayed@) + replay(self@, events@).1,
            decreases events@.len(),
        {
            let ghost before = self@;
            let ghost rest = events@;
            let event = events.remove(0);
            assert(events@ =~= rest.drop_first());
            let mut more = self.handle_event(event);
            let ghost done = replayed@;
            let ghost added = more@;
            replayed.append(&mut more);
            proof {
                lemma_actions_view_concat(done, added);
                assert(replay(before, rest).1 == handle_event(before, rest[0]).1 + replay(self@, events@).1);
                assert(actions_view(replayed@) + replay(self@, events@).1 =~= actions_view(done) + (actions_view(added) + replay(self@, events@).1));
            }
        }
        assert(actions_view(replayed@) + replay(self@, events@).1 =~= actions_view(replayed@));
        r.append(&mut replayed);
        proof {
            lemma_actions_view_concat(calls, replayed@);
        }
        r
    }

    /// Handles a notification from the host and returns the calls to make.
    ///
    /// Before the permission is known, notifications are kept for later; a
    /// grant replays them in arrival order; after a denial nothing more happens.
    pub fn update(&mut self, event: Event) -> (r: Vec<Action>)
        ensures
            (final(self)@, actions_view(r@)) == update(old(self)@, event),
    {
        match event {
            Event::PermissionDenied => {
                self.permission = Permission::Denied;
                let r: Vec<Action> = Vec::new();
                assert(actions_view(r@) =~= Seq::<ActionView>::empty());
                r
            },
            Event::PermissionGranted => {
                if self.permission == Permission::Unknown {
                    self.finish_setup()
                } else {
                    let r: Vec<Action> = Vec::new();
                    assert(actions_view(r@) =~= Seq::<ActionView>::empty());
                    r
                }
            },
            other => {
                if self.permission == Permission::Granted {
                    self.handle_event(other)
                } else {
                    if self.permission == Permission::Unknown {
                        self.buffered_events.push(other);
                    }
                    let r: Vec<Action> = Vec::new();
                    assert(actions_view(r@) =~= Seq::<ActionView>::empty());
                    r
                }
            },
        }
    }

    /// Handles a command request and returns the calls to make.
    ///
    /// A request without a word does nothing. An unknown word, or any word
    /// after the permission was denied, is an error and changes nothing.
    /// Otherwise the command replaces the pending one and runs if the
    /// inventory is complete.
    pub fn pipe(&mut self, payload: Option<String>) -> (r: Result<Vec<Action>, CommandError>)
        ensures
            (final(self)@, result_view(r)) == pipe(old(self)@, payload_view(payload)),
    {
        let word = match payload {
            Some(word) => word,
            None => {
                let r: Vec<Action> = Vec::new();
                assert(actions_view(r@) =~= Seq::<ActionView>::empty());
                return Ok(r);
            },
        };
        let command = match Command::from_word(&word) {
            Ok(command) => command,
            Err(e) => return Err(e),
        };
        if self.permission == Permission::Denied {
            return Err(CommandError::PermissionDenied);
        }
        self.buffered_command = Some(command);
        Ok(self.handle_command())
    }

    /// The picked panes, in the order they were picked.
    pub fn picked(&self) -> (r: &Vec<PaneId>)
        ensures
            r@ == self@.picked,
    {
        &self.picked
    }

    /// The command waiting for a complete inventory, if any.
    pub fn pending(&self) -> (r: Option<Command>)
        ensures
            r == self@.pending,
    {
        self.buffered_command
    }

    /// Whether the host granted the permissions, denied them, or has not answered.
    pub fn permission(&self) -> (r: Permission)
        ensures
            r == self@.permission,
    {
        self.permission
    }

    /// Whether both the clients and the tabs are known.
    pub fn is_ready(&self) -> (r: bool)
        ensures
            r == crate::machine::ready(self@),
    {
        self.clients.is_some() && self.tabs.is_some()
    }

    /// How many notifications wait for the permission.
    pub fn buffered_len(&self) -> (r: usize)
        ensures
            r == self@.buffered.len(),
    {
        self.buffered_events.len()
    }
}

} // verus!
