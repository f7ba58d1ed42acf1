//! Properties of the picker that relate several steps.
use vstd::prelude::*;
use crate::command::{Command, CommandError, command_of};
use crate::machine::{
    State, close_calls, dispatch, focused_pane, focused_tab, handle_event, pipe, ready, replay,
    show_calls, update,
};
use crate::model::{ActionView, ClientInfo, Event, PaneId, Permission, TabInfo};

verus! {

/// Picking twice while the same pane has the focus leaves that pane picked
/// exactly once: the second pick changes nothing and calls nothing.
pub proof fn lemma_pick_twice(s: State, w: Seq<char>)
    requires
        s.permission != Permission::Denied,
        ready(s),
        command_of(w) == Some(Command::Pick),
        s.picked.no_duplicates(),
        focused_pane(s.clients.unwrap()) is Some,
    ensures
        ({
            let p = focused_pane(s.clients.unwrap()).unwrap();
            let first = pipe(s, Some(w));
            let second = pipe(first.0, Some(w));
            &&& second.0 == first.0
            &&& second.1 == Ok::<Seq<ActionView>, CommandError>(Seq::empty())
            &&& second.0.picked.contains(p)
            &&& second.0.picked.no_duplicates()
        }),
{
    let p = focused_pane(s.clients.unwrap()).unwrap();
    let first = pipe(s, Some(w));
    if !s.picked.contains(p) {
        assert(first.0.picked[first.0.picked.len() - 1] == p);
    }
}

/// Picks are kept in the order they were made, and place hands them over in
/// that order: picking the panes `a`, `b`, `c` (the current client focusing
/// each in turn) and then placing moves `[a, b, c]` into the focused tab.
pub proof fn lemma_picks_keep_order(
    s: State,
    pick: Seq<char>,
    place: Seq<char>,
    ca: Vec<ClientInfo>,
    cb: Vec<ClientInfo>,
    cc: Vec<ClientInfo>,
    a: PaneId,
    b: PaneId,
    c: PaneId,
)
    requires
        s.permission == Permission::Granted,
        s.tabs is Some,
        focused_tab(s.tabs.unwrap()) is Some,
        s.pending is None,
        s.picked.len() == 0,
        command_of(pick) == Some(Command::Pick),
        command_of(place) == Some(Command::Place),
        focused_pane(ca@) == Some(a),
        focused_pane(cb@) == Some(b),
        focused_pane(cc@) == Some(c),
        a != b,
        a != c,
        b != c,
    ensures
        ({
            let s1 = pipe(update(s, Event::ListClients(ca)).0, Some(pick)).0;
            let s2 = pipe(update(s1, Event::ListClients(cb)).0, Some(pick)).0;
            let s3 = pipe(update(s2, Event::ListClients(cc)).0, Some(pick)).0;
            let r = pipe(s3, Some(place));
            let t = focused_tab(s.tabs.unwrap()).unwrap();
            &&& s3.picked == seq![a, b, c]
            &&& r.1 == Ok::<Seq<ActionView>, CommandError>(
                show_calls(seq![a, b, c]) + seq![ActionView::BreakPanesToTab(seq![a, b, c], t.position)]
                    + close_calls(s),
            )
            &&& r.0.picked.len() == 0
        }),
{
    let s1 = pipe(update(s, Event::ListClients(ca)).0, Some(pick)).0;
    assert(s1.picked =~= seq![a]);
    let s2 = pipe(update(s1, Event::ListClients(cb)).0, Some(pick)).0;
    assert(!s1.picked.contains(b)) by {
        assert(s1.picked[0] == a);
    }
    assert(s2.picked =~= seq![a, b]);
    assert(!s2.picked.contains(c)) by {
        assert(s2.picked[0] == a && s2.picked[1] == b);
    }
    let s3 = pipe(update(s2, Event::ListClients(cc)).0, Some(pick)).0;
    assert(s3.picked =~= seq![a, b, c]);
}

/// While the clients or the tabs are unknown, dispatch runs nothing and
/// changes nothing.
pub proof fn lemma_no_run_while_incomplete(s: State)
    requires
        !ready(s),
    ensures
        dispatch(s) == (s, Seq::<ActionView>::empty()),
{
}

/// A command that arrives while the inventory is incomplete only becomes the
/// pending command: nothing runs and no call is made.
pub proof fn lemma_command_waits_while_incomplete(s: State, w: Seq<char>, c: Command)
    requires
        s.permission != Permission::Denied,
        !ready(s),
        command_of(w) == Some(c),
    ensures
        pipe(s, Some(w)) == (
            State { pending: Some(c), ..s },
            Ok::<Seq<ActionView>, CommandError>(Seq::empty()),
        ),
{
}

/// New tabs make the clients stale: a command right after a tab update does
/// not run, and waits for a fresh client list.
pub proof fn lemma_tab_update_invalidates(s: State, tabs: Vec<TabInfo>, w: Seq<char>, c: Command)
    requires
        s.permission == Permission::Granted,
        command_of(w) == Some(c),
    ensures
        ({
            let s1 = update(s, Event::TabUpdate(tabs));
            let r = pipe(s1.0, Some(w));
            &&& s1.0.clients is None
            &&& s1.1 == seq![ActionView::ListClients]
            &&& r == (
                State { pending: Some(c), ..s1.0 },
                Ok::<Seq<ActionView>, CommandError>(Seq::empty()),
            )
        }),
{
}

/// After a place into a focused tab, a toss or a spike, nothing is picked and
/// no command is pending.
pub proof fn lemma_clearing(s: State)
    requires
        ready(s),
        s.pending == Some(Command::Toss) || s.pending == Some(Command::Spike) || (s.pending
            == Some(Command::Place) && focused_tab(s.tabs.unwrap()) is Some),
    ensures
        dispatch(s).0.picked.len() == 0,
        dispatch(s).0.pending is None,
{
}

/// A chuck opens a new tab and places the panes there once the new tabs and
/// then the clients are known: nothing is picked and no command is pending
/// after that.
pub proof fn lemma_chuck_clears(s: State, tabs: Vec<TabInfo>, clients: Vec<ClientInfo>)
    requires
        s.permission == Permission::Granted,
        ready(s),
        s.pending == Some(Command::Chuck),
        focused_tab(tabs@) is Some,
    ensures
        ({
            let s1 = dispatch(s);
            let s2 = update(s1.0, Event::TabUpdate(tabs));
            let s3 = update(s2.0, Event::ListClients(clients));
            &&& s1.1 == seq![ActionView::NewTab]
            &&& s1.0.pending == Some(Command::Place)
            &&& s1.0.picked == s.picked
            &&& s3.0.picked.len() == 0
            &&& s3.0.pending is None
            &&& s3.1 == show_calls(s.picked) + seq![
                ActionView::BreakPanesToTab(s.picked, focused_tab(tabs@).unwrap().position),
            ] + close_calls(s)
        }),
{
}

/// Of two commands issued before the inventory is complete, only the second
/// runs once the clients arrive: a pick followed by a toss tosses the panes
/// that were picked before and picks nothing.
pub proof fn lemma_last_write_wins(s: State, w1: Seq<char>, w2: Seq<char>, clients: Vec<ClientInfo>)
    requires
        s.permission == Permission::Granted,
        s.clients is None,
        s.tabs is Some,
        command_of(w1) == Some(Command::Pick),
        command_of(w2) == Some(Command::Toss),
    ensures
        ({
            let s1 = pipe(s, Some(w1));
            let s2 = pipe(s1.0, Some(w2));
            let s3 = update(s2.0, Event::ListClients(clients));
            &&& s1.1 == Ok::<Seq<ActionView>, CommandError>(Seq::empty())
            &&& s2.1 == Ok::<Seq<ActionView>, CommandError>(Seq::empty())
            &&& s2.0.pending == Some(Command::Toss)
            &&& s3.0 == State { picked: Seq::empty(), pending: None, clients: Some(clients@), ..s }
            &&& s3.1 == show_calls(s.picked) + seq![ActionView::FloatPanes(s.picked)] + close_calls(s)
        }),
{
}

proof fn lemma_dispatch_keeps_distinct(s: State)
    requires
        s.picked.no_duplicates(),
    ensures
        dispatch(s).0.picked.no_duplicates(),
{
    let r = dispatch(s).0;
    if ready(s) && s.pending == Some(Command::Pick) && r.picked != s.picked {
        let p = focused_pane(s.clients.unwrap()).unwrap();
        assert(r.picked == s.picked.push(p));
        assert forall|i: int, j: int| 0 <= i < j < r.picked.len() implies r.picked[i] != r.picked[j] by {
            if j == s.picked.len() {
                assert(s.picked[i] == r.picked[i]);
            }
        }
    }
}

proof fn lemma_replay_keeps_distinct(s: State, events: Seq<Event>)
    requires
        s.picked.no_duplicates(),
    ensures
        replay(s, events).0.picked.no_duplicates(),
    decreases events.len(),
{
    if events.len() > 0 {
        let first = handle_event(s, events[0]);
        if let Event::ListClients(cs) = events[0] {
            lemma_dispatch_keeps_distinct(State { clients: Some(cs@), ..s });
        }
        lemma_replay_keeps_distinct(first.0, events.drop_first());
    }
}

/// No notification puts a pane twice among the picked ones.
pub proof fn lemma_update_keeps_distinct(s: State, e: Event)
    requires
        s.picked.no_duplicates(),
    ensures
        update(s, e).0.picked.no_duplicates(),
{
    if e is PermissionGranted && s.permission == Permission::Unknown {
        lemma_replay_keeps_distinct(
            State { permission: Permission::Granted, buffered: Seq::empty(), clients: None, ..s },
            s.buffered,
        );
    } else if let Event::ListClients(cs) = e {
        lemma_dispatch_keeps_distinct(State { clients: Some(cs@), ..s });
    }
}

/// No command request puts a pane twice among the picked ones.
pub proof fn lemma_pipe_keeps_distinct(s: State, payload: Option<Seq<char>>)
    requires
        s.picked.no_duplicates(),
    ensures
        pipe(s, payload).0.picked.no_duplicates(),
{
    if let Some(w) = payload {
        if let Some(c) = command_of(w) {
            lemma_dispatch_keeps_distinct(State { pending: Some(c), ..s });
        }
    }
}

/// Once granted or denied, the permission never becomes unknown again, and a
/// command request never changes it.
pub proof fn lemma_permission_settles(s: State, e: Event, payload: Option<Seq<char>>)
    ensures
        s.permission != Permission::Unknown ==> update(s, e).0.permission != Permission::Unknown,
        pipe(s, payload).0.permission == s.permission,
{
}

} // verus!
