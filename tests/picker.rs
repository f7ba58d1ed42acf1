use handful::command::{Command, CommandError};
use handful::model::{Action, ClientInfo, Event, PaneId, Permission, TabInfo};
use handful::plugin::Plugin;

fn word(w: &str) -> Option<String> {
    Some(w.to_string())
}

fn client(id: u16, pane: PaneId, current: bool) -> ClientInfo {
    ClientInfo { client_id: id, pane_id: pane, is_current_client: current }
}

fn tab(position: usize, active: bool) -> TabInfo {
    TabInfo { position, active }
}

fn focus(pane: PaneId) -> Event {
    Event::ListClients(vec![client(1, PaneId::Terminal(99), false), client(2, pane, true)])
}

/// A granted picker whose inventory is complete, with tab 3 focused.
fn ready_plugin(visible: bool) -> Plugin {
    let mut p = Plugin::new(visible);
    p.update(Event::PermissionGranted);
    p.update(Event::TabUpdate(vec![tab(0, false), tab(3, true)]));
    p.update(Event::ListClients(vec![client(1, PaneId::Terminal(0), true)]));
    assert!(p.is_ready());
    p
}

#[test]
fn words_name_commands() {
    assert_eq!(Command::from_word(&"pick".to_string()), Ok(Command::Pick));
    assert_eq!(Command::from_word(&"place".to_string()), Ok(Command::Place));
    assert_eq!(Command::from_word(&"chuck".to_string()), Ok(Command::Chuck));
    assert_eq!(Command::from_word(&"toss".to_string()), Ok(Command::Toss));
    assert_eq!(Command::from_word(&"spike".to_string()), Ok(Command::Spike));
}

#[test]
fn other_words_are_refused() {
    assert_eq!(Command::from_word(&"Pick".to_string()), Err(CommandError::UnknownCommand));
    assert_eq!(Command::from_word(&"".to_string()), Err(CommandError::UnknownCommand));
    assert_eq!(Command::from_word(&"picks".to_string()), Err(CommandError::UnknownCommand));
}

#[test]
fn unknown_word_changes_nothing() {
    let mut p = ready_plugin(false);
    assert_eq!(p.pipe(word("grab")), Err(CommandError::UnknownCommand));
    assert_eq!(p.pending(), None);
    assert!(p.picked().is_empty());
}

#[test]
fn missing_payload_is_a_no_op() {
    let mut p = ready_plugin(false);
    assert_eq!(p.pipe(None), Ok(vec![]));
    assert_eq!(p.pending(), None);
    assert!(p.picked().is_empty());
}

#[test]
fn pick_hides_the_focused_pane() {
    let mut p = ready_plugin(false);
    p.update(focus(PaneId::Terminal(5)));
    assert_eq!(p.pipe(word("pick")), Ok(vec![Action::HidePane(PaneId::Terminal(5))]));
    assert_eq!(p.picked(), &vec![PaneId::Terminal(5)]);
    assert_eq!(p.pending(), None);
}

#[test]
fn pick_without_current_client_does_nothing() {
    let mut p = ready_plugin(false);
    p.update(Event::ListClients(vec![client(1, PaneId::Terminal(5), false)]));
    assert_eq!(p.pipe(word("pick")), Ok(vec![]));
    assert!(p.picked().is_empty());
    assert_eq!(p.pending(), None);
}

#[test]
fn pick_uses_the_first_current_client() {
    let mut p = ready_plugin(false);
    p.update(Event::ListClients(vec![
        client(1, PaneId::Terminal(1), false),
        client(2, PaneId::Plugin(2), true),
        client(3, PaneId::Terminal(3), true),
    ]));
    p.pipe(word("pick")).unwrap();
    assert_eq!(p.picked(), &vec![PaneId::Plugin(2)]);
}

#[test]
fn picking_twice_keeps_one_copy() {
    let mut p = ready_plugin(false);
    p.update(focus(PaneId::Terminal(7)));
    assert_eq!(p.pipe(word("pick")), Ok(vec![Action::HidePane(PaneId::Terminal(7))]));
    assert_eq!(p.pipe(word("pick")), Ok(vec![]));
    assert_eq!(p.picked(), &vec![PaneId::Terminal(7)]);
}

#[test]
fn place_moves_picks_in_order() {
    let (a, b, c) = (PaneId::Terminal(1), PaneId::Plugin(2), PaneId::Terminal(3));
    let mut p = ready_plugin(false);
    for pane in [a, b, c] {
        p.update(focus(pane));
        p.pipe(word("pick")).unwrap();
    }
    assert_eq!(p.picked(), &vec![a, b, c]);
    assert_eq!(
        p.pipe(word("place")),
        Ok(vec![
            Action::ShowPane(a),
            Action::ShowPane(b),
            Action::ShowPane(c),
            Action::BreakPanesToTab(vec![a, b, c], 3),
            Action::CloseSelf,
        ])
    );
    assert!(p.picked().is_empty());
    assert_eq!(p.pending(), None);
}

#[test]
fn place_without_focused_tab_keeps_picks() {
    let mut p = ready_plugin(false);
    p.update(focus(PaneId::Terminal(4)));
    p.pipe(word("pick")).unwrap();
    p.update(Event::TabUpdate(vec![tab(0, false), tab(1, false)]));
    p.update(focus(PaneId::Terminal(8)));
    assert_eq!(p.pipe(word("place")), Ok(vec![]));
    assert_eq!(p.picked(), &vec![PaneId::Terminal(4)]);
    assert_eq!(p.pending(), None);
}

#[test]
fn toss_floats_and_clears() {
    let mut p = ready_plugin(false);
    p.update(focus(PaneId::Terminal(4)));
    p.pipe(word("pick")).unwrap();
    assert_eq!(
        p.pipe(word("toss")),
        Ok(vec![
            Action::ShowPane(PaneId::Terminal(4)),
            Action::FloatPanes(vec![PaneId::Terminal(4)]),
            Action::CloseSelf,
        ])
    );
    assert!(p.picked().is_empty());
    assert_eq!(p.pending(), None);
}

#[test]
fn spike_embeds_and_clears() {
    let mut p = ready_plugin(false);
    p.update(focus(PaneId::Terminal(4)));
    p.pipe(word("pick")).unwrap();
    assert_eq!(
        p.pipe(word("spike")),
        Ok(vec![
            Action::ShowPane(PaneId::Terminal(4)),
            Action::EmbedPanes(vec![PaneId::Terminal(4)]),
            Action::CloseSelf,
        ])
    );
    assert!(p.picked().is_empty());
    assert_eq!(p.pending(), None);
}

#[test]
fn chuck_places_into_the_new_tab() {
    let mut p = ready_plugin(false);
    p.update(focus(PaneId::Terminal(4)));
    p.pipe(word("pick")).unwrap();
    assert_eq!(p.pipe(word("chuck")), Ok(vec![Action::NewTab]));
    assert_eq!(p.pending(), Some(Command::Place));
    assert!(!p.is_ready());
    assert_eq!(p.update(Event::TabUpdate(vec![tab(0, false), tab(1, true)])), vec![Action::ListClients]);
    assert_eq!(p.pending(), Some(Command::Place));
    assert_eq!(
        p.update(focus(PaneId::Terminal(8))),
        vec![
            Action::ShowPane(PaneId::Terminal(4)),
            Action::BreakPanesToTab(vec![PaneId::Terminal(4)], 1),
            Action::CloseSelf,
        ]
    );
    assert!(p.picked().is_empty());
    assert_eq!(p.pending(), None);
}

#[test]
fn command_waits_for_clients_after_tab_update() {
    let mut p = ready_plugin(false);
    assert_eq!(p.update(Event::TabUpdate(vec![tab(0, true)])), vec![Action::ListClients]);
    assert_eq!(p.pipe(word("pick")), Ok(vec![]));
    assert_eq!(p.pending(), Some(Command::Pick));
    assert!(p.picked().is_empty());
    assert_eq!(p.update(focus(PaneId::Plugin(6))), vec![Action::HidePane(PaneId::Plugin(6))]);
    assert_eq!(p.picked(), &vec![PaneId::Plugin(6)]);
    assert_eq!(p.pending(), None);
}

#[test]
fn nothing_runs_while_inventory_incomplete() {
    let mut p = Plugin::new(false);
    p.update(Event::PermissionGranted);
    assert_eq!(p.pipe(word("toss")), Ok(vec![]));
    assert_eq!(p.update(focus(PaneId::Terminal(1))), vec![]);
    assert_eq!(p.pending(), Some(Command::Toss));
    assert!(!p.is_ready());
}

#[test]
fn last_command_wins() {
    let mut p = Plugin::new(false);
    p.update(Event::PermissionGranted);
    p.update(Event::TabUpdate(vec![tab(0, true)]));
    assert_eq!(p.pipe(word("pick")), Ok(vec![]));
    assert_eq!(p.pipe(word("toss")), Ok(vec![]));
    assert_eq!(p.pending(), Some(Command::Toss));
    assert_eq!(
        p.update(focus(PaneId::Terminal(1))),
        vec![Action::FloatPanes(vec![]), Action::CloseSelf]
    );
    assert!(p.picked().is_empty());
    assert_eq!(p.pending(), None);
}

#[test]
fn buffered_notifications_replay_on_grant() {
    let focused = PaneId::Terminal(1);
    let mut p = Plugin::new(false);
    assert_eq!(p.pipe(word("pick")), Ok(vec![]));
    assert_eq!(p.update(Event::TabUpdate(vec![tab(0, true)])), vec![]);
    assert_eq!(p.update(Event::ListClients(vec![client(1, focused, true)])), vec![]);
    assert_eq!(p.buffered_len(), 2);
    assert_eq!(p.permission(), Permission::Unknown);
    assert_eq!(
        p.update(Event::PermissionGranted),
        vec![
            Action::HideSelf,
            Action::SetSelectable(false),
            Action::ListClients,
            Action::ListClients,
            Action::HidePane(focused),
        ]
    );
    assert_eq!(p.permission(), Permission::Granted);
    assert_eq!(p.buffered_len(), 0);
    assert_eq!(p.picked(), &vec![focused]);
    assert_eq!(p.pending(), None);
}

#[test]
fn replay_keeps_arrival_order() {
    let mut p = Plugin::new(false);
    p.pipe(word("pick")).unwrap();
    p.update(focus(PaneId::Terminal(1)));
    p.update(Event::TabUpdate(vec![tab(0, true)]));
    p.update(focus(PaneId::Terminal(2)));
    p.update(Event::PermissionGranted);
    assert_eq!(p.picked(), &vec![PaneId::Terminal(2)]);
}

#[test]
fn denied_permission_refuses_commands() {
    let mut p = Plugin::new(false);
    p.update(Event::TabUpdate(vec![tab(0, true)]));
    assert_eq!(p.update(Event::PermissionDenied), vec![]);
    assert_eq!(p.permission(), Permission::Denied);
    assert_eq!(p.pipe(word("pick")), Err(CommandError::PermissionDenied));
    assert_eq!(p.pending(), None);
    assert_eq!(p.update(Event::PermissionGranted), vec![]);
    assert_eq!(p.update(focus(PaneId::Terminal(1))), vec![]);
    assert!(p.picked().is_empty());
    assert_eq!(p.permission(), Permission::Denied);
}

#[test]
fn denial_after_grant_stops_work() {
    let mut p = ready_plugin(false);
    p.update(Event::PermissionDenied);
    assert_eq!(p.pipe(word("pick")), Err(CommandError::PermissionDenied));
    assert!(p.picked().is_empty());
    assert_eq!(p.pending(), None);
}

#[test]
fn second_grant_changes_nothing() {
    let mut p = ready_plugin(false);
    assert_eq!(p.update(Event::PermissionGranted), vec![]);
    assert!(p.is_ready());
}

#[test]
fn visible_picker_neither_hides_nor_closes() {
    let mut p = Plugin::new(true);
    assert_eq!(p.update(Event::PermissionGranted), vec![Action::ListClients]);
    p.update(Event::TabUpdate(vec![tab(2, true)]));
    p.update(focus(PaneId::Terminal(4)));
    p.pipe(word("pick")).unwrap();
    assert_eq!(
        p.pipe(word("place")),
        Ok(vec![Action::ShowPane(PaneId::Terminal(4)), Action::BreakPanesToTab(vec![PaneId::Terminal(4)], 2)])
    );
}
