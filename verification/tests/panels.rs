use snap_rat::app::{App, AppMode, ConfirmPending, ManageAction};
use snap_rat::channels::channel_sort_key;
use snap_rat::changes::sort_changes;
use snap_rat::icons::{icon_source, IconFetches, IconSource};
use snap_rat::model::{
    ChangeInfo, ChannelInfo, ConnectionInfo, InterfaceInfo, LocalSnap, PlugInfo, PlugRef,
    SlotInfo, SlotRef, SnapdError, TaskInfo,
};
use snap_rat::requests::{ActionStep, SnapdRequest};
use snap_rat::resume::{is_elevation_needed, pending_action, replay_request, ResumeAction};

fn local(name: &str) -> LocalSnap {
    LocalSnap {
        name: name.to_string(),
        title: None,
        version: Some("1".to_string()),
        summary: None,
        description: None,
        publisher: None,
        confinement: None,
        channel: None,
        tracking_channel: None,
        contact: None,
        icon: None,
        installed_size: None,
        install_date: None,
    }
}

fn app_with(installed: Vec<LocalSnap>) -> App {
    let mut app = App::new();
    app.installed = installed;
    app
}

fn change(id: &str, ready: bool, spawn: &str, tasks: usize) -> ChangeInfo {
    ChangeInfo {
        id: id.to_string(),
        kind: "install-snap".to_string(),
        summary: String::new(),
        status: "Doing".to_string(),
        spawn_time: Some(spawn.to_string()),
        ready_time: None,
        tasks: (0..tasks)
            .map(|i| TaskInfo {
                id: i.to_string(),
                kind: "k".to_string(),
                summary: String::new(),
                status: "Do".to_string(),
                progress_done: 0,
                progress_total: 1,
            })
            .collect(),
        err: None,
        ready,
    }
}

fn plug(snap: &str, name: &str) -> PlugInfo {
    PlugInfo { snap: Some(snap.to_string()), plug: name.to_string() }
}

fn slot(snap: Option<&str>, name: &str) -> SlotInfo {
    SlotInfo { snap: snap.map(|s| s.to_string()), slot: name.to_string() }
}

fn iface(name: &str, plugs: Vec<PlugInfo>, slots: Vec<SlotInfo>) -> InterfaceInfo {
    InterfaceInfo { name: name.to_string(), summary: None, plugs, slots }
}

fn conn(plug_snap: &str, plug_name: &str, slot_snap: &str, slot_name: &str) -> ConnectionInfo {
    ConnectionInfo {
        plug: PlugRef { snap: plug_snap.to_string(), plug: plug_name.to_string() },
        slot: SlotRef { snap: slot_snap.to_string(), slot: slot_name.to_string() },
    }
}

fn accepted(id: &str) -> Result<String, SnapdError> {
    Ok(id.to_string())
}

#[test]
fn manage_action_labels_and_channel_actions() {
    assert_eq!(ManageAction::Install.label(), "Install");
    assert_eq!(ManageAction::InstallFromChannel.label(), "Install from channel…");
    assert_eq!(ManageAction::Revert.label(), "Revert to previous version");
    assert_eq!(ManageAction::OpenContactPage.label(), "Open contact page");
    assert!(ManageAction::SwitchChannel.needs_channel_input());
    assert!(ManageAction::InstallFromChannel.needs_channel_input());
    assert!(!ManageAction::Refresh.needs_channel_input());
    assert!(App::action_needs_confirm(&ManageAction::Uninstall));
    assert!(App::action_needs_confirm(&ManageAction::UninstallPurge));
    assert_eq!(ManageAction::UninstallPurge.label(), "Uninstall and remove data");
    assert!(App::action_needs_confirm(&ManageAction::Disable));
    assert!(!App::action_needs_confirm(&ManageAction::Install));
}

#[test]
fn open_manage_for_installed_snap_with_contact() {
    let mut s = local("foo");
    s.contact = Some("https://foo.example".to_string());
    let mut app = app_with(vec![s]);
    app.open_manage();
    assert_eq!(app.mode, AppMode::Manage);
    assert_eq!(app.managed_snap_name.as_deref(), Some("foo"));
    assert_eq!(
        app.manage_actions,
        vec![
            ManageAction::Refresh,
            ManageAction::SwitchChannel,
            ManageAction::Revert,
            ManageAction::Enable,
            ManageAction::Disable,
            ManageAction::Uninstall,
            ManageAction::UninstallPurge,
            ManageAction::OpenStorePage,
            ManageAction::OpenContactPage,
        ]
    );
    assert_eq!(app.manage_state.selected(), Some(0));
    app.manage_prev();
    assert_eq!(app.manage_state.selected(), Some(0));
    app.manage_next();
    assert_eq!(app.selected_manage_action(), Some(ManageAction::SwitchChannel));
}

#[test]
fn open_manage_without_selection_does_nothing() {
    let mut app = App::new();
    app.open_manage();
    assert_eq!(app.mode, AppMode::Browse);
}

#[test]
fn close_manage_keeps_change_and_managed_name() {
    let mut app = app_with(vec![local("foo")]);
    app.open_manage();
    app.active_change_id = Some("7".to_string());
    app.close_manage();
    assert_eq!(app.mode, AppMode::Browse);
    assert!(app.manage_actions.is_empty());
    assert_eq!(app.active_change_id.as_deref(), Some("7"));
    assert_eq!(app.managed_snap_name.as_deref(), Some("foo"));
}

#[test]
fn close_manage_drops_the_connection_prompt() {
    let mut app = app_with(vec![local("foo")]);
    app.open_manage();
    app.queue_auto_connect_prompts(
        "foo",
        Ok(vec![iface("network", vec![plug("foo", "network")], vec![slot(Some("snapd"), "network")])]),
        Ok(vec![]),
    );
    assert!(app.confirm_pending.is_some());
    app.close_manage();
    assert!(app.confirm_pending.is_none());
    assert!(app.confirm_message.is_none());
}

#[test]
fn execute_action_builds_requests() {
    let mut app = App::new();
    let step = app.execute_action("foo".to_string(), ManageAction::Install, Some("edge".to_string()));
    assert!(matches!(step, ActionStep::Request(SnapdRequest::Install { ref name, channel: None }) if name == "foo"));
    assert!(app.loading);
    let mut app = App::new();
    let step = app.execute_action("foo".to_string(), ManageAction::SwitchChannel, Some("edge".to_string()));
    assert!(matches!(step, ActionStep::Request(SnapdRequest::SwitchChannel { ref channel, .. }) if channel.as_deref() == Some("edge")));
    let mut app = App::new();
    let step = app.execute_action("foo".to_string(), ManageAction::Uninstall, None);
    assert!(matches!(step, ActionStep::Request(SnapdRequest::Remove { .. })));
    let mut app = App::new();
    let step = app.execute_action("foo".to_string(), ManageAction::UninstallPurge, None);
    assert!(matches!(step, ActionStep::Request(SnapdRequest::RemovePurge { ref name }) if name == "foo"));
}

#[test]
fn execute_action_refuses_while_a_change_runs() {
    let mut app = App::new();
    app.active_change_id = Some("1".to_string());
    let step = app.execute_action("foo".to_string(), ManageAction::Refresh, None);
    assert!(matches!(step, ActionStep::Done));
    assert_eq!(app.status_message.as_deref(), Some("Operation already in progress"));
    assert!(!app.loading);
}

#[test]
fn store_and_contact_pages() {
    let mut app = App::new();
    let step = app.execute_action("foo".to_string(), ManageAction::OpenStorePage, None);
    assert!(matches!(step, ActionStep::OpenUrl(ref u) if u == "https://snapcraft.io/foo"));
    assert_eq!(app.status_message.as_deref(), Some("Opened store page"));
    let mut s = local("foo");
    s.contact = Some("mailto:me@example.com".to_string());
    let mut app = app_with(vec![s]);
    let step = app.execute_action("foo".to_string(), ManageAction::OpenContactPage, None);
    assert!(matches!(step, ActionStep::OpenUrl(ref u) if u == "mailto:me@example.com"));
    assert_eq!(app.status_message.as_deref(), Some("Opened contact page"));
    let mut app = App::new();
    let step = app.execute_action("bar".to_string(), ManageAction::OpenContactPage, None);
    assert!(matches!(step, ActionStep::Done));
}

#[test]
fn finish_request_tracks_change() {
    let mut app = App::new();
    app.begin_request();
    app.finish_request(SnapdRequest::Refresh { name: "foo".to_string() }, accepted("42"));
    assert_eq!(app.active_change_id.as_deref(), Some("42"));
    assert_eq!(app.status_message.as_deref(), Some("Refreshing…"));
    assert!(!app.loading);
}

#[test]
fn finish_request_asks_for_classic() {
    let mut app = App::new();
    let err = SnapdError::Api {
        kind: "snap-needs-classic".to_string(),
        message: "snapd error (snap-needs-classic): needs classic".to_string(),
    };
    app.finish_request(
        SnapdRequest::Install { name: "code".to_string(), channel: Some("beta".to_string()) },
        Err(err),
    );
    assert_eq!(app.mode, AppMode::ClassicConfirm);
    assert_eq!(app.classic_pending, Some(("code".to_string(), Some("beta".to_string()))));
    assert!(app.error.is_none());
    let step = app.confirm_classic();
    assert!(matches!(step, ActionStep::Request(SnapdRequest::InstallClassic { ref name, .. }) if name == "code"));
    assert_eq!(app.mode, AppMode::Manage);
    app.finish_request(
        SnapdRequest::InstallClassic { name: "code".to_string(), channel: None },
        accepted("9"),
    );
    assert_eq!(app.status_message.as_deref(), Some("Installing (classic)…"));
}

#[test]
fn finish_request_shows_other_errors() {
    let mut app = App::new();
    let err = SnapdError::Api { kind: "snap-not-found".to_string(), message: "not found".to_string() };
    app.finish_request(SnapdRequest::Install { name: "x".to_string(), channel: None }, Err(err));
    assert_eq!(app.error.as_deref(), Some("not found"));
    assert_eq!(app.mode, AppMode::Browse);
    let mut app = App::new();
    let err = SnapdError::Api { kind: "snap-needs-classic".to_string(), message: "m".to_string() };
    app.finish_request(SnapdRequest::Refresh { name: "x".to_string() }, Err(err));
    assert_eq!(app.error.as_deref(), Some("m"));
}

#[test]
fn cancel_classic_returns_to_manage() {
    let mut app = App::new();
    app.classic_pending = Some(("a".to_string(), None));
    app.mode = AppMode::ClassicConfirm;
    app.error = Some("e".to_string());
    app.cancel_classic();
    assert!(app.classic_pending.is_none());
    assert_eq!(app.mode, AppMode::Manage);
    assert!(app.error.is_none());
    assert!(matches!(app.confirm_classic(), ActionStep::Done));
}

#[test]
fn tick_follows_the_change() {
    let mut app = App::new();
    app.active_change_id = Some("1".to_string());
    let next = app.tick(Ok(change("1", false, "t", 0)));
    assert!(!next.reload);
    assert!(app.active_change.is_some());
    app.mode = AppMode::Manage;
    let next = app.tick(Ok(change("1", true, "t", 0)));
    assert!(next.reload);
    assert!(next.reload_interfaces_for.is_none());
    assert!(app.active_change_id.is_none());
    assert_eq!(app.mode, AppMode::Browse);
    assert_eq!(app.status_message.as_deref(), Some("Done"));
}

#[test]
fn tick_shows_change_error_and_failed_poll() {
    let mut app = App::new();
    app.active_change_id = Some("1".to_string());
    let mut c = change("1", true, "t", 0);
    c.err = Some("cannot install".to_string());
    let next = app.tick(Ok(c));
    assert!(!next.reload);
    assert_eq!(app.error.as_deref(), Some("cannot install"));
    let mut app = App::new();
    app.active_change_id = Some("1".to_string());
    let next = app.tick(Err(SnapdError::Other { message: "gone".to_string() }));
    assert!(!next.reload);
    assert_eq!(app.error.as_deref(), Some("gone"));
    assert!(app.active_change_id.is_none());
}

#[test]
fn tick_in_connections_reloads_interfaces() {
    let mut app = app_with(vec![local("foo")]);
    app.connections_mode = true;
    app.mode = AppMode::Manage;
    app.active_change_id = Some("1".to_string());
    let next = app.tick(Ok(change("1", true, "t", 0)));
    assert_eq!(next.reload_interfaces_for.as_deref(), Some("foo"));
    assert_eq!(app.mode, AppMode::Manage);
}

fn connections_app() -> App {
    let mut app = app_with(vec![local("foo")]);
    app.load_snap_interfaces(
        "foo",
        Ok(vec![
            iface("network", vec![plug("foo", "network")], vec![slot(Some("snapd"), "network")]),
            iface(
                "audio",
                vec![plug("foo", "audio")],
                vec![slot(Some("snapd"), "audio"), slot(Some("pulse"), "audio")],
            ),
            iface("content", vec![], vec![slot(Some("foo"), "data")]),
            iface("camera", vec![plug("foo", "camera")], vec![]),
        ]),
        Ok(vec![conn("foo", "network", "snapd", "network")]),
    );
    app
}

#[test]
fn connection_items_are_sorted_and_marked() {
    let app = connections_app();
    let items = app.connection_items();
    let names: Vec<(String, bool, bool)> =
        items.iter().map(|c| (c.interface_name.clone(), c.is_plug, c.connected)).collect();
    assert_eq!(
        names,
        vec![
            ("audio".to_string(), true, false),
            ("camera".to_string(), true, false),
            ("content".to_string(), false, false),
            ("network".to_string(), true, true),
        ]
    );
    assert_eq!(items[3].slot_snap, "snapd");
    assert_eq!(items[2].slot_snap, "foo");
    assert_eq!(app.connections_state.selected(), Some(0));
    assert!(!app.interfaces_loading);
}

#[test]
fn connections_navigation() {
    let mut app = connections_app();
    app.connections_next();
    assert_eq!(app.connections_state.selected(), Some(1));
    app.connections_page_down();
    assert_eq!(app.connections_state.selected(), Some(3));
    app.connections_prev();
    assert_eq!(app.connections_state.selected(), Some(2));
    app.connections_page_up();
    assert_eq!(app.connections_state.selected(), Some(0));
    app.toggle_connections_mode();
    assert!(app.connections_mode);
    app.close_connections_mode();
    assert!(!app.connections_mode);
}

#[test]
fn connect_picks_slot_or_opens_picker() {
    let mut app = connections_app();
    let step = app.connect_selected();
    assert!(matches!(step, ActionStep::Done));
    assert_eq!(app.mode, AppMode::SlotPicker);
    assert_eq!(app.slot_picker_items.len(), 2);
    app.slot_picker_prev();
    assert_eq!(app.slot_picker_state.selected(), Some(1));
    app.slot_picker_next();
    assert_eq!(app.slot_picker_state.selected(), Some(0));
    let step = app.confirm_slot_pick();
    assert!(matches!(step, ActionStep::Request(SnapdRequest::Connect { ref slot_snap, ref slot_name, .. }) if slot_snap == "snapd" && slot_name == "audio"));
    assert_eq!(app.mode, AppMode::Manage);
    assert!(app.slot_picker_items.is_empty());
}

#[test]
fn connect_errors() {
    let mut app = connections_app();
    app.connections_state.select(Some(1));
    assert!(matches!(app.connect_selected(), ActionStep::Done));
    assert_eq!(app.error.as_deref(), Some("No available slots for interface 'camera'"));
    app.connections_state.select(Some(2));
    app.connect_selected();
    assert_eq!(app.error.as_deref(), Some("Select a plug to create a new connection"));
    app.connections_state.select(Some(3));
    app.connect_selected();
    assert_eq!(app.status_message.as_deref(), Some("Connection already active"));
    app.active_change_id = Some("1".to_string());
    app.connect_selected();
    assert_eq!(app.status_message.as_deref(), Some("Operation already in progress"));
}

#[test]
fn disconnect_and_activate() {
    let mut app = connections_app();
    app.connections_state.select(Some(3));
    let step = app.activate_selected_connection();
    assert!(matches!(step, ActionStep::Request(SnapdRequest::Disconnect { ref plug_name, ref slot_snap, .. }) if plug_name == "network" && slot_snap == "snapd"));
    let mut app = connections_app();
    app.connections_state.select(Some(0));
    app.disconnect_selected();
    assert_eq!(app.status_message.as_deref(), Some("Connection already disconnected"));
    app.close_slot_picker();
    assert_eq!(app.mode, AppMode::Manage);
}

#[test]
fn auto_connect_prompts_for_single_system_slot() {
    let mut app = App::new();
    app.queue_auto_connect_prompts(
        "foo",
        Ok(vec![
            iface("network", vec![plug("foo", "network")], vec![slot(Some("snapd"), "network")]),
            iface("x11", vec![plug("foo", "x11")], vec![slot(None, "x11")]),
            iface("home", vec![plug("foo", "home")], vec![slot(Some("snapd"), "home")]),
            iface("audio", vec![plug("foo", "audio")], vec![slot(Some("a"), "audio")]),
        ]),
        Ok(vec![conn("foo", "home", "snapd", "home")]),
    );
    assert_eq!(app.auto_connect_queue.len(), 1);
    let ConfirmPending::AutoConnect { interface_name: rest, .. } = &app.auto_connect_queue[0] else {
        panic!("expected a connection prompt");
    };
    assert_eq!(rest, "x11");
    assert_eq!(app.mode, AppMode::Confirm);
    assert_eq!(app.confirm_message.as_deref(), Some("Connect interface 'network'?"));
    assert_eq!(app.confirm_hovered, Some(false));
    let Some(ConfirmPending::AutoConnect { slot, .. }) = app.confirm_pending.as_ref() else {
        panic!("expected a connection prompt");
    };
    assert_eq!(slot.snap, "snapd");
    let before = app.confirm_message.clone();
    app.pop_auto_connect_prompt();
    assert_eq!(app.confirm_message, before);
    assert_eq!(app.auto_connect_queue.len(), 1);
    app.confirm_pending = None;
    app.mode = AppMode::Manage;
    app.pop_auto_connect_prompt();
    assert_eq!(app.confirm_message.as_deref(), Some("Connect interface 'x11'?"));
    assert!(app.auto_connect_queue.is_empty());
}

#[test]
fn auto_connect_prompts_need_interfaces() {
    let mut app = App::new();
    app.queue_auto_connect_prompts("foo", Err(SnapdError::Other { message: "x".to_string() }), Ok(vec![]));
    assert!(app.auto_connect_queue.is_empty());
    assert_eq!(app.mode, AppMode::Browse);
}

#[test]
fn changes_sort_in_progress_first_newest_first() {
    let sorted = sort_changes(vec![
        change("1", true, "2024-01-03", 0),
        change("2", false, "2024-01-01", 0),
        change("3", false, "2024-01-02", 0),
        change("4", true, "2024-01-04", 0),
    ]);
    let ids: Vec<&str> = sorted.iter().map(|c| c.id.as_str()).collect();
    assert_eq!(ids, vec!["3", "2", "4", "1"]);
}

#[test]
fn load_and_poll_changes_keep_selection() {
    let mut app = App::new();
    app.load_changes(Ok(vec![change("b", false, "1", 0), change("a", false, "2", 2)]));
    let ids: Vec<&str> = app.changes_list.iter().map(|c| c.id.as_str()).collect();
    assert_eq!(ids, vec!["a", "b"]);
    assert_eq!(app.changes_list_state.selected(), Some(0));
    assert_eq!(app.changes_detail_state.selected(), Some(0));
    app.changes_detail_next();
    assert_eq!(app.changes_detail_state.selected(), Some(1));
    app.changes_detail_prev();
    assert_eq!(app.changes_detail_state.selected(), Some(0));
    app.changes_next();
    assert_eq!(app.selected_change().unwrap().id, "b");
    app.poll_changes(Ok(vec![change("c", false, "3", 0), change("a", false, "2", 2), change("b", false, "1", 0)]));
    assert_eq!(app.selected_change().unwrap().id, "b");
    assert_eq!(app.changes_list_state.selected(), Some(2));
    app.changes_prev();
    assert_eq!(app.changes_list_state.selected(), Some(1));
    app.load_changes(Err(SnapdError::Other { message: "no".to_string() }));
    assert_eq!(app.error.as_deref(), Some("no"));
}

#[test]
fn load_changes_puts_running_changes_first() {
    let mut app = App::new();
    app.load_changes(Ok(vec![change("done", true, "5", 0), change("running", false, "1", 1)]));
    let ids: Vec<&str> = app.changes_list.iter().map(|c| c.id.as_str()).collect();
    assert_eq!(ids, vec!["running", "done"]);
    assert_eq!(app.changes_detail_state.selected(), Some(0));
}

#[test]
fn poll_without_selection_selects_first_change() {
    let mut app = App::new();
    assert_eq!(app.changes_list_state.selected(), None);
    app.poll_changes(Ok(vec![change("a", false, "1", 0), change("b", false, "2", 0)]));
    assert_eq!(app.changes_list_state.selected(), Some(0));
    assert_eq!(app.selected_change().unwrap().id, "b");
    let mut empty = App::new();
    empty.poll_changes(Ok(vec![]));
    assert_eq!(empty.changes_list_state.selected(), None);
}

#[test]
fn abort_selected_change() {
    let mut app = App::new();
    app.load_changes(Ok(vec![change("a", true, "1", 0)]));
    assert!(app.abort_selected_change().is_none());
    assert_eq!(app.status_message.as_deref(), Some("Change already finished"));
    let mut app = App::new();
    app.load_changes(Ok(vec![change("a", false, "1", 0)]));
    assert_eq!(app.abort_selected_change(), Some("a".to_string()));
    assert!(app.finish_abort_change(Ok(())));
    assert_eq!(app.status_message.as_deref(), Some("Abort requested"));
    assert!(!app.finish_abort_change(Err(SnapdError::Other { message: "busy".to_string() })));
    assert_eq!(app.error.as_deref(), Some("busy"));
}

#[test]
fn sidebar_poll() {
    let mut app = App::new();
    app.poll_sidebar_changes(Ok(vec![change("a", false, "1", 0)]));
    assert_eq!(app.sidebar_changes.len(), 1);
    app.poll_sidebar_changes(Err(SnapdError::Other { message: "x".to_string() }));
    assert_eq!(app.sidebar_changes.len(), 1);
}

#[test]
fn channel_sort_keys() {
    assert_eq!(channel_sort_key("stable"), (0, "latest".to_string(), 0, String::new()));
    assert_eq!(channel_sort_key("latest/stable"), channel_sort_key("stable"));
    assert_eq!(channel_sort_key("latest/edge"), (0, "latest".to_string(), 3, String::new()));
    assert_eq!(channel_sort_key("2.0/beta/hotfix"), (1, "2.0".to_string(), 2, "hotfix".to_string()));
    assert_eq!(channel_sort_key("a/b/c/d"), (1, "a".to_string(), 4, "c/d".to_string()));
    assert_eq!(channel_sort_key("candidate"), (0, "latest".to_string(), 1, String::new()));
}

fn info() -> ChannelInfo {
    ChannelInfo { revision: Some(1), confinement: None, version: None, channel: None, size: None, released_at: None }
}

#[test]
fn channel_picker_flow() {
    let mut app = app_with(vec![local("foo")]);
    let step = app.open_channel_picker(ManageAction::SwitchChannel);
    assert!(matches!(step, ActionStep::FindChannels(ref n) if n == "foo"));
    assert_eq!(app.pending_channel_action, Some(ManageAction::SwitchChannel));
    app.finish_open_channel_picker(Ok(Some(vec![
        ("latest/edge".to_string(), info()),
        ("2.0/stable".to_string(), info()),
        ("latest/stable".to_string(), info()),
        ("latest/beta".to_string(), info()),
    ])));
    let names: Vec<&str> = app.available_channels.iter().map(|c| c.0.as_str()).collect();
    assert_eq!(names, vec!["latest/stable", "latest/beta", "latest/edge", "2.0/stable", ""]);
    assert!(app.available_channels[4].1.revision.is_none());
    assert_eq!(app.mode, AppMode::ChannelPicker);
    app.channel_picker_next();
    let step = app.confirm_channel_pick();
    assert!(matches!(step, ActionStep::Request(SnapdRequest::SwitchChannel { ref channel, .. }) if channel.as_deref() == Some("latest/beta")));
    assert_eq!(app.mode, AppMode::Manage);
    assert!(app.available_channels.is_empty());
}

#[test]
fn channel_picker_typing_entry() {
    let mut app = app_with(vec![local("foo")]);
    app.open_channel_picker(ManageAction::InstallFromChannel);
    app.finish_open_channel_picker(Ok(None));
    assert_eq!(app.available_channels.len(), 1);
    assert!(matches!(app.confirm_channel_pick(), ActionStep::Done));
    assert_eq!(app.mode, AppMode::ChannelInput);
    app.channel_input = "  beta \n".to_string();
    let step = app.execute_channel_action();
    assert!(matches!(step, ActionStep::Request(SnapdRequest::Install { ref channel, .. }) if channel.as_deref() == Some("beta")));
    assert!(app.channel_input.is_empty());
}

#[test]
fn channel_input_blank_means_no_channel() {
    let mut app = app_with(vec![local("foo")]);
    app.open_channel_picker(ManageAction::SwitchChannel);
    app.channel_input = "   ".to_string();
    let step = app.execute_channel_action();
    assert!(matches!(step, ActionStep::Request(SnapdRequest::SwitchChannel { channel: None, .. })));
}

#[test]
fn channel_picker_lookup_failure_and_closing() {
    let mut app = app_with(vec![local("foo")]);
    app.open_channel_picker(ManageAction::SwitchChannel);
    app.finish_open_channel_picker(Err(SnapdError::Other { message: "offline".to_string() }));
    assert_eq!(app.error.as_deref(), Some("offline"));
    assert!(app.pending_channel_action.is_none());
    app.open_custom_channel_input();
    assert_eq!(app.mode, AppMode::ChannelInput);
    app.close_channel_input();
    assert_eq!(app.mode, AppMode::Manage);
    app.close_channel_picker();
    assert_eq!(app.mode, AppMode::Manage);
    app.channel_picker_prev();
    assert_eq!(app.channel_picker_state.selected(), None);
}

#[test]
fn selected_action_runs_or_opens_picker() {
    let mut app = app_with(vec![local("foo")]);
    app.open_manage();
    let step = app.execute_selected_action();
    assert!(matches!(step, ActionStep::Request(SnapdRequest::Refresh { ref name }) if name == "foo"));
    let mut app = app_with(vec![local("foo")]);
    app.open_manage();
    app.manage_next();
    let step = app.execute_selected_action();
    assert!(matches!(step, ActionStep::FindChannels(_)));
}

#[test]
fn icon_sources() {
    assert!(matches!(icon_source("/v2/icons/firefox/icon"), IconSource::Snapd(ref n) if n == "firefox"));
    assert!(matches!(icon_source("https://example.com/i.png"), IconSource::Web(ref u) if u == "https://example.com/i.png"));
}

#[test]
fn elevation_and_kinds() {
    assert!(is_elevation_needed(&SnapdError::Transport { message: "x".to_string() }));
    let denied = SnapdError::Api { kind: "access-denied".to_string(), message: "m".to_string() };
    assert!(is_elevation_needed(&denied));
    assert!(denied.is_kind("access-denied"));
    assert!(!denied.is_kind("forbidden"));
    let other = SnapdError::Api { kind: "snap-not-found".to_string(), message: "m".to_string() };
    assert!(!is_elevation_needed(&other));
    assert!(!is_elevation_needed(&SnapdError::Other { message: "x".to_string() }));
}

#[test]
fn resume_action_snap_name() {
    let a = ResumeAction::SwitchChannel { snap_name: "foo".to_string(), channel: "edge".to_string() };
    assert_eq!(a.snap_name(), "foo");
    assert_eq!(ResumeAction::UninstallPurge { snap_name: "bar".to_string() }.snap_name(), "bar");
}

#[test]
fn refused_request_is_replayed_after_restart() {
    let req = SnapdRequest::Install { name: "vlc".to_string(), channel: Some("beta".to_string()) };
    let action = pending_action(req).expect("installs are replayed");
    assert!(matches!(&action, ResumeAction::Install { snap_name, channel: Some(c) } if snap_name == "vlc" && c == "beta"));
    let again = replay_request(action);
    assert!(matches!(again, SnapdRequest::Install { name, channel: Some(c) } if name == "vlc" && c == "beta"));

    let purge = pending_action(SnapdRequest::RemovePurge { name: "vlc".to_string() }).unwrap();
    assert!(matches!(replay_request(purge), SnapdRequest::RemovePurge { name } if name == "vlc"));

    let switch = pending_action(SnapdRequest::SwitchChannel { name: "vlc".to_string(), channel: None }).unwrap();
    assert!(matches!(&switch, ResumeAction::Refresh { channel: None, .. }));
    assert!(matches!(replay_request(switch), SnapdRequest::Refresh { name } if name == "vlc"));
}

#[test]
fn connections_are_not_replayed() {
    let req = SnapdRequest::Connect {
        plug_snap: "vlc".to_string(),
        plug_name: "camera".to_string(),
        slot_snap: "snapd".to_string(),
        slot_name: "camera".to_string(),
    };
    assert!(pending_action(req).is_none());
    let refresh = ResumeAction::Refresh { snap_name: "vlc".to_string(), channel: Some("edge".to_string()) };
    assert!(matches!(replay_request(refresh), SnapdRequest::SwitchChannel { name, channel: Some(c) } if name == "vlc" && c == "edge"));
}

#[test]
fn channel_order_latest_first_then_risks() {
    assert!(channel_sort_key("latest/edge") < channel_sort_key("2.0/stable"));
    assert!(channel_sort_key("2.0/stable") < channel_sort_key("2.0/candidate"));
    assert!(channel_sort_key("2.0/candidate") < channel_sort_key("2.0/beta"));
    assert!(channel_sort_key("2.0/beta") < channel_sort_key("2.0/edge"));
    assert!(channel_sort_key("2.0/edge") < channel_sort_key("2.0/nightly"));
}

#[test]
fn icon_fetched_once() {
    let mut f = IconFetches::new();
    assert!(!f.start("https://a/icon.png", false));
    assert!(f.start("https://a/icon.png", true));
    assert!(!f.start("https://a/icon.png", true));
    assert!(f.start("/v2/icons/foo/icon", true));
    f.finish("https://a/icon.png");
    assert_eq!(f.fetching, vec!["/v2/icons/foo/icon".to_string()]);
    assert!(!f.start("https://a/icon.png", true));
}

#[test]
fn icon_finished_twice_is_listed_once() {
    let mut f = IconFetches::new();
    assert!(f.start("u", true));
    f.finish("u");
    f.finish("u");
    assert_eq!(f.done, vec!["u".to_string()]);
    assert!(f.fetching.is_empty());
}

#[test]
fn elevation_saves_the_state_to_resume() {
    let mut app = App::new();
    app.search_query = "vlc".to_string();
    app.show_installed_only = true;
    let denied = SnapdError::Api { kind: "login-required".to_string(), message: "m".to_string() };
    let req = SnapdRequest::Remove { name: "vlc".to_string() };
    let state = app.elevation_after(&req, &denied, false).expect("a restart is due");
    assert_eq!(state.selected_snap.as_deref(), Some("vlc"));
    assert_eq!(state.search_query, "vlc");
    assert!(state.show_installed_only);
    assert!(matches!(state.pending, Some(ResumeAction::Uninstall { ref snap_name }) if snap_name == "vlc"));
    assert!(app.elevation_after(&req, &denied, true).is_none());
    let other = SnapdError::Api { kind: "snap-not-found".to_string(), message: "m".to_string() };
    assert!(app.elevation_after(&req, &other, false).is_none());
    let conn = SnapdRequest::Disconnect {
        plug_snap: "a".to_string(),
        plug_name: "b".to_string(),
        slot_snap: "c".to_string(),
        slot_name: "d".to_string(),
    };
    let state = app.elevation_after(&conn, &denied, false).expect("a restart is due");
    assert_eq!(state.selected_snap.as_deref(), Some("a"));
    assert!(state.pending.is_none());
}

#[test]
fn uninstall_asks_first() {
    let mut app = app_with(vec![local("foo")]);
    app.open_manage();
    for _ in 0..5 {
        app.manage_next();
    }
    assert_eq!(app.selected_manage_action(), Some(ManageAction::Uninstall));
    let step = app.execute_selected_action();
    assert!(matches!(step, ActionStep::Done));
    assert_eq!(app.mode, AppMode::Confirm);
    assert_eq!(app.confirm_message.as_deref(), Some("Uninstall: foo?"));
    let step = app.answer_prompt(false);
    assert!(matches!(step, ActionStep::Done));
    assert_eq!(app.mode, AppMode::Manage);
    assert!(app.confirm_pending.is_none());
    app.manage_next();
    assert_eq!(app.selected_manage_action(), Some(ManageAction::UninstallPurge));
    app.execute_selected_action();
    assert_eq!(app.confirm_message.as_deref(), Some("Uninstall and remove data: foo?"));
    let step = app.answer_prompt(true);
    assert!(matches!(step, ActionStep::Request(SnapdRequest::RemovePurge { ref name }) if name == "foo"));
    assert!(app.loading);
    assert!(app.confirm_message.is_none());
}

#[test]
fn accepted_connection_prompt_connects() {
    let mut app = App::new();
    app.queue_auto_connect_prompts(
        "foo",
        Ok(vec![iface("network", vec![plug("foo", "network")], vec![slot(Some("snapd"), "network")])]),
        Ok(vec![]),
    );
    let step = app.answer_prompt(true);
    assert!(matches!(step, ActionStep::Request(SnapdRequest::Connect { ref plug_snap, ref plug_name, ref slot_snap, ref slot_name })
        if plug_snap == "foo" && plug_name == "network" && slot_snap == "snapd" && slot_name == "network"));
    assert_eq!(app.mode, AppMode::Browse);
    assert!(matches!(app.answer_prompt(true), ActionStep::Done));
}
