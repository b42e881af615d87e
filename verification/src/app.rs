//! The state of the interface and the kinds of things it shows.
use vstd::prelude::*;
use crate::model::{ChangeInfo, ChannelInfo, ConnectionInfo, InterfaceInfo, LocalSnap, SlotRef, StoreSnapInfo};
use crate::nav::ListState;

verus! {

/// Which pane or dialog has the keyboard.
#[derive(Clone, Copy, PartialEq, Eq, Structural, Debug)]
pub enum AppMode {
    Browse,
    Manage,
    ChannelPicker,
    ChannelInput,
    /// Waiting for the user to confirm installing a classic-confinement snap.
    /// Holds the snap name and optional channel so we can retry with classic=true.
    ClassicConfirm,
    Changes,
    /// Picking a slot to connect a plug to.
    SlotPicker,
    /// A yes/no question (a connection prompt) is showing.
    Confirm,
}

/// The order of the snap list.
#[derive(Clone, Copy, PartialEq, Eq, Structural, Debug)]
pub enum SortMode {
    NameAsc,
    NameDesc,
    RevisionDesc,
}

impl SortMode {
    pub fn label(&self) -> (r: &'static str)
        ensures
            r@ == match *self {
                SortMode::NameAsc => "A→Z"@,
                SortMode::NameDesc => "Z→A"@,
                SortMode::RevisionDesc => "Newest"@,
            },
    {
        match self {
            SortMode::NameAsc => "A→Z",
            SortMode::NameDesc => "Z→A",
            SortMode::RevisionDesc => "Newest",
        }
    }
}

/// An action of the manage panel.
#[derive(Clone, Copy, PartialEq, Eq, Structural, Debug)]
pub enum ManageAction {
    Install,
    InstallFromChannel,
    Refresh,
    SwitchChannel,
    Revert,
    Enable,
    Disable,
    Uninstall,
    /// Uninstall without keeping a snapshot of the snap's data.
    UninstallPurge,
    OpenStorePage,
    OpenContactPage,
}

impl ManageAction {
    pub open spec fn label_text(self) -> Seq<char> {
        match self {
            ManageAction::Install => "Install"@,
            ManageAction::InstallFromChannel => "Install from channel…"@,
            ManageAction::Refresh => "Refresh to latest"@,
            ManageAction::SwitchChannel => "Switch channel…"@,
            ManageAction::Revert => "Revert to previous version"@,
            ManageAction::Enable => "Enable"@,
            ManageAction::Disable => "Disable"@,
            ManageAction::Uninstall => "Uninstall"@,
            ManageAction::UninstallPurge => "Uninstall and remove data"@,
            ManageAction::OpenStorePage => "Open store page"@,
            ManageAction::OpenContactPage => "Open contact page"@,
        }
    }

    pub fn label(&self) -> (r: &'static str)
        ensures
            r@ == self.label_text(),
    {
        match self {
            ManageAction::Install => "Install",
            ManageAction::InstallFromChannel => "Install from channel…",
            ManageAction::Refresh => "Refresh to latest",
            ManageAction::SwitchChannel => "Switch channel…",
            ManageAction::Revert => "Revert to previous version",
            ManageAction::Enable => "Enable",
            ManageAction::Disable => "Disable",
            ManageAction::Uninstall => "Uninstall",
            ManageAction::UninstallPurge => "Uninstall and remove data",
            ManageAction::OpenStorePage => "Open store page",
            ManageAction::OpenContactPage => "Open contact page",
        }
    }

    pub open spec fn wants_channel(self) -> bool {
        self == ManageAction::SwitchChannel || self == ManageAction::InstallFromChannel
    }

    /// Whether the action asks for a channel first.
    pub fn needs_channel_input(&self) -> (r: bool)
        ensures
            r == self.wants_channel(),
    {
        match self {
            ManageAction::SwitchChannel | ManageAction::InstallFromChannel => true,
            _ => false,
        }
    }
}

/// A plug or slot of the managed snap, with its connection if it has one.
pub struct ConnectionItem {
    pub interface_name: String,
    pub plug_snap: String,
    pub plug_name: String,
    pub slot_snap: String,
    pub slot_name: String,
    pub connected: bool,
    pub is_plug: bool,
}

/// A connection item as text values.
pub struct ConnectionItemView {
    pub interface_name: Seq<char>,
    pub plug_snap: Seq<char>,
    pub plug_name: Seq<char>,
    pub slot_snap: Seq<char>,
    pub slot_name: Seq<char>,
    pub connected: bool,
    pub is_plug: bool,
}

impl View for ConnectionItem {
    type V = ConnectionItemView;

    open spec fn view(&self) -> ConnectionItemView {
        ConnectionItemView {
            interface_name: self.interface_name@,
            plug_snap: self.plug_snap@,
            plug_name: self.plug_name@,
            slot_snap: self.slot_snap@,
            slot_name: self.slot_name@,
            connected: self.connected,
            is_plug: self.is_plug,
        }
    }
}

impl ConnectionItem {
    pub fn duplicate(&self) -> (r: ConnectionItem)
        ensures
            r == *self,
    {
        ConnectionItem {
            interface_name: self.interface_name.clone(),
            plug_snap: self.plug_snap.clone(),
            plug_name: self.plug_name.clone(),
            slot_snap: self.slot_snap.clone(),
            slot_name: self.slot_name.clone(),
            connected: self.connected,
            is_plug: self.is_plug,
        }
    }
}

pub open spec fn items_view(items: Seq<ConnectionItem>) -> Seq<ConnectionItemView> {
    items.map_values(|c: ConnectionItem| c@)
}

/// A question waiting for the user's answer.
pub enum ConfirmPending {
    /// Connect a plug of a newly installed snap to the one system slot of its
    /// interface.
    AutoConnect { plug_snap: String, plug_name: String, interface_name: String, slot: SlotRef },
    /// Run an action that changes the snap in a way that is hard to undo
    /// (uninstall, revert, disable) on the snap of this name.
    Action { snap_name: String, action: ManageAction },
}

/// A question as text values.
pub enum PromptView {
    /// Connect the plug (snap, name) of the interface to the slot (snap, name).
    AutoConnect {
        plug_snap: Seq<char>,
        plug_name: Seq<char>,
        interface_name: Seq<char>,
        slot: (Seq<char>, Seq<char>),
    },
    /// Run the action on the snap of this name.
    Action { snap_name: Seq<char>, action: ManageAction },
}

impl View for ConfirmPending {
    type V = PromptView;

    open spec fn view(&self) -> PromptView {
        match self {
            ConfirmPending::AutoConnect { plug_snap, plug_name, interface_name, slot } =>
                PromptView::AutoConnect {
                plug_snap: plug_snap@,
                plug_name: plug_name@,
                interface_name: interface_name@,
                slot: slot@,
            },
            ConfirmPending::Action { snap_name, action } => PromptView::Action {
                snap_name: snap_name@,
                action: *action,
            },
        }
    }
}

pub open spec fn prompts_view(q: Seq<ConfirmPending>) -> Seq<PromptView> {
    q.map_values(|c: ConfirmPending| c@)
}

/// The question shown for a prompt: "Connect interface '<name>'?" for a
/// connection, "<action label>: <snap>?" for an action.
pub open spec fn prompt_message(p: PromptView) -> Seq<char> {
    match p {
        PromptView::AutoConnect { interface_name, .. } => "Connect interface '"@ + interface_name
            + "'?"@,
        PromptView::Action { snap_name, action } => action.label_text() + ": "@ + snap_name + "?"@,
    }
}

impl ConfirmPending {
    pub fn duplicate(&self) -> (r: ConfirmPending)
        ensures
            r == *self,
    {
        match self {
            ConfirmPending::AutoConnect { plug_snap, plug_name, interface_name, slot } => {
                ConfirmPending::AutoConnect {
                    plug_snap: plug_snap.clone(),
                    plug_name: plug_name.clone(),
                    interface_name: interface_name.clone(),
                    slot: slot.duplicate(),
                }
            },
            ConfirmPending::Action { snap_name, action } => ConfirmPending::Action {
                snap_name: snap_name.clone(),
                action: *action,
            },
        }
    }

    /// The question shown for this prompt.
    pub fn message(&self) -> (m: String)
        ensures
            m@ == prompt_message(self@),
    {
        match self {
            ConfirmPending::AutoConnect { interface_name, .. } => {
                let mut m = "Connect interface '".to_owned();
                m.append(interface_name.as_str());
                m.append("'?");
                m
            },
            ConfirmPending::Action { snap_name, action } => {
                let mut m = action.label().to_owned();
                m.append(": ");
                m.append(snap_name.as_str());
                m.append("?");
                m
            },
        }
    }
}

/// The whole state of the interface.
pub struct App {
    pub installed: Vec<LocalSnap>,
    pub store_results: Vec<StoreSnapInfo>,
    pub search_query: String,
    pub search_focused: bool,
    pub list_state: ListState,
    pub loading: bool,
    pub error: Option<String>,
    pub status_message: Option<String>,
    pub showing_results: bool,
    pub show_installed_only: bool,
    pub sort_mode: SortMode,
    pub mode: AppMode,
    pub manage_actions: Vec<ManageAction>,
    pub manage_state: ListState,
    pub active_change_id: Option<String>,
    pub active_change: Option<ChangeInfo>,
    pub show_changes_sidebar: bool,
    pub sidebar_changes: Vec<ChangeInfo>,
    pub changes_list: Vec<ChangeInfo>,
    pub changes_list_state: ListState,
    pub changes_detail_state: ListState,
    pub changes_focus_detail: bool,
    pub available_channels: Vec<(String, ChannelInfo)>,
    pub channel_picker_state: ListState,
    pub channel_input: String,
    pub pending_channel_action: Option<ManageAction>,
    /// Snap name / channel waiting for classic confirmation.
    pub classic_pending: Option<(String, Option<String>)>,
    /// Name of the snap currently open in the manage panel.
    /// Persists through close_manage so reload() can restore the selection.
    pub managed_snap_name: Option<String>,
    pub snap_interfaces: Vec<InterfaceInfo>,
    /// Active connections fetched from /v2/connections — used to determine
    /// connected state because select=all does not populate Plug.connections.
    pub snap_connections: Vec<ConnectionInfo>,
    pub interfaces_loading: bool,
    pub connections_mode: bool,
    pub connections_state: ListState,
    /// Plug being connected — shown in slot picker overlay.
    pub slot_picker_plug: Option<ConnectionItem>,
    /// Available slots to connect to (populated when entering SlotPicker mode).
    pub slot_picker_items: Vec<SlotRef>,
    pub slot_picker_state: ListState,
    /// Connection prompts still to show after an install.
    pub auto_connect_queue: Vec<ConfirmPending>,
    /// The question that is showing, if any.
    pub confirm_pending: Option<ConfirmPending>,
    pub confirm_message: Option<String>,
    /// Which answer the pointer is over: `Some(true)` for yes.
    pub confirm_hovered: Option<bool>,
}

/// The sort order after `m` when cycling: A→Z, Z→A, Newest, A→Z again.
pub open spec fn next_sort_mode(m: SortMode) -> SortMode {
    match m {
        SortMode::NameAsc => SortMode::NameDesc,
        SortMode::NameDesc => SortMode::RevisionDesc,
        SortMode::RevisionDesc => SortMode::NameAsc,
    }
}

/// `a` with the focus moved between the search box and the list.
pub open spec fn focus_toggled(a: App) -> App {
    App { search_focused: !a.search_focused, ..a }
}

impl App {
    /// The state at start: the installed list, empty, first row selected,
    /// sorted by name.
    pub fn new() -> (app: App)
        ensures
            app.installed@.len() == 0,
            app.store_results@.len() == 0,
            app.search_query@.len() == 0,
            !app.search_focused,
            app.list_state.selected == Some(0usize),
            !app.loading,
            app.error is None,
            app.status_message is None,
            !app.showing_results,
            !app.show_installed_only,
            app.sort_mode == SortMode::NameAsc,
            app.mode == AppMode::Browse,
            app.manage_actions@.len() == 0,
            app.manage_state.selected is None,
            app.active_change_id is None,
            app.active_change is None,
            !app.show_changes_sidebar,
            app.sidebar_changes@.len() == 0,
            app.changes_list@.len() == 0,
            app.changes_list_state.selected is None,
            app.changes_detail_state.selected is None,
            !app.changes_focus_detail,
            app.available_channels@.len() == 0,
            app.channel_picker_state.selected is None,
            app.channel_input@.len() == 0,
            app.pending_channel_action is None,
            app.classic_pending is None,
            app.managed_snap_name is None,
            app.snap_interfaces@.len() == 0,
            app.snap_connections@.len() == 0,
            !app.interfaces_loading,
            !app.connections_mode,
            app.connections_state.selected is None,
            app.slot_picker_plug is None,
            app.slot_picker_items@.len() == 0,
            app.slot_picker_state.selected is None,
            app.auto_connect_queue@.len() == 0,
            app.confirm_pending is None,
            app.confirm_message is None,
            app.confirm_hovered is None,
    {
        App {
            installed: Vec::new(),
            store_results: Vec::new(),
            search_query: String::new(),
            search_focused: false,
            list_state: ListState::with_selected(Some(0)),
            loading: false,
            error: None,
            status_message: None,
            showing_results: false,
            show_installed_only: false,
            sort_mode: SortMode::NameAsc,
            mode: AppMode::Browse,
            manage_actions: Vec::new(),
            manage_state: ListState::new(),
            active_change_id: None,
            active_change: None,
            show_changes_sidebar: false,
            sidebar_changes: Vec::new(),
            changes_list: Vec::new(),
            changes_list_state: ListState::new(),
            changes_detail_state: ListState::new(),
            changes_focus_detail: false,
            available_channels: Vec::new(),
            channel_picker_state: ListState::new(),
            channel_input: String::new(),
            pending_channel_action: None,
            classic_pending: None,
            managed_snap_name: None,
            snap_interfaces: Vec::new(),
            snap_connections: Vec::new(),
            interfaces_loading: false,
            connections_mode: false,
            connections_state: ListState::new(),
            slot_picker_plug: None,
            slot_picker_items: Vec::new(),
            slot_picker_state: ListState::new(),
            auto_connect_queue: Vec::new(),
            confirm_pending: None,
            confirm_message: None,
            confirm_hovered: None,
        }
    }

    pub fn toggle_focus(&mut self)
        ensures
            *final(self) == focus_toggled(*old(self)),
    {
        self.search_focused = !self.search_focused;
    }

    pub fn toggle_installed_filter(&mut self)
        ensures
            *final(self) == (App {
                show_installed_only: !old(self).show_installed_only,
                list_state: ListState { selected: Some(0) },
                ..*old(self)
            }),
    {
        self.show_installed_only = !self.show_installed_only;
        self.list_state.select(Some(0));
    }

    pub fn toggle_changes_sidebar(&mut self)
        ensures
            *final(self) == (App {
                show_changes_sidebar: !old(self).show_changes_sidebar,
                sidebar_changes: final(self).sidebar_changes,
                ..*old(self)
            }),
            final(self).sidebar_changes@ == if final(self).show_changes_sidebar {
                Seq::empty()
            } else {
                old(self).sidebar_changes@
            },
    {
        self.show_changes_sidebar = !self.show_changes_sidebar;
        if self.show_changes_sidebar {
            self.sidebar_changes.clear();
        }
    }

    pub fn cycle_sort(&mut self)
        ensures
            *final(self) == (App {
                sort_mode: next_sort_mode(old(self).sort_mode),
                list_state: ListState { selected: Some(0) },
                ..*old(self)
            }),
    {
        self.sort_mode =
        match self.sort_mode {
            SortMode::NameAsc => SortMode::NameDesc,
            SortMode::NameDesc => SortMode::RevisionDesc,
            SortMode::RevisionDesc => SortMode::NameAsc,
        };
        self.list_state.select(Some(0));
    }
}

} // verus!
