//! The manage panel: the actions offered for a snap and running them.
use vstd::prelude::*;
use crate::app::{App, AppMode, ConfirmPending, ManageAction, PromptView, prompt_message};
use crate::connections::is_named;
use crate::browse::selected_row;
use crate::nav::{ListState, next_index, prev_index, step_down, step_up};
use crate::requests::{ActionStep, RequestView, SnapdRequest, StepView};
use crate::types::DisplaySnap;

verus! {

/// The actions offered for a snap: the installed-snap actions or the
/// install actions, then the store page, then the contact page when the
/// snap has a contact.
pub open spec fn manage_actions_for(d: DisplaySnap) -> Seq<ManageAction> {
    let main = if d.installed {
        seq![
            ManageAction::Refresh,
            ManageAction::SwitchChannel,
            ManageAction::Revert,
            ManageAction::Enable,
            ManageAction::Disable,
            ManageAction::Uninstall,
            ManageAction::UninstallPurge,
        ]
    } else {
        seq![ManageAction::Install, ManageAction::InstallFromChannel]
    };
    let with_store = main.push(ManageAction::OpenStorePage);
    if d.contact is Some {
        with_store.push(ManageAction::OpenContactPage)
    } else {
        with_store
    }
}

/// `after` is `before` with the manage panel closed: back to browsing, with
/// the actions, channel picker, classic confirmation, connection prompt,
/// interfaces and slot picker cleared. The managed snap's name stays, so that a reload can
/// select it again; a change that is running stays tracked.
pub open spec fn manage_closed(before: App, after: App) -> bool {
    &&& after.manage_actions@.len() == 0
    &&& after.available_channels@.len() == 0
    &&& after.channel_input@.len() == 0
    &&& after.snap_interfaces@.len() == 0
    &&& after.snap_connections@.len() == 0
    &&& after.slot_picker_items@.len() == 0
    &&& after == App {
        mode: AppMode::Browse,
        manage_actions: after.manage_actions,
        available_channels: after.available_channels,
        channel_picker_state: ListState { selected: None },
        channel_input: after.channel_input,
        pending_channel_action: None,
        classic_pending: None,
        confirm_pending: None,
        confirm_message: None,
        snap_interfaces: after.snap_interfaces,
        snap_connections: after.snap_connections,
        interfaces_loading: false,
        connections_mode: false,
        connections_state: ListState { selected: None },
        slot_picker_plug: None,
        slot_picker_items: after.slot_picker_items,
        slot_picker_state: ListState { selected: None },
        ..before
    }
}

/// The action that the manage selection points at.
pub open spec fn selected_action(app: App) -> Option<ManageAction> {
    match app.manage_state.selected {
        Some(i) => if i < app.manage_actions@.len() {
            Some(app.manage_actions@[i as int])
        } else {
            None
        },
        None => None,
    }
}

/// Whether an action asks for confirmation before it runs.
pub open spec fn needs_confirm(action: ManageAction) -> bool {
    action == ManageAction::Uninstall || action == ManageAction::UninstallPurge || action
        == ManageAction::Revert || action == ManageAction::Disable
}

/// `f` is `o` with the question whether to run `action` on the snap `name`
/// showing.
pub open spec fn action_confirm_asked(o: App, f: App, name: String, action: ManageAction) -> bool {
    &&& is_named(
        f.confirm_message,
        prompt_message(PromptView::Action { snap_name: name@, action }),
    )
    &&& f == App {
        confirm_pending: Some(ConfirmPending::Action { snap_name: name, action }),
        confirm_message: f.confirm_message,
        confirm_hovered: Some(false),
        mode: AppMode::Confirm,
        ..o
    }
}

/// Where the keyboard goes once a question is answered: back to the manage
/// panel when it is open, else to the snap list.
pub open spec fn mode_after_prompt(o: App) -> AppMode {
    if o.manage_actions@.len() > 0 {
        AppMode::Manage
    } else {
        AppMode::Browse
    }
}

/// What accepting a connection prompt does to `o` (the question already
/// taken down), giving `f` and `step`: nothing starts while a change is
/// running; otherwise the state waits for snapd and the connection is
/// asked for.
pub open spec fn prompt_connect_outcome(
    o: App,
    f: App,
    step: ActionStep,
    plug_snap: Seq<char>,
    plug_name: Seq<char>,
    slot: (Seq<char>, Seq<char>),
) -> bool {
    if o.active_change_id is Some {
        &&& step@ == StepView::Done
        &&& is_named(f.status_message, "Operation already in progress"@)
        &&& f == App { status_message: f.status_message, ..o }
    } else {
        &&& step@ == StepView::Request(
            RequestView::Connect { plug_snap, plug_name, slot_snap: slot.0, slot_name: slot.1 },
        )
        &&& f == App { loading: true, error: None, status_message: None, ..o }
    }
}

impl App {
    pub fn manage_next(&mut self)
        ensures
            *final(self) == (App {
                manage_state: ListState {
                    selected: step_down(
                        old(self).manage_state.selected,
                        old(self).manage_actions@.len(),
                    ),
                },
                ..*old(self)
            }),
    {
        let i = next_index(self.manage_state.selected(), self.manage_actions.len());
        self.manage_state.select(i);
    }

    pub fn manage_prev(&mut self)
        ensures
            *final(self) == (App {
                manage_state: ListState {
                    selected: step_up(old(self).manage_state.selected, old(self).manage_actions@.len()),
                },
                ..*old(self)
            }),
    {
        let i = prev_index(self.manage_state.selected(), self.manage_actions.len());
        self.manage_state.select(i);
    }

    /// Opens the manage panel for the selected snap, with its actions and
    /// the first one selected.
    pub fn open_manage(&mut self)
        ensures
            match selected_row(*old(self)) {
                None => *final(self) == *old(self),
                Some(d) => {
                    &&& final(self).manage_actions@ == manage_actions_for(d)
                    &&& final(self).snap_interfaces@.len() == 0
                    &&& final(self).snap_connections@.len() == 0
                    &&& *final(self) == (App {
                        managed_snap_name: Some(d.name),
                        manage_actions: final(self).manage_actions,
                        manage_state: ListState { selected: Some(0) },
                        snap_interfaces: final(self).snap_interfaces,
                        snap_connections: final(self).snap_connections,
                        interfaces_loading: false,
                        connections_mode: false,
                        connections_state: ListState { selected: None },
                        mode: AppMode::Manage,
                        error: None,
                        status_message: None,
                        ..*old(self)
                    })
                },
            },
    {
        let snap = match self.selected_snap() {
            Some(s) => s,
            None => return,
        };
        let mut actions: Vec<ManageAction> = Vec::new();
        if snap.installed {
            actions.push(ManageAction::Refresh);
            actions.push(ManageAction::SwitchChannel);
            actions.push(ManageAction::Revert);
            actions.push(ManageAction::Enable);
            actions.push(ManageAction::Disable);
            actions.push(ManageAction::Uninstall);
            actions.push(ManageAction::UninstallPurge);
        } else {
            actions.push(ManageAction::Install);
            actions.push(ManageAction::InstallFromChannel);
        }
        actions.push(ManageAction::OpenStorePage);
        if snap.contact.is_some() {
            actions.push(ManageAction::OpenContactPage);
        }
        assert(actions@ =~= manage_actions_for(snap));
        self.managed_snap_name = Some(snap.name);
        self.manage_actions = actions;
        self.manage_state = ListState::with_selected(Some(0));
        self.snap_interfaces.clear();
        self.snap_connections.clear();
        self.interfaces_loading = false;
        self.connections_mode = false;
        self.connections_state = ListState::new();
        self.mode = AppMode::Manage;
        self.error = None;
        self.status_message = None;
    }

    /// Closes the manage panel and goes back to browsing.
    pub fn close_manage(&mut self)
        ensures
            manage_closed(*old(self), *final(self)),
    {
        self.mode = AppMode::Browse;
        self.manage_actions.clear();
        self.available_channels.clear();
        self.channel_picker_state = ListState::new();
        self.channel_input = String::new();
        self.pending_channel_action = None;
        self.classic_pending = None;
        self.confirm_pending = None;
        self.confirm_message = None;
        self.snap_interfaces.clear();
        self.snap_connections.clear();
        self.interfaces_loading = false;
        self.connections_mode = false;
        self.connections_state = ListState::new();
        self.slot_picker_plug = None;
        self.slot_picker_items.clear();
        self.slot_picker_state = ListState::new();
    }

    /// Whether an action asks for confirmation before it runs (the two
    /// uninstalls, revert, disable).
    pub fn action_needs_confirm(action: &ManageAction) -> (r: bool)
        ensures
            r == needs_confirm(*action),
    {
        match action {
            ManageAction::Uninstall | ManageAction::UninstallPurge | ManageAction::Revert
            | ManageAction::Disable => true,
            _ => false,
        }
    }

    /// The action that the manage selection points at.
    pub fn selected_manage_action(&self) -> (r: Option<ManageAction>)
        ensures
            r == selected_action(*self),
    {
        let idx = match self.manage_state.selected() {
            Some(i) => i,
            None => return None,
        };
        if idx < self.manage_actions.len() {
            Some(self.manage_actions[idx])
        } else {
            None
        }
    }

    /// Runs the selected action: one that needs a channel opens the channel
    /// picker; one that is hard to undo (the uninstalls, revert, disable)
    /// first asks for confirmation; the others run on the selected snap.
    pub fn execute_selected_action(&mut self) -> (step: ActionStep)
        ensures
            match selected_action(*old(self)) {
                None => step is Done && *final(self) == *old(self),
                Some(a) => if a.wants_channel() {
                    crate::channels::picker_opened(*old(self), *final(self), step, a)
                } else {
                    match selected_row(*old(self)) {
                        None => step is Done && *final(self) == *old(self),
                        Some(d) => if needs_confirm(a) {
                            step is Done && action_confirm_asked(*old(self), *final(self), d.name, a)
                        } else {
                            crate::actions::execute_outcome(
                                *old(self),
                                *final(self),
                                step,
                                d.name@,
                                a,
                                None,
                            )
                        },
                    }
                },
            },
    {
        let action = match self.selected_manage_action() {
            Some(a) => a,
            None => return ActionStep::Done,
        };
        if action.needs_channel_input() {
            return self.open_channel_picker(action);
        }
        let name = match self.selected_snap() {
            Some(s) => s.name,
            None => return ActionStep::Done,
        };
        if Self::action_needs_confirm(&action) {
            let pending = ConfirmPending::Action { snap_name: name, action };
            self.confirm_message = Some(pending.message());
            self.confirm_pending = Some(pending);
            self.confirm_hovered = Some(false);
            self.mode = AppMode::Confirm;
            return ActionStep::Done;
        }
        self.execute_action(name, action, None)
    }

    /// Answers the question that is showing: it is taken down and the
    /// keyboard goes back to the manage panel, or to the snap list when the
    /// panel is closed. On yes, the action runs on its snap, or the plug is
    /// connected to the slot; on no, nothing else happens. With no question
    /// showing, nothing changes.
    pub fn answer_prompt(&mut self, yes: bool) -> (step: ActionStep)
        ensures
            match old(self).confirm_pending {
                None => step@ == StepView::Done && *final(self) == *old(self),
                Some(p) => {
                    let cleared = App {
                        confirm_pending: None,
                        confirm_message: None,
                        confirm_hovered: None,
                        mode: mode_after_prompt(*old(self)),
                        ..*old(self)
                    };
                    if !yes {
                        step@ == StepView::Done && *final(self) == cleared
                    } else {
                        match p {
                            ConfirmPending::Action { snap_name, action } =>
                                crate::actions::execute_outcome(
                                cleared,
                                *final(self),
                                step,
                                snap_name@,
                                action,
                                None,
                            ),
                            ConfirmPending::AutoConnect { plug_snap, plug_name, slot, .. } =>
                                prompt_connect_outcome(
                                cleared,
                                *final(self),
                                step,
                                plug_snap@,
                                plug_name@,
                                slot@,
                            ),
                        }
                    }
                },
            },
    {
        let p = match self.confirm_pending.take() {
            Some(p) => p,
            None => return ActionStep::Done,
        };
        self.confirm_message = None;
        self.confirm_hovered = None;
        self.mode = if self.manage_actions.len() > 0 {
            AppMode::Manage
        } else {
            AppMode::Browse
        };
        if !yes {
            return ActionStep::Done;
        }
        match p {
            ConfirmPending::Action { snap_name, action } => self.execute_action(snap_name, action, None),
            ConfirmPending::AutoConnect { plug_snap, plug_name, slot, .. } => {
                if self.active_change_id.is_some() {
                    self.status_message = Some("Operation already in progress".to_owned());
                    return ActionStep::Done;
                }
                self.begin_request();
                ActionStep::Request(
                    SnapdRequest::Connect {
                        plug_snap,
                        plug_name,
                        slot_snap: slot.snap,
                        slot_name: slot.slot,
                    },
                )
            },
        }
    }
}

} // verus!
