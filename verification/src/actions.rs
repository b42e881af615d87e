//! Running manage actions, the classic confirmation, and following the
//! change that is running.
use vstd::prelude::*;
use crate::app::{App, AppMode, ManageAction};
use crate::browse::selected_row;
use crate::connections::is_named;
use crate::find::{first_index, lemma_first_index_found, lemma_first_index_none};
use crate::manage::manage_closed;
use crate::model::{ChangeInfo, LocalSnap, SnapdError, clone_opt_string};
use crate::requests::{ActionStep, RequestView, SnapdRequest, StepView, opt_view};
use crate::text::str_eq;

verus! {

/// Whether the installed snap at `k` is named `n`.
pub open spec fn installed_named(installed: Seq<LocalSnap>, n: Seq<char>) -> spec_fn(int) -> bool {
    |k: int| installed[k].name@ == n
}

/// The contact of the first installed snap named `name`.
pub open spec fn contact_of(installed: Seq<LocalSnap>, name: Seq<char>) -> Option<Seq<char>> {
    match first_index(installed.len(), installed_named(installed, name)) {
        Some(k) => opt_view(installed[k].contact),
        None => None,
    }
}

/// What running `action` on the snap `name` (with `channel` for the channel
/// actions) does to the state `o`, giving `f` and `step`. Nothing starts
/// while a change is running. The snapd actions mark the state as waiting
/// and ask for the request; the page actions open an address at once.
pub open spec fn execute_outcome(
    o: App,
    f: App,
    step: ActionStep,
    name: Seq<char>,
    action: ManageAction,
    channel: Option<Seq<char>>,
) -> bool {
    if o.active_change_id is Some {
        &&& step@ == StepView::Done
        &&& is_named(f.status_message, "Operation already in progress"@)
        &&& f == App { status_message: f.status_message, ..o }
    } else {
        let started = App { loading: true, error: None, status_message: None, ..o };
        match action {
            ManageAction::Install => step@ == StepView::Request(
                RequestView::Install { name, channel: None },
            ) && f == started,
            ManageAction::InstallFromChannel => step@ == StepView::Request(
                RequestView::Install { name, channel },
            ) && f == started,
            ManageAction::Refresh => step@ == StepView::Request(RequestView::Refresh { name })
                && f == started,
            ManageAction::SwitchChannel => step@ == StepView::Request(
                RequestView::SwitchChannel { name, channel },
            ) && f == started,
            ManageAction::Revert => step@ == StepView::Request(RequestView::Revert { name }) && f
                == started,
            ManageAction::Enable => step@ == StepView::Request(RequestView::Enable { name }) && f
                == started,
            ManageAction::Disable => step@ == StepView::Request(RequestView::Disable { name }) && f
                == started,
            ManageAction::Uninstall => step@ == StepView::Request(RequestView::Remove { name }) && f
                == started,
            ManageAction::UninstallPurge => step@ == StepView::Request(
                RequestView::RemovePurge { name },
            ) && f == started,
            ManageAction::OpenStorePage => {
                &&& step@ == StepView::OpenUrl("https://snapcraft.io/"@ + name)
                &&& is_named(f.status_message, "Opened store page"@)
                &&& f == App {
                    loading: false,
                    error: None,
                    status_message: f.status_message,
                    ..o
                }
            },
            ManageAction::OpenContactPage => {
                &&& step@ == match contact_of(o.installed@, name) {
                    Some(c) => StepView::OpenUrl(c),
                    None => StepView::Done,
                }
                &&& is_named(f.status_message, "Opened contact page"@)
                &&& f == App {
                    loading: false,
                    error: None,
                    status_message: f.status_message,
                    ..o
                }
            },
        }
    }
}

fn find_installed(installed: &Vec<LocalSnap>, name: &str) -> (r: Option<usize>)
    ensures
        r matches Some(k) ==> first_index(installed@.len(), installed_named(installed@, name@))
            == Some(k as int),
        r is None ==> first_index(installed@.len(), installed_named(installed@, name@)) is None,
{
    let ghost p = installed_named(installed@, name@);
    let mut i: usize = 0;
    while i < installed.len()
        invariant
            i <= installed.len(),
            p == installed_named(installed@, name@),
            forall|k: int| 0 <= k < i ==> !#[trigger] p(k),
        decreases installed.len() - i,
    {
        if str_eq(installed[i].name.as_str(), name) {
            proof {
                lemma_first_index_found(installed@.len(), p, i as int);
            }
            return Some(i);
        }
        i = i + 1;
    }
    proof {
        lemma_first_index_none(installed@.len(), p);
    }
    None
}

/// What the caller does after a change was polled: reload the interfaces
/// of this snap, and reload the snap lists.
pub struct TickFollowUp {
    pub reload_interfaces_for: Option<String>,
    pub reload: bool,
}

/// Whether the manage panel closes when a change finishes in this mode.
pub open spec fn closes_on_finish(mode: AppMode) -> bool {
    mode == AppMode::Manage || mode == AppMode::ChannelPicker || mode == AppMode::ChannelInput
        || mode == AppMode::ClassicConfirm
}

impl App {
    /// Runs `action` on the snap `name`, with `channel` for the channel
    /// actions.
    pub fn execute_action(&mut self, name: String, action: ManageAction, channel: Option<String>) -> (step:
        ActionStep)
        ensures
            execute_outcome(*old(self), *final(self), step, name@, action, opt_view(channel)),
    {
        if self.active_change_id.is_some() {
            self.status_message = Some("Operation already in progress".to_owned());
            return ActionStep::Done;
        }
        self.begin_request();
        match action {
            ManageAction::Install => ActionStep::Request(SnapdRequest::Install { name, channel: None }),
            ManageAction::InstallFromChannel => ActionStep::Request(
                SnapdRequest::Install { name, channel },
            ),
            ManageAction::Refresh => ActionStep::Request(SnapdRequest::Refresh { name }),
            ManageAction::SwitchChannel => ActionStep::Request(
                SnapdRequest::SwitchChannel { name, channel },
            ),
            ManageAction::Revert => ActionStep::Request(SnapdRequest::Revert { name }),
            ManageAction::Enable => ActionStep::Request(SnapdRequest::Enable { name }),
            ManageAction::Disable => ActionStep::Request(SnapdRequest::Disable { name }),
            ManageAction::Uninstall => ActionStep::Request(SnapdRequest::Remove { name }),
            ManageAction::UninstallPurge => ActionStep::Request(SnapdRequest::RemovePurge { name }),
            ManageAction::OpenStorePage => {
                let mut url = "https://snapcraft.io/".to_owned();
                url.append(name.as_str());
                self.loading = false;
                self.status_message = Some("Opened store page".to_owned());
                ActionStep::OpenUrl(url)
            },
            ManageAction::OpenContactPage => {
                let contact = match find_installed(&self.installed, name.as_str()) {
                    Some(k) => clone_opt_string(&self.installed[k].contact),
                    None => None,
                };
                self.loading = false;
                self.status_message = Some("Opened contact page".to_owned());
                match contact {
                    Some(c) => ActionStep::OpenUrl(c),
                    None => ActionStep::Done,
                }
            },
        }
    }

    /// Dismisses the classic confirmation and goes back to the manage panel.
    pub fn cancel_classic(&mut self)
        ensures
            *final(self) == (App {
                classic_pending: None,
                mode: AppMode::Manage,
                error: None,
                ..*old(self)
            }),
    {
        self.classic_pending = None;
        self.mode = AppMode::Manage;
        self.error = None;
    }

    /// Confirms the classic install that is waiting: asks for it again with
    /// classic confinement.
    pub fn confirm_classic(&mut self) -> (step: ActionStep)
        ensures
            match old(self).classic_pending {
                None => step@ == StepView::Done && *final(self) == *old(self),
                Some((name, channel)) => {
                    &&& step@ == StepView::Request(
                        RequestView::InstallClassic { name: name@, channel: opt_view(channel) },
                    )
                    &&& *final(self) == (App {
                        classic_pending: None,
                        mode: AppMode::Manage,
                        loading: true,
                        error: None,
                        status_message: None,
                        ..*old(self)
                    })
                },
            },
    {
        let (name, channel) = match self.classic_pending.take() {
            Some(p) => p,
            None => return ActionStep::Done,
        };
        self.mode = AppMode::Manage;
        self.begin_request();
        ActionStep::Request(SnapdRequest::InstallClassic { name, channel })
    }

    /// Takes in the state of the running change. While it runs, it is
    /// shown. Once it is ready it is no longer tracked: in the connections
    /// pane the interfaces are reloaded, in the manage panel and its dialogs
    /// the panel closes; its error is shown, or "Done" and the lists reload.
    /// A failed poll shows the error and stops tracking the change.
    pub fn tick(&mut self, result: Result<ChangeInfo, SnapdError>) -> (next:
        TickFollowUp)
        ensures
            match result {
                Err(e) => {
                    &&& next.reload_interfaces_for is None
                    &&& !next.reload
                    &&& *final(self) == (App {
                        error: Some(e.message_of()),
                        active_change_id: None,
                        active_change: None,
                        ..*old(self)
                    })
                },
                Ok(ch) => if !ch.ready {
                    &&& next.reload_interfaces_for is None
                    &&& !next.reload
                    &&& *final(self) == (App { active_change: Some(ch), ..*old(self) })
                } else {
                    let o = *old(self);
                    let f = *final(self);
                    let cleared = App { active_change_id: None, active_change: None, ..o };
                    let in_connections = o.connections_mode || o.mode == AppMode::SlotPicker;
                    let g = App { error: o.error, status_message: o.status_message, ..f };
                    &&& if !in_connections && closes_on_finish(o.mode) {
                        manage_closed(cleared, g)
                    } else {
                        g == cleared
                    }
                    &&& match ch.err {
                        Some(msg) => f.error == Some(msg) && f.status_message == o.status_message,
                        None => is_named(f.status_message, "Done"@) && f.error == o.error,
                    }
                    &&& next.reload == (ch.err is None)
                    &&& next.reload_interfaces_for == if in_connections {
                        match selected_row(o) {
                            Some(d) => Some(d.name),
                            None => None,
                        }
                    } else {
                        None
                    }
                },
            },
    {
        match result {
            Err(e) => {
                self.error = Some(e.message());
                self.active_change_id = None;
                self.active_change = None;
                TickFollowUp { reload_interfaces_for: None, reload: false }
            },
            Ok(change) => {
                let ready = change.ready;
                let err = clone_opt_string(&change.err);
                if !ready {
                    self.active_change = Some(change);
                    return TickFollowUp { reload_interfaces_for: None, reload: false };
                }
                let in_connections = self.connections_mode || self.mode == AppMode::SlotPicker;
                let reload_for = if in_connections {
                    match self.selected_snap() {
                        Some(d) => Some(d.name),
                        None => None,
                    }
                } else {
                    None
                };
                self.active_change_id = None;
                self.active_change = None;
                if !in_connections && (self.mode == AppMode::Manage || self.mode
                    == AppMode::ChannelPicker || self.mode == AppMode::ChannelInput || self.mode
                    == AppMode::ClassicConfirm) {
                    self.close_manage();
                }
                let reload = err.is_none();
                match err {
                    Some(msg) => {
                        self.error = Some(msg);
                    },
                    None => {
                        self.status_message = Some("Done".to_owned());
                    },
                }
                TickFollowUp { reload_interfaces_for: reload_for, reload }
            },
        }
    }
}

} // verus!
