//! Returning to where the user was after the program restarts with
//! elevated privileges.
use vstd::prelude::*;
use crate::app::App;
use crate::model::{SnapdError, clone_opt_string};
use crate::requests::SnapdRequest;

verus! {

/// Minimal app state saved before restarting as root.
/// Restored on startup so the user lands back where they were.
pub struct ResumeState {
    /// Name of the snap that was selected when elevation was triggered.
    pub selected_snap: Option<String>,
    /// Current search query text.
    pub search_query: String,
    /// Whether the "installed only" tab was active.
    pub show_installed_only: bool,
    /// The action that was being attempted — re-executed automatically on resume.
    pub pending: Option<ResumeAction>,
}

/// Actions that can be replayed after restarting with elevated privileges.
/// Each variant carries everything needed to call the snapd API directly,
/// without asking for confirmation again (the user already confirmed
/// the actions that ask for it).
pub enum ResumeAction {
    Install { snap_name: String, channel: Option<String> },
    InstallClassic { snap_name: String, channel: Option<String> },
    Refresh { snap_name: String, channel: Option<String> },
    SwitchChannel { snap_name: String, channel: String },
    Revert { snap_name: String },
    Enable { snap_name: String },
    Disable { snap_name: String },
    Uninstall { snap_name: String },
    UninstallPurge { snap_name: String },
}

impl ResumeAction {
    /// The snap an action is about.
    pub open spec fn target(self) -> String {
        match self {
            ResumeAction::Install { snap_name, .. } => snap_name,
            ResumeAction::InstallClassic { snap_name, .. } => snap_name,
            ResumeAction::Refresh { snap_name, .. } => snap_name,
            ResumeAction::SwitchChannel { snap_name, .. } => snap_name,
            ResumeAction::Revert { snap_name } => snap_name,
            ResumeAction::Enable { snap_name } => snap_name,
            ResumeAction::Disable { snap_name } => snap_name,
            ResumeAction::Uninstall { snap_name } => snap_name,
            ResumeAction::UninstallPurge { snap_name } => snap_name,
        }
    }

    /// The snap the action is about.
    pub fn snap_name(&self) -> (r: &str)
        ensures
            r@ == self.target()@,
    {
        match self {
            ResumeAction::Install { snap_name, .. }
            | ResumeAction::InstallClassic { snap_name, .. }
            | ResumeAction::Refresh { snap_name, .. }
            | ResumeAction::SwitchChannel { snap_name, .. }
            | ResumeAction::Revert { snap_name }
            | ResumeAction::Enable { snap_name }
            | ResumeAction::Disable { snap_name }
            | ResumeAction::Uninstall { snap_name }
            | ResumeAction::UninstallPurge { snap_name } => snap_name.as_str(),
        }
    }
}

/// Whether a failure means the operation was denied for lack of
/// privileges: snapd could not be reached, or it answered with one of the
/// authorization kinds.
pub open spec fn elevation_needed(e: SnapdError) -> bool {
    ||| e is Transport
    ||| e.has_kind("login-required"@)
    ||| e.has_kind("access-denied"@)
    ||| e.has_kind("auth-cancelled"@)
    ||| e.has_kind("forbidden"@)
    ||| e.has_kind("unauthorized"@)
}

/// Returns true if a snapd error means the operation was denied due to
/// insufficient privileges.
pub fn is_elevation_needed(e: &SnapdError) -> (r: bool)
    ensures
        r == elevation_needed(*e),
{
    if let SnapdError::Transport { .. } = e {
        return true;
    }
    e.is_kind("login-required") || e.is_kind("access-denied") || e.is_kind("auth-cancelled")
        || e.is_kind("forbidden") || e.is_kind("unauthorized")
}

/// The action to replay after the restart, for a request that was refused
/// for lack of privileges. A channel switch with no channel is a refresh;
/// connections are not replayed.
pub open spec fn pending_of(req: SnapdRequest) -> Option<ResumeAction> {
    match req {
        SnapdRequest::Install { name, channel } => Some(
            ResumeAction::Install { snap_name: name, channel },
        ),
        SnapdRequest::InstallClassic { name, channel } => Some(
            ResumeAction::InstallClassic { snap_name: name, channel },
        ),
        SnapdRequest::Refresh { name } => Some(ResumeAction::Refresh { snap_name: name, channel: None }),
        SnapdRequest::SwitchChannel { name, channel } => match channel {
            Some(c) => Some(ResumeAction::SwitchChannel { snap_name: name, channel: c }),
            None => Some(ResumeAction::Refresh { snap_name: name, channel: None }),
        },
        SnapdRequest::Revert { name } => Some(ResumeAction::Revert { snap_name: name }),
        SnapdRequest::Enable { name } => Some(ResumeAction::Enable { snap_name: name }),
        SnapdRequest::Disable { name } => Some(ResumeAction::Disable { snap_name: name }),
        SnapdRequest::Remove { name } => Some(ResumeAction::Uninstall { snap_name: name }),
        SnapdRequest::RemovePurge { name } => Some(ResumeAction::UninstallPurge { snap_name: name }),
        SnapdRequest::Connect { .. } => None,
        SnapdRequest::Disconnect { .. } => None,
    }
}

/// The request that replays a saved action. A refresh to a given channel
/// is a channel switch.
pub open spec fn replay_of(action: ResumeAction) -> SnapdRequest {
    match action {
        ResumeAction::Install { snap_name, channel } => SnapdRequest::Install { name: snap_name, channel },
        ResumeAction::InstallClassic { snap_name, channel } => SnapdRequest::InstallClassic {
            name: snap_name,
            channel,
        },
        ResumeAction::Refresh { snap_name, channel } => match channel {
            Some(c) => SnapdRequest::SwitchChannel { name: snap_name, channel: Some(c) },
            None => SnapdRequest::Refresh { name: snap_name },
        },
        ResumeAction::SwitchChannel { snap_name, channel } => SnapdRequest::SwitchChannel {
            name: snap_name,
            channel: Some(channel),
        },
        ResumeAction::Revert { snap_name } => SnapdRequest::Revert { name: snap_name },
        ResumeAction::Enable { snap_name } => SnapdRequest::Enable { name: snap_name },
        ResumeAction::Disable { snap_name } => SnapdRequest::Disable { name: snap_name },
        ResumeAction::Uninstall { snap_name } => SnapdRequest::Remove { name: snap_name },
        ResumeAction::UninstallPurge { snap_name } => SnapdRequest::RemovePurge { name: snap_name },
    }
}

/// The action to save before restarting with elevated privileges, for a
/// request that snapd refused.
pub fn pending_action(req: SnapdRequest) -> (r: Option<ResumeAction>)
    ensures
        r == pending_of(req),
{
    match req {
        SnapdRequest::Install { name, channel } => Some(
            ResumeAction::Install { snap_name: name, channel },
        ),
        SnapdRequest::InstallClassic { name, channel } => Some(
            ResumeAction::InstallClassic { snap_name: name, channel },
        ),
        SnapdRequest::Refresh { name } => Some(ResumeAction::Refresh { snap_name: name, channel: None }),
        SnapdRequest::SwitchChannel { name, channel } => match channel {
            Some(c) => Some(ResumeAction::SwitchChannel { snap_name: name, channel: c }),
            None => Some(ResumeAction::Refresh { snap_name: name, channel: None }),
        },
        SnapdRequest::Revert { name } => Some(ResumeAction::Revert { snap_name: name }),
        SnapdRequest::Enable { name } => Some(ResumeAction::Enable { snap_name: name }),
        SnapdRequest::Disable { name } => Some(ResumeAction::Disable { snap_name: name }),
        SnapdRequest::Remove { name } => Some(ResumeAction::Uninstall { snap_name: name }),
        SnapdRequest::RemovePurge { name } => Some(ResumeAction::UninstallPurge { snap_name: name }),
        SnapdRequest::Connect { .. } => None,
        SnapdRequest::Disconnect { .. } => None,
    }
}

/// The snap a request is about: the snap it acts on, or the plug's snap of
/// a connection.
pub open spec fn request_snap(req: SnapdRequest) -> String {
    match req {
        SnapdRequest::Install { name, .. } => name,
        SnapdRequest::InstallClassic { name, .. } => name,
        SnapdRequest::Refresh { name } => name,
        SnapdRequest::SwitchChannel { name, .. } => name,
        SnapdRequest::Revert { name } => name,
        SnapdRequest::Enable { name } => name,
        SnapdRequest::Disable { name } => name,
        SnapdRequest::Remove { name } => name,
        SnapdRequest::RemovePurge { name } => name,
        SnapdRequest::Connect { plug_snap, .. } => plug_snap,
        SnapdRequest::Disconnect { plug_snap, .. } => plug_snap,
    }
}

fn pending_of_ref(req: &SnapdRequest) -> (r: Option<ResumeAction>)
    ensures
        r == pending_of(*req),
{
    match req {
        SnapdRequest::Install { name, channel } => Some(
            ResumeAction::Install { snap_name: name.clone(), channel: clone_opt_string(channel) },
        ),
        SnapdRequest::InstallClassic { name, channel } => Some(
            ResumeAction::InstallClassic {
                snap_name: name.clone(),
                channel: clone_opt_string(channel),
            },
        ),
        SnapdRequest::Refresh { name } => Some(
            ResumeAction::Refresh { snap_name: name.clone(), channel: None },
        ),
        SnapdRequest::SwitchChannel { name, channel } => match channel {
            Some(c) => Some(
                ResumeAction::SwitchChannel { snap_name: name.clone(), channel: c.clone() },
            ),
            None => Some(ResumeAction::Refresh { snap_name: name.clone(), channel: None }),
        },
        SnapdRequest::Revert { name } => Some(ResumeAction::Revert { snap_name: name.clone() }),
        SnapdRequest::Enable { name } => Some(ResumeAction::Enable { snap_name: name.clone() }),
        SnapdRequest::Disable { name } => Some(ResumeAction::Disable { snap_name: name.clone() }),
        SnapdRequest::Remove { name } => Some(ResumeAction::Uninstall { snap_name: name.clone() }),
        SnapdRequest::RemovePurge { name } => Some(
            ResumeAction::UninstallPurge { snap_name: name.clone() },
        ),
        SnapdRequest::Connect { .. } => None,
        SnapdRequest::Disconnect { .. } => None,
    }
}

fn request_snap_ref(req: &SnapdRequest) -> (r: String)
    ensures
        r == request_snap(*req),
{
    match req {
        SnapdRequest::Install { name, .. } => name.clone(),
        SnapdRequest::InstallClassic { name, .. } => name.clone(),
        SnapdRequest::Refresh { name } => name.clone(),
        SnapdRequest::SwitchChannel { name, .. } => name.clone(),
        SnapdRequest::Revert { name } => name.clone(),
        SnapdRequest::Enable { name } => name.clone(),
        SnapdRequest::Disable { name } => name.clone(),
        SnapdRequest::Remove { name } => name.clone(),
        SnapdRequest::RemovePurge { name } => name.clone(),
        SnapdRequest::Connect { plug_snap, .. } => plug_snap.clone(),
        SnapdRequest::Disconnect { plug_snap, .. } => plug_snap.clone(),
    }
}

impl App {
    /// What to do when snapd refused `req` with `e`: when the error asks
    /// for privileges and this process does not have them yet, the state to
    /// save before restarting elevated, with the request's snap selected,
    /// the search and filter kept, and the action to replay (none for a
    /// connection, which the user redoes). Otherwise nothing: the error is
    /// shown as any other.
    pub fn elevation_after(&self, req: &SnapdRequest, e: &SnapdError, elevated: bool) -> (r:
        Option<ResumeState>)
        ensures
            r is Some == (!elevated && elevation_needed(*e)),
            r matches Some(s) ==> s.selected_snap == Some(request_snap(*req)) && s.search_query
                == self.search_query && s.show_installed_only == self.show_installed_only
                && s.pending == pending_of(*req),
    {
        if elevated || !is_elevation_needed(e) {
            return None;
        }
        Some(
            ResumeState {
                selected_snap: Some(request_snap_ref(req)),
                search_query: self.search_query.clone(),
                show_installed_only: self.show_installed_only,
                pending: pending_of_ref(req),
            },
        )
    }
}

/// The request that replays a saved action after the restart.
pub fn replay_request(action: ResumeAction) -> (r: SnapdRequest)
    ensures
        r == replay_of(action),
{
    match action {
        ResumeAction::Install { snap_name, channel } => SnapdRequest::Install { name: snap_name, channel },
        ResumeAction::InstallClassic { snap_name, channel } => SnapdRequest::InstallClassic {
            name: snap_name,
            channel,
        },
        ResumeAction::Refresh { snap_name, channel } => match channel {
            Some(c) => SnapdRequest::SwitchChannel { name: snap_name, channel: Some(c) },
            None => SnapdRequest::Refresh { name: snap_name },
        },
        ResumeAction::SwitchChannel { snap_name, channel } => SnapdRequest::SwitchChannel {
            name: snap_name,
            channel: Some(channel),
        },
        ResumeAction::Revert { snap_name } => SnapdRequest::Revert { name: snap_name },
        ResumeAction::Enable { snap_name } => SnapdRequest::Enable { name: snap_name },
        ResumeAction::Disable { snap_name } => SnapdRequest::Disable { name: snap_name },
        ResumeAction::Uninstall { snap_name } => SnapdRequest::Remove { name: snap_name },
        ResumeAction::UninstallPurge { snap_name } => SnapdRequest::RemovePurge { name: snap_name },
    }
}

/// A refused request that is saved and replayed after the restart is sent
/// again as it was, except that a channel switch with no channel comes
/// back as the plain refresh it amounts to.
pub proof fn lemma_replay_after_restart(req: SnapdRequest)
    requires
        pending_of(req) is Some,
    ensures
        replay_of(pending_of(req)->0) == (match req {
            SnapdRequest::SwitchChannel { name, channel: None } => SnapdRequest::Refresh { name },
            _ => req,
        }),
{
}

} // verus!
