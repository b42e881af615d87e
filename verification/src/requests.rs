//! The snapd operations the interface starts, and what their answers do.
//!
//! An operation goes in two steps: the state decides what to ask snapd
//! (a `SnapdRequest`, inside an `ActionStep`), the caller sends it, and the
//! answer comes back to `finish_request`.
use vstd::prelude::*;
use crate::app::{App, AppMode};
use crate::model::SnapdError;

verus! {

/// An operation to send to snapd. Each one answers with a change id.
pub enum SnapdRequest {
    Install { name: String, channel: Option<String> },
    InstallClassic { name: String, channel: Option<String> },
    Refresh { name: String },
    SwitchChannel { name: String, channel: Option<String> },
    Revert { name: String },
    Enable { name: String },
    Disable { name: String },
    Remove { name: String },
    RemovePurge { name: String },
    Connect { plug_snap: String, plug_name: String, slot_snap: String, slot_name: String },
    Disconnect { plug_snap: String, plug_name: String, slot_snap: String, slot_name: String },
}

/// What the caller has to do next.
pub enum ActionStep {
    /// Nothing: the state already shows the outcome.
    Done,
    /// Send this request to snapd and hand the answer to `finish_request`.
    Request(SnapdRequest),
    /// Open this address in the browser.
    OpenUrl(String),
    /// Look up the store entry of this snap and hand its channels to
    /// `finish_open_channel_picker`.
    FindChannels(String),
}

/// A request as text values.
pub enum RequestView {
    Install { name: Seq<char>, channel: Option<Seq<char>> },
    InstallClassic { name: Seq<char>, channel: Option<Seq<char>> },
    Refresh { name: Seq<char> },
    SwitchChannel { name: Seq<char>, channel: Option<Seq<char>> },
    Revert { name: Seq<char> },
    Enable { name: Seq<char> },
    Disable { name: Seq<char> },
    Remove { name: Seq<char> },
    RemovePurge { name: Seq<char> },
    Connect { plug_snap: Seq<char>, plug_name: Seq<char>, slot_snap: Seq<char>, slot_name: Seq<char> },
    Disconnect {
        plug_snap: Seq<char>,
        plug_name: Seq<char>,
        slot_snap: Seq<char>,
        slot_name: Seq<char>,
    },
}

pub open spec fn opt_view(o: Option<String>) -> Option<Seq<char>> {
    match o {
        Some(s) => Some(s@),
        None => None,
    }
}

impl View for SnapdRequest {
    type V = RequestView;

    open spec fn view(&self) -> RequestView {
        match self {
            SnapdRequest::Install { name, channel } => RequestView::Install {
                name: name@,
                channel: opt_view(*channel),
            },
            SnapdRequest::InstallClassic { name, channel } => RequestView::InstallClassic {
                name: name@,
                channel: opt_view(*channel),
            },
            SnapdRequest::Refresh { name } => RequestView::Refresh { name: name@ },
            SnapdRequest::SwitchChannel { name, channel } => RequestView::SwitchChannel {
                name: name@,
                channel: opt_view(*channel),
            },
            SnapdRequest::Revert { name } => RequestView::Revert { name: name@ },
            SnapdRequest::Enable { name } => RequestView::Enable { name: name@ },
            SnapdRequest::Disable { name } => RequestView::Disable { name: name@ },
            SnapdRequest::Remove { name } => RequestView::Remove { name: name@ },
            SnapdRequest::RemovePurge { name } => RequestView::RemovePurge { name: name@ },
            SnapdRequest::Connect { plug_snap, plug_name, slot_snap, slot_name } =>
                RequestView::Connect {
                plug_snap: plug_snap@,
                plug_name: plug_name@,
                slot_snap: slot_snap@,
                slot_name: slot_name@,
            },
            SnapdRequest::Disconnect { plug_snap, plug_name, slot_snap, slot_name } =>
                RequestView::Disconnect {
                plug_snap: plug_snap@,
                plug_name: plug_name@,
                slot_snap: slot_snap@,
                slot_name: slot_name@,
            },
        }
    }
}

/// A step as text values.
pub enum StepView {
    Done,
    Request(RequestView),
    OpenUrl(Seq<char>),
    FindChannels(Seq<char>),
}

impl View for ActionStep {
    type V = StepView;

    open spec fn view(&self) -> StepView {
        match self {
            ActionStep::Done => StepView::Done,
            ActionStep::Request(r) => StepView::Request(r@),
            ActionStep::OpenUrl(u) => StepView::OpenUrl(u@),
            ActionStep::FindChannels(n) => StepView::FindChannels(n@),
        }
    }
}

/// The status shown once snapd has accepted a request.
pub open spec fn started_message(req: SnapdRequest) -> Seq<char> {
    match req {
        SnapdRequest::Install { .. } => "Installing…"@,
        SnapdRequest::InstallClassic { .. } => "Installing (classic)…"@,
        SnapdRequest::Refresh { .. } => "Refreshing…"@,
        SnapdRequest::SwitchChannel { .. } => "Switching channel…"@,
        SnapdRequest::Revert { .. } => "Reverting…"@,
        SnapdRequest::Enable { .. } => "Enabling…"@,
        SnapdRequest::Disable { .. } => "Disabling…"@,
        SnapdRequest::Remove { .. } => "Uninstalling…"@,
        SnapdRequest::RemovePurge { .. } => "Uninstalling…"@,
        SnapdRequest::Connect { .. } => "Connecting…"@,
        SnapdRequest::Disconnect { .. } => "Disconnecting…"@,
    }
}

fn started_text(req: &SnapdRequest) -> (r: String)
    ensures
        r@ == started_message(*req),
{
    match req {
        SnapdRequest::Install { .. } => "Installing…".to_owned(),
        SnapdRequest::InstallClassic { .. } => "Installing (classic)…".to_owned(),
        SnapdRequest::Refresh { .. } => "Refreshing…".to_owned(),
        SnapdRequest::SwitchChannel { .. } => "Switching channel…".to_owned(),
        SnapdRequest::Revert { .. } => "Reverting…".to_owned(),
        SnapdRequest::Enable { .. } => "Enabling…".to_owned(),
        SnapdRequest::Disable { .. } => "Disabling…".to_owned(),
        SnapdRequest::Remove { .. } => "Uninstalling…".to_owned(),
        SnapdRequest::RemovePurge { .. } => "Uninstalling…".to_owned(),
        SnapdRequest::Connect { .. } => "Connecting…".to_owned(),
        SnapdRequest::Disconnect { .. } => "Disconnecting…".to_owned(),
    }
}

/// Whether an answer asks for the install to be retried with classic
/// confinement.
pub open spec fn needs_classic(req: SnapdRequest, e: SnapdError) -> bool {
    req is Install && e.has_kind("snap-needs-classic"@)
}

impl App {
    /// Marks the state as waiting for snapd, with no error or status shown.
    pub fn begin_request(&mut self)
        ensures
            *final(self) == (App { loading: true, error: None, status_message: None, ..*old(self) }),
    {
        self.loading = true;
        self.error = None;
        self.status_message = None;
    }

    /// Takes in snapd's answer to a request. Accepted: the change is
    /// tracked and its status shown. An install that needs classic
    /// confinement: the classic confirmation opens for that snap and
    /// channel. Any other failure: the error is shown.
    pub fn finish_request(&mut self, req: SnapdRequest, result: Result<String, SnapdError>)
        ensures
            match result {
                Ok(id) => final(self).status_message matches Some(m) && m@ == started_message(req)
                    && *final(self) == (App {
                    loading: false,
                    active_change_id: Some(id),
                    active_change: None,
                    status_message: final(self).status_message,
                    ..*old(self)
                }),
                Err(e) => if needs_classic(req, e) {
                    *final(self) == (App {
                        loading: false,
                        classic_pending: Some((req->Install_name, req->Install_channel)),
                        mode: AppMode::ClassicConfirm,
                        ..*old(self)
                    })
                } else {
                    *final(self) == (App {
                        loading: false,
                        error: Some(e.message_of()),
                        ..*old(self)
                    })
                },
            },
    {
        match result {
            Ok(id) => {
                self.status_message = Some(started_text(&req));
                self.active_change_id = Some(id);
                self.active_change = None;
            },
            Err(e) => {
                let classic = e.is_kind("snap-needs-classic");
                match req {
                    SnapdRequest::Install { name, channel } => {
                        if classic {
                            self.classic_pending = Some((name, channel));
                            self.mode = AppMode::ClassicConfirm;
                        } else {
                            self.error = Some(e.message());
                        }
                    },
                    _ => {
                        self.error = Some(e.message());
                    },
                }
            },
        }
        self.loading = false;
    }
}

} // verus!
