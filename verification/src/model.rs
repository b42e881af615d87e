//! The snapd data that the interface reads, held as plain values.
//!
//! snapd answers with snaps, store results, channels, changes, interfaces
//! and connections. These types hold the parts of those answers that the
//! interface's logic reads or shows.
use vstd::prelude::*;

verus! {

/// Confinement of a snap.
#[derive(Clone, Copy, PartialEq, Eq, Structural)]
pub enum Confinement {
    Strict,
    Classic,
    Devmode,
}

/// A store account (publisher) of a snap.
pub struct StoreAccount {
    pub username: Option<String>,
    pub display_name: Option<String>,
}

/// An installed snap as snapd lists it.
pub struct LocalSnap {
    pub name: String,
    pub title: Option<String>,
    pub version: Option<String>,
    pub summary: Option<String>,
    pub description: Option<String>,
    pub publisher: Option<StoreAccount>,
    pub confinement: Option<Confinement>,
    pub channel: Option<String>,
    pub tracking_channel: Option<String>,
    pub contact: Option<String>,
    pub icon: Option<String>,
    pub installed_size: Option<u64>,
    pub install_date: Option<String>,
}

/// A snap found in the store.
pub struct StoreSnapInfo {
    pub name: String,
    pub title: Option<String>,
    pub version: Option<String>,
    pub summary: Option<String>,
    pub description: Option<String>,
    pub publisher: Option<StoreAccount>,
    pub channel: Option<String>,
    pub icon: Option<String>,
    pub download_size: Option<i64>,
}

/// What the store offers on one channel of a snap.
pub struct ChannelInfo {
    pub revision: Option<i64>,
    pub confinement: Option<Confinement>,
    pub version: Option<String>,
    pub channel: Option<String>,
    pub size: Option<i64>,
    pub released_at: Option<String>,
}

impl ChannelInfo {
    pub fn duplicate(&self) -> (c: ChannelInfo)
        ensures
            c == *self,
    {
        ChannelInfo {
            revision: self.revision,
            confinement: self.confinement,
            version: clone_opt_string(&self.version),
            channel: clone_opt_string(&self.channel),
            size: self.size,
            released_at: clone_opt_string(&self.released_at),
        }
    }

}

/// A channel entry with nothing known about it.
pub fn empty_channel_info() -> (c: ChannelInfo)
    ensures
        c.revision is None,
        c.confinement is None,
        c.version is None,
        c.channel is None,
        c.size is None,
        c.released_at is None,
{
    ChannelInfo {
        revision: None,
        confinement: None,
        version: None,
        channel: None,
        size: None,
        released_at: None,
    }
}

/// One task of a change.
pub struct TaskInfo {
    pub id: String,
    pub kind: String,
    pub summary: String,
    pub status: String,
    pub progress_done: i64,
    pub progress_total: i64,
}

/// A change (an asynchronous snapd operation).
pub struct ChangeInfo {
    pub id: String,
    pub kind: String,
    pub summary: String,
    pub status: String,
    pub spawn_time: Option<String>,
    pub ready_time: Option<String>,
    pub tasks: Vec<TaskInfo>,
    pub err: Option<String>,
    pub ready: bool,
}

/// A plug of an interface.
pub struct PlugInfo {
    pub snap: Option<String>,
    pub plug: String,
}

/// A slot of an interface.
pub struct SlotInfo {
    pub snap: Option<String>,
    pub slot: String,
}

/// An interface with its plugs and slots.
pub struct InterfaceInfo {
    pub name: String,
    pub summary: Option<String>,
    pub plugs: Vec<PlugInfo>,
    pub slots: Vec<SlotInfo>,
}

/// The plug end of a connection.
pub struct PlugRef {
    pub snap: String,
    pub plug: String,
}

/// The slot end of a connection, or a slot to connect to.
pub struct SlotRef {
    pub snap: String,
    pub slot: String,
}

impl View for SlotRef {
    type V = (Seq<char>, Seq<char>);

    open spec fn view(&self) -> (Seq<char>, Seq<char>) {
        (self.snap@, self.slot@)
    }
}

impl SlotRef {
    pub fn duplicate(&self) -> (r: SlotRef)
        ensures
            r == *self,
    {
        SlotRef { snap: self.snap.clone(), slot: self.slot.clone() }
    }
}

/// An established connection between a plug and a slot.
pub struct ConnectionInfo {
    pub plug: PlugRef,
    pub slot: SlotRef,
}

/// A failed snapd request.
pub enum SnapdError {
    /// snapd could not be reached (an I/O or connection failure).
    Transport { message: String },
    /// snapd answered with an error of the given kind.
    Api { kind: String, message: String },
    /// Any other failure (HTTP, JSON, an unexpected answer).
    Other { message: String },
}

impl SnapdError {
    /// The error's text, as shown to the user.
    pub open spec fn message_of(&self) -> String {
        match self {
            SnapdError::Transport { message } => *message,
            SnapdError::Api { message, .. } => *message,
            SnapdError::Other { message } => *message,
        }
    }

    /// Whether snapd reported an error of kind `kind`.
    pub open spec fn has_kind(&self, kind: Seq<char>) -> bool {
        match self {
            SnapdError::Api { kind: k, .. } => k@ == kind,
            _ => false,
        }
    }

    pub fn message(&self) -> (m: String)
        ensures
            m == self.message_of(),
    {
        match self {
            SnapdError::Transport { message } => message.clone(),
            SnapdError::Api { message, .. } => message.clone(),
            SnapdError::Other { message } => message.clone(),
        }
    }

    /// Whether snapd reported an error of kind `kind`.
    pub fn is_kind(&self, kind: &str) -> (r: bool)
        ensures
            r == self.has_kind(kind@),
    {
        match self {
            SnapdError::Api { kind: k, .. } => crate::text::str_eq(k.as_str(), kind),
            _ => false,
        }
    }
}

pub fn clone_opt_string(o: &Option<String>) -> (r: Option<String>)
    ensures
        r == *o,
{
    match o {
        Some(s) => Some(s.clone()),
        None => None,
    }
}

} // verus!
