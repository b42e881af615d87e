//! The unified view of a snap that the snap list shows.
use vstd::prelude::*;
use crate::model::{Confinement, LocalSnap, StoreAccount, StoreSnapInfo, clone_opt_string};

verus! {

/// Unified view of a snap (installed local or from store search results).
pub struct DisplaySnap {
    pub name: String,
    pub title: Option<String>,
    pub version: Option<String>,
    pub summary: Option<String>,
    pub description: Option<String>,
    pub publisher: Option<String>,
    pub confinement: Option<Confinement>,
    pub channel: Option<String>,
    pub contact: Option<String>,
    pub icon_url: Option<String>,
    pub size: Option<u64>,
    pub installed: bool,
    /// ISO 8601 install timestamp from snapd. None for uninstalled store results.
    pub install_date: Option<String>,
    /// If true, this is a local file match rather than a snapd result.
    pub is_local_file: bool,
    pub local_file_path: Option<String>,
}

/// The publisher shown for an account: its display name, else its user name.
pub open spec fn publisher_name(p: Option<StoreAccount>) -> Option<String> {
    match p {
        Some(a) => if a.display_name is Some {
            a.display_name
        } else {
            a.username
        },
        None => None,
    }
}

/// `a` if present, else `b`.
pub open spec fn or_else<T>(a: Option<T>, b: Option<T>) -> Option<T> {
    if a is Some {
        a
    } else {
        b
    }
}

/// A download size as an unsigned size: negative sizes count as zero.
pub open spec fn size_of_download(s: Option<i64>) -> Option<u64> {
    match s {
        Some(v) => Some(if v < 0 {
            0u64
        } else {
            v as u64
        }),
        None => None,
    }
}

/// How an installed snap is shown.
pub open spec fn display_of_local(s: LocalSnap) -> DisplaySnap {
    DisplaySnap {
        name: s.name,
        title: s.title,
        version: s.version,
        summary: s.summary,
        description: s.description,
        publisher: publisher_name(s.publisher),
        confinement: s.confinement,
        channel: or_else(s.tracking_channel, s.channel),
        contact: s.contact,
        icon_url: s.icon,
        size: s.installed_size,
        installed: true,
        install_date: s.install_date,
        is_local_file: false,
        local_file_path: None,
    }
}

/// How a store result is shown.
pub open spec fn display_of_store(s: StoreSnapInfo) -> DisplaySnap {
    DisplaySnap {
        name: s.name,
        title: s.title,
        version: s.version,
        summary: s.summary,
        description: s.description,
        publisher: publisher_name(s.publisher),
        confinement: None,
        channel: s.channel,
        contact: None,
        icon_url: s.icon,
        size: size_of_download(s.download_size),
        installed: false,
        install_date: None,
        is_local_file: false,
        local_file_path: None,
    }
}

fn publisher_of(p: &Option<StoreAccount>) -> (r: Option<String>)
    ensures
        r == publisher_name(*p),
{
    match p {
        Some(a) => {
            if a.display_name.is_some() {
                clone_opt_string(&a.display_name)
            } else {
                clone_opt_string(&a.username)
            }
        },
        None => None,
    }
}

fn first_of(a: &Option<String>, b: &Option<String>) -> (r: Option<String>)
    ensures
        r == or_else(*a, *b),
{
    if a.is_some() {
        clone_opt_string(a)
    } else {
        clone_opt_string(b)
    }
}

impl DisplaySnap {
    /// The view of an installed snap.
    pub fn from_local(s: &LocalSnap) -> (d: DisplaySnap)
        ensures
            d == display_of_local(*s),
    {
        DisplaySnap {
            name: s.name.clone(),
            title: clone_opt_string(&s.title),
            version: clone_opt_string(&s.version),
            summary: clone_opt_string(&s.summary),
            description: clone_opt_string(&s.description),
            publisher: publisher_of(&s.publisher),
            confinement: s.confinement,
            channel: first_of(&s.tracking_channel, &s.channel),
            contact: clone_opt_string(&s.contact),
            icon_url: clone_opt_string(&s.icon),
            size: s.installed_size,
            installed: true,
            install_date: clone_opt_string(&s.install_date),
            is_local_file: false,
            local_file_path: None,
        }
    }

    /// The view of a store result.
    pub fn from_store(s: &StoreSnapInfo) -> (d: DisplaySnap)
        ensures
            d == display_of_store(*s),
    {
        let size = match s.download_size {
            Some(v) => Some(
                if v < 0 {
                    0u64
                } else {
                    v as u64
                },
            ),
            None => None,
        };
        DisplaySnap {
            name: s.name.clone(),
            title: clone_opt_string(&s.title),
            version: clone_opt_string(&s.version),
            summary: clone_opt_string(&s.summary),
            description: clone_opt_string(&s.description),
            publisher: publisher_of(&s.publisher),
            confinement: None,
            channel: clone_opt_string(&s.channel),
            contact: None,
            icon_url: clone_opt_string(&s.icon),
            size,
            installed: false,
            install_date: None,
            is_local_file: false,
            local_file_path: None,
        }
    }

    /// A copy of this view.
    pub fn duplicate(&self) -> (d: DisplaySnap)
        ensures
            d == *self,
    {
        DisplaySnap {
            name: self.name.clone(),
            title: clone_opt_string(&self.title),
            version: clone_opt_string(&self.version),
            summary: clone_opt_string(&self.summary),
            description: clone_opt_string(&self.description),
            publisher: clone_opt_string(&self.publisher),
            confinement: self.confinement,
            channel: clone_opt_string(&self.channel),
            contact: clone_opt_string(&self.contact),
            icon_url: clone_opt_string(&self.icon_url),
            size: self.size,
            installed: self.installed,
            install_date: clone_opt_string(&self.install_date),
            is_local_file: self.is_local_file,
            local_file_path: clone_opt_string(&self.local_file_path),
        }
    }
}

} // verus!
