//! The fixed enumeration of supported platforms, and per-platform maps.
//!
//! Tool configurations specialise their command lines by platform; the
//! platform keys form a closed set, so a per-platform map is a record of
//! three optional slots rather than a general-purpose dictionary.

use vstd::prelude::*;

verus! {

/// One of the three supported operating-system families.
#[derive(Clone, Copy, PartialEq, Eq, Debug, Structural)]
pub enum Platform {
    Windows,
    Macos,
    Linux,
}

impl Platform {
    /// The canonical key under which this platform appears in configuration
    /// documents (the same strings `std::env::consts::OS` uses).
    pub open spec fn spec_key(self) -> Seq<char> {
        match self {
            Platform::Windows => "windows"@,
            Platform::Macos => "macos"@,
            Platform::Linux => "linux"@,
        }
    }

    /// The canonical key as a string.
    pub fn key(self) -> (r: &'static str)
        ensures
            r@ == self.spec_key(),
    {
        match self {
            Platform::Windows => "windows",
            Platform::Macos => "macos",
            Platform::Linux => "linux",
        }
    }
}

/// A value specialised per platform; any subset of the three slots may be
/// filled.
#[derive(Debug)]
pub struct PlatformMap<T> {
    pub windows: Option<T>,
    pub macos: Option<T>,
    pub linux: Option<T>,
}

impl<T> PlatformMap<T> {
    /// The slot that belongs to `p`.
    pub open spec fn spec_get(self, p: Platform) -> Option<T> {
        match p {
            Platform::Windows => self.windows,
            Platform::Macos => self.macos,
            Platform::Linux => self.linux,
        }
    }

    /// True when no platform has an entry.
    pub open spec fn spec_is_empty(self) -> bool {
        self.windows is None && self.macos is None && self.linux is None
    }

    /// A map with no entries.
    pub fn empty() -> (r: Self)
        ensures
            r.windows is None,
            r.macos is None,
            r.linux is None,
    {
        PlatformMap { windows: None, macos: None, linux: None }
    }

    /// Read the entry for `p`, if any.
    pub fn get(&self, p: Platform) -> (r: &Option<T>)
        ensures
            *r == self.spec_get(p),
    {
        match p {
            Platform::Windows => &self.windows,
            Platform::Macos => &self.macos,
            Platform::Linux => &self.linux,
        }
    }

    /// Replace the entry for `p`.
    pub fn set(&mut self, p: Platform, v: T)
        ensures
            final(self).spec_get(p) == Some(v),
            forall|q: Platform| q != p ==> final(self).spec_get(q) == old(self).spec_get(q),
    {
        match p {
            Platform::Windows => self.windows = Some(v),
            Platform::Macos => self.macos = Some(v),
            Platform::Linux => self.linux = Some(v),
        }
    }

    /// True when no platform has an entry.
    pub fn is_empty(&self) -> (r: bool)
        ensures
            r == self.spec_is_empty(),
    {
        self.windows.is_none() && self.macos.is_none() && self.linux.is_none()
    }
}

} // verus!
