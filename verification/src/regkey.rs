//! The appearance store: a registry-like store of named 32-bit values under
//! named keys. This module names the keys and values that the theme lives
//! in, the permission each key is opened with, and what a sequence of writes
//! does to the store.

use vstd::prelude::*;

verus! {

/// The access that a key of the store is opened with.
#[derive(Debug, Clone, Copy, PartialEq, Eq, Structural)]
pub enum RegistryPermission {
    Read,
    Write,
    ReadWrite,
}

/// A key of the store, below the root of the current user.
#[derive(Debug, Clone, Copy, PartialEq, Eq, Structural)]
pub enum StoreKey {
    /// The personalisation of themes.
    Personalize,
    /// The settings of the window compositor.
    Compositor,
}

/// A named value of the store.
#[derive(Debug, Clone, Copy, PartialEq, Eq, Structural)]
pub enum StoreValue {
    /// Whether applications use the light theme.
    AppsUseLightTheme,
    /// Whether the system's own surfaces use the light theme.
    SystemUsesLightTheme,
    /// The accent colour of the compositor.
    AccentColor,
}

/// One write: a value of the store and the number to put there.
#[derive(Debug, Clone, Copy, PartialEq, Eq, Structural)]
pub struct StoreWrite {
    pub value: StoreValue,
    pub data: u32,
}

impl RegistryPermission {
    /// Values can be read under this permission.
    pub open spec fn reads(self) -> bool {
        self is Read || self is ReadWrite
    }

    /// Values can be written under this permission.
    pub open spec fn writes(self) -> bool {
        self is Write || self is ReadWrite
    }

    /// Tells whether values can be read under this permission.
    pub fn allows_read(&self) -> (allowed: bool)
        ensures
            allowed == self.reads(),
    {
        match self {
            RegistryPermission::Read => true,
            RegistryPermission::Write => false,
            RegistryPermission::ReadWrite => true,
        }
    }

    /// Tells whether values can be written under this permission.
    pub fn allows_write(&self) -> (allowed: bool)
        ensures
            allowed == self.writes(),
    {
        match self {
            RegistryPermission::Read => false,
            RegistryPermission::Write => true,
            RegistryPermission::ReadWrite => true,
        }
    }
}

impl StoreKey {
    /// The path of the key.
    pub open spec fn path_text(self) -> Seq<char> {
        match self {
            StoreKey::Personalize =>
                "SOFTWARE\\Microsoft\\Windows\\CurrentVersion\\Themes\\Personalize"@,
            StoreKey::Compositor => "SOFTWARE\\Microsoft\\Windows\\DWM"@,
        }
    }

    /// The permission that the key is opened with: the theme is only
    /// written, the compositor's accent colour is read and written.
    pub open spec fn access(self) -> RegistryPermission {
        match self {
            StoreKey::Personalize => RegistryPermission::Write,
            StoreKey::Compositor => RegistryPermission::ReadWrite,
        }
    }

    /// Gives the path of the key.
    pub fn path(&self) -> (path: &'static str)
        ensures
            path@ == self.path_text(),
    {
        match self {
            StoreKey::Personalize => "SOFTWARE\\Microsoft\\Windows\\CurrentVersion\\Themes\\Personalize",
            StoreKey::Compositor => "SOFTWARE\\Microsoft\\Windows\\DWM",
        }
    }

    /// Gives the permission that the key is opened with.
    pub fn permission(&self) -> (permission: RegistryPermission)
        ensures
            permission == self.access(),
    {
        match self {
            StoreKey::Personalize => RegistryPermission::Write,
            StoreKey::Compositor => RegistryPermission::ReadWrite,
        }
    }
}

impl StoreValue {
    /// The name of the value.
    pub open spec fn name_text(self) -> Seq<char> {
        match self {
            StoreValue::AppsUseLightTheme => "AppsUseLightTheme"@,
            StoreValue::SystemUsesLightTheme => "SystemUsesLightTheme"@,
            StoreValue::AccentColor => "AccentColor"@,
        }
    }

    /// The key that the value lives under.
    pub open spec fn home(self) -> StoreKey {
        match self {
            StoreValue::AppsUseLightTheme => StoreKey::Personalize,
            StoreValue::SystemUsesLightTheme => StoreKey::Personalize,
            StoreValue::AccentColor => StoreKey::Compositor,
        }
    }

    /// Gives the name of the value.
    pub fn name(&self) -> (name: &'static str)
        ensures
            name@ == self.name_text(),
    {
        match self {
            StoreValue::AppsUseLightTheme => "AppsUseLightTheme",
            StoreValue::SystemUsesLightTheme => "SystemUsesLightTheme",
            StoreValue::AccentColor => "AccentColor",
        }
    }

    /// Gives the key that the value lives under. Every value can be written
    /// under the permission of its key.
    pub fn key(&self) -> (key: StoreKey)
        ensures
            key == self.home(),
            key.access().writes(),
    {
        match self {
            StoreValue::AppsUseLightTheme => StoreKey::Personalize,
            StoreValue::SystemUsesLightTheme => StoreKey::Personalize,
            StoreValue::AccentColor => StoreKey::Compositor,
        }
    }
}

/// The store after a sequence of writes, the first write first. A store is
/// taken as the map from its values to their numbers.
pub open spec fn after_writes(store: Map<StoreValue, u32>, writes: Seq<StoreWrite>) -> Map<
    StoreValue,
    u32,
>
    decreases writes.len(),
{
    if writes.len() == 0 {
        store
    } else {
        after_writes(store.insert(writes[0].value, writes[0].data), writes.drop_first())
    }
}

/// Two writes are two insertions, in their order.
pub proof fn lemma_two_writes(store: Map<StoreValue, u32>, writes: Seq<StoreWrite>)
    requires
        writes.len() == 2,
    ensures
        after_writes(store, writes) == store.insert(writes[0].value, writes[0].data).insert(
            writes[1].value,
            writes[1].data,
        ),
{
    reveal_with_fuel(after_writes, 3);
    let rest = writes.drop_first();
    assert(rest.len() == 1);
    assert(rest[0] == writes[1]);
    assert(rest.drop_first().len() == 0);
}

} // verus!
