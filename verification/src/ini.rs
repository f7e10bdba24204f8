//! Configuration entries: change policies, change stages, and the entry
//! definitions a module registers.

use vstd::prelude::*;

use crate::strings::{i64_to_string, spec_i64_string};

verus! {

/// Policy bit: an entry settable from user scripts.
pub const PHP_INI_USER: u32 = 1;

/// Policy bit: an entry settable per directory.
pub const PHP_INI_PERDIR: u32 = 2;

/// Policy bit: an entry settable only in the system configuration.
pub const PHP_INI_SYSTEM: u32 = 4;

/// Policy bits: an entry settable anywhere.
pub const PHP_INI_ALL: u32 = 7;

/// Where a configuration entry may be changed.
pub enum Policy {
    /// Anywhere.
    All,
    /// In user scripts and per-user configuration.
    User,
    /// Per directory.
    PerDir,
    /// Only in the system configuration.
    System,
}

impl Policy {
    /// The policy's bit pattern.
    pub open spec fn spec_raw(&self) -> u32 {
        match self {
            Policy::All => PHP_INI_ALL,
            Policy::User => PHP_INI_USER,
            Policy::PerDir => PHP_INI_PERDIR,
            Policy::System => PHP_INI_SYSTEM,
        }
    }

    /// The policy's bit pattern.
    pub fn to_raw(&self) -> (r: u32)
        ensures
            r == self.spec_raw(),
    {
        match self {
            Policy::All => PHP_INI_ALL,
            Policy::User => PHP_INI_USER,
            Policy::PerDir => PHP_INI_PERDIR,
            Policy::System => PHP_INI_SYSTEM,
        }
    }
}

/// Stage code: configuration loaded at startup.
pub const INI_STAGE_STARTUP: u32 = 1;

/// Stage code: engine shutting down.
pub const INI_STAGE_SHUTDOWN: u32 = 2;

/// Stage code: module activated.
pub const INI_STAGE_ACTIVATE: u32 = 4;

/// Stage code: module deactivated.
pub const INI_STAGE_DEACTIVATE: u32 = 8;

/// Stage code: changed at run time from a script.
pub const INI_STAGE_RUNTIME: u32 = 16;

/// Stage code: changed from a per-directory file.
pub const INI_STAGE_HTACCESS: u32 = 32;

/// The stage at which a configuration change arrives.
pub enum Stage {
    /// Configuration loaded at startup.
    Startup,
    /// Engine shutting down.
    Shutdown,
    /// Module activated.
    Activate,
    /// Module deactivated.
    Deactivate,
    /// Changed at run time from a script.
    Runtime,
    /// Changed from a per-directory file.
    HtAccess,
}

impl Stage {
    /// The stage's code.
    pub open spec fn spec_raw(&self) -> u32 {
        match self {
            Stage::Startup => INI_STAGE_STARTUP,
            Stage::Shutdown => INI_STAGE_SHUTDOWN,
            Stage::Activate => INI_STAGE_ACTIVATE,
            Stage::Deactivate => INI_STAGE_DEACTIVATE,
            Stage::Runtime => INI_STAGE_RUNTIME,
            Stage::HtAccess => INI_STAGE_HTACCESS,
        }
    }

    /// The stage's code.
    pub fn to_raw(&self) -> (r: u32)
        ensures
            r == self.spec_raw(),
    {
        match self {
            Stage::Startup => INI_STAGE_STARTUP,
            Stage::Shutdown => INI_STAGE_SHUTDOWN,
            Stage::Activate => INI_STAGE_ACTIVATE,
            Stage::Deactivate => INI_STAGE_DEACTIVATE,
            Stage::Runtime => INI_STAGE_RUNTIME,
            Stage::HtAccess => INI_STAGE_HTACCESS,
        }
    }

    /// Decodes a stage code: exactly the six codes decode, every other
    /// value is refused.
    pub fn from_raw(value: u32) -> (r: Option<Stage>)
        ensures
            match r {
                Some(s) => s.spec_raw() == value,
                None => value != INI_STAGE_STARTUP && value != INI_STAGE_SHUTDOWN && value
                    != INI_STAGE_ACTIVATE && value != INI_STAGE_DEACTIVATE && value
                    != INI_STAGE_RUNTIME && value != INI_STAGE_HTACCESS,
            },
    {
        if value == INI_STAGE_STARTUP {
            Some(Stage::Startup)
        } else if value == INI_STAGE_SHUTDOWN {
            Some(Stage::Shutdown)
        } else if value == INI_STAGE_ACTIVATE {
            Some(Stage::Activate)
        } else if value == INI_STAGE_DEACTIVATE {
            Some(Stage::Deactivate)
        } else if value == INI_STAGE_RUNTIME {
            Some(Stage::Runtime)
        } else if value == INI_STAGE_HTACCESS {
            Some(Stage::HtAccess)
        } else {
            None
        }
    }
}

/// How the engine reads a boolean entry: exactly these four spellings of
/// a set entry mean true, an absent entry means false.
pub fn bool_from_ini_value(raw: Option<&str>) -> (r: bool)
    ensures
        r == match raw {
            Some(s) => s@ == "1"@ || s@ == "true"@ || s@ == "on"@ || s@ == "On"@,
            None => false,
        },
{
    match raw {
        Some(s) => {
            let t = s.to_owned();
            t == "1".to_owned() || t == "true".to_owned() || t == "on".to_owned() || t
                == "On".to_owned()
        },
        None => false,
    }
}

/// A native value that can stand as a configuration default.
pub trait IntoIniValue: Sized {
    /// The rendered default.
    spec fn spec_ini_value(self) -> Seq<char>;

    /// Renders the default as the configuration table stores it.
    fn into_ini_value(self) -> (r: String)
        ensures
            r@ == self.spec_ini_value(),
    ;
}

impl IntoIniValue for bool {
    open spec fn spec_ini_value(self) -> Seq<char> {
        if self {
            "1"@
        } else {
            "0"@
        }
    }

    fn into_ini_value(self) -> (r: String) {
        if self {
            "1".to_owned()
        } else {
            "0".to_owned()
        }
    }
}

impl IntoIniValue for i64 {
    open spec fn spec_ini_value(self) -> Seq<char> {
        spec_i64_string(self as int)
    }

    fn into_ini_value(self) -> (r: String) {
        i64_to_string(self)
    }
}

impl IntoIniValue for String {
    open spec fn spec_ini_value(self) -> Seq<char> {
        self@
    }

    fn into_ini_value(self) -> (r: String) {
        self
    }
}

/// A configuration entry definition: name, rendered default, and the
/// change-policy bits.
pub struct IniEntryDef {
    name: String,
    default_value: String,
    modifiable: u32,
}

impl IniEntryDef {
    /// The entry's name.
    pub closed spec fn spec_name(&self) -> Seq<char> {
        self.name@
    }

    /// The entry's rendered default.
    pub closed spec fn spec_default_value(&self) -> Seq<char> {
        self.default_value@
    }

    /// The entry's change-policy bits.
    pub closed spec fn spec_modifiable(&self) -> u32 {
        self.modifiable
    }

    /// The entry's name.
    pub fn name(&self) -> (r: &String)
        ensures
            r@ == self.spec_name(),
    {
        &self.name
    }

    /// The entry's rendered default.
    pub fn default_value(&self) -> (r: &String)
        ensures
            r@ == self.spec_default_value(),
    {
        &self.default_value
    }
}

/// Builds an entry definition from a name, a rendered default, and the
/// policy bits.
pub fn create_ini_entry_ex(name: String, default_value: String, modifiable: u32) -> (r:
    IniEntryDef)
    ensures
        r.spec_name() == name@,
        r.spec_default_value() == default_value@,
        r.spec_modifiable() == modifiable,
{
    IniEntryDef { name, default_value, modifiable }
}

} // verus!
