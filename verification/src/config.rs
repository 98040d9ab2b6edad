//! The list of mods to install, as it is held in memory.

use vstd::prelude::*;
use vstd::string::StringExecFns;

verus! {

/// One mod to install.
#[derive(Clone, Debug, PartialEq, Eq)]
pub struct ModSpec {
    /// The name under which the mod is cached and, on request, installed.
    pub name: String,
    /// The URL of the repository that publishes the mod.
    pub url: String,
    /// The version that is installed already. It is carried along and not
    /// consulted.
    pub installed_version: Option<String>,
    /// When present, the mod is unpacked into a directory of its own below
    /// the install directory. The value does not matter.
    pub create_mod_dir: Option<bool>,
}

/// The install directory and the mods to put there, in order.
#[derive(Clone, Debug, PartialEq, Eq)]
pub struct ModList {
    pub install_dir: String,
    pub mods: Vec<ModSpec>,
}

/// The mathematical value of a [`ModSpec`].
pub ghost struct ModSpecView {
    pub name: Seq<char>,
    pub url: Seq<char>,
    pub installed_version: Option<Seq<char>>,
    pub create_mod_dir: Option<bool>,
}

impl View for ModSpec {
    type V = ModSpecView;

    open spec fn view(&self) -> ModSpecView {
        ModSpecView {
            name: self.name@,
            url: self.url@,
            installed_version: match self.installed_version {
                Some(version) => Some(version@),
                None => None,
            },
            create_mod_dir: self.create_mod_dir,
        }
    }
}

/// The mathematical value of a [`ModList`].
pub ghost struct ModListView {
    pub install_dir: Seq<char>,
    pub mods: Seq<ModSpecView>,
}

impl View for ModList {
    type V = ModListView;

    open spec fn view(&self) -> ModListView {
        ModListView {
            install_dir: self.install_dir@,
            mods: Seq::new(self.mods@.len(), |i: int| self.mods@[i]@),
        }
    }
}

impl ModSpecView {
    /// Whether the mod asks for a directory of its own: `create_mod_dir`
    /// is present, whatever it holds.
    pub open spec fn wants_own_dir(self) -> bool {
        self.create_mod_dir is Some
    }

    /// The directory that the mod's archive is unpacked into: `base`
    /// itself, or `base/name` when the mod asks for a directory of its
    /// own.
    pub open spec fn install_directory(self, base: Seq<char>) -> Seq<char> {
        if self.wants_own_dir() {
            base + "/"@ + self.name
        } else {
            base
        }
    }
}

impl ModSpec {
    /// The directory that the mod's archive is unpacked into, given the
    /// install directory of the list.
    pub fn install_directory(&self, base: &str) -> (dir: String)
        ensures
            dir@ == self@.install_directory(base@),
    {
        let mut dir = base.to_owned();
        if self.create_mod_dir.is_some() {
            dir.append("/");
            dir.append(self.name.as_str());
        }
        dir
    }
}

} // verus!
