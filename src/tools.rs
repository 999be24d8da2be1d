//! Small decisions of the command-line tool around the upload engine: user
//! configuration defaults, how the tool itself is updated, and file name
//! completion from the cached catalog listing.
use vstd::prelude::*;

use crate::names::starts_with;

verus! {

/// Defaults the user configured for every project.
#[derive(Clone, Copy, Debug, PartialEq, Eq, Structural)]
pub struct Defaults {
    pub slot: Option<u8>,
}

/// The user's configuration file.
#[derive(Clone, Copy, Debug, PartialEq, Eq, Structural)]
pub struct Config {
    pub defaults: Defaults,
}

impl Default for Defaults {
    fn default() -> (r: Defaults)
        ensures
            r.slot is None,
    {
        Defaults { slot: None }
    }
}

impl Default for Config {
    fn default() -> (r: Config)
        ensures
            r.defaults.slot is None,
    {
        Config { defaults: Defaults { slot: None } }
    }
}

/// A package manager that installed the tool and must update it.
#[derive(Clone, Copy, Debug, PartialEq, Eq, Structural)]
pub enum ExternalUpdateManager {
    Homebrew,
}

/// How the tool can update itself.
#[derive(Clone, Copy, Debug, PartialEq, Eq, Structural)]
pub enum SelfUpdateMode {
    /// Installed by the release installer: rerun it.
    Axoupdate,
    /// Installed by cargo: reinstall through cargo.
    Cargo,
    /// Managed elsewhere, by a known manager if any.
    Unmanaged(Option<ExternalUpdateManager>),
}

/// The update mode for a tool started as `this_arg`: cargo's when it is the
/// executable cargo installed, Homebrew's when it lies under the Homebrew
/// prefix, the installer's when an install receipt exists, else unmanaged.
pub open spec fn update_mode(this_arg: Seq<char>, cargo_managed: bool, homebrew_prefix: Seq<char>, has_receipt: bool) -> SelfUpdateMode {
    if this_arg.len() > 0 && cargo_managed {
        SelfUpdateMode::Cargo
    } else if this_arg.len() > 0 && homebrew_prefix.len() <= this_arg.len() && this_arg.subrange(
        0,
        homebrew_prefix.len() as int,
    ) == homebrew_prefix {
        SelfUpdateMode::Unmanaged(Some(ExternalUpdateManager::Homebrew))
    } else if has_receipt {
        SelfUpdateMode::Axoupdate
    } else {
        SelfUpdateMode::Unmanaged(None)
    }
}

impl SelfUpdateMode {
    /// Decides the update mode. `cargo_managed` tells whether the running
    /// executable is the one in cargo's binary directory.
    pub fn detect(this_arg: &str, cargo_managed: bool, homebrew_prefix: &str, has_receipt: bool) -> (r: SelfUpdateMode)
        ensures
            r == update_mode(this_arg@, cargo_managed, homebrew_prefix@, has_receipt),
    {
        let named = this_arg.unicode_len() > 0;
        if named && cargo_managed {
            SelfUpdateMode::Cargo
        } else if named && starts_with(this_arg, homebrew_prefix) {
            SelfUpdateMode::Unmanaged(Some(ExternalUpdateManager::Homebrew))
        } else if has_receipt {
            SelfUpdateMode::Axoupdate
        } else {
            SelfUpdateMode::Unmanaged(None)
        }
    }

    /// What to tell a user whose tool is updated elsewhere; `None` when the
    /// tool can update itself.
    pub fn advice(self) -> (r: Option<&'static str>)
        ensures
            r is Some <==> self is Unmanaged,
    {
        match self {
            SelfUpdateMode::Unmanaged(Some(ExternalUpdateManager::Homebrew)) => Some("run `brew upgrade cargo-v5`"),
            SelfUpdateMode::Unmanaged(None) => Some(
                "update cargo-v5 with your package manager or redownload the executable",
            ),
            _ => None,
        }
    }
}

/// How long a cached catalog listing is trusted, in seconds.
pub const CACHE_TTL_SECS: u64 = 600;

/// Whether a listing cached at `stamp` is still trusted at `now`.
pub fn cache_is_fresh(now: u64, stamp: u64) -> (r: bool)
    ensures
        r == (stamp <= now && now - stamp < CACHE_TTL_SECS),
{
    stamp <= now && now - stamp < CACHE_TTL_SECS
}

/// Whether a name begins with `prefix`.
pub open spec fn prefixed_by(prefix: Seq<char>) -> spec_fn(Seq<char>) -> bool {
    |f: Seq<char>| prefix.len() <= f.len() && f.subrange(0, prefix.len() as int) == prefix
}

/// Completes device file names from the cached catalog listing.
pub struct FileCompleter;

impl FileCompleter {
    /// The listed names that begin with `current`, in listing order.
    pub fn complete(&self, files: &Vec<String>, current: &str) -> (r: Vec<String>)
        ensures
            r@.map_values(|f: String| f@) == files@.map_values(|f: String| f@).filter(
                prefixed_by(current@),
            ),
    {
        let mut out: Vec<String> = Vec::new();
        let mut i: usize = 0;
        while i < files.len()
            invariant
                i <= files@.len(),
                out@.map_values(|f: String| f@) == files@.subrange(0, i as int).map_values(
                    |f: String| f@,
                ).filter(prefixed_by(current@)),
            decreases files@.len() - i,
        {
            let ghost before = files@.subrange(0, i as int).map_values(|f: String| f@);
            let ghost after = files@.subrange(0, i + 1).map_values(|f: String| f@);
            assert(after =~= before.push(files@[i as int]@));
            proof {
                reveal(Seq::filter);
                assert(after.drop_last() =~= before);
                assert(after.last() == files@[i as int]@);
            }
            let name_text = files[i].as_str();
            let matched = starts_with(name_text, current);
            assert(name_text@ == files@[i as int]@);
            assert(matched == prefixed_by(current@)(files@[i as int]@));
            if matched {
                let name = files[i].clone();
                out.push(name);
                assert(out@.map_values(|f: String| f@) =~= before.filter(prefixed_by(current@)).push(files@[i as int]@));
                assert(prefixed_by(current@)(files@[i as int]@));
                assert(after.filter(prefixed_by(current@)) == before.filter(prefixed_by(current@)).push(files@[i as int]@)) by {
                    reveal(Seq::filter);
                }
            } else {
                assert(out@.map_values(|f: String| f@) =~= before.filter(prefixed_by(current@)));
                assert(!prefixed_by(current@)(files@[i as int]@));
                assert(after.filter(prefixed_by(current@)) == before.filter(prefixed_by(current@))) by {
                    reveal(Seq::filter);
                }
            }
            i = i + 1;
        }
        assert(files@.subrange(0, files@.len() as int) =~= files@);
        assert(out@.map_values(|f: String| f@) == files@.map_values(|f: String| f@).filter(prefixed_by(current@)));
        out
    }
}

} // verus!
