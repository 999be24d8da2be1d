//! Resolution of the options of an upload: command-line choices first, then
//! the package's settings, then fixed defaults.
use vstd::prelude::*;

use crate::handshake::UploadError;
use crate::settings::{Metadata, ProgramIcon, DEFAULT_ICON};
use crate::upload::UploadStrategy;

verus! {

/// Options given for one upload; each may be left open.
#[derive(Clone, Debug)]
pub struct UploadOpts {
    pub slot: Option<u8>,
    pub name: Option<String>,
    pub description: Option<String>,
    pub icon: Option<ProgramIcon>,
    pub uncompressed: Option<bool>,
    pub upload_strategy: Option<UploadStrategy>,
    /// Upload the whole base image again.
    pub cold: bool,
}

/// The options of an upload once every choice is made.
#[derive(Clone, Debug)]
pub struct ResolvedUpload {
    pub slot: u8,
    pub name: String,
    pub description: String,
    pub icon: ProgramIcon,
    pub compress: bool,
    pub cold: bool,
    pub strategy: UploadStrategy,
}

/// The first of two optional values that is present.
pub open spec fn first_of<T>(a: Option<T>, b: Option<T>) -> Option<T> {
    if a is Some {
        a
    } else {
        b
    }
}

/// The slot chosen, from the option or else the package setting.
pub open spec fn chosen_slot(opts_slot: Option<u8>, metadata: Option<Metadata>) -> Option<u8> {
    first_of(
        opts_slot,
        match metadata {
            Some(m) => m.slot,
            None => None,
        },
    )
}

/// The settings behind an optional reference.
pub open spec fn owned(metadata: Option<&Metadata>) -> Option<Metadata> {
    match metadata {
        Some(m) => Some(*m),
        None => None,
    }
}

/// Optional text, as its view.
pub open spec fn text_view(t: Option<String>) -> Option<Seq<char>> {
    match t {
        Some(s) => Some(s@),
        None => None,
    }
}

/// Picks the program slot: the option, else the package setting; it must be
/// present (`NoSlot`) and within 1 to 8 (`SlotOutOfRange`).
pub fn resolve_slot(opts_slot: Option<u8>, metadata: Option<&Metadata>) -> (r: Result<u8, UploadError>)
    ensures
        match chosen_slot(opts_slot, owned(metadata)) {
            None => r == Err::<u8, UploadError>(UploadError::NoSlot),
            Some(s) => if 1 <= s <= 8 {
                r == Ok::<u8, UploadError>(s)
            } else {
                r == Err::<u8, UploadError>(UploadError::SlotOutOfRange)
            },
        },
{
    let slot = match opts_slot {
        Some(s) => Some(s),
        None => match metadata {
            Some(m) => m.slot,
            None => None,
        },
    };
    match slot {
        None => Err(UploadError::NoSlot),
        Some(s) => if 1 <= s && s <= 8 {
            Ok(s)
        } else {
            Err(UploadError::SlotOutOfRange)
        },
    }
}

fn text_or(first: Option<String>, second: Option<String>, fallback: &str) -> (r: String)
    ensures
        r@ == match first_of(text_view(first), text_view(second)) {
            Some(t) => t,
            None => fallback@,
        },
{
    match first {
        Some(t) => t,
        None => match second {
            Some(t) => t,
            None => String::from_str(fallback),
        },
    }
}

/// Makes every choice of an upload. The slot is resolved as `resolve_slot`
/// says; the name and description fall back to the package's, then to fixed
/// texts; the icon, compression and strategy fall back to the package
/// settings, then to the question-mark icon, compression on, and the monolith
/// strategy. An explicit `uncompressed` option wins over the setting.
pub fn resolve_upload(
    opts: UploadOpts,
    metadata: Option<&Metadata>,
    package_name: Option<String>,
    package_description: Option<String>,
) -> (r: Result<ResolvedUpload, UploadError>)
    ensures
        r is Ok <==> (chosen_slot(opts.slot, owned(metadata)) matches Some(s) && 1 <= s <= 8),
        r is Err ==> r->Err_0 == if chosen_slot(opts.slot, owned(metadata)) is None {
            UploadError::NoSlot
        } else {
            UploadError::SlotOutOfRange
        },
        r matches Ok(u) ==> {
            let m = owned(metadata);
            &&& Some(u.slot) == chosen_slot(opts.slot, m)
            &&& u.name@ == match first_of(text_view(opts.name), text_view(package_name)) {
                Some(t) => t,
                None => "cargo-v5"@,
            }
            &&& u.description@ == match first_of(
                text_view(opts.description),
                text_view(package_description),
            ) {
                Some(t) => t,
                None => "Uploaded with cargo-v5."@,
            }
            &&& u.icon == match first_of(
                opts.icon,
                match m {
                    Some(m) => m.icon,
                    None => None,
                },
            ) {
                Some(i) => i,
                None => DEFAULT_ICON,
            }
            &&& u.compress == match opts.uncompressed {
                Some(v) => !v,
                None => match m {
                    Some(m) => match m.compress {
                        Some(c) => c,
                        None => true,
                    },
                    None => true,
                },
            }
            &&& u.strategy == match first_of(
                opts.upload_strategy,
                match m {
                    Some(m) => m.upload_strategy,
                    None => None,
                },
            ) {
                Some(s) => s,
                None => UploadStrategy::Monolith,
            }
            &&& u.cold == opts.cold
        },
{
    let slot = resolve_slot(opts.slot, metadata)?;
    let name = text_or(opts.name, package_name, "cargo-v5");
    let description = text_or(opts.description, package_description, "Uploaded with cargo-v5.");
    let icon = match opts.icon {
        Some(i) => i,
        None => match metadata {
            Some(m) => match m.icon {
                Some(i) => i,
                None => DEFAULT_ICON,
            },
            None => DEFAULT_ICON,
        },
    };
    let compress = match opts.uncompressed {
        Some(v) => !v,
        None => match metadata {
            Some(m) => match m.compress {
                Some(c) => c,
                None => true,
            },
            None => true,
        },
    };
    let strategy = match opts.upload_strategy {
        Some(s) => s,
        None => match metadata {
            Some(m) => match m.upload_strategy {
                Some(s) => s,
                None => UploadStrategy::Monolith,
            },
            None => UploadStrategy::Monolith,
        },
    };
    Ok(ResolvedUpload { slot, name, description, icon, compress, cold: opts.cold, strategy })
}

} // verus!
