//! The differential upload planner: chooses between a full ("cold") upload of
//! a new base image and a patch against the base the device already holds.
use vstd::prelude::*;

use crate::handshake::UploadError;
use crate::patch::{
    build_patch, cache_base, cache_crc, cache_of, decode_base_cache, gzip, gzip_of,
    lemma_cache_round_trip, patch_of, DIFFERENTIAL_UPLOAD_MAX_SIZE,
};
use crate::transfer::RemoteFile;

verus! {

/// The planner's choice.
#[derive(Clone, Debug)]
pub enum Plan {
    /// Upload the new image in full, as the new base.
    Cold,
    /// Upload this gzip-compressed patch against the cached base.
    Patch(Vec<u8>),
}

/// A cold upload is needed when asked for, when no usable cache exists, when
/// the device holds no base file, when the device's base checksum differs
/// from the one the cache recorded, or when the cached base is empty and the
/// new image is not (no patch leads from nothing to something).
pub open spec fn needs_cold(force_cold: bool, cache: Option<Seq<u8>>, remote: Option<RemoteFile>, new_len: nat) -> bool {
    force_cold || cache is None || cache->0.len() < 4 || remote is None || remote->0.crc32
        != cache_crc(cache->0) || (cache->0.len() == 4 && new_len > 0)
}

/// Optional bytes, as their view.
pub open spec fn bytes_view(v: Option<Vec<u8>>) -> Option<Seq<u8>> {
    match v {
        Some(b) => Some(b@),
        None => None,
    }
}

/// Plans a differential upload of `new_image`, given the local base cache (if
/// one could be read) and the device's catalog entry for the base file.
///
/// A cold upload is chosen as `needs_cold` says. Otherwise the cached base and
/// the new image must each fit the size budget (`ProgramTooLarge`, base first),
/// and so must the assembled patch (`PatchTooLarge`); the patch is then
/// compressed.
pub fn plan_upload(
    force_cold: bool,
    cache: &Option<Vec<u8>>,
    remote: Option<RemoteFile>,
    new_image: &[u8],
) -> (r: Result<Plan, UploadError>)
    ensures
        needs_cold(force_cold, bytes_view(*cache), remote, new_image@.len()) ==> r matches Ok(Plan::Cold),
        !needs_cold(force_cold, bytes_view(*cache), remote, new_image@.len()) ==> ({
            let base = cache_base(cache->0@);
            let patch = patch_of(base, new_image@);
            if base.len() > DIFFERENTIAL_UPLOAD_MAX_SIZE {
                r == Err::<Plan, UploadError>(UploadError::ProgramTooLarge(base.len() as usize))
            } else if new_image@.len() > DIFFERENTIAL_UPLOAD_MAX_SIZE {
                r == Err::<Plan, UploadError>(UploadError::ProgramTooLarge(new_image@.len() as usize))
            } else if patch.len() > DIFFERENTIAL_UPLOAD_MAX_SIZE {
                r == Err::<Plan, UploadError>(UploadError::PatchTooLarge(patch.len() as usize))
            } else {
                r matches Ok(Plan::Patch(p)) && p@ == gzip_of(patch)
            }
        }),
{
    if force_cold {
        return Ok(Plan::Cold);
    }
    let (base, crc) = match cache {
        None => {
            return Ok(Plan::Cold);
        },
        Some(bytes) => match decode_base_cache(bytes.as_slice()) {
            None => {
                return Ok(Plan::Cold);
            },
            Some(split) => split,
        },
    };
    match remote {
        None => {
            return Ok(Plan::Cold);
        },
        Some(entry) => {
            if entry.crc32 != crc {
                return Ok(Plan::Cold);
            }
        },
    }
    if base.len() == 0 && new_image.len() > 0 {
        return Ok(Plan::Cold);
    }
    if base.len() > DIFFERENTIAL_UPLOAD_MAX_SIZE {
        return Err(UploadError::ProgramTooLarge(base.len()));
    }
    if new_image.len() > DIFFERENTIAL_UPLOAD_MAX_SIZE {
        return Err(UploadError::ProgramTooLarge(new_image.len()));
    }
    let patch = build_patch(base.as_slice(), new_image);
    if patch.len() > DIFFERENTIAL_UPLOAD_MAX_SIZE {
        return Err(UploadError::PatchTooLarge(patch.len()));
    }
    Ok(Plan::Patch(gzip(patch.as_slice())))
}

/// A checksum mismatch forces a cold upload, whatever the cache holds.
pub proof fn lemma_crc_mismatch_forces_cold(cache: Seq<u8>, remote: RemoteFile, new_image: Seq<u8>)
    requires
        cache.len() >= 4,
        remote.crc32 != cache_crc(cache),
    ensures
        needs_cold(false, Some(cache), Some(remote), new_image.len()),
{
}

/// Uploading the same image twice: once a cold upload of `image` has left the
/// cache `cache_of(image, c)` and a device base file with checksum `c`, the
/// next plan for `image` is a patch against `image` itself (when the patch
/// fits the budget, as `plan_upload` states).
pub proof fn lemma_second_upload_patches(image: Seq<u8>, c: u32, remote: RemoteFile)
    requires
        remote.crc32 == c,
    ensures
        !needs_cold(false, Some(cache_of(image, c)), Some(remote), image.len()),
        cache_base(cache_of(image, c)) == image,
{
    lemma_cache_round_trip(image, c);
}

} // verus!
