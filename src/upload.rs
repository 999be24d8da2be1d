//! The upload orchestrator: program metadata, strategy selection and the
//! transfers that place a program in a slot of the device's catalog.
use vstd::prelude::*;

use crate::handshake::{consumed, lemma_span_decides, received_since, HandshakeConfig, Response, Session, Transport, UploadError};
use crate::names::{slot_file, slot_file_name};
use crate::patch::{cache_base, cache_of, copy_bytes, crc32, crc32_of, encode_base_cache, gzip, gzip_of, le32, patch_of, DIFFERENTIAL_UPLOAD_MAX_SIZE};
use crate::planner::{bytes_view, needs_cold, plan_upload, Plan};
use crate::transfer::{file_metadata, is_metadata_query, metadata_outcome, FileExitAction, FileUpload, FileVendor, LinkedFile, RemoteFile};

verus! {

/// Where program files and base images land on the device's storage.
pub const USER_PROGRAM_LOAD_ADDR: u32 = 0x3800000;

/// Where catalog entries linked to a base file land, apart from the base.
pub const LINKED_PROGRAM_LOAD_ADDR: u32 = 0x07A00000;

/// The catalog contents that tell the device's patch loader "already applied,
/// do not patch".
pub const PATCH_APPLIED_SENTINEL: u32 = 0xB2DF;

/// Method used for uploading binaries.
#[derive(Clone, Copy, Debug, PartialEq, Eq, Structural)]
pub enum UploadStrategy {
    /// The full binary is uploaded each time.
    Monolith,
    /// A base image once, then patches against it.
    Differential,
}

/// An action to perform after uploading a program.
#[derive(Clone, Copy, Debug, PartialEq, Eq, Structural)]
pub enum AfterUpload {
    /// Do nothing.
    Nothing,
    /// Execute the program.
    Run,
    /// Show the program's "run" screen on the brain.
    ShowScreen,
}

/// The device-side action for an after-upload choice.
pub open spec fn exit_action(after: AfterUpload) -> FileExitAction {
    match after {
        AfterUpload::Nothing => FileExitAction::DoNothing,
        AfterUpload::Run => FileExitAction::RunProgram,
        AfterUpload::ShowScreen => FileExitAction::ShowRunScreen,
    }
}

impl AfterUpload {
    /// The device-side action for this choice.
    pub fn exit_action(self) -> (r: FileExitAction)
        ensures
            r == exit_action(self),
    {
        match self {
            AfterUpload::Nothing => FileExitAction::DoNothing,
            AfterUpload::Run => FileExitAction::RunProgram,
            AfterUpload::ShowScreen => FileExitAction::ShowRunScreen,
        }
    }
}

/// A transfer's description, as plain values.
pub open spec fn upload_is(
    u: FileUpload,
    name: Seq<char>,
    extension: Seq<char>,
    data: Seq<u8>,
    load_address: u32,
    link: Option<Seq<char>>,
    action: FileExitAction,
) -> bool {
    &&& u.file_name@ == name
    &&& u.extension@ == extension
    &&& u.vendor == FileVendor::User
    &&& u.data@ == data
    &&& u.load_address == load_address
    &&& match link {
        None => u.linked_file is None,
        Some(base) => u.linked_file matches Some(l) && l.file_name@ == base && l.vendor
            == FileVendor::User,
    }
    &&& u.after_upload == action
}

fn user_upload(
    file_name: String,
    extension: &str,
    data: Vec<u8>,
    load_address: u32,
    link: Option<String>,
    after_upload: FileExitAction,
) -> (r: FileUpload)
    ensures
        upload_is(
            r,
            file_name@,
            extension@,
            data@,
            load_address,
            match link {
                None => None,
                Some(l) => Some(l@),
            },
            after_upload,
        ),
{
    let linked_file = match link {
        None => None,
        Some(base) => Some(LinkedFile { file_name: base, vendor: FileVendor::User }),
    };
    FileUpload {
        file_name,
        extension: String::from_str(extension),
        vendor: FileVendor::User,
        data,
        load_address,
        linked_file,
        after_upload,
    }
}

/// The transfer of a slot's program metadata file.
pub fn ini_upload(slot: u8, ini: Vec<u8>) -> (r: FileUpload)
    requires
        1 <= slot <= 8,
    ensures
        upload_is(
            r,
            slot_file(slot, ".ini"@),
            "ini"@,
            ini@,
            USER_PROGRAM_LOAD_ADDR,
            None,
            FileExitAction::DoNothing,
        ),
{
    user_upload(slot_file_name(slot, ".ini"), "ini", ini, USER_PROGRAM_LOAD_ADDR, None, FileExitAction::DoNothing)
}

/// The transfer of a whole program into its slot's catalog file.
pub fn program_upload(slot: u8, data: Vec<u8>, after: AfterUpload) -> (r: FileUpload)
    requires
        1 <= slot <= 8,
    ensures
        upload_is(
            r,
            slot_file(slot, ".bin"@),
            "bin"@,
            data@,
            USER_PROGRAM_LOAD_ADDR,
            None,
            exit_action(after),
        ),
{
    user_upload(slot_file_name(slot, ".bin"), "bin", data, USER_PROGRAM_LOAD_ADDR, None, after.exit_action())
}

/// The transfer of a base image; it never triggers an action on the device.
pub fn base_upload(slot: u8, data: Vec<u8>) -> (r: FileUpload)
    requires
        1 <= slot <= 8,
    ensures
        upload_is(
            r,
            slot_file(slot, ".base.bin"@),
            "bin"@,
            data@,
            USER_PROGRAM_LOAD_ADDR,
            None,
            FileExitAction::DoNothing,
        ),
{
    user_upload(slot_file_name(slot, ".base.bin"), "bin", data, USER_PROGRAM_LOAD_ADDR, None, FileExitAction::DoNothing)
}

/// The transfer of a slot's catalog file linked to its base image: a patch,
/// or the sentinel that says none is to be applied.
pub fn linked_upload(slot: u8, data: Vec<u8>, after: AfterUpload) -> (r: FileUpload)
    requires
        1 <= slot <= 8,
    ensures
        upload_is(
            r,
            slot_file(slot, ".bin"@),
            "bin"@,
            data@,
            LINKED_PROGRAM_LOAD_ADDR,
            Some(slot_file(slot, ".base.bin"@)),
            exit_action(after),
        ),
{
    user_upload(
        slot_file_name(slot, ".bin"),
        "bin",
        data,
        LINKED_PROGRAM_LOAD_ADDR,
        Some(slot_file_name(slot, ".base.bin")),
        after.exit_action(),
    )
}

/// The four bytes of the "already applied" sentinel.
pub fn sentinel_bytes() -> (r: Vec<u8>)
    ensures
        r@ == le32(PATCH_APPLIED_SENTINEL),
{
    let mut v: Vec<u8> = Vec::new();
    v.push(0xDFu8);
    v.push(0xB2u8);
    v.push(0u8);
    v.push(0u8);
    assert(v@ =~= le32(PATCH_APPLIED_SENTINEL)) by {
        assert((PATCH_APPLIED_SENTINEL & 0xff) as u8 == 0xDFu8) by (bit_vector);
        assert(((PATCH_APPLIED_SENTINEL >> 8u32) & 0xff) as u8 == 0xB2u8) by (bit_vector);
        assert(((PATCH_APPLIED_SENTINEL >> 16u32) & 0xff) as u8 == 0u8) by (bit_vector);
        assert(((PATCH_APPLIED_SENTINEL >> 24u32) & 0xff) as u8 == 0u8) by (bit_vector);
    }
    v
}

/// What a cold upload sends as the base file (the image, gzipped when
/// `compress`), and the cache record it leaves: the image followed by the
/// checksum of what was sent, which is what the device will report for its
/// base file.
pub fn cold_upload_parts(image: &[u8], compress: bool) -> (r: (Vec<u8>, Vec<u8>))
    ensures
        r.0@ == if compress { gzip_of(image@) } else { image@ },
        r.1@ == cache_of(image@, crc32_of(r.0@)),
{
    let sent = if compress {
        gzip(image)
    } else {
        copy_bytes(image)
    };
    let record = encode_base_cache(image, crc32(sent.as_slice()));
    (sent, record)
}

/// The local store of the last cold-uploaded base image.
///
/// Nothing is assumed of what an implementation returns.
pub trait BaseCache {
    /// The cache's bytes; `None` when it is missing or unreadable.
    fn load(&mut self) -> Option<Vec<u8>>;

    /// Replaces the cache's bytes; `false` when that failed.
    fn store(&mut self, bytes: &[u8]) -> bool;
}

/// A base cache together with a record, for proofs, of what was read from it
/// and written to it.
pub struct CacheSession<C> {
    pub cache: C,
    /// Every value read, in order.
    pub loaded: Ghost<Seq<Option<Seq<u8>>>>,
    /// Every value written, in order.
    pub stored: Ghost<Seq<Seq<u8>>>,
    /// Whether each write succeeded, in order.
    pub store_results: Ghost<Seq<bool>>,
}

impl<C: BaseCache> CacheSession<C> {
    /// A session over `cache` with nothing read or written yet.
    pub fn new(cache: C) -> (r: Self)
        ensures
            r.loaded@ == Seq::<Option<Seq<u8>>>::empty(),
            r.stored@ == Seq::<Seq<u8>>::empty(),
            r.store_results@ == Seq::<bool>::empty(),
    {
        CacheSession {
            cache,
            loaded: Ghost(Seq::empty()),
            stored: Ghost(Seq::empty()),
            store_results: Ghost(Seq::empty()),
        }
    }

    /// Reads the cache; see `BaseCache::load`.
    pub fn load(&mut self) -> (r: Option<Vec<u8>>)
        ensures
            final(self).loaded@ == old(self).loaded@.push(bytes_view(r)),
            final(self).stored@ == old(self).stored@,
            final(self).store_results@ == old(self).store_results@,
    {
        let r = self.cache.load();
        self.loaded = Ghost(self.loaded@.push(bytes_view(r)));
        r
    }

    /// Writes the cache; see `BaseCache::store`.
    pub fn store(&mut self, bytes: &[u8]) -> (r: bool)
        ensures
            final(self).stored@ == old(self).stored@.push(bytes@),
            final(self).store_results@ == old(self).store_results@.push(r),
            final(self).loaded@ == old(self).loaded@,
    {
        let r = self.cache.store(bytes);
        self.stored = Ghost(self.stored@.push(bytes@));
        self.store_results = Ghost(self.store_results@.push(r));
        r
    }
}

/// What a monolith or cold upload sends for `image`.
pub open spec fn sent_image(image: Seq<u8>, compress: bool) -> Seq<u8> {
    if compress {
        gzip_of(image)
    } else {
        image
    }
}

/// Everything an upload of one program needs besides the image and metadata.
#[derive(Clone, Copy, Debug, PartialEq, Eq, Structural)]
pub struct ProgramUpload {
    /// Program slot, 1 to 8.
    pub slot: u8,
    /// Gzip the image of a monolith or cold upload.
    pub compress: bool,
    /// Upload the whole base again even if a patch would do.
    pub cold: bool,
    pub strategy: UploadStrategy,
    pub after: AfterUpload,
    /// Handshake used for catalog queries.
    pub query: HandshakeConfig,
}

/// How the program reached the device.
#[derive(Clone, Copy, Debug, PartialEq, Eq, Structural)]
pub enum UploadKind {
    /// The whole image went to the catalog file.
    Monolith,
    /// The image went up as a new base, with the sentinel as catalog file.
    Cold,
    /// A patch against the device's base went up as catalog file.
    Patch,
}

/// What an upload did.
#[derive(Clone, Debug)]
pub struct UploadOutcome {
    pub kind: UploadKind,
    /// Whether the metadata file had to be sent.
    pub ini_uploaded: bool,
    /// Catalog name of the program's file.
    pub program_file: String,
}

/// Whether the metadata file must be sent: absent on the device, or with
/// another checksum than `ini_crc`.
pub open spec fn ini_outdated(remote: Option<RemoteFile>, ini_crc: u32) -> bool {
    match remote {
        None => true,
        Some(entry) => entry.crc32 != ini_crc,
    }
}

/// Decides whether the metadata file must be sent.
pub fn ini_needs_upload(remote: Option<RemoteFile>, ini_crc: u32) -> (r: bool)
    ensures
        r == ini_outdated(remote, ini_crc),
{
    match remote {
        None => true,
        Some(entry) => entry.crc32 != ini_crc,
    }
}

/// What a differential upload comes to, given the cache read, the device's
/// base entry and the image: a cold upload (the image must fit the budget),
/// a patch, or the planner's size error.
pub open spec fn expected_differential(
    force_cold: bool,
    cache: Option<Seq<u8>>,
    remote: Option<RemoteFile>,
    image: Seq<u8>,
) -> Result<UploadKind, UploadError> {
    if needs_cold(force_cold, cache, remote, image.len()) {
        if image.len() > DIFFERENTIAL_UPLOAD_MAX_SIZE {
            Err(UploadError::ProgramTooLarge(image.len() as usize))
        } else {
            Ok(UploadKind::Cold)
        }
    } else {
        let base = cache_base(cache->0);
        let patch = patch_of(base, image);
        if base.len() > DIFFERENTIAL_UPLOAD_MAX_SIZE {
            Err(UploadError::ProgramTooLarge(base.len() as usize))
        } else if image.len() > DIFFERENTIAL_UPLOAD_MAX_SIZE {
            Err(UploadError::ProgramTooLarge(image.len() as usize))
        } else if patch.len() > DIFFERENTIAL_UPLOAD_MAX_SIZE {
            Err(UploadError::PatchTooLarge(patch.len() as usize))
        } else {
            Ok(UploadKind::Patch)
        }
    }
}

/// Uploading the same image twice: with no cache the first differential
/// upload is cold; once that upload has left the cache `cache_of(image, c)`
/// and the device reports checksum `c` for its base file, the second is a
/// patch, when the patch fits the budget.
pub proof fn lemma_cold_then_patch(image: Seq<u8>, remote: RemoteFile)
    requires
        image.len() <= DIFFERENTIAL_UPLOAD_MAX_SIZE,
    ensures
        forall|first_remote: Option<RemoteFile>|
            expected_differential(false, None, first_remote, image) == Ok::<UploadKind, UploadError>(
                UploadKind::Cold,
            ),
        patch_of(image, image).len() <= DIFFERENTIAL_UPLOAD_MAX_SIZE ==> expected_differential(
            false,
            Some(cache_of(image, remote.crc32)),
            Some(remote),
            image,
        ) == Ok::<UploadKind, UploadError>(UploadKind::Patch),
{
    crate::patch::lemma_cache_round_trip(image, remote.crc32);
}

/// Uploads a program to the device.
///
/// First the slot's metadata file `ini` is sent unless the device already
/// holds it with the same checksum. Then, with the monolith strategy, the
/// image (gzipped when `opts.compress`) becomes the slot's catalog file,
/// carrying `opts.after`. With the differential strategy the planner decides:
/// on a cold upload the image must fit the size budget; it (gzipped when
/// `opts.compress`) becomes the base file, the cache is replaced by the image
/// followed by the checksum of what was sent, and the 4-byte sentinel, linked
/// to the base, becomes the catalog file; on a patch, the compressed patch,
/// linked to the base, becomes the catalog file. Any failure stops the
/// sequence at once, with nothing undone.
pub fn upload_program<T: Transport, C: BaseCache>(
    link: &mut Session<T>,
    cache: &mut CacheSession<C>,
    image: Vec<u8>,
    ini: Vec<u8>,
    opts: ProgramUpload,
) -> (r: Result<UploadOutcome, UploadError>)
    requires
        1 <= opts.slot <= 8,
    ensures
        final(link).uploads@.len() - old(link).uploads@.len() == final(link).upload_results@.len()
            - old(link).upload_results@.len(),
        ({
            let q = (opts.query.max_retries + 1) as nat;
            let rec = received_since(final(link).received@, old(link).received@.len());
            let ini_res = metadata_outcome(q, rec);
            let base_res = metadata_outcome(q, rec.subrange(consumed(q, rec) as int, rec.len() as int));
            let new_uploads = final(link).uploads@.len() - old(link).uploads@.len();
            let first_result = final(link).upload_results@[old(link).upload_results@.len() as int];
            let n_ini: int = if ini_res is Ok && ini_outdated(ini_res->Ok_0, crc32_of(ini@)) {
                1
            } else {
                0
            };
            let ini_done = ini_res is Ok && (n_ini == 0 || (new_uploads >= 1 && first_result is Ok));
            let loaded = final(cache).loaded@.last();
            let queried_base = opts.strategy == UploadStrategy::Differential && !opts.cold
                && loaded is Some;
            let remote = if queried_base {
                base_res->Ok_0
            } else {
                None
            };
            let res_new = final(link).upload_results@.subrange(
                old(link).upload_results@.len() as int,
                final(link).upload_results@.len() as int,
            );
            let all_ok = forall|i: int| 0 <= i < res_new.len() ==> (#[trigger] res_new[i]) is Ok;
            let stores_new = final(cache).store_results@.subrange(
                old(cache).store_results@.len() as int,
                final(cache).store_results@.len() as int,
            );
            let stores_ok = forall|i: int| 0 <= i < stores_new.len() ==> #[trigger] stores_new[i];
            &&& final(link).sent@.len() > old(link).sent@.len()
            &&& is_metadata_query(
                final(link).sent@[old(link).sent@.len() as int],
                slot_file(opts.slot, ".ini"@),
                FileVendor::User,
            )
            &&& ini_res is Ok && n_ini == 1 ==> new_uploads >= 1 && upload_is(
                final(link).uploads@[old(link).uploads@.len() as int],
                slot_file(opts.slot, ".ini"@),
                "ini"@,
                ini@,
                USER_PROGRAM_LOAD_ADDR,
                None,
                FileExitAction::DoNothing,
            )
            &&& ini_res is Ok && n_ini == 1 && first_result is Err ==> r == Err::<
                UploadOutcome,
                UploadError,
            >(first_result->Err_0) && new_uploads == 1
            &&& opts.strategy == UploadStrategy::Monolith && ini_res is Ok && all_ok ==> (r matches Ok(
                o,
            ) && o.kind == UploadKind::Monolith && new_uploads == n_ini + 1)
            &&& opts.strategy == UploadStrategy::Differential && ini_res is Ok && all_ok && stores_ok
                && (!queried_base || base_res is Ok) ==> match expected_differential(
                opts.cold,
                loaded,
                remote,
                image@,
            ) {
                Ok(kind) => r matches Ok(o) && o.kind == kind,
                Err(e) => r == Err::<UploadOutcome, UploadError>(e),
            }
            &&& ini_res is Err ==> {
                &&& r == Err::<UploadOutcome, UploadError>(ini_res->Err_0)
                &&& new_uploads == 0
                &&& final(cache).loaded@ == old(cache).loaded@
                &&& final(cache).stored@ == old(cache).stored@
            }
            &&& r matches Ok(o) ==> ini_res is Ok && o.ini_uploaded == (n_ini == 1)
            &&& opts.strategy == UploadStrategy::Monolith ==> {
                &&& final(cache).loaded@ == old(cache).loaded@
                &&& final(cache).stored@ == old(cache).stored@
                &&& consumed(q, rec) == rec.len()
            }
            &&& opts.strategy == UploadStrategy::Differential && ini_done ==> {
                &&& final(cache).loaded@.len() == old(cache).loaded@.len() + 1
                &&& !queried_base ==> consumed(q, rec) == rec.len()
                &&& queried_base && base_res is Err ==> {
                    &&& r == Err::<UploadOutcome, UploadError>(base_res->Err_0)
                    &&& new_uploads == n_ini
                    &&& final(cache).stored@ == old(cache).stored@
                }
                &&& (!queried_base || base_res is Ok) ==> match expected_differential(
                    opts.cold,
                    loaded,
                    remote,
                    image@,
                ) {
                    Err(e) => {
                        &&& r == Err::<UploadOutcome, UploadError>(e)
                        &&& new_uploads == n_ini
                        &&& final(cache).stored@ == old(cache).stored@
                    },
                    Ok(kind) => r matches Ok(o) ==> o.kind == kind,
                }
            }
        }),
        final(link).uploads@.len() >= old(link).uploads@.len(),
        final(link).uploads@.subrange(0, old(link).uploads@.len() as int) == old(link).uploads@,
        r matches Ok(o) ==> {
            let new = final(link).uploads@.subrange(
                old(link).uploads@.len() as int,
                final(link).uploads@.len() as int,
            );
            let k: int = if o.ini_uploaded { 1 } else { 0 };
            let slot = opts.slot;
            let base = slot_file(slot, ".base.bin"@);
            let program = slot_file(slot, ".bin"@);
            &&& o.ini_uploaded ==> upload_is(
                new[0],
                slot_file(slot, ".ini"@),
                "ini"@,
                ini@,
                USER_PROGRAM_LOAD_ADDR,
                None,
                FileExitAction::DoNothing,
            )
            &&& o.kind == UploadKind::Monolith ==> {
                &&& new.len() == k + 1
                &&& upload_is(
                    new[k],
                    program,
                    "bin"@,
                    sent_image(image@, opts.compress),
                    USER_PROGRAM_LOAD_ADDR,
                    None,
                    exit_action(opts.after),
                )
                &&& final(cache).stored@ == old(cache).stored@
            }
            &&& o.kind == UploadKind::Cold ==> {
                &&& new.len() == k + 2
                &&& upload_is(
                    new[k],
                    base,
                    "bin"@,
                    sent_image(image@, opts.compress),
                    USER_PROGRAM_LOAD_ADDR,
                    None,
                    FileExitAction::DoNothing,
                )
                &&& upload_is(
                    new[k + 1],
                    program,
                    "bin"@,
                    le32(PATCH_APPLIED_SENTINEL),
                    LINKED_PROGRAM_LOAD_ADDR,
                    Some(base),
                    exit_action(opts.after),
                )
                &&& final(cache).stored@ == old(cache).stored@.push(
                    cache_of(image@, crc32_of(sent_image(image@, opts.compress))),
                )
            }
            &&& o.kind == UploadKind::Patch ==> {
                &&& new.len() == k + 1
                &&& final(cache).loaded@.len() == old(cache).loaded@.len() + 1
                &&& final(cache).loaded@.last() is Some
                &&& upload_is(
                    new[k],
                    program,
                    "bin"@,
                    gzip_of(patch_of(cache_base(final(cache).loaded@.last()->0), image@)),
                    LINKED_PROGRAM_LOAD_ADDR,
                    Some(base),
                    exit_action(opts.after),
                )
                &&& final(cache).stored@ == old(cache).stored@
            }
        },
        r matches Ok(o) ==> (o.kind == UploadKind::Monolith <==> opts.strategy
            == UploadStrategy::Monolith),
        r matches Ok(o) ==> o.program_file@ == slot_file(opts.slot, ".bin"@),
        opts.strategy == UploadStrategy::Differential && opts.cold && r is Ok ==> r->Ok_0.kind
            == UploadKind::Cold,
        opts.strategy == UploadStrategy::Differential && image@.len()
            > DIFFERENTIAL_UPLOAD_MAX_SIZE ==> r is Err,
{
    let ghost start = link.uploads@;
    let ghost rstart = link.received@;
    let ghost res_start = link.upload_results@;
    let ghost st0 = cache.store_results@;
    let ghost s0 = link.sent@;
    let ghost mut done_res: Seq<Result<(), UploadError>> = Seq::empty();
    let ghost q = (opts.query.max_retries + 1) as nat;
    let ini_name = slot_file_name(opts.slot, ".ini");
    let remote_ini = file_metadata(link, &ini_name, FileVendor::User, opts.query);
    let ghost s1 = link.sent@;
    proof {
        assert(s1[s0.len() as int] == s1.subrange(0, s1.len() as int)[s0.len() as int]);
        assert(is_metadata_query(s1[s0.len() as int], ini_name@, FileVendor::User));
        assert(st0.subrange(st0.len() as int, st0.len() as int).len() == 0);
    }
    let ghost seg1 = received_since(link.received@, rstart.len());
    let ghost after_ini = link.received@;
    proof {
        assert(link.uploads@.subrange(0, start.len() as int) =~= start);
        assert(received_since(link.received@, rstart.len()) =~= seg1);
        lemma_span_decides(q, seg1, Seq::empty());
        assert(seg1 + Seq::<Option<Response>>::empty() =~= seg1);
    }
    let remote_ini = remote_ini?;
    let ini_crc = crc32(ini.as_slice());
    let ini_uploaded = ini_needs_upload(remote_ini, ini_crc);
    let ghost mut done: Seq<FileUpload> = Seq::empty();
    if ini_uploaded {
        let u = ini_upload(opts.slot, ini);
        let sent = link.upload_file(&u);
        proof {
            done = done.push(u);
        }
        assert(link.uploads@ =~= start + done);
        assert(link.uploads@.subrange(0, start.len() as int) =~= start);
        assert(link.upload_results@[res_start.len() as int] == sent);
        proof {
            done_res = done_res.push(sent);
            assert(link.upload_results@ =~= res_start + done_res);
            assert(link.upload_results@.subrange(res_start.len() as int, link.upload_results@.len() as int) =~= done_res);
        }
        if let Err(e) = sent {
            assert(done_res[done_res.len() - 1] is Err);
            return Err(e);
        }
    }
    assert(link.uploads@ =~= start + done);
    assert(link.received@ == after_ini);
    let program_file = slot_file_name(opts.slot, ".bin");
    match opts.strategy {
        UploadStrategy::Monolith => {
            let data = if opts.compress {
                gzip(image.as_slice())
            } else {
                image
            };
            let u = program_upload(opts.slot, data, opts.after);
            let sent = link.upload_file(&u);
            proof {
                done = done.push(u);
                assert(link.uploads@ =~= start + done);
                assert(link.uploads@.subrange(0, start.len() as int) =~= start);
                assert(link.uploads@.subrange(start.len() as int, link.uploads@.len() as int) =~= done);
            }
            proof {
                done_res = done_res.push(sent);
                assert(link.upload_results@ =~= res_start + done_res);
                assert(link.upload_results@.subrange(res_start.len() as int, link.upload_results@.len() as int) =~= done_res);
            }
            if let Err(e) = sent {
                assert(done_res[done_res.len() - 1] is Err);
                return Err(e);
            }
            Ok(UploadOutcome { kind: UploadKind::Monolith, ini_uploaded, program_file })
        },
        UploadStrategy::Differential => {
            let cached = cache.load();
            let remote_base = if opts.cold || cached.is_none() {
                None
            } else {
                let base_name = slot_file_name(opts.slot, ".base.bin");
                let remote = file_metadata(link, &base_name, FileVendor::User, opts.query);
                proof {
                    let seg2 = received_since(link.received@, after_ini.len());
                    assert(link.uploads@.subrange(0, start.len() as int) =~= start);
                    lemma_span_decides(q, seg1, seg2);
                    let rec = received_since(link.received@, rstart.len());
                    assert(rec =~= seg1 + seg2);
                    assert(rec.subrange(seg1.len() as int, rec.len() as int) =~= seg2);
                }
                remote?
            };
            assert(link.uploads@ =~= start + done);
            let plan = plan_upload(opts.cold, &cached, remote_base, image.as_slice());
            proof {
                assert(link.uploads@.subrange(0, start.len() as int) =~= start);
            }
            let plan = plan?;
            match plan {
                Plan::Cold => {
                    if image.len() > DIFFERENTIAL_UPLOAD_MAX_SIZE {
                        return Err(UploadError::ProgramTooLarge(image.len()));
                    }
                    let (sent_data, record) = cold_upload_parts(image.as_slice(), opts.compress);
                    let u = base_upload(opts.slot, sent_data);
                    let sent = link.upload_file(&u);
                    proof {
                        done = done.push(u);
                        assert(link.uploads@ =~= start + done);
                        assert(link.uploads@.subrange(0, start.len() as int) =~= start);
                    }
                    proof {
                        done_res = done_res.push(sent);
                        assert(link.upload_results@ =~= res_start + done_res);
                        assert(link.upload_results@.subrange(res_start.len() as int, link.upload_results@.len() as int) =~= done_res);
                    }
                    if let Err(e) = sent {
                        assert(done_res[done_res.len() - 1] is Err);
                        return Err(e);
                    }
                    let stored_ok = cache.store(record.as_slice());
                    proof {
                        assert(cache.store_results@.subrange(st0.len() as int, cache.store_results@.len() as int) =~= seq![stored_ok]);
                    }
                    if !stored_ok {
                        assert(cache.store_results@.subrange(st0.len() as int, cache.store_results@.len() as int)[0] == false);
                        return Err(UploadError::CacheWrite);
                    }
                    let v = linked_upload(opts.slot, sentinel_bytes(), opts.after);
                    let sent = link.upload_file(&v);
                    proof {
                        done = done.push(v);
                        assert(link.uploads@ =~= start + done);
                        assert(link.uploads@.subrange(0, start.len() as int) =~= start);
                        assert(link.uploads@.subrange(start.len() as int, link.uploads@.len() as int) =~= done);
                    }
                    proof {
                        done_res = done_res.push(sent);
                        assert(link.upload_results@ =~= res_start + done_res);
                        assert(link.upload_results@.subrange(res_start.len() as int, link.upload_results@.len() as int) =~= done_res);
                    }
                    if let Err(e) = sent {
                        assert(done_res[done_res.len() - 1] is Err);
                        return Err(e);
                    }
                    Ok(UploadOutcome { kind: UploadKind::Cold, ini_uploaded, program_file })
                },
                Plan::Patch(patch) => {
                    let u = linked_upload(opts.slot, patch, opts.after);
                    let sent = link.upload_file(&u);
                    proof {
                        done = done.push(u);
                        assert(link.uploads@ =~= start + done);
                        assert(link.uploads@.subrange(0, start.len() as int) =~= start);
                        assert(link.uploads@.subrange(start.len() as int, link.uploads@.len() as int) =~= done);
                    }
                    proof {
                        done_res = done_res.push(sent);
                        assert(link.upload_results@ =~= res_start + done_res);
                        assert(link.upload_results@.subrange(res_start.len() as int, link.upload_results@.len() as int) =~= done_res);
                    }
                    if let Err(e) = sent {
                        assert(done_res[done_res.len() - 1] is Err);
                        return Err(e);
                    }
                    Ok(UploadOutcome { kind: UploadKind::Patch, ini_uploaded, program_file })
                },
            }
        },
    }
}

} // verus!
