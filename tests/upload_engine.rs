use std::io::{Cursor, Read};

use cargo_v5::handshake::{handshake, Ack, HandshakeConfig, Payload, RadioChannel, Request, Response, Session, Transport, UploadError};
use cargo_v5::patch::{build_patch, crc32, decode_base_cache, encode_base_cache, gzip, DIFFERENTIAL_UPLOAD_MAX_SIZE};
use cargo_v5::planner::{plan_upload, Plan};
use cargo_v5::radio::{switch_to, RadioConfig, RadioSwitch};
use cargo_v5::transfer::{file_metadata, FileExitAction, FileUpload, FileVendor, RemoteFile};
use cargo_v5::upload::{upload_program, AfterUpload, BaseCache, CacheSession, ProgramUpload, UploadKind, UploadStrategy, LINKED_PROGRAM_LOAD_ADDR, USER_PROGRAM_LOAD_ADDR};

/// A device that answers from a script and records what it was sent.
struct ScriptedLink {
    replies: Vec<Option<Response>>,
    sent: Vec<Request>,
    uploads: Vec<FileUpload>,
}

impl ScriptedLink {
    fn new(replies: Vec<Option<Response>>) -> Self {
        ScriptedLink { replies, sent: Vec::new(), uploads: Vec::new() }
    }
}

impl Transport for ScriptedLink {
    fn exchange(&mut self, request: &Request, _timeout_ms: u64) -> Option<Response> {
        self.sent.push(request.clone());
        if self.replies.is_empty() {
            None
        } else {
            self.replies.remove(0)
        }
    }

    fn upload_file(&mut self, upload: &FileUpload) -> Result<(), UploadError> {
        self.uploads.push(upload.clone());
        Ok(())
    }

    fn pause(&mut self, _ms: u64) {}
}

/// A device with a file catalog: metadata queries are answered from it.
struct CatalogDevice {
    files: Vec<(String, Vec<u8>)>,
    uploads: Vec<FileUpload>,
}

impl CatalogDevice {
    fn new() -> Self {
        CatalogDevice { files: Vec::new(), uploads: Vec::new() }
    }

    fn file(&self, name: &str) -> Option<&Vec<u8>> {
        self.files.iter().find(|(n, _)| n == name).map(|(_, d)| d)
    }
}

impl Transport for CatalogDevice {
    fn exchange(&mut self, request: &Request, _timeout_ms: u64) -> Option<Response> {
        match request {
            Request::FileMetadata { file_name, .. } => Some(match self.file(file_name) {
                Some(data) => Response {
                    ack: Ack::Ack,
                    payload: Payload::FileMetadata(Some(RemoteFile {
                        size: data.len() as u32,
                        load_address: USER_PROGRAM_LOAD_ADDR,
                        crc32: crc32(data),
                    })),
                },
                None => Response { ack: Ack::NackProgramFile, payload: Payload::Empty },
            }),
            _ => Some(Response { ack: Ack::Ack, payload: Payload::Empty }),
        }
    }

    fn upload_file(&mut self, upload: &FileUpload) -> Result<(), UploadError> {
        self.files.retain(|(n, _)| *n != upload.file_name);
        self.files.push((upload.file_name.clone(), upload.data.clone()));
        self.uploads.push(upload.clone());
        Ok(())
    }

    fn pause(&mut self, _ms: u64) {}
}

struct MemoryCache(Option<Vec<u8>>);

impl BaseCache for MemoryCache {
    fn load(&mut self) -> Option<Vec<u8>> {
        self.0.clone()
    }

    fn store(&mut self, bytes: &[u8]) -> bool {
        self.0 = Some(bytes.to_vec());
        true
    }
}

fn quick() -> HandshakeConfig {
    HandshakeConfig { timeout_ms: 0, max_retries: 2 }
}

fn differential(slot: u8, compress: bool, cold: bool, after: AfterUpload) -> ProgramUpload {
    ProgramUpload { slot, compress, cold, strategy: UploadStrategy::Differential, after, query: quick() }
}

fn le32(bytes: &[u8]) -> u32 {
    u32::from_le_bytes([bytes[0], bytes[1], bytes[2], bytes[3]])
}

/// Applies a spliced patch: the header words come out, the rest is bidiff's delta.
fn apply_patch(old: &[u8], patch: &[u8]) -> Vec<u8> {
    let mut raw = patch[..8].to_vec();
    raw.extend_from_slice(&patch[20..]);
    let mut reader = bipatch::Reader::new(Cursor::new(raw), Cursor::new(old.to_vec())).unwrap();
    let mut out = Vec::new();
    reader.read_to_end(&mut out).unwrap();
    out
}

fn gunzip(data: &[u8]) -> Vec<u8> {
    let mut out = Vec::new();
    flate2::read::GzDecoder::new(data).read_to_end(&mut out).unwrap();
    out
}

fn radio(channel: u8) -> Option<Response> {
    Some(Response { ack: Ack::Ack, payload: Payload::RadioStatus { channel } })
}

fn radio_config() -> RadioConfig {
    RadioConfig {
        status: quick(),
        link_check: HandshakeConfig { timeout_ms: 0, max_retries: 1 },
        probe_timeout_ms: 0,
        poll_interval_ms: 10,
        disconnect_timeout_ms: 50,
        reconnect_timeout_ms: 50,
    }
}

#[test]
fn crc32_matches_the_device_check_value() {
    assert_eq!(crc32(b"123456789"), 0x89A1_897F);
    assert_eq!(crc32(&[]), 0);
}

#[test]
fn gzip_round_trips_through_flate2() {
    let data = b"robot program bytes, robot program bytes".to_vec();
    let packed = gzip(&data);
    assert_ne!(packed, data);
    assert_eq!(&packed[..2], &[0x1f, 0x8b]);
    assert_eq!(gunzip(&packed), data);
}

#[test]
fn patch_header_is_spliced_at_offset_eight() {
    let old = vec![1u8; 300];
    let mut new = old.clone();
    new[100] = 7;
    let patch = build_patch(&old, &new);
    assert_eq!(le32(&patch[0..4]), 0xB1DF);
    assert_eq!(le32(&patch[8..12]) as usize, patch.len());
    assert_eq!(le32(&patch[12..16]), 300);
    assert_eq!(le32(&patch[16..20]), 300);
}

#[test]
fn patch_round_trip_on_various_pairs() {
    let a: Vec<u8> = (0..2000u32).map(|i| (i * 7 % 251) as u8).collect();
    let mut b = a.clone();
    b.truncate(1500);
    b.extend_from_slice(b"appended tail");
    let cases: Vec<(Vec<u8>, Vec<u8>)> = vec![
        (Vec::new(), Vec::new()),
        (a.clone(), Vec::new()),
        (a.clone(), a.clone()),
        (a.clone(), b.clone()),
        (b.clone(), a.clone()),
    ];
    for (old, new) in cases {
        let patch = build_patch(&old, &new);
        assert_eq!(le32(&patch[12..16]) as usize, old.len());
        assert_eq!(le32(&patch[16..20]) as usize, new.len());
        assert_eq!(apply_patch(&old, &patch), new);
    }
}

#[test]
fn base_cache_encodes_and_decodes() {
    let cache = encode_base_cache(&[9, 8, 7], 0x0403_0201);
    assert_eq!(cache, vec![9, 8, 7, 1, 2, 3, 4]);
    let (base, crc) = decode_base_cache(&cache).unwrap();
    assert_eq!(base, vec![9, 8, 7]);
    assert_eq!(crc, 0x0403_0201);
    assert!(decode_base_cache(&[1, 2, 3]).is_none());
    assert_eq!(decode_base_cache(&[1, 2, 3, 4]).unwrap(), (Vec::new(), 0x0403_0201));
}

fn cache_for(base: &[u8]) -> Option<Vec<u8>> {
    Some(encode_base_cache(base, crc32(base)))
}

fn remote_crc(crc: u32) -> Option<RemoteFile> {
    Some(RemoteFile { size: 0, load_address: USER_PROGRAM_LOAD_ADDR, crc32: crc })
}

#[test]
fn plan_is_cold_without_a_usable_cache() {
    let image = vec![3u8; 64];
    let crc = crc32(&image);
    assert!(matches!(plan_upload(true, &cache_for(&image), remote_crc(crc), &image), Ok(Plan::Cold)));
    assert!(matches!(plan_upload(false, &None, remote_crc(crc), &image), Ok(Plan::Cold)));
    assert!(matches!(plan_upload(false, &Some(vec![1, 2, 3]), remote_crc(crc), &image), Ok(Plan::Cold)));
    assert!(matches!(plan_upload(false, &cache_for(&image), None, &image), Ok(Plan::Cold)));
}

#[test]
fn empty_cached_base_with_new_content_is_cold() {
    let image = vec![3u8; 64];
    let plan = plan_upload(false, &cache_for(&[]), remote_crc(crc32(&[])), &image);
    assert!(matches!(plan, Ok(Plan::Cold)));
    match plan_upload(false, &cache_for(&[]), remote_crc(crc32(&[])), &[]) {
        Ok(Plan::Patch(p)) => assert_eq!(le32(&gunzip(&p)[12..16]), 0),
        _ => panic!("expected a patch"),
    }
}

#[test]
fn crc_mismatch_forces_cold() {
    let image = vec![3u8; 64];
    let crc = crc32(&image);
    let plan = plan_upload(false, &cache_for(&image), remote_crc(crc ^ 1), &image);
    assert!(matches!(plan, Ok(Plan::Cold)));
}

#[test]
fn matching_crc_gives_a_compressed_patch() {
    let base = vec![5u8; 128];
    let mut new = base.clone();
    new[0] = 6;
    match plan_upload(false, &cache_for(&base), remote_crc(crc32(&base)), &new) {
        Ok(Plan::Patch(p)) => {
            let patch = gunzip(&p);
            assert_eq!(patch, build_patch(&base, &new));
            assert_eq!(apply_patch(&base, &patch), new);
        }
        _ => panic!("expected a patch"),
    }
}

#[test]
fn size_boundary_of_differential_uploads() {
    let max = DIFFERENTIAL_UPLOAD_MAX_SIZE;
    assert_eq!(max, 2 * 1024 * 1024);
    let small = vec![0u8; 16];
    let big = vec![0u8; max + 1];
    assert_eq!(
        plan_upload(false, &cache_for(&big), remote_crc(crc32(&big)), &small).err(),
        Some(UploadError::ProgramTooLarge(max + 1))
    );
    assert_eq!(
        plan_upload(false, &cache_for(&small), remote_crc(crc32(&small)), &big).err(),
        Some(UploadError::ProgramTooLarge(max + 1))
    );
    // A base of exactly the budget is accepted.
    let exact: Vec<u8> = (0..max).map(|i| (i % 251) as u8).collect();
    let new = exact[..64].to_vec();
    match plan_upload(false, &cache_for(&exact), remote_crc(crc32(&exact)), &new) {
        Ok(Plan::Patch(p)) => assert_eq!(apply_patch(&exact, &gunzip(&p)), new),
        other => panic!("expected a patch, got {:?}", other.map(|_| ())),
    }
    // A new image of exactly the budget passes the image check; here the
    // uncompressed patch itself is over the budget.
    let r = plan_upload(false, &cache_for(&small), remote_crc(crc32(&small)), &exact);
    assert!(matches!(r, Err(UploadError::PatchTooLarge(n)) if n > max));
}

#[test]
fn handshake_retry_budget() {
    let reply = Response { ack: Ack::Ack, payload: Payload::Empty };
    let max_retries = 3u32;
    let cfg = HandshakeConfig { timeout_ms: 0, max_retries };
    // The device answers only after `n` silent sends.
    for n in 0..=max_retries as usize {
        let mut script = vec![None; n];
        script.push(Some(reply.clone()));
        let mut link = Session::new(ScriptedLink::new(script));
        assert_eq!(handshake(&mut link, &Request::RadioStatus, cfg), Ok(reply.clone()));
        assert_eq!(link.link.sent.len(), n + 1);
    }
    let mut script = vec![None; max_retries as usize + 1];
    script.push(Some(reply.clone()));
    let mut link = Session::new(ScriptedLink::new(script));
    assert_eq!(handshake(&mut link, &Request::RadioStatus, cfg), Err(UploadError::Timeout));
    assert_eq!(link.link.sent.len(), max_retries as usize + 1);
}

#[test]
fn handshake_hands_back_a_rejection() {
    let nack = Response { ack: Ack::Nack(0xD1), payload: Payload::Empty };
    let mut link = Session::new(ScriptedLink::new(vec![Some(nack.clone())]));
    assert_eq!(handshake(&mut link, &Request::SystemFlags, quick()), Ok(nack));
    assert_eq!(link.link.sent.len(), 1);
}

#[test]
fn file_metadata_typed_outcomes() {
    let name = "slot_1.ini".to_string();
    let absent = Response { ack: Ack::NackProgramFile, payload: Payload::Empty };
    let mut link = Session::new(ScriptedLink::new(vec![Some(absent)]));
    assert_eq!(file_metadata(&mut link, &name, FileVendor::User, quick()), Ok(None));

    let entry = RemoteFile { size: 4, load_address: 1, crc32: 2 };
    let found = Response { ack: Ack::Ack, payload: Payload::FileMetadata(Some(entry)) };
    let mut link = Session::new(ScriptedLink::new(vec![Some(found)]));
    assert_eq!(file_metadata(&mut link, &name, FileVendor::User, quick()), Ok(Some(entry)));

    let nack = Response { ack: Ack::Nack(0xD5), payload: Payload::Empty };
    let mut link = Session::new(ScriptedLink::new(vec![Some(nack)]));
    assert_eq!(file_metadata(&mut link, &name, FileVendor::User, quick()), Err(UploadError::Nack(0xD5)));

    let mut link = Session::new(ScriptedLink::new(vec![]));
    assert_eq!(file_metadata(&mut link, &name, FileVendor::User, quick()), Err(UploadError::Timeout));
}

#[test]
fn radio_short_circuit_sends_no_switch() {
    let mut link = Session::new(ScriptedLink::new(vec![radio(5)]));
    assert_eq!(switch_to(&mut link, RadioChannel::Download, radio_config()), Ok(RadioSwitch::AlreadyThere));
    assert_eq!(link.link.sent.len(), 1);

    let mut link = Session::new(ScriptedLink::new(vec![radio(245)]));
    assert_eq!(switch_to(&mut link, RadioChannel::Download, radio_config()), Ok(RadioSwitch::AlreadyThere));
    assert_eq!(link.link.sent.len(), 1);

    let mut link = Session::new(ScriptedLink::new(vec![radio(31)]));
    assert_eq!(switch_to(&mut link, RadioChannel::Pit, radio_config()), Ok(RadioSwitch::AlreadyThere));
    assert_eq!(link.link.sent.len(), 1);
}

#[test]
fn radio_stuck_fails_at_once() {
    let mut link = Session::new(ScriptedLink::new(vec![radio(9)]));
    assert_eq!(switch_to(&mut link, RadioChannel::Download, radio_config()), Err(UploadError::RadioChannelStuck));
    assert_eq!(link.link.sent.len(), 1);
}

fn version(controller: bool) -> Option<Response> {
    Some(Response { ack: Ack::Ack, payload: Payload::SystemVersion { controller } })
}

fn flags(flags: u32) -> Option<Response> {
    Some(Response { ack: Ack::Ack, payload: Payload::SystemFlags { flags } })
}

fn ack() -> Option<Response> {
    Some(Response { ack: Ack::Ack, payload: Payload::Empty })
}

#[test]
fn radio_tethered_link_needs_no_switch() {
    let mut link = Session::new(ScriptedLink::new(vec![radio(31), version(true), flags(0x100)]));
    assert_eq!(switch_to(&mut link, RadioChannel::Download, radio_config()), Ok(RadioSwitch::Tethered));
    assert!(!link.link.sent.iter().any(|r| matches!(r, Request::SwitchChannel(_))));
}

#[test]
fn radio_switch_waits_for_drop_then_return() {
    let script = vec![radio(31), version(true), flags(0), ack(), radio(31), None, None, radio(31), radio(5)];
    let mut link = Session::new(ScriptedLink::new(script));
    assert_eq!(switch_to(&mut link, RadioChannel::Download, radio_config()), Ok(RadioSwitch::Switched));
    assert!(matches!(link.link.sent[3], Request::SwitchChannel(RadioChannel::Download)));
}

#[test]
fn radio_switch_disconnect_timeout() {
    let mut script = vec![radio(31), version(true), flags(0), ack()];
    script.extend(std::iter::repeat(radio(31)).take(20));
    let mut link = Session::new(ScriptedLink::new(script));
    assert_eq!(
        switch_to(&mut link, RadioChannel::Download, radio_config()),
        Err(UploadError::RadioChannelDisconnectTimeout)
    );
}

#[test]
fn radio_switch_reconnect_timeout() {
    let script = vec![radio(31), version(true), flags(0), ack(), None];
    let mut link = Session::new(ScriptedLink::new(script));
    assert_eq!(
        switch_to(&mut link, RadioChannel::Download, radio_config()),
        Err(UploadError::RadioChannelReconnectTimeout)
    );
}

#[test]
fn radio_reconnect_reports_a_rejection() {
    let nack = Some(Response { ack: Ack::Nack(0xFF), payload: Payload::Empty });
    let script = vec![radio(31), version(true), flags(0), ack(), None, nack];
    let mut link = Session::new(ScriptedLink::new(script));
    assert_eq!(switch_to(&mut link, RadioChannel::Download, radio_config()), Err(UploadError::Nack(0xFF)));
}

#[test]
fn end_to_end_cold_then_patch() {
    let mut device = Session::new(CatalogDevice::new());
    let mut cache = CacheSession::new(MemoryCache(None));
    let image_a = vec![0u8; 4096];
    let ini = b"[program]\r\nname=demo\r\n".to_vec();

    let first = upload_program(&mut device, &mut cache, image_a.clone(), ini.clone(), differential(1, false, false, AfterUpload::Run)).unwrap();
    assert_eq!(first.kind, UploadKind::Cold);
    assert!(first.ini_uploaded);
    assert_eq!(first.program_file, "slot_1.bin");

    let mut expected_cache = image_a.clone();
    expected_cache.extend_from_slice(&crc32(&image_a).to_le_bytes());
    assert_eq!(cache.cache.0, Some(expected_cache));
    assert_eq!(crc32(device.link.file("slot_1.base.bin").unwrap()), crc32(&image_a));
    assert_eq!(device.link.file("slot_1.bin").unwrap(), &0xB2DFu32.to_le_bytes().to_vec());

    let base = &device.link.uploads[1];
    assert_eq!(base.file_name, "slot_1.base.bin");
    assert_eq!(base.load_address, USER_PROGRAM_LOAD_ADDR);
    assert_eq!(base.after_upload, FileExitAction::DoNothing);
    let sentinel = &device.link.uploads[2];
    assert_eq!(sentinel.load_address, LINKED_PROGRAM_LOAD_ADDR);
    assert_eq!(sentinel.after_upload, FileExitAction::RunProgram);
    assert_eq!(sentinel.linked_file.as_ref().unwrap().file_name, "slot_1.base.bin");

    let mut image_b = image_a.clone();
    for byte in image_b.iter_mut().skip(4086) {
        *byte = 0xA5;
    }
    let second = upload_program(&mut device, &mut cache, image_b.clone(), ini, differential(1, false, false, AfterUpload::Run)).unwrap();
    assert_eq!(second.kind, UploadKind::Patch);
    assert!(!second.ini_uploaded);
    let patch = gunzip(device.link.file("slot_1.bin").unwrap());
    assert_eq!(le32(&patch[12..16]), 4096);
    assert_eq!(le32(&patch[16..20]), 4096);
    assert_eq!(apply_patch(&image_a, &patch), image_b);
}

#[test]
fn same_image_twice_is_cold_then_patch() {
    let mut device = Session::new(CatalogDevice::new());
    let mut cache = CacheSession::new(MemoryCache(None));
    let image: Vec<u8> = (0..3000u32).map(|i| (i % 256) as u8).collect();
    let ini = b"[project]\r\nide=Rust\r\n".to_vec();
    let opts = differential(2, true, false, AfterUpload::Nothing);
    let first = upload_program(&mut device, &mut cache, image.clone(), ini.clone(), opts).unwrap();
    assert_eq!(first.kind, UploadKind::Cold);
    assert_eq!(gunzip(device.link.file("slot_2.base.bin").unwrap()), image);
    let second = upload_program(&mut device, &mut cache, image.clone(), ini, opts).unwrap();
    assert_eq!(second.kind, UploadKind::Patch);
    let patch = gunzip(device.link.file("slot_2.bin").unwrap());
    assert_eq!(apply_patch(&image, &patch), image);
}

#[test]
fn forced_cold_upload_ignores_the_cache() {
    let mut device = Session::new(CatalogDevice::new());
    let image = vec![1u8; 100];
    let mut cache = CacheSession::new(MemoryCache(None));
    upload_program(&mut device, &mut cache, image.clone(), Vec::new(), differential(3, false, false, AfterUpload::Nothing)).unwrap();
    let again = upload_program(&mut device, &mut cache, image, Vec::new(), differential(3, false, true, AfterUpload::Nothing)).unwrap();
    assert_eq!(again.kind, UploadKind::Cold);
}

#[test]
fn cold_upload_of_an_oversized_image_fails() {
    let mut device = Session::new(CatalogDevice::new());
    let mut cache = CacheSession::new(MemoryCache(None));
    let image = vec![0u8; DIFFERENTIAL_UPLOAD_MAX_SIZE + 1];
    let r = upload_program(&mut device, &mut cache, image, Vec::new(), differential(1, false, false, AfterUpload::Nothing));
    assert_eq!(r.err(), Some(UploadError::ProgramTooLarge(DIFFERENTIAL_UPLOAD_MAX_SIZE + 1)));
    assert!(cache.cache.0.is_none());
}

#[test]
fn monolith_upload_sends_the_whole_image() {
    let mut device = Session::new(CatalogDevice::new());
    let mut cache = CacheSession::new(MemoryCache(None));
    let image = vec![4u8; 50];
    let opts = ProgramUpload { slot: 8, compress: true, cold: false, strategy: UploadStrategy::Monolith, after: AfterUpload::ShowScreen, query: quick() };
    let r = upload_program(&mut device, &mut cache, image.clone(), b"x".to_vec(), opts).unwrap();
    assert_eq!(r.kind, UploadKind::Monolith);
    assert_eq!(r.program_file, "slot_8.bin");
    let program = device.link.uploads.last().unwrap();
    assert_eq!(program.file_name, "slot_8.bin");
    assert_eq!(program.extension, "bin");
    assert_eq!(program.after_upload, FileExitAction::ShowRunScreen);
    assert!(program.linked_file.is_none());
    assert_eq!(gunzip(&program.data), image);
    let ini = &device.link.uploads[0];
    assert_eq!(ini.file_name, "slot_8.ini");
    assert_eq!(ini.extension, "ini");
    assert!(cache.cache.0.is_none());
}

#[test]
fn oversized_cached_base_is_an_error_not_a_cold_upload() {
    let mut device = Session::new(CatalogDevice::new());
    let base = vec![7u8; DIFFERENTIAL_UPLOAD_MAX_SIZE + 1];
    let c = crc32(&base);
    device.link.files.push(("slot_1.base.bin".to_string(), base.clone()));
    let cached = encode_base_cache(&base, c);
    let mut cache = CacheSession::new(MemoryCache(Some(cached.clone())));
    let r = upload_program(&mut device, &mut cache, vec![1u8; 64], b"ini".to_vec(), differential(1, false, false, AfterUpload::Nothing));
    assert_eq!(r.err(), Some(UploadError::ProgramTooLarge(DIFFERENTIAL_UPLOAD_MAX_SIZE + 1)));
    assert!(device.link.uploads.iter().all(|u| u.file_name == "slot_1.ini"));
    assert_eq!(cache.cache.0, Some(cached));
}

#[test]
fn metadata_answer_within_the_budget_succeeds() {
    let entry = RemoteFile { size: 1, load_address: 2, crc32: 3 };
    let found = Response { ack: Ack::Ack, payload: Payload::FileMetadata(Some(entry)) };
    let cfg = HandshakeConfig { timeout_ms: 0, max_retries: 2 };
    let name = "slot_1.bin".to_string();
    let mut link = Session::new(ScriptedLink::new(vec![None, None, Some(found.clone())]));
    assert_eq!(file_metadata(&mut link, &name, FileVendor::User, cfg), Ok(Some(entry)));
    let mut link = Session::new(ScriptedLink::new(vec![None, None, None, Some(found)]));
    assert_eq!(file_metadata(&mut link, &name, FileVendor::User, cfg), Err(UploadError::Timeout));
    assert_eq!(link.link.sent.len(), 3);
}

#[test]
fn radio_status_silence_times_out_without_switching() {
    let mut cfg = radio_config();
    cfg.status = HandshakeConfig { timeout_ms: 0, max_retries: 3 };
    let mut link = Session::new(ScriptedLink::new(vec![None, None, None, radio(5)]));
    assert_eq!(switch_to(&mut link, RadioChannel::Download, cfg), Ok(RadioSwitch::AlreadyThere));
    let mut link = Session::new(ScriptedLink::new(vec![None, None, None, None, radio(5)]));
    assert_eq!(switch_to(&mut link, RadioChannel::Download, cfg), Err(UploadError::Timeout));
    assert_eq!(link.link.sent.len(), 4);
    assert!(link.link.sent.iter().all(|r| matches!(r, Request::RadioStatus)));
}
