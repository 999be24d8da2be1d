//! The file transfer client: what is asked of the device's file catalog, and
//! the description of each file transfer.
use vstd::prelude::*;

use crate::names::text_eq;
use crate::handshake::{handshake, handshake_outcome, handshake_span, received_since, repeated, Ack, HandshakeConfig, Payload, Request, Response, Session, Transport, UploadError};

verus! {

/// The namespace a catalog entry belongs to; `(vendor, file name)` is the
/// catalog key.
#[derive(Clone, Copy, Debug, PartialEq, Eq, Structural)]
pub enum FileVendor {
    User,
    Sys,
    Dev1,
    Dev2,
    Dev3,
    Dev4,
    Dev5,
    Dev6,
    VexVm,
    Vex,
    Undefined,
}

/// The vendor a path prefix names, with or without a leading slash.
pub open spec fn vendor_named(prefix: Seq<char>) -> FileVendor {
    if prefix == "user"@ || prefix == "/user"@ {
        FileVendor::User
    } else if prefix == "sys_"@ || prefix == "/sys_"@ {
        FileVendor::Sys
    } else if prefix == "rmsh"@ || prefix == "/rmsh"@ {
        FileVendor::Dev1
    } else if prefix == "pros"@ || prefix == "/pros"@ {
        FileVendor::Dev2
    } else if prefix == "mwrk"@ || prefix == "/mwrk"@ {
        FileVendor::Dev3
    } else if prefix == "deva"@ || prefix == "/deva"@ {
        FileVendor::Dev4
    } else if prefix == "devb"@ || prefix == "/devb"@ {
        FileVendor::Dev5
    } else if prefix == "devc"@ || prefix == "/devc"@ {
        FileVendor::Dev6
    } else if prefix == "vxvm"@ || prefix == "/vxvm"@ {
        FileVendor::VexVm
    } else if prefix == "vex_"@ || prefix == "/vex_"@ {
        FileVendor::Vex
    } else {
        FileVendor::Undefined
    }
}

/// The vendor a directory prefix of a device path names (`user`, `/user`,
/// `sys_`, ...); `Undefined` for any other.
pub fn vendor_from_prefix(prefix: &str) -> (r: FileVendor)
    ensures
        r == vendor_named(prefix@),
{
    if text_eq(prefix, "user") || text_eq(prefix, "/user") {
        FileVendor::User
    } else if text_eq(prefix, "sys_") || text_eq(prefix, "/sys_") {
        FileVendor::Sys
    } else if text_eq(prefix, "rmsh") || text_eq(prefix, "/rmsh") {
        FileVendor::Dev1
    } else if text_eq(prefix, "pros") || text_eq(prefix, "/pros") {
        FileVendor::Dev2
    } else if text_eq(prefix, "mwrk") || text_eq(prefix, "/mwrk") {
        FileVendor::Dev3
    } else if text_eq(prefix, "deva") || text_eq(prefix, "/deva") {
        FileVendor::Dev4
    } else if text_eq(prefix, "devb") || text_eq(prefix, "/devb") {
        FileVendor::Dev5
    } else if text_eq(prefix, "devc") || text_eq(prefix, "/devc") {
        FileVendor::Dev6
    } else if text_eq(prefix, "vxvm") || text_eq(prefix, "/vxvm") {
        FileVendor::VexVm
    } else if text_eq(prefix, "vex_") || text_eq(prefix, "/vex_") {
        FileVendor::Vex
    } else {
        FileVendor::Undefined
    }
}

/// The directory prefix under which a vendor's files are listed.
pub open spec fn vendor_dir(v: FileVendor) -> Seq<char> {
    match v {
        FileVendor::User => "user/"@,
        FileVendor::Sys => "sys_/"@,
        FileVendor::Dev1 => "rmsh/"@,
        FileVendor::Dev2 => "pros/"@,
        FileVendor::Dev3 => "mwrk/"@,
        FileVendor::Dev4 => "deva/"@,
        FileVendor::Dev5 => "devb/"@,
        FileVendor::Dev6 => "devc/"@,
        FileVendor::VexVm => "vxvm/"@,
        FileVendor::Vex => "vex_/"@,
        FileVendor::Undefined => "test/"@,
    }
}

/// The directory prefix under which a vendor's files are listed.
pub fn vendor_prefix(v: FileVendor) -> (r: &'static str)
    ensures
        r@ == vendor_dir(v),
{
    match v {
        FileVendor::User => "user/",
        FileVendor::Sys => "sys_/",
        FileVendor::Dev1 => "rmsh/",
        FileVendor::Dev2 => "pros/",
        FileVendor::Dev3 => "mwrk/",
        FileVendor::Dev4 => "deva/",
        FileVendor::Dev5 => "devb/",
        FileVendor::Dev6 => "devc/",
        FileVendor::VexVm => "vxvm/",
        FileVendor::Vex => "vex_/",
        FileVendor::Undefined => "test/",
    }
}

/// What the device reports of a file in its catalog.
#[derive(Clone, Copy, Debug, PartialEq, Eq, Structural)]
pub struct RemoteFile {
    pub size: u32,
    pub load_address: u32,
    pub crc32: u32,
}

/// What the device does once a transfer completes.
#[derive(Clone, Copy, Debug, PartialEq, Eq, Structural)]
pub enum FileExitAction {
    DoNothing,
    RunProgram,
    ShowRunScreen,
}

/// A reference from an uploaded file to the base file it patches.
#[derive(Clone, Debug)]
pub struct LinkedFile {
    pub file_name: String,
    pub vendor: FileVendor,
}

/// One file transfer: the catalog entry to write, its contents, where on the
/// device's storage they land, and what follows the transfer.
#[derive(Clone, Debug)]
pub struct FileUpload {
    pub file_name: String,
    pub extension: String,
    pub vendor: FileVendor,
    pub data: Vec<u8>,
    pub load_address: u32,
    pub linked_file: Option<LinkedFile>,
    pub after_upload: FileExitAction,
}

/// The catalog entry that a metadata reply reports: absent on
/// `NackProgramFile`, the entry on `Ack`, an error on any other code or on a
/// reply that carries no catalog entry.
pub open spec fn metadata_reply(resp: Response) -> Result<Option<RemoteFile>, UploadError> {
    match resp.ack {
        Ack::NackProgramFile => Ok(None),
        Ack::Nack(code) => Err(UploadError::Nack(code)),
        Ack::Ack => match resp.payload {
            Payload::FileMetadata(entry) => Ok(entry),
            _ => Err(UploadError::UnexpectedReply),
        },
    }
}

/// Reads a metadata reply as a typed outcome, keeping "absent" apart from a
/// protocol failure.
pub fn read_metadata_reply(resp: &Response) -> (r: Result<Option<RemoteFile>, UploadError>)
    ensures
        r == metadata_reply(*resp),
{
    match resp.ack {
        Ack::NackProgramFile => Ok(None),
        Ack::Nack(code) => Err(UploadError::Nack(code)),
        Ack::Ack => match &resp.payload {
            Payload::FileMetadata(entry) => Ok(*entry),
            _ => Err(UploadError::UnexpectedReply),
        },
    }
}

/// The outcome of a metadata query whose handshake received `seg`.
pub open spec fn metadata_outcome(attempts: nat, seg: Seq<Option<Response>>) -> Result<Option<RemoteFile>, UploadError> {
    match handshake_outcome(attempts, seg) {
        Ok(resp) => metadata_reply(resp),
        Err(e) => Err(e),
    }
}

/// `request` asks for the catalog entry of `file_name` under `vendor`.
pub open spec fn is_metadata_query(request: Request, file_name: Seq<char>, vendor: FileVendor) -> bool {
    request matches Request::FileMetadata { file_name: f, vendor: v } && f@ == file_name && v == vendor
}

/// Asks the device for the catalog entry of `file_name` under `vendor`, in one
/// handshake.
pub fn file_metadata<T: Transport>(
    link: &mut Session<T>,
    file_name: &String,
    vendor: FileVendor,
    cfg: HandshakeConfig,
) -> (r: Result<Option<RemoteFile>, UploadError>)
    ensures
        final(link).uploads@ == old(link).uploads@,
        final(link).upload_results@ == old(link).upload_results@,
        ({
            let n = final(link).sent@.len() - old(link).sent@.len();
            &&& 1 <= n <= cfg.max_retries + 1
            &&& final(link).sent@.subrange(0, old(link).sent@.len() as int) == old(link).sent@
            &&& forall|i: int|
                old(link).sent@.len() <= i < final(link).sent@.len() ==> is_metadata_query(
                    #[trigger] final(link).sent@[i],
                    file_name@,
                    vendor,
                )
        }),
        ({
            let seg = received_since(final(link).received@, old(link).received@.len());
            &&& final(link).received@ == old(link).received@ + seg
            &&& handshake_span((cfg.max_retries + 1) as nat, seg)
            &&& r == metadata_outcome((cfg.max_retries + 1) as nat, seg)
        }),
{
    let request = Request::FileMetadata { file_name: file_name.clone(), vendor };
    let ghost start = link.sent@;
    let result = handshake(link, &request, cfg);
    proof {
        let n = link.sent@.len() - start.len();
        assert forall|i: int| start.len() <= i < link.sent@.len() implies is_metadata_query(
            #[trigger] link.sent@[i],
            file_name@,
            vendor,
        ) by {
            assert(link.sent@[i] == repeated(request, n as nat)[i - start.len()]);
        }
        assert(link.sent@.subrange(0, start.len() as int) =~= start);
    }
    match result {
        Ok(resp) => read_metadata_reply(&resp),
        Err(e) => Err(e),
    }
}

} // verus!
