//! The packet handshake layer: one request, a bounded number of resends on
//! silence, and the device's acknowledgement code handed back as a typed value.
use vstd::prelude::*;

use crate::transfer::{FileUpload, FileVendor, RemoteFile};

verus! {

/// The acknowledgement code a reply carries.
#[derive(Clone, Copy, Debug, PartialEq, Eq, Structural)]
pub enum Ack {
    /// Success; the payload follows.
    Ack,
    /// The named file is absent: a benign answer to a metadata query.
    NackProgramFile,
    /// Any other rejection, with the device's code.
    Nack(u8),
}

/// The logical radio channels a switch can aim at.
#[derive(Clone, Copy, Debug, PartialEq, Eq, Structural)]
pub enum RadioChannel {
    /// The channel for driving the robot outside a match.
    Pit,
    /// The higher-bandwidth channel for file transfers.
    Download,
}

/// A request to the device.
#[derive(Clone, Debug)]
pub enum Request {
    /// Asks which radio channel the link is on.
    RadioStatus,
    /// Asks which kind of product answers (controller or brain).
    SystemVersion,
    /// Asks for the system flag word.
    SystemFlags,
    /// Asks the radio to move to another channel.
    SwitchChannel(RadioChannel),
    /// Asks for the catalog entry of a file.
    FileMetadata { file_name: String, vendor: FileVendor },
}

/// What a reply carries besides its acknowledgement code.
#[derive(Clone, Debug, PartialEq, Eq, Structural)]
pub enum Payload {
    /// Nothing beyond the code.
    Empty,
    /// The radio's current channel identifier.
    RadioStatus { channel: u8 },
    /// Whether the answering product is a controller.
    SystemVersion { controller: bool },
    /// The system flag word.
    SystemFlags { flags: u32 },
    /// The catalog entry asked for, if the device has one.
    FileMetadata(Option<RemoteFile>),
}

/// A reply from the device.
#[derive(Clone, Debug, PartialEq, Eq, Structural)]
pub struct Response {
    pub ack: Ack,
    pub payload: Payload,
}

/// Every way an upload can fail.
#[derive(Clone, Copy, Debug, PartialEq, Eq, Structural)]
pub enum UploadError {
    /// No reply came within the handshake's retries.
    Timeout,
    /// The device rejected a request with this code.
    Nack(u8),
    /// The reply did not carry what the request asked for.
    UnexpectedReply,
    /// The controller's radio is stuck reconnecting; it must be power cycled.
    RadioChannelStuck,
    /// The radio never dropped the old channel after the switch command.
    RadioChannelDisconnectTimeout,
    /// The radio never came back on the new channel.
    RadioChannelReconnectTimeout,
    /// An image exceeds the differential size budget; holds its length.
    ProgramTooLarge(usize),
    /// The assembled patch exceeds the size budget; holds its length.
    PatchTooLarge(usize),
    /// The local base cache could not be written.
    CacheWrite,
    /// The link itself failed during a file transfer (closed, or an I/O error).
    Link,
    /// No program slot was given.
    NoSlot,
    /// The program slot is outside 1 to 8.
    SlotOutOfRange,
}

/// The transport: an open, exclusively owned link to the device.
///
/// Nothing is assumed of what an implementation returns; every function of
/// this library that uses one states what holds whatever came back.
pub trait Transport {
    /// Sends `request` once and waits up to `timeout_ms` for its reply;
    /// `None` when nothing came back in time.
    fn exchange(&mut self, request: &Request, timeout_ms: u64) -> Option<Response>;

    /// Runs one chunked file transfer to the device.
    fn upload_file(&mut self, upload: &FileUpload) -> Result<(), UploadError>;

    /// Waits `ms` milliseconds.
    fn pause(&mut self, ms: u64);
}

/// A transport together with a record, for proofs, of what was sent over it.
pub struct Session<T> {
    pub link: T,
    /// Every request sent, in order.
    pub sent: Ghost<Seq<Request>>,
    /// Every reply received, in order (`None` for silence).
    pub received: Ghost<Seq<Option<Response>>>,
    /// Every file transfer run, in order.
    pub uploads: Ghost<Seq<FileUpload>>,
    /// How each file transfer ended, in order.
    pub upload_results: Ghost<Seq<Result<(), UploadError>>>,
}

impl<T: Transport> Session<T> {
    /// A session over `link` with nothing sent yet.
    pub fn new(link: T) -> (r: Self)
        ensures
            r.sent@ == Seq::<Request>::empty(),
            r.received@ == Seq::<Option<Response>>::empty(),
            r.uploads@ == Seq::<FileUpload>::empty(),
            r.upload_results@ == Seq::<Result<(), UploadError>>::empty(),
    {
        Session {
            link,
            sent: Ghost(Seq::empty()),
            received: Ghost(Seq::empty()),
            uploads: Ghost(Seq::empty()),
            upload_results: Ghost(Seq::empty()),
        }
    }

    /// Sends `request` once; see `Transport::exchange`.
    pub fn exchange(&mut self, request: &Request, timeout_ms: u64) -> (r: Option<Response>)
        ensures
            final(self).sent@ == old(self).sent@.push(*request),
            final(self).received@ == old(self).received@.push(r),
            final(self).uploads@ == old(self).uploads@,
            final(self).upload_results@ == old(self).upload_results@,
    {
        let r = self.link.exchange(request, timeout_ms);
        self.sent = Ghost(self.sent@.push(*request));
        self.received = Ghost(self.received@.push(r));
        r
    }

    /// Runs one file transfer; see `Transport::upload_file`.
    pub fn upload_file(&mut self, upload: &FileUpload) -> (r: Result<(), UploadError>)
        ensures
            final(self).uploads@ == old(self).uploads@.push(*upload),
            final(self).upload_results@ == old(self).upload_results@.push(r),
            final(self).sent@ == old(self).sent@,
            final(self).received@ == old(self).received@,
    {
        let r = self.link.upload_file(upload);
        self.uploads = Ghost(self.uploads@.push(*upload));
        self.upload_results = Ghost(self.upload_results@.push(r));
        r
    }

    /// Waits `ms` milliseconds.
    pub fn pause(&mut self, ms: u64)
        ensures
            final(self).sent@ == old(self).sent@,
            final(self).received@ == old(self).received@,
            final(self).uploads@ == old(self).uploads@,
            final(self).upload_results@ == old(self).upload_results@,
    {
        self.link.pause(ms);
    }
}

/// `n` copies of `request`.
pub open spec fn repeated(request: Request, n: nat) -> Seq<Request> {
    Seq::new(n, |i: int| request)
}

/// How long to wait for each reply, and how many times to resend on silence.
#[derive(Clone, Copy, Debug, PartialEq, Eq, Structural)]
pub struct HandshakeConfig {
    pub timeout_ms: u64,
    pub max_retries: u32,
}

/// The outcome of a handshake with `attempts` sends allowed, when the sends
/// were answered by `replies` in order (`None` for silence).
pub open spec fn handshake_outcome(attempts: nat, replies: Seq<Option<Response>>) -> Result<
    Response,
    UploadError,
>
    decreases replies.len(),
{
    if attempts == 0 || replies.len() == 0 {
        Err(UploadError::Timeout)
    } else {
        match replies[0] {
            Some(r) => Ok(r),
            None => handshake_outcome((attempts - 1) as nat, replies.drop_first()),
        }
    }
}

/// How many of `replies` a handshake with `attempts` sends allowed takes:
/// up to and including the first answer, or all its attempts.
pub open spec fn consumed(attempts: nat, replies: Seq<Option<Response>>) -> nat
    decreases replies.len(),
{
    if attempts == 0 || replies.len() == 0 {
        0
    } else {
        match replies[0] {
            Some(_) => 1,
            None => 1 + consumed((attempts - 1) as nat, replies.drop_first()),
        }
    }
}

/// `seg` is what one handshake with `attempts` sends allowed received:
/// silences, then either an answer or the last allowed silence.
pub open spec fn handshake_span(attempts: nat, seg: Seq<Option<Response>>) -> bool {
    &&& 1 <= seg.len() <= attempts
    &&& forall|i: int| 0 <= i < seg.len() - 1 ==> seg[i] is None
    &&& (seg.last() is Some || seg.len() == attempts)
}

/// The replies received after `from`.
pub open spec fn received_since(log: Seq<Option<Response>>, from: nat) -> Seq<Option<Response>> {
    log.subrange(from as int, log.len() as int)
}

/// A handshake's replies decide it: whatever is received afterwards changes
/// neither its outcome nor how many replies it took.
pub proof fn lemma_span_decides(attempts: nat, seg: Seq<Option<Response>>, rest: Seq<Option<Response>>)
    requires
        handshake_span(attempts, seg),
    ensures
        handshake_outcome(attempts, seg + rest) == handshake_outcome(attempts, seg),
        consumed(attempts, seg + rest) == seg.len(),
    decreases seg.len(),
{
    let all = seg + rest;
    assert(all[0] == seg[0]);
    if seg.len() == 1 {
        if seg[0] is None {
            assert(attempts == 1);
            assert(handshake_outcome(0, all.drop_first()) == Err::<Response, UploadError>(UploadError::Timeout));
            assert(handshake_outcome(0, seg.drop_first()) == Err::<Response, UploadError>(UploadError::Timeout));
            assert(consumed(0, all.drop_first()) == 0);
        }
    } else {
        let s2 = seg.drop_first();
        assert(seg[0] is None);
        assert(s2.last() == seg.last());
        assert forall|i: int| 0 <= i < s2.len() - 1 implies s2[i] is None by {
            assert(s2[i] == seg[i + 1]);
        }
        lemma_span_decides((attempts - 1) as nat, s2, rest);
        assert(all.drop_first() =~= s2 + rest);
    }
}

/// Sends `request` and waits for its reply, resending on silence up to
/// `cfg.max_retries` times; fails with `Timeout` when every send went
/// unanswered. A reply with a rejection code is returned as it is.
pub fn handshake<T: Transport>(link: &mut Session<T>, request: &Request, cfg: HandshakeConfig) -> (r: Result<
    Response,
    UploadError,
>)
    ensures
        final(link).uploads@ == old(link).uploads@,
        final(link).upload_results@ == old(link).upload_results@,
        ({
            let n = final(link).sent@.len() - old(link).sent@.len();
            let seg = received_since(final(link).received@, old(link).received@.len());
            &&& 1 <= n <= cfg.max_retries + 1
            &&& final(link).sent@ == old(link).sent@ + repeated(*request, n as nat)
            &&& final(link).received@ == old(link).received@ + seg
            &&& seg.len() == n
            &&& handshake_span((cfg.max_retries + 1) as nat, seg)
            &&& r == handshake_outcome((cfg.max_retries + 1) as nat, seg)
            &&& r is Err ==> n == cfg.max_retries + 1
        }),
        r is Err ==> r == Err::<Response, UploadError>(UploadError::Timeout),
{
    let ghost mut seen: Seq<Option<Response>> = Seq::empty();
    let ghost start = link.sent@;
    let ghost rstart = link.received@;
    let mut attempt: u32 = 0;
    loop
        invariant
            attempt <= cfg.max_retries,
            seen.len() == attempt,
            forall|i: int| 0 <= i < seen.len() ==> seen[i] is None,
            link.sent@ == start + repeated(*request, attempt as nat),
            link.received@ == rstart + seen,
            link.uploads@ == old(link).uploads@,
            link.upload_results@ == old(link).upload_results@,
            start == old(link).sent@,
            rstart == old(link).received@,
        decreases cfg.max_retries - attempt,
    {
        let reply = link.exchange(request, cfg.timeout_ms);
        assert(link.sent@ =~= start + repeated(*request, (attempt + 1) as nat));
        proof {
            seen = seen.push(reply);
            assert(link.received@ =~= rstart + seen);
            assert(received_since(link.received@, rstart.len()) =~= seen);
            lemma_silent_prefix((cfg.max_retries + 1) as nat, seen);
        }
        match reply {
            Some(resp) => {
                return Ok(resp);
            },
            None => {
                if attempt == cfg.max_retries {
                    return Err(UploadError::Timeout);
                }
                attempt = attempt + 1;
            },
        }
    }
}

/// After a run of silences the outcome is decided by the next reply alone.
proof fn lemma_silent_prefix(attempts: nat, replies: Seq<Option<Response>>)
    requires
        replies.len() >= 1,
        forall|i: int| 0 <= i < replies.len() - 1 ==> replies[i] is None,
    ensures
        replies.len() <= attempts ==> handshake_outcome(attempts, replies) == match replies.last() {
            Some(r) => Ok(r),
            None => Err(UploadError::Timeout),
        },
    decreases replies.len(),
{
    if replies.len() > 1 && attempts > 0 {
        let rest = replies.drop_first();
        assert forall|i: int| 0 <= i < rest.len() - 1 implies rest[i] is None by {
            assert(rest[i] == replies[i + 1]);
        }
        lemma_silent_prefix((attempts - 1) as nat, rest);
        assert(rest.last() == replies.last());
        assert(replies[0] is None);
        assert(handshake_outcome(attempts, replies) == handshake_outcome((attempts - 1) as nat, rest));
    } else if replies.len() == 1 && attempts > 0 {
        assert(replies.last() == replies[0]);
        assert(replies.drop_first().len() == 0);
        assert(handshake_outcome((attempts - 1) as nat, replies.drop_first()) == Err::<
            Response,
            UploadError,
        >(UploadError::Timeout));
    }
}

/// Retry budget: when the device answers only the send after `n` silent ones,
/// the handshake succeeds with that answer exactly when `n` is within the
/// allowed retries, and times out otherwise.
pub proof fn lemma_retry_budget(max_retries: nat, replies: Seq<Option<Response>>, n: nat)
    requires
        n < replies.len(),
        forall|i: int| 0 <= i < n ==> replies[i] is None,
        replies[n as int] is Some,
    ensures
        n <= max_retries ==> handshake_outcome(max_retries + 1, replies) == Ok::<
            Response,
            UploadError,
        >(replies[n as int]->0),
        n > max_retries ==> handshake_outcome(max_retries + 1, replies) == Err::<
            Response,
            UploadError,
        >(UploadError::Timeout),
    decreases n,
{
    if n > 0 && max_retries > 0 {
        lemma_retry_budget((max_retries - 1) as nat, replies.drop_first(), (n - 1) as nat);
        assert(((max_retries - 1) as nat) + 1 == max_retries);
    } else if n > 0 {
        let rest = replies.drop_first();
        assert(handshake_outcome(0, rest) == Err::<Response, UploadError>(UploadError::Timeout));
    }
}

} // verus!
