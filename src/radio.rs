//! The radio channel controller: moves a wireless link to another logical
//! channel and waits out the reconnect gap this causes.
use vstd::prelude::*;

use crate::handshake::{consumed, handshake, handshake_outcome, handshake_span, lemma_span_decides, received_since, repeated, Ack, HandshakeConfig, Payload, RadioChannel, Request, Response, Session, Transport, UploadError};

verus! {

/// Code of the rejection that reports an absent program file.
pub const NACK_PROGRAM_FILE: u8 = 0xD3;

/// Channel identifier of the download channel.
pub const CHANNEL_DOWNLOAD: u8 = 5;

/// Channel identifier reported while the controller is stuck re-pairing.
pub const CHANNEL_STUCK: u8 = 9;

/// Channel identifier of a Bluetooth link, which has no download channel.
pub const CHANNEL_BLUETOOTH: u8 = 245;

/// System flag bit set while the controller is tethered to the brain by cable.
pub const TETHERED_FLAG: u32 = 0x100;

/// The channel states the controller tells apart.
#[derive(Clone, Copy, Debug, PartialEq, Eq, Structural)]
pub enum ChannelState {
    /// One of the many pit (control) channels.
    Pit,
    /// The download channel.
    Download,
    /// A Bluetooth link: no switch is possible or needed.
    Bluetooth,
    /// Stuck re-pairing: only a power cycle helps.
    Stuck,
}

/// The state a reported channel identifier stands for.
pub open spec fn channel_state_of(code: u8) -> ChannelState {
    if code == CHANNEL_DOWNLOAD {
        ChannelState::Download
    } else if code == CHANNEL_STUCK {
        ChannelState::Stuck
    } else if code == CHANNEL_BLUETOOTH {
        ChannelState::Bluetooth
    } else {
        ChannelState::Pit
    }
}

/// The state a link is in once it reached `target`.
pub open spec fn state_of_target(target: RadioChannel) -> ChannelState {
    match target {
        RadioChannel::Pit => ChannelState::Pit,
        RadioChannel::Download => ChannelState::Download,
    }
}

/// Classifies a reported channel identifier.
pub fn classify_channel(code: u8) -> (r: ChannelState)
    ensures
        r == channel_state_of(code),
{
    if code == CHANNEL_DOWNLOAD {
        ChannelState::Download
    } else if code == CHANNEL_STUCK {
        ChannelState::Stuck
    } else if code == CHANNEL_BLUETOOTH {
        ChannelState::Bluetooth
    } else {
        ChannelState::Pit
    }
}

/// What the first status query decides.
#[derive(Clone, Copy, Debug, PartialEq, Eq, Structural)]
pub enum SwitchStart {
    /// Fail at once: the radio is stuck.
    Stuck,
    /// Succeed with no action: already on the target, or no switch possible.
    NoSwitch,
    /// Find out whether the link is wireless, and switch if it is.
    CheckLink,
}

/// The decision taken on the channel state first reported.
pub open spec fn switch_start(state: ChannelState, target: RadioChannel) -> SwitchStart {
    if state == ChannelState::Stuck {
        SwitchStart::Stuck
    } else if state == state_of_target(target) || state == ChannelState::Bluetooth {
        SwitchStart::NoSwitch
    } else {
        SwitchStart::CheckLink
    }
}

/// Decides what to do on the channel state first reported.
pub fn first_step(state: ChannelState, target: RadioChannel) -> (r: SwitchStart)
    ensures
        r == switch_start(state, target),
{
    let goal = match target {
        RadioChannel::Pit => ChannelState::Pit,
        RadioChannel::Download => ChannelState::Download,
    };
    if state == ChannelState::Stuck {
        SwitchStart::Stuck
    } else if state == goal || state == ChannelState::Bluetooth {
        SwitchStart::NoSwitch
    } else {
        SwitchStart::CheckLink
    }
}

/// A link is wireless when a controller answers and it is not tethered.
pub open spec fn wireless_link(controller: bool, flags: u32) -> bool {
    controller && flags & TETHERED_FLAG == 0
}

/// Whether the link is wireless, from the product kind and the flag word.
pub fn is_wireless(controller: bool, flags: u32) -> (r: bool)
    ensures
        r == wireless_link(controller, flags),
{
    controller && flags & TETHERED_FLAG == 0
}

/// The error a rejection code stands for where no rejection is expected.
pub open spec fn rejection(ack: Ack) -> UploadError {
    match ack {
        Ack::Nack(code) => UploadError::Nack(code),
        _ => UploadError::Nack(NACK_PROGRAM_FILE),
    }
}

fn rejection_of(ack: Ack) -> (r: UploadError)
    ensures
        r == rejection(ack),
{
    match ack {
        Ack::Nack(code) => UploadError::Nack(code),
        _ => UploadError::Nack(NACK_PROGRAM_FILE),
    }
}

/// The channel identifier a status reply reports.
pub open spec fn status_reply(resp: Response) -> Result<u8, UploadError> {
    if resp.ack != Ack::Ack {
        Err(rejection(resp.ack))
    } else {
        match resp.payload {
            Payload::RadioStatus { channel } => Ok(channel),
            _ => Err(UploadError::UnexpectedReply),
        }
    }
}

/// Reads a radio status reply.
pub fn read_status_reply(resp: &Response) -> (r: Result<u8, UploadError>)
    ensures
        r == status_reply(*resp),
{
    if resp.ack != Ack::Ack {
        Err(rejection_of(resp.ack))
    } else {
        match resp.payload {
            Payload::RadioStatus { channel } => Ok(channel),
            _ => Err(UploadError::UnexpectedReply),
        }
    }
}

/// What one probe during the reconnect wait tells.
#[derive(Clone, Copy, Debug, PartialEq, Eq, Structural)]
pub enum ProbeVerdict {
    /// The link is back, on the target channel.
    Arrived,
    /// The link is back but reported a failure.
    Failed(UploadError),
    /// Not back yet, or back on another channel: keep polling.
    Waiting,
}

/// The verdict on one reconnect probe.
pub open spec fn reconnect_verdict(probe: Result<Response, UploadError>, target: RadioChannel) -> ProbeVerdict {
    match probe {
        Err(_) => ProbeVerdict::Waiting,
        Ok(resp) => match resp.ack {
            Ack::Ack => match resp.payload {
                Payload::RadioStatus { channel } => if channel_state_of(channel) == state_of_target(
                    target,
                ) {
                    ProbeVerdict::Arrived
                } else {
                    ProbeVerdict::Waiting
                },
                _ => ProbeVerdict::Waiting,
            },
            _ => ProbeVerdict::Failed(rejection(resp.ack)),
        },
    }
}

/// Judges one probe made while waiting for the link to come back.
pub fn judge_reconnect_probe(probe: &Result<Response, UploadError>, target: RadioChannel) -> (r: ProbeVerdict)
    ensures
        r == reconnect_verdict(*probe, target),
{
    match probe {
        Err(_) => ProbeVerdict::Waiting,
        Ok(resp) => match resp.ack {
            Ack::Ack => match resp.payload {
                Payload::RadioStatus { channel } => {
                    let state = classify_channel(channel);
                    let goal = match target {
                        RadioChannel::Pit => ChannelState::Pit,
                        RadioChannel::Download => ChannelState::Download,
                    };
                    if state == goal {
                        ProbeVerdict::Arrived
                    } else {
                        ProbeVerdict::Waiting
                    }
                },
                _ => ProbeVerdict::Waiting,
            },
            _ => ProbeVerdict::Failed(rejection_of(resp.ack)),
        },
    }
}

/// Timings of a channel switch.
#[derive(Clone, Copy, Debug, PartialEq, Eq, Structural)]
pub struct RadioConfig {
    /// Handshake used for the first status query and the switch command.
    pub status: HandshakeConfig,
    /// Handshake used for the wireless check.
    pub link_check: HandshakeConfig,
    /// How long each single-send probe waits for its reply.
    pub probe_timeout_ms: u64,
    /// Pause between probes.
    pub poll_interval_ms: u64,
    /// Bound on the wait for the link to drop.
    pub disconnect_timeout_ms: u64,
    /// Bound on the wait for the link to come back.
    pub reconnect_timeout_ms: u64,
}

/// How many probes fit in a wait of `timeout_ms` at one per `interval_ms`;
/// at least one.
pub open spec fn probe_budget(timeout_ms: u64, interval_ms: u64) -> u64 {
    if interval_ms == 0 || timeout_ms / interval_ms == 0 {
        1
    } else {
        timeout_ms / interval_ms
    }
}

fn budget(timeout_ms: u64, interval_ms: u64) -> (r: u64)
    ensures
        r == probe_budget(timeout_ms, interval_ms),
        r >= 1,
{
    if interval_ms == 0 || timeout_ms / interval_ms == 0 {
        1
    } else {
        timeout_ms / interval_ms
    }
}

/// How a channel switch ended.
#[derive(Clone, Copy, Debug, PartialEq, Eq, Structural)]
pub enum RadioSwitch {
    /// Already on the target, or on a link with no channels: nothing sent.
    AlreadyThere,
    /// A tethered link: no switch needed.
    Tethered,
    /// The switch command was sent and the link came back on the target.
    Switched,
}

/// The outcome of a single-send probe that received `reply`.
pub open spec fn probe_of(reply: Option<Response>) -> Result<Response, UploadError> {
    match reply {
        Some(r) => Ok(r),
        None => Err(UploadError::Timeout),
    }
}

/// What the first status query decides on its own: `None` when the link must
/// be checked and possibly switched.
pub open spec fn status_decision(status: Result<Response, UploadError>, target: RadioChannel) -> Option<
    Result<RadioSwitch, UploadError>,
> {
    match status {
        Err(e) => Some(Err(e)),
        Ok(resp) => match status_reply(resp) {
            Err(e) => Some(Err(e)),
            Ok(ch) => match switch_start(channel_state_of(ch), target) {
                SwitchStart::Stuck => Some(Err(UploadError::RadioChannelStuck)),
                SwitchStart::NoSwitch => Some(Ok(RadioSwitch::AlreadyThere)),
                SwitchStart::CheckLink => None,
            },
        },
    }
}

/// Whether the product answering a version query is a controller.
pub open spec fn version_reply(resp: Response) -> Result<bool, UploadError> {
    if resp.ack != Ack::Ack {
        Err(rejection(resp.ack))
    } else {
        match resp.payload {
            Payload::SystemVersion { controller } => Ok(controller),
            _ => Err(UploadError::UnexpectedReply),
        }
    }
}

/// The flag word a flags reply carries.
pub open spec fn flags_reply(resp: Response) -> Result<u32, UploadError> {
    if resp.ack != Ack::Ack {
        Err(rejection(resp.ack))
    } else {
        match resp.payload {
            Payload::SystemFlags { flags } => Ok(flags),
            _ => Err(UploadError::UnexpectedReply),
        }
    }
}

/// The first reply of `rep`, silence when there is none.
pub open spec fn head(rep: Seq<Option<Response>>) -> Option<Response> {
    if rep.len() == 0 {
        None
    } else {
        rep[0]
    }
}

/// The replies of `rep` after the first.
pub open spec fn tail(rep: Seq<Option<Response>>) -> Seq<Option<Response>> {
    if rep.len() == 0 {
        rep
    } else {
        rep.drop_first()
    }
}

/// The requests sent after position `from` of `log`.
pub open spec fn requests_since(log: Seq<Request>, from: nat) -> Seq<Request> {
    log.subrange(from as int, log.len() as int)
}

/// Waiting for the link to come back, with `n` probes left, when the probes
/// receive `rep`: the result, and the requests sent.
pub open spec fn reconnect_spec(rep: Seq<Option<Response>>, n: nat, target: RadioChannel) -> (
    Result<RadioSwitch, UploadError>,
    Seq<Request>,
)
    decreases n,
{
    if n == 0 {
        (Err(UploadError::RadioChannelReconnectTimeout), Seq::empty())
    } else {
        match reconnect_verdict(probe_of(head(rep)), target) {
            ProbeVerdict::Arrived => (Ok(RadioSwitch::Switched), seq![Request::RadioStatus]),
            ProbeVerdict::Failed(e) => (Err(e), seq![Request::RadioStatus]),
            ProbeVerdict::Waiting => {
                let rest = reconnect_spec(tail(rep), (n - 1) as nat, target);
                (rest.0, seq![Request::RadioStatus] + rest.1)
            },
        }
    }
}

/// Waiting for the old channel to go quiet, with `n` probes left, then for
/// the link to come back with `n2` probes.
pub open spec fn disconnect_spec(rep: Seq<Option<Response>>, n: nat, n2: nat, target: RadioChannel) -> (
    Result<RadioSwitch, UploadError>,
    Seq<Request>,
)
    decreases n,
{
    if n == 0 {
        (Err(UploadError::RadioChannelDisconnectTimeout), Seq::empty())
    } else if head(rep) is None {
        let rest = reconnect_spec(tail(rep), n2, target);
        (rest.0, seq![Request::RadioStatus] + rest.1)
    } else {
        let rest = disconnect_spec(tail(rep), (n - 1) as nat, n2, target);
        (rest.0, seq![Request::RadioStatus] + rest.1)
    }
}

/// Sending the switch command, then waiting for the link to drop and return.
pub open spec fn switch_command_spec(rep: Seq<Option<Response>>, target: RadioChannel, cfg: RadioConfig) -> (
    Result<RadioSwitch, UploadError>,
    Seq<Request>,
) {
    let a = (cfg.status.max_retries + 1) as nat;
    let k = consumed(a, rep);
    let sent = repeated(Request::SwitchChannel(target), k);
    let rest = rep.subrange(k as int, rep.len() as int);
    match handshake_outcome(a, rep) {
        Err(e) => (Err(e), sent),
        Ok(resp) => if resp.ack != Ack::Ack {
            (Err(rejection(resp.ack)), sent)
        } else {
            let w = disconnect_spec(
                rest,
                probe_budget(cfg.disconnect_timeout_ms, cfg.poll_interval_ms) as nat,
                probe_budget(cfg.reconnect_timeout_ms, cfg.poll_interval_ms) as nat,
                target,
            );
            (w.0, sent + w.1)
        },
    }
}

/// Checking whether the link is wireless (a version query, then a flags
/// query), and switching when it is.
pub open spec fn check_link_spec(rep: Seq<Option<Response>>, target: RadioChannel, cfg: RadioConfig) -> (
    Result<RadioSwitch, UploadError>,
    Seq<Request>,
) {
    let a = (cfg.link_check.max_retries + 1) as nat;
    let k1 = consumed(a, rep);
    let s1 = repeated(Request::SystemVersion, k1);
    let rest1 = rep.subrange(k1 as int, rep.len() as int);
    match handshake_outcome(a, rep) {
        Err(e) => (Err(e), s1),
        Ok(v) => match version_reply(v) {
            Err(e) => (Err(e), s1),
            Ok(controller) => {
                let k2 = consumed(a, rest1);
                let s2 = repeated(Request::SystemFlags, k2);
                let rest2 = rest1.subrange(k2 as int, rest1.len() as int);
                match handshake_outcome(a, rest1) {
                    Err(e) => (Err(e), s1 + s2),
                    Ok(f) => match flags_reply(f) {
                        Err(e) => (Err(e), s1 + s2),
                        Ok(flags) => if !wireless_link(controller, flags) {
                            (Ok(RadioSwitch::Tethered), s1 + s2)
                        } else {
                            let w = switch_command_spec(rest2, target, cfg);
                            (w.0, s1 + s2 + w.1)
                        },
                    },
                }
            },
        },
    }
}

/// A whole channel switch, from the replies it receives: the result, and the
/// requests sent.
pub open spec fn switch_spec(rep: Seq<Option<Response>>, target: RadioChannel, cfg: RadioConfig) -> (
    Result<RadioSwitch, UploadError>,
    Seq<Request>,
) {
    let a = (cfg.status.max_retries + 1) as nat;
    let k = consumed(a, rep);
    let s0 = repeated(Request::RadioStatus, k);
    let rest = rep.subrange(k as int, rep.len() as int);
    match status_decision(handshake_outcome(a, rep), target) {
        Some(d) => (d, s0),
        None => {
            let w = check_link_spec(rest, target, cfg);
            (w.0, s0 + w.1)
        },
    }
}

/// One status probe: a single send, no resend.
fn probe<T: Transport>(link: &mut Session<T>, timeout_ms: u64) -> (r: Result<Response, UploadError>)
    ensures
        final(link).uploads@ == old(link).uploads@,
        final(link).upload_results@ == old(link).upload_results@,
        final(link).sent@ == old(link).sent@.push(Request::RadioStatus),
        final(link).received@ == old(link).received@.push(final(link).received@.last()),
        r == probe_of(final(link).received@.last()),
{
    let ghost s0 = link.sent@;
    let ghost r0 = link.received@;
    let r = handshake(link, &Request::RadioStatus, HandshakeConfig { timeout_ms, max_retries: 0 });
    proof {
        let seg = received_since(link.received@, r0.len());
        assert(seg.len() == 1);
        assert(link.received@ =~= r0.push(seg[0]));
        assert(handshake_outcome(0, seg.drop_first()) == Err::<Response, UploadError>(UploadError::Timeout));
        assert(repeated(Request::RadioStatus, 1) =~= seq![Request::RadioStatus]);
        assert(link.sent@ =~= s0.push(Request::RadioStatus));
    }
    r
}

/// After a handshake that received `seg`, followed by `rest`, the outcome
/// and the split point are the handshake's own.
proof fn lemma_after_span(a: nat, seg: Seq<Option<Response>>, rest: Seq<Option<Response>>)
    requires
        handshake_span(a, seg),
    ensures
        handshake_outcome(a, seg + rest) == handshake_outcome(a, seg),
        consumed(a, seg + rest) == seg.len(),
        (seg + rest).subrange(seg.len() as int, (seg + rest).len() as int) == rest,
{
    lemma_span_decides(a, seg, rest);
    assert((seg + rest).subrange(seg.len() as int, (seg + rest).len() as int) =~= rest);
}

fn wait_return<T: Transport>(link: &mut Session<T>, n: u64, target: RadioChannel, cfg: RadioConfig) -> (r: Result<
    RadioSwitch,
    UploadError,
>)
    ensures
        final(link).uploads@ == old(link).uploads@,
        final(link).upload_results@ == old(link).upload_results@,
        final(link).sent@ == old(link).sent@ + requests_since(final(link).sent@, old(link).sent@.len()),
        final(link).received@ == old(link).received@ + received_since(
            final(link).received@,
            old(link).received@.len(),
        ),
        (r, requests_since(final(link).sent@, old(link).sent@.len())) == reconnect_spec(
            received_since(final(link).received@, old(link).received@.len()),
            n as nat,
            target,
        ),
    decreases n,
{
    let ghost s0 = link.sent@;
    let ghost r0 = link.received@;
    if n == 0 {
        assert(requests_since(link.sent@, s0.len()) =~= Seq::<Request>::empty());
        assert(link.sent@ =~= s0 + requests_since(link.sent@, s0.len()));
        assert(link.received@ =~= r0 + received_since(link.received@, r0.len()));
        return Err(UploadError::RadioChannelReconnectTimeout);
    }
    let p = probe(link, cfg.probe_timeout_ms);
    let ghost s1 = link.sent@;
    let ghost r1 = link.received@;
    let ghost x = r1.last();
    match judge_reconnect_probe(&p, target) {
        ProbeVerdict::Arrived => {
            proof {
                let rec = received_since(link.received@, r0.len());
                assert(rec =~= seq![x]);
                assert(head(rec) == x);
                assert(requests_since(link.sent@, s0.len()) =~= seq![Request::RadioStatus]);
                assert(link.sent@ =~= s0 + requests_since(link.sent@, s0.len()));
                assert(link.received@ =~= r0 + rec);
            }
            Ok(RadioSwitch::Switched)
        },
        ProbeVerdict::Failed(e) => {
            proof {
                let rec = received_since(link.received@, r0.len());
                assert(rec =~= seq![x]);
                assert(head(rec) == x);
                assert(requests_since(link.sent@, s0.len()) =~= seq![Request::RadioStatus]);
                assert(link.sent@ =~= s0 + requests_since(link.sent@, s0.len()));
                assert(link.received@ =~= r0 + rec);
            }
            Err(e)
        },
        ProbeVerdict::Waiting => {
            if p.is_ok() {
                link.pause(cfg.poll_interval_ms);
            }
            let r = wait_return(link, n - 1, target, cfg);
            proof {
                let rest = received_since(link.received@, r1.len());
                let rec = received_since(link.received@, r0.len());
                assert(rec =~= seq![x] + rest);
                assert(head(rec) == x);
                assert(tail(rec) =~= rest);
                let more = requests_since(link.sent@, s1.len());
                assert(requests_since(link.sent@, s0.len()) =~= seq![Request::RadioStatus] + more);
                assert(link.sent@ =~= s0 + requests_since(link.sent@, s0.len()));
                assert(link.received@ =~= r0 + rec);
            }
            r
        },
    }
}

fn wait_drop<T: Transport>(link: &mut Session<T>, n: u64, n2: u64, target: RadioChannel, cfg: RadioConfig) -> (r: Result<
    RadioSwitch,
    UploadError,
>)
    ensures
        final(link).uploads@ == old(link).uploads@,
        final(link).upload_results@ == old(link).upload_results@,
        final(link).sent@ == old(link).sent@ + requests_since(final(link).sent@, old(link).sent@.len()),
        final(link).received@ == old(link).received@ + received_since(
            final(link).received@,
            old(link).received@.len(),
        ),
        (r, requests_since(final(link).sent@, old(link).sent@.len())) == disconnect_spec(
            received_since(final(link).received@, old(link).received@.len()),
            n as nat,
            n2 as nat,
            target,
        ),
    decreases n,
{
    let ghost s0 = link.sent@;
    let ghost r0 = link.received@;
    if n == 0 {
        assert(requests_since(link.sent@, s0.len()) =~= Seq::<Request>::empty());
        assert(link.sent@ =~= s0 + requests_since(link.sent@, s0.len()));
        assert(link.received@ =~= r0 + received_since(link.received@, r0.len()));
        return Err(UploadError::RadioChannelDisconnectTimeout);
    }
    let p = probe(link, cfg.probe_timeout_ms);
    let ghost s1 = link.sent@;
    let ghost r1 = link.received@;
    let ghost x = r1.last();
    let r = if p.is_err() {
        wait_return(link, n2, target, cfg)
    } else {
        link.pause(cfg.poll_interval_ms);
        wait_drop(link, n - 1, n2, target, cfg)
    };
    proof {
        let rest = received_since(link.received@, r1.len());
        let rec = received_since(link.received@, r0.len());
        assert(rec =~= seq![x] + rest);
        assert(head(rec) == x);
        assert(tail(rec) =~= rest);
        let more = requests_since(link.sent@, s1.len());
        assert(requests_since(link.sent@, s0.len()) =~= seq![Request::RadioStatus] + more);
        assert(link.sent@ =~= s0 + requests_since(link.sent@, s0.len()));
        assert(link.received@ =~= r0 + rec);
    }
    r
}

fn switch_command<T: Transport>(link: &mut Session<T>, target: RadioChannel, cfg: RadioConfig) -> (r: Result<
    RadioSwitch,
    UploadError,
>)
    ensures
        final(link).uploads@ == old(link).uploads@,
        final(link).upload_results@ == old(link).upload_results@,
        final(link).sent@ == old(link).sent@ + requests_since(final(link).sent@, old(link).sent@.len()),
        final(link).received@ == old(link).received@ + received_since(
            final(link).received@,
            old(link).received@.len(),
        ),
        (r, requests_since(final(link).sent@, old(link).sent@.len())) == switch_command_spec(
            received_since(final(link).received@, old(link).received@.len()),
            target,
            cfg,
        ),
{
    let ghost s0 = link.sent@;
    let ghost r0 = link.received@;
    let ghost a = (cfg.status.max_retries + 1) as nat;
    let switch = Request::SwitchChannel(target);
    let result = handshake(link, &switch, cfg.status);
    let ghost s1 = link.sent@;
    let ghost r1 = link.received@;
    let ghost seg = received_since(r1, r0.len());
    let ghost hs = requests_since(s1, s0.len());
    proof {
        assert(hs =~= repeated(switch, seg.len()));
    }
    let r = match result {
        Err(e) => Err(e),
        Ok(resp) => if resp.ack != Ack::Ack {
            Err(rejection_of(resp.ack))
        } else {
            let limit = budget(cfg.disconnect_timeout_ms, cfg.poll_interval_ms);
            let limit2 = budget(cfg.reconnect_timeout_ms, cfg.poll_interval_ms);
            wait_drop(link, limit, limit2, target, cfg)
        },
    };
    proof {
        let rest = received_since(link.received@, r1.len());
        let rec = received_since(link.received@, r0.len());
        assert(rec =~= seg + rest);
        lemma_after_span(a, seg, rest);
        let more = requests_since(link.sent@, s1.len());
        assert(requests_since(link.sent@, s0.len()) =~= hs + more);
        assert(link.sent@ =~= s0 + requests_since(link.sent@, s0.len()));
        assert(link.received@ =~= r0 + rec);
        if result is Err || result->Ok_0.ack != Ack::Ack {
            assert(more =~= Seq::<Request>::empty());
            assert(hs + more =~= hs);
        }
    }
    r
}

fn check_link<T: Transport>(link: &mut Session<T>, target: RadioChannel, cfg: RadioConfig) -> (r: Result<
    RadioSwitch,
    UploadError,
>)
    ensures
        final(link).uploads@ == old(link).uploads@,
        final(link).upload_results@ == old(link).upload_results@,
        final(link).sent@ == old(link).sent@ + requests_since(final(link).sent@, old(link).sent@.len()),
        final(link).received@ == old(link).received@ + received_since(
            final(link).received@,
            old(link).received@.len(),
        ),
        (r, requests_since(final(link).sent@, old(link).sent@.len())) == check_link_spec(
            received_since(final(link).received@, old(link).received@.len()),
            target,
            cfg,
        ),
{
    let ghost s0 = link.sent@;
    let ghost r0 = link.received@;
    let ghost a = (cfg.link_check.max_retries + 1) as nat;
    let version = handshake(link, &Request::SystemVersion, cfg.link_check);
    let ghost s1 = link.sent@;
    let ghost r1 = link.received@;
    let ghost seg1 = received_since(r1, r0.len());
    let ghost h1 = requests_since(s1, s0.len());
    proof {
        assert(h1 =~= repeated(Request::SystemVersion, seg1.len()));
    }
    let ghost mut seg2: Seq<Option<Response>> = Seq::empty();
    let ghost mut h2: Seq<Request> = Seq::empty();
    let ghost mut s2 = s1;
    let ghost mut r2 = r1;
    let r = match version {
        Err(e) => Err(e),
        Ok(v) => {
            let controller: Result<bool, UploadError> = if v.ack != Ack::Ack {
                Err(rejection_of(v.ack))
            } else {
                match v.payload {
                    Payload::SystemVersion { controller } => Ok(controller),
                    _ => Err(UploadError::UnexpectedReply),
                }
            };
            match controller {
                Err(e) => Err(e),
                Ok(controller) => {
                    let flags_reply = handshake(link, &Request::SystemFlags, cfg.link_check);
                    proof {
                        s2 = link.sent@;
                        r2 = link.received@;
                        seg2 = received_since(r2, r1.len());
                        h2 = requests_since(s2, s1.len());
                        assert(h2 =~= repeated(Request::SystemFlags, seg2.len()));
                    }
                    let flags: Result<u32, UploadError> = match flags_reply {
                        Err(e) => Err(e),
                        Ok(f) => if f.ack != Ack::Ack {
                            Err(rejection_of(f.ack))
                        } else {
                            match f.payload {
                                Payload::SystemFlags { flags } => Ok(flags),
                                _ => Err(UploadError::UnexpectedReply),
                            }
                        },
                    };
                    match flags {
                        Err(e) => Err(e),
                        Ok(flags) => if !is_wireless(controller, flags) {
                            Ok(RadioSwitch::Tethered)
                        } else {
                            switch_command(link, target, cfg)
                        },
                    }
                },
            }
        },
    };
    proof {
        let rest = received_since(link.received@, r2.len());
        let rec = received_since(link.received@, r0.len());
        let more = requests_since(link.sent@, s2.len());
        assert(link.sent@ =~= s0 + requests_since(link.sent@, s0.len()));
        assert(link.received@ =~= r0 + rec);
        if seg2.len() == 0 {
            assert(r2 == r1);
            assert(rest =~= Seq::<Option<Response>>::empty());
            assert(rec =~= seg1);
            lemma_after_span(a, seg1, Seq::empty());
            assert(seg1 + Seq::<Option<Response>>::empty() =~= seg1);
            assert(requests_since(link.sent@, s0.len()) =~= h1);
        } else {
            assert(rec =~= seg1 + (seg2 + rest));
            lemma_after_span(a, seg1, seg2 + rest);
            lemma_after_span(a, seg2, rest);
            assert(requests_since(link.sent@, s0.len()) =~= h1 + h2 + more);
            if more.len() == 0 {
                assert(h1 + h2 + more =~= h1 + h2);
            }
        }
    }
    r
}

/// Moves the link to `target`.
///
/// A stuck radio fails at once; a link already on `target`, or one with no
/// channels, succeeds with nothing more sent; a tethered link, or a brain,
/// needs no switch. Otherwise the switch command is sent, then single-send
/// probes run until one goes unanswered (the old channel is gone; if every
/// probe of the window is answered, `RadioChannelDisconnectTimeout`), then
/// until one reports `target` (`Switched`), one is rejected (that rejection),
/// or the window ends (`RadioChannelReconnectTimeout`). The result and the
/// requests sent are exactly what `switch_spec` gives for the replies the
/// device sent.
pub fn switch_to<T: Transport>(link: &mut Session<T>, target: RadioChannel, cfg: RadioConfig) -> (r: Result<
    RadioSwitch,
    UploadError,
>)
    ensures
        final(link).uploads@ == old(link).uploads@,
        final(link).upload_results@ == old(link).upload_results@,
        final(link).sent@ == old(link).sent@ + requests_since(final(link).sent@, old(link).sent@.len()),
        final(link).received@ == old(link).received@ + received_since(
            final(link).received@,
            old(link).received@.len(),
        ),
        final(link).sent@.len() > old(link).sent@.len(),
        final(link).sent@[old(link).sent@.len() as int] == Request::RadioStatus,
        (r, requests_since(final(link).sent@, old(link).sent@.len())) == switch_spec(
            received_since(final(link).received@, old(link).received@.len()),
            target,
            cfg,
        ),
{
    let ghost s0 = link.sent@;
    let ghost r0 = link.received@;
    let ghost a = (cfg.status.max_retries + 1) as nat;
    let status = handshake(link, &Request::RadioStatus, cfg.status);
    let ghost s1 = link.sent@;
    let ghost r1 = link.received@;
    let ghost seg = received_since(r1, r0.len());
    let ghost hs = requests_since(s1, s0.len());
    proof {
        assert(hs =~= repeated(Request::RadioStatus, seg.len()));
        assert(s1[s0.len() as int] == hs[0]);
    }
    let decided: Option<Result<RadioSwitch, UploadError>> = match &status {
        Err(e) => Some(Err(*e)),
        Ok(resp) => match read_status_reply(resp) {
            Err(e) => Some(Err(e)),
            Ok(channel) => match first_step(classify_channel(channel), target) {
                SwitchStart::Stuck => Some(Err(UploadError::RadioChannelStuck)),
                SwitchStart::NoSwitch => Some(Ok(RadioSwitch::AlreadyThere)),
                SwitchStart::CheckLink => None,
            },
        },
    };
    assert(decided == status_decision(status, target));
    let r = match decided {
        Some(d) => d,
        None => check_link(link, target, cfg),
    };
    proof {
        let rest = received_since(link.received@, r1.len());
        let rec = received_since(link.received@, r0.len());
        assert(rec =~= seg + rest);
        lemma_after_span(a, seg, rest);
        let more = requests_since(link.sent@, s1.len());
        assert(requests_since(link.sent@, s0.len()) =~= hs + more);
        assert(link.sent@ =~= s0 + requests_since(link.sent@, s0.len()));
        assert(link.received@ =~= r0 + rec);
        assert(link.sent@[s0.len() as int] == s1[s0.len() as int]);
        if more.len() == 0 {
            assert(hs + more =~= hs);
        }
    }
    r
}

/// Short circuit: a link whose status already reports the target channel, or
/// a Bluetooth link, is left alone with no switch command.
pub proof fn lemma_no_switch_when_on_target(code: u8, target: RadioChannel)
    requires
        channel_state_of(code) == state_of_target(target) || code == CHANNEL_BLUETOOTH,
    ensures
        switch_start(channel_state_of(code), target) == SwitchStart::NoSwitch,
{
}

/// Short circuit, for the whole switch: when the first status reply already
/// reports the target channel (or a Bluetooth link), the switch succeeds
/// with `AlreadyThere` and every request sent was a status query.
pub proof fn lemma_switch_short_circuit(rep: Seq<Option<Response>>, target: RadioChannel, cfg: RadioConfig, resp: Response, ch: u8)
    requires
        handshake_outcome((cfg.status.max_retries + 1) as nat, rep) == Ok::<Response, UploadError>(resp),
        status_reply(resp) == Ok::<u8, UploadError>(ch),
        channel_state_of(ch) == state_of_target(target) || ch == CHANNEL_BLUETOOTH,
    ensures
        switch_spec(rep, target, cfg).0 == Ok::<RadioSwitch, UploadError>(RadioSwitch::AlreadyThere),
        forall|i: int| 0 <= i < switch_spec(rep, target, cfg).1.len() ==> switch_spec(rep, target, cfg).1[i]
            == Request::RadioStatus,
{
}

/// A tethered link, or a brain: when the link check's replies report a link
/// that is not wireless, the result is `Tethered` and no switch command is
/// sent.
pub proof fn lemma_tethered_never_switched(
    rep: Seq<Option<Response>>,
    target: RadioChannel,
    cfg: RadioConfig,
    v: Response,
    f: Response,
    controller: bool,
    flags: u32,
)
    requires
        handshake_outcome((cfg.link_check.max_retries + 1) as nat, rep) == Ok::<Response, UploadError>(v),
        version_reply(v) == Ok::<bool, UploadError>(controller),
        handshake_outcome(
            (cfg.link_check.max_retries + 1) as nat,
            rep.subrange(consumed((cfg.link_check.max_retries + 1) as nat, rep) as int, rep.len() as int),
        ) == Ok::<Response, UploadError>(f),
        flags_reply(f) == Ok::<u32, UploadError>(flags),
        !wireless_link(controller, flags),
    ensures
        check_link_spec(rep, target, cfg).0 == Ok::<RadioSwitch, UploadError>(RadioSwitch::Tethered),
        forall|i: int| 0 <= i < check_link_spec(rep, target, cfg).1.len() ==> !(
        #[trigger] check_link_spec(rep, target, cfg).1[i] is SwitchChannel),
{
    let a = (cfg.link_check.max_retries + 1) as nat;
    let k1 = consumed(a, rep);
    let rest1 = rep.subrange(k1 as int, rep.len() as int);
    let k2 = consumed(a, rest1);
    let both = repeated(Request::SystemVersion, k1) + repeated(Request::SystemFlags, k2);
    assert forall|i: int| 0 <= i < both.len() implies !(#[trigger] both[i] is SwitchChannel) by {
        if i < k1 {
            assert(both[i] == Request::SystemVersion);
        } else {
            assert(both[i] == repeated(Request::SystemFlags, k2)[i - k1]);
        }
    }
}

/// Probes answered for the whole disconnect window end the switch with
/// `RadioChannelDisconnectTimeout`.
pub proof fn lemma_answered_window_times_out(rep: Seq<Option<Response>>, n: nat, n2: nat, target: RadioChannel)
    requires
        n <= rep.len(),
        forall|i: int| 0 <= i < n ==> rep[i] is Some,
    ensures
        disconnect_spec(rep, n, n2, target).0 == Err::<RadioSwitch, UploadError>(
            UploadError::RadioChannelDisconnectTimeout,
        ),
    decreases n,
{
    if n > 0 {
        assert(head(rep) == rep[0]);
        let t = tail(rep);
        assert forall|i: int| 0 <= i < n - 1 implies t[i] is Some by {
            assert(t[i] == rep[i + 1]);
        }
        lemma_answered_window_times_out(t, (n - 1) as nat, n2, target);
    }
}

/// A reconnect window in which no probe reports the target, and none is
/// rejected, ends the switch with `RadioChannelReconnectTimeout`.
pub proof fn lemma_waiting_window_times_out(rep: Seq<Option<Response>>, n: nat, target: RadioChannel)
    requires
        n <= rep.len(),
        forall|i: int| 0 <= i < n ==> reconnect_verdict(probe_of(rep[i]), target) == ProbeVerdict::Waiting,
    ensures
        reconnect_spec(rep, n, target).0 == Err::<RadioSwitch, UploadError>(
            UploadError::RadioChannelReconnectTimeout,
        ),
    decreases n,
{
    if n > 0 {
        assert(head(rep) == rep[0]);
        let t = tail(rep);
        assert forall|i: int| 0 <= i < n - 1 implies reconnect_verdict(probe_of(t[i]), target)
            == ProbeVerdict::Waiting by {
            assert(t[i] == rep[i + 1]);
        }
        lemma_waiting_window_times_out(t, (n - 1) as nat, target);
    }
}

/// A stuck radio is never switched, whatever the target.
pub proof fn lemma_stuck_fails(target: RadioChannel)
    ensures
        switch_start(channel_state_of(CHANNEL_STUCK), target) == SwitchStart::Stuck,
{
}

} // verus!
