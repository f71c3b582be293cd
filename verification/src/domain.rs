//! The domain façade: a connection to a remote host reached over a
//! secure shell.  The first spawn claims the protocol event stream
//! and runs the interactive bootstrap; every later spawn, and every
//! split, talks to the authenticated session directly.

use vstd::prelude::*;
use vstd::pervasive::VecAdditionalExecFns;
use vstd::string::StringExecFns;
use crate::auth::PtyUp;
use crate::bytes::{ascii_seq, ascii_bytes, concat_bytes, decimal_bytes, decimal_of, views_of, views2_of};
use crate::child::HotSwapChild;
use crate::errors::BridgeError;
use crate::geometry::PtySize;
use crate::oneshot::OneShot;
use crate::pty::{HotSwapPty, PtyAttachment};
use crate::stream::{HotSwapReader, HotSwapWriter};

verus! {

/// Attachment state of a domain, as the multiplexer asks for it.
#[derive(Clone, Copy, PartialEq, Eq, Structural, Debug)]
pub enum DomainState {
    Attached,
    Detached,
}

/// A domain reaching a remote host over a secure shell.  It is
/// created before the connection is authenticated; the first spawn
/// establishes the session interactively.
pub struct RemoteSshDomain {
    pub id: u64,
    pub name: String,
    /// Whether the protocol event stream is still unclaimed: the
    /// first spawn takes it and runs the bootstrap.
    pub events_pending: bool,
}

impl RemoteSshDomain {
    /// A fresh domain for the given host label, under the given
    /// domain identifier; authentication is still ahead.
    pub fn with_ssh_config(name: &str, id: u64) -> (r: Self)
        ensures
            r.id == id,
            r.name@ == "SSH to "@ + name@,
            r.events_pending,
    {
        let mut label: String = "SSH to ".to_owned();
        label.append(name);
        RemoteSshDomain { id, name: label, events_pending: true }
    }

    pub fn domain_id(&self) -> (r: u64)
        ensures
            r == self.id,
    {
        self.id
    }

    pub fn domain_name(&self) -> (r: &str)
        ensures
            r@ == self.name@,
    {
        self.name.as_str()
    }

    /// Claim the event stream.  Exactly the first claim succeeds:
    /// that spawn runs the bootstrap, all later ones talk to the
    /// session directly.
    pub fn take_events(&mut self) -> (r: bool)
        ensures
            r == old(self).events_pending,
            !final(self).events_pending,
            final(self).id == old(self).id,
            final(self).name == old(self).name,
    {
        let had = self.events_pending;
        self.events_pending = false;
        had
    }

    /// There is nothing to reattach: attaching always succeeds.
    pub fn attach(&self) -> (r: Result<(), BridgeError>)
        ensures
            r is Ok,
    {
        Ok(())
    }

    /// Detaching is not implemented for this kind of domain.
    pub fn detach(&self) -> (r: Result<(), BridgeError>)
        ensures
            r == Err::<(), BridgeError>(BridgeError::DetachUnsupported),
    {
        Err(BridgeError::DetachUnsupported)
    }

    pub fn state(&self) -> (r: DomainState)
        ensures
            r == DomainState::Attached,
    {
        DomainState::Attached
    }
}

/// One environment entry, or one entry of the connection
/// configuration map.
pub struct EnvVar {
    pub key: Vec<u8>,
    pub value: Vec<u8>,
}

/// The first of the `n` leading entries whose key is `k`, or `n`
/// when none matches.
pub open spec fn key_index(env: Seq<EnvVar>, k: Seq<u8>, n: int) -> int
    decreases n,
{
    if n <= 0 {
        0
    } else if key_index(env, k, n - 1) < n - 1 {
        key_index(env, k, n - 1)
    } else if env[n - 1].key@ == k {
        n - 1
    } else {
        n
    }
}

pub proof fn lemma_key_index_at(env: Seq<EnvVar>, k: Seq<u8>, n: int, j: int)
    requires
        0 <= j <= n,
        forall|i: int| 0 <= i < j ==> (#[trigger] env[i]).key@ != k,
        j < n ==> env[j].key@ == k,
    ensures
        key_index(env, k, n) == j,
    decreases n,
{
    if n > 0 {
        if j == n {
            lemma_key_index_at(env, k, n - 1, n - 1);
        } else if j == n - 1 {
            lemma_key_index_at(env, k, n - 1, n - 1);
        } else {
            lemma_key_index_at(env, k, n - 1, j);
        }
    }
}

/// What setting key `k` to value `v` leaves of an entry list: the
/// first entry with that key is replaced, or a new entry appended,
/// and every other entry stands untouched.
pub open spec fn upsert_post(before: Seq<EnvVar>, after: Seq<EnvVar>, k: Seq<u8>, v: Seq<u8>) -> bool {
    let idx = key_index(before, k, before.len() as int);
    &&& idx < before.len() ==> after.len() == before.len()
    &&& idx == before.len() ==> after.len() == before.len() + 1
    &&& forall|i: int| 0 <= i < before.len() && i != idx ==> after[i] == before[i]
    &&& after[idx].key@ == k
    &&& after[idx].value@ == v
}

/// Inject the pane identifier into the environment handed to the
/// remote command: the entry `WEZTERM_PANE` is set to the pane id in
/// decimal, replacing an existing entry of that key or appended.
pub fn env_with_pane_id(env: &mut Vec<EnvVar>, pane_id: u64)
    ensures
        upsert_post(
            old(env)@,
            final(env)@,
            ascii_seq("WEZTERM_PANE"@),
            decimal_of(pane_id as nat),
        ),
{
    proof {
        reveal_strlit("WEZTERM_PANE");
    }
    let key = ascii_bytes("WEZTERM_PANE");
    let value = decimal_bytes(pane_id);
    let n = env.len();
    let mut i: usize = 0;
    while i < n
        invariant
            env@ == old(env)@,
            n == env@.len(),
            0 <= i <= n,
            key@ == ascii_seq("WEZTERM_PANE"@),
            value@ == decimal_of(pane_id as nat),
            forall|j: int| 0 <= j < i ==> (#[trigger] env@[j]).key@ != key@,
        decreases n - i,
    {
        if crate::bytes::bytes_eq(env[i].key.as_slice(), key.as_slice()) {
            proof {
                lemma_key_index_at(env@, key@, n as int, i as int);
            }
            env.set(i, EnvVar { key, value });
            return ;
        }
        i = i + 1;
    }
    proof {
        lemma_key_index_at(env@, key@, n as int, n as int);
    }
    env.push(EnvVar { key, value });
}

/// The first `hostname` entry of the connection configuration, which
/// the connect-with-interface flow announces; the configuration is
/// expected to always carry one.
pub fn config_hostname(cfg: &Vec<EnvVar>) -> (r: Option<Vec<u8>>)
    ensures
        key_index(cfg@, ascii_seq("hostname"@), cfg@.len() as int) < cfg@.len() ==> (r
            matches Some(v) && v@ == cfg@[key_index(
            cfg@,
            ascii_seq("hostname"@),
            cfg@.len() as int,
        )].value@),
        key_index(cfg@, ascii_seq("hostname"@), cfg@.len() as int) == cfg@.len() ==> r
            is None,
{
    proof {
        reveal_strlit("hostname");
    }
    let key = ascii_bytes("hostname");
    let n = cfg.len();
    let mut i: usize = 0;
    while i < n
        invariant
            n == cfg@.len(),
            0 <= i <= n,
            key@ == ascii_seq("hostname"@),
            forall|j: int| 0 <= j < i ==> (#[trigger] cfg@[j]).key@ != key@,
        decreases n - i,
    {
        if crate::bytes::bytes_eq(cfg[i].key.as_slice(), key.as_slice()) {
            proof {
                lemma_key_index_at(cfg@, key@, n as int, i as int);
            }
            return Some(crate::bytes::copy_bytes(&cfg[i].value));
        }
        i = i + 1;
    }
    proof {
        lemma_key_index_at(cfg@, key@, n as int, n as int);
    }
    None
}

/// The line announced when the connect-with-interface flow starts.
pub fn connecting_line(host: &[u8]) -> (r: Vec<u8>)
    ensures
        r@ == ascii_seq("Connecting to "@) + host@ + ascii_seq(" using SSH"@),
{
    proof {
        reveal_strlit("Connecting to ");
        reveal_strlit(" using SSH");
    }
    let head = ascii_bytes("Connecting to ");
    let tail = ascii_bytes(" using SSH");
    let mid = concat_bytes(head.as_slice(), host);
    let r = concat_bytes(mid.as_slice(), tail.as_slice());
    proof {
        assert(r@ =~= ascii_seq("Connecting to "@) + host@ + ascii_seq(" using SSH"@));
    }
    r
}

/// Why the connect-with-interface flow gave up.
pub enum UiFailure {
    /// A credential prompt was abandoned.
    Cancelled,
    /// The session reported an error; here it ends the attempt.
    ErrorEvent(Vec<u8>),
    /// The event stream ended without authenticating.
    Exhausted,
}

/// Transcript and outcome of the connect-with-interface flow.
pub struct UiRun {
    pub output: Vec<Vec<u8>>,
    pub verify_answers: Vec<bool>,
    pub auth_answers: Vec<Vec<Vec<u8>>>,
    pub outcome: Result<(), UiFailure>,
}

/// How the connect-with-interface flow stops, at the specification
/// level.
pub enum UiStop {
    Connected,
    Cancelled,
    Failed(Seq<u8>),
    Exhausted,
}

/// The complete transcript and stop state of the flow, at the
/// specification level: what `ssh_connect_with_ui` must produce.
#[verifier::ext_equal]
pub struct UiRec {
    pub output: Seq<Seq<u8>>,
    pub verify: Seq<bool>,
    pub auth: Seq<Seq<Seq<u8>>>,
    pub stop: UiStop,
}

/// The line the flow opens with.
pub open spec fn connecting_line_spec(host: Seq<u8>) -> Seq<u8> {
    ascii_seq("Connecting to "@) + host + ascii_seq(" using SSH"@)
}

/// The flow from event `i` on, with `vi` host verifications and `ai`
/// authentication rounds already behind.  It mirrors the pane
/// bootstrap except that an error event stops it with that message.
pub open spec fn ui_rec(
    events: Seq<crate::auth::SessionEvent>,
    vlines: Seq<Option<Vec<u8>>>,
    plines: Seq<Vec<Option<Vec<u8>>>>,
    i: int,
    vi: int,
    ai: int,
) -> UiRec
    decreases events.len() - i,
{
    if i < 0 || i >= events.len() {
        UiRec { output: seq![], verify: seq![], auth: seq![], stop: UiStop::Exhausted }
    } else {
        match events[i] {
            crate::auth::SessionEvent::Banner(banner) => {
                let rest = ui_rec(events, vlines, plines, i + 1, vi, ai);
                match banner {
                    Some(text) => UiRec { output: seq![text@] + rest.output, ..rest },
                    None => rest,
                }
            },
            crate::auth::SessionEvent::HostVerify(msg) => {
                let rest = ui_rec(events, vlines, plines, i + 1, vi + 1, ai);
                UiRec {
                    output: seq![msg@] + rest.output,
                    verify: seq![crate::auth::verify_line_ok(vlines, vi)] + rest.verify,
                    ..rest
                }
            },
            crate::auth::SessionEvent::Authenticate(req) => {
                let lines = crate::auth::round_lines(plines, ai);
                if crate::auth::round_cancelled(req, lines) {
                    UiRec {
                        output: crate::auth::round_display_spec(req, lines),
                        verify: seq![],
                        auth: seq![],
                        stop: UiStop::Cancelled,
                    }
                } else {
                    let rest = ui_rec(events, vlines, plines, i + 1, vi, ai + 1);
                    UiRec {
                        output: crate::auth::round_display_spec(req, lines) + rest.output,
                        auth: seq![
                            crate::auth::answers_of(lines, req.prompts@.len() as int),
                        ] + rest.auth,
                        ..rest
                    }
                }
            },
            crate::auth::SessionEvent::Error(msg) => UiRec {
                output: seq![],
                verify: seq![],
                auth: seq![],
                stop: UiStop::Failed(msg@),
            },
            crate::auth::SessionEvent::Authenticated => UiRec {
                output: seq![],
                verify: seq![],
                auth: seq![],
                stop: UiStop::Connected,
            },
        }
    }
}

/// The whole flow for a host: the connecting line, then the events.
pub open spec fn ui_whole(
    host: Seq<u8>,
    events: Seq<crate::auth::SessionEvent>,
    vlines: Seq<Option<Vec<u8>>>,
    plines: Seq<Vec<Option<Vec<u8>>>>,
) -> UiRec {
    let rec = ui_rec(events, vlines, plines, 0, 0, 0);
    UiRec { output: seq![connecting_line_spec(host)] + rec.output, ..rec }
}

/// How a partial flow relates to the whole: the transcript so far,
/// followed by the flow from the current position, is the whole.
pub open spec fn ui_continues(
    whole: UiRec,
    out: Seq<Seq<u8>>,
    ver: Seq<bool>,
    auth: Seq<Seq<Seq<u8>>>,
    rest: UiRec,
) -> bool {
    &&& whole.output == out + rest.output
    &&& whole.verify == ver + rest.verify
    &&& whole.auth == auth + rest.auth
    &&& whole.stop == rest.stop
}

/// The connection flow shown through the caller's own interface
/// rather than inside the pane: announce the host, then consume
/// events until `Authenticated`.  It differs from the pane bootstrap
/// in one point: an error event ends the attempt instead of being
/// rendered and skipped.  On success the caller keeps the session;
/// no pty is requested here.
pub fn ssh_connect_with_ui(
    host: &[u8],
    events: &Vec<crate::auth::SessionEvent>,
    verify_lines: &Vec<Option<Vec<u8>>>,
    prompt_lines: &Vec<Vec<Option<Vec<u8>>>>,
) -> (r: UiRun)
    ensures
        r.output@.len() >= 1 && r.output@[0]@ == ascii_seq("Connecting to "@) + host@
            + ascii_seq(" using SSH"@),
        r.outcome is Ok ==> exists|i: int|
            0 <= i < events@.len() && (#[trigger] events@[i]) is Authenticated,
        r.outcome matches Err(e) ==> !(e is Exhausted) || (forall|i: int|
            0 <= i < events@.len() ==> !((#[trigger] events@[i]) is Authenticated)),
        r.outcome matches Err(e) ==> (e is Cancelled || e is ErrorEvent || e is Exhausted),
        r.outcome matches Err(e) ==> (e is Cancelled ==> exists|i: int|
            0 <= i < events@.len() && (#[trigger] events@[i]) is Authenticate),
        r.outcome matches Err(e) ==> (e is ErrorEvent ==> exists|i: int|
            0 <= i < events@.len() && (#[trigger] events@[i]) is Error),
        forall|k: int|
            0 <= k < r.verify_answers@.len() ==> r.verify_answers@[k]
                == #[trigger] crate::auth::verify_line_ok(verify_lines@, k),
        ({
            let track = ui_whole(host@, events@, verify_lines@, prompt_lines@);
            &&& views_of(r.output@) == track.output
            &&& r.verify_answers@ == track.verify
            &&& views2_of(r.auth_answers@) == track.auth
            &&& (track.stop is Connected <==> r.outcome is Ok)
            &&& (track.stop is Cancelled <==> r.outcome == Err::<(), UiFailure>(
                UiFailure::Cancelled,
            ))
            &&& (track.stop is Exhausted <==> r.outcome == Err::<(), UiFailure>(
                UiFailure::Exhausted,
            ))
            &&& (track.stop matches UiStop::Failed(m) ==> (r.outcome matches Err(e) && e
                matches UiFailure::ErrorEvent(v) && v@ == m))
            &&& (r.outcome matches Err(e) ==> (e matches UiFailure::ErrorEvent(v)
                ==> (track.stop matches UiStop::Failed(m) && v@ == m)))
        }),
{
    let ghost whole = ui_whole(host@, events@, verify_lines@, prompt_lines@);
    let mut output: Vec<Vec<u8>> = Vec::new();
    let mut verify_answers: Vec<bool> = Vec::new();
    let mut auth_answers: Vec<Vec<Vec<u8>>> = Vec::new();
    output.push(connecting_line(host));
    proof {
        assert(output@[0]@ == ascii_seq("Connecting to "@) + host@ + ascii_seq(
            " using SSH"@,
        ));
        assert(views_of(output@) =~= seq![connecting_line_spec(host@)]);
        assert(views2_of(auth_answers@) =~= Seq::<Seq<Seq<u8>>>::empty());
        assert(ui_continues(
            whole,
            views_of(output@),
            verify_answers@,
            views2_of(auth_answers@),
            ui_rec(events@, verify_lines@, prompt_lines@, 0, 0, 0),
        )) by {
            let rec0 = ui_rec(events@, verify_lines@, prompt_lines@, 0, 0, 0);
            assert(verify_answers@ + rec0.verify =~= rec0.verify);
            assert(views2_of(auth_answers@) + rec0.auth =~= rec0.auth);
        }
    }
    let mut vi: usize = 0;
    let mut ai: usize = 0;
    let mut i: usize = 0;
    while i < events.len()
        invariant
            0 <= i <= events@.len(),
            vi <= i,
            ai <= i,
            output@.len() >= 1,
            output@[0]@ == ascii_seq("Connecting to "@) + host@ + ascii_seq(" using SSH"@),
            verify_answers@.len() == vi,
            auth_answers@.len() == ai,
            whole == ui_whole(host@, events@, verify_lines@, prompt_lines@),
            ui_continues(
                whole,
                views_of(output@),
                verify_answers@,
                views2_of(auth_answers@),
                ui_rec(events@, verify_lines@, prompt_lines@, i as int, vi as int, ai as int),
            ),
            forall|k: int|
                0 <= k < vi ==> verify_answers@[k] == #[trigger] crate::auth::verify_line_ok(
                    verify_lines@,
                    k,
                ),
            forall|k: int| 0 <= k < i ==> !((#[trigger] events@[k]) is Authenticated),
        decreases events@.len() - i,
    {
        let ghost rest = ui_rec(
            events@,
            verify_lines@,
            prompt_lines@,
            i as int,
            vi as int,
            ai as int,
        );
        let ghost out_pre = views_of(output@);
        let ghost ver_pre = verify_answers@;
        let ghost auth_pre = views2_of(auth_answers@);
        match &events[i] {
            crate::auth::SessionEvent::Banner(banner) => {
                if let Some(b) = banner {
                    output.push(crate::bytes::copy_bytes(b));
                    proof {
                        let next = ui_rec(
                            events@,
                            verify_lines@,
                            prompt_lines@,
                            i + 1,
                            vi as int,
                            ai as int,
                        );
                        assert(rest.output =~= seq![b@] + next.output);
                        assert(views_of(output@) =~= out_pre + seq![b@]);
                        assert(views_of(output@) + next.output =~= out_pre + rest.output);
                    }
                }
            },
            crate::auth::SessionEvent::HostVerify(msg) => {
                output.push(crate::bytes::copy_bytes(msg));
                let ok = if vi < verify_lines.len() {
                    crate::auth::host_verify_answer(&verify_lines[vi])
                } else {
                    let missing: Option<Vec<u8>> = None;
                    crate::auth::host_verify_answer(&missing)
                };
                verify_answers.push(ok);
                proof {
                    let next = ui_rec(
                        events@,
                        verify_lines@,
                        prompt_lines@,
                        i + 1,
                        vi + 1,
                        ai as int,
                    );
                    assert(ok == crate::auth::verify_line_ok(verify_lines@, vi as int));
                    assert(rest.output =~= seq![msg@] + next.output);
                    assert(views_of(output@) =~= out_pre + seq![msg@]);
                    assert(views_of(output@) + next.output =~= out_pre + rest.output);
                    assert(verify_answers@ =~= ver_pre + seq![ok]);
                    assert(verify_answers@ + next.verify =~= ver_pre + rest.verify);
                }
                vi = vi + 1;
            },
            crate::auth::SessionEvent::Authenticate(req) => {
                let ghost lines = crate::auth::round_lines(prompt_lines@, ai as int);
                let round = if ai < prompt_lines.len() {
                    crate::auth::authenticate_round(req, &prompt_lines[ai])
                } else {
                    let missing: Vec<Option<Vec<u8>>> = Vec::new();
                    proof {
                        assert(missing@ =~= lines);
                    }
                    crate::auth::authenticate_round(req, &missing)
                };
                ai = ai + 1;
                let mut d = round.display;
                let ghost display_views = views_of(round.display@);
                output.append(&mut d);
                proof {
                    assert(display_views == crate::auth::round_display_spec(*req, lines));
                    assert(views_of(output@) =~= out_pre + display_views);
                }
                match round.answers {
                    Some(ans) => {
                        proof {
                            let n = req.prompts@.len() as int;
                            assert(!crate::auth::round_cancelled(*req, lines));
                            assert(views_of(ans@) =~= crate::auth::answers_of(lines, n));
                        }
                        auth_answers.push(ans);
                        proof {
                            let next = ui_rec(
                                events@,
                                verify_lines@,
                                prompt_lines@,
                                i + 1,
                                vi as int,
                                ai as int,
                            );
                            assert(rest.output =~= crate::auth::round_display_spec(
                                *req,
                                lines,
                            ) + next.output);
                            assert(views_of(output@) + next.output =~= out_pre
                                + rest.output);
                            assert(views2_of(auth_answers@) =~= auth_pre + seq![
                                crate::auth::answers_of(lines, req.prompts@.len() as int),
                            ]);
                            assert(views2_of(auth_answers@) + next.auth =~= auth_pre
                                + rest.auth);
                        }
                    },
                    None => {
                        proof {
                            assert(events@[i as int] is Authenticate);
                            assert(crate::auth::round_cancelled(*req, lines));
                            assert(whole.output =~= views_of(output@));
                            assert(whole.verify =~= verify_answers@);
                            assert(whole.auth =~= views2_of(auth_answers@));
                        }
                        return UiRun {
                            output,
                            verify_answers,
                            auth_answers,
                            outcome: Err(UiFailure::Cancelled),
                        };
                    },
                }
            },
            crate::auth::SessionEvent::Error(msg) => {
                proof {
                    assert(events@[i as int] is Error);
                    assert(whole.output =~= views_of(output@));
                    assert(whole.verify =~= verify_answers@);
                    assert(whole.auth =~= views2_of(auth_answers@));
                }
                return UiRun {
                    output,
                    verify_answers,
                    auth_answers,
                    outcome: Err(UiFailure::ErrorEvent(crate::bytes::copy_bytes(msg))),
                };
            },
            crate::auth::SessionEvent::Authenticated => {
                proof {
                    assert(events@[i as int] is Authenticated);
                    assert(whole.output =~= views_of(output@));
                    assert(whole.verify =~= verify_answers@);
                    assert(whole.auth =~= views2_of(auth_answers@));
                }
                return UiRun { output, verify_answers, auth_answers, outcome: Ok(()) };
            },
        }
        i = i + 1;
    }
    proof {
        assert(whole.output =~= views_of(output@));
        assert(whole.verify =~= verify_answers@);
        assert(whole.auth =~= views2_of(auth_answers@));
    }
    UiRun { output, verify_answers, auth_answers, outcome: Err(UiFailure::Exhausted) }
}

/// What the pty request after authentication is made with: the
/// configured terminal type, the geometry current at request time —
/// the latched size, so a resize issued during bootstrap is honoured
/// — and the command line and environment built at spawn.
pub struct PtyRequestParams {
    pub term: Vec<u8>,
    pub size: PtySize,
    pub command_line: Option<Vec<u8>>,
    pub env: Vec<EnvVar>,
}

/// Assemble the pty request.  The one decision here is which
/// geometry goes out: the size current at the moment of the request,
/// never the size the spawn started with.
pub fn pty_request_params(
    term: Vec<u8>,
    current_size: PtySize,
    command_line: Option<Vec<u8>>,
    env: Vec<EnvVar>,
) -> (r: PtyRequestParams)
    ensures
        r.term == term,
        r.size == current_size,
        r.command_line == command_line,
        r.env == env,
{
    PtyRequestParams { term, size: current_size, command_line, env }
}

/// The caller-visible handles a bootstrapped pane starts with: the
/// hot-swappable writer, the pty handle holding the hot-swappable
/// reader, and the child handle.
pub struct PaneHandles {
    pub writer: HotSwapWriter,
    pub pty: HotSwapPty,
    pub child: HotSwapChild,
}

/// Wire up the wrapper objects for the first spawn: writer and
/// reader bound to the placeholder transports, the pty handle
/// connecting at the initial geometry, the child still unstarted.
pub fn make_pane_handles(placeholder_writer: u64, placeholder_reader: u64, size: PtySize) -> (r:
    PaneHandles)
    ensures
        r.writer.binding.current == placeholder_writer,
        !r.writer.binding.swapped,
        r.writer.binding.rx is Pending,
        r.pty.reader matches Some(rd) && rd.binding.current == placeholder_reader
            && !rd.binding.swapped && rd.binding.rx is Pending,
        r.pty.state == (PtyAttachment::Connecting { connected: OneShot::Pending, size }),
        r.child.rx is Pending,
        r.child.status is None,
        r.child.exited is None,
{
    let reader = HotSwapReader::new(placeholder_reader);
    PaneHandles {
        writer: HotSwapWriter::new(placeholder_writer),
        pty: HotSwapPty::new(reader, size),
        child: HotSwapChild::new(),
    }
}

/// Publish the four real resources, in the exact handoff order:
/// writer, reader, pty, child — each on its own delivery channel, so
/// the consumers may pick them up in any relative order.  Each flag
/// reports whether that channel was still undelivered.
pub fn publish_handoff(up: &PtyUp, handles: &mut PaneHandles) -> (r: (bool, bool, bool, bool))
    ensures
        final(handles).writer.binding == old(handles).writer.binding.deliver_spec(
            up.writer_token,
        ),
        r.0 == (old(handles).writer.binding.rx is Pending),
        old(handles).pty.reader matches Some(rd) ==> (final(handles).pty.reader == Some(
            HotSwapReader { binding: rd.binding.deliver_spec(up.reader_token) },
        ) && r.1 == (rd.binding.rx is Pending)),
        old(handles).pty.reader is None ==> (final(handles).pty.reader is None && !r.1),
        final(handles).pty.state == old(handles).pty.state.deliver_spec(
            up.pty_token,
            up.size,
        ),
        final(handles).child.rx == old(handles).child.rx.deliver_spec(up.child_token),
        final(handles).child.status == old(handles).child.status,
        final(handles).child.exited == old(handles).child.exited,
        r.3 == (old(handles).child.rx is Pending),
{
    let w = handles.writer.binding.deliver(up.writer_token);
    let rd = handles.pty.deliver_reader(up.reader_token);
    let p = handles.pty.deliver(up.pty_token, up.size);
    let c = handles.child.deliver_child(up.child_token);
    (w, rd, p, c)
}

/// On freshly wired pane handles — all four channels still pending,
/// the reader unclaimed — the handoff reaches every channel: each of
/// the four ends up holding exactly its own resource, ready for its
/// consumer to pick up independently.
pub proof fn lemma_handoff_reaches_every_channel(h: PaneHandles, up: PtyUp)
    requires
        h.writer.binding.rx is Pending,
        h.pty.reader matches Some(rd) && rd.binding.rx is Pending,
        h.pty.state matches PtyAttachment::Connecting { connected, .. } && connected
            is Pending,
        h.child.rx is Pending,
    ensures
        h.writer.binding.deliver_spec(up.writer_token).rx == OneShot::Ready(
            up.writer_token,
        ),
        h.pty.reader matches Some(rd) ==> rd.binding.deliver_spec(up.reader_token).rx
            == OneShot::Ready(up.reader_token),
        h.pty.state.deliver_spec(up.pty_token, up.size) matches PtyAttachment::Connecting {
            connected: OneShot::Ready(p),
            ..
        } && p == (crate::pty::PtyHandle { token: up.pty_token, size: up.size }),
        h.child.rx.deliver_spec(up.child_token) == OneShot::<u64>::Ready(up.child_token),
{
}

} // verus!
