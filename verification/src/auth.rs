//! The session bootstrap orchestrator: the authentication event loop
//! that consumes protocol events, drives the line editor for the
//! interactive ones, and on success publishes the real resources
//! through the four delivery channels — in the order writer, reader,
//! pty, child.
//!
//! The protocol transport and the line editor are external
//! collaborators: events and the lines the editor returned come in as
//! values, and everything decided from them is verified.

use vstd::prelude::*;
use crate::bytes::{ascii_seq, ascii_bytes, concat_bytes, copy_bytes, split_lines, split_prompt, views_of, views2_of};
use crate::errors::BridgeError;
use crate::geometry::PtySize;

verus! {

/// One question of an authentication round; `echo: false` input must
/// be display-masked.
pub struct Prompt {
    pub text: Vec<u8>,
    pub echo: bool,
}

/// An authentication round: credentials are asked through `prompts`.
pub struct AuthRequest {
    pub username: Vec<u8>,
    pub instructions: Vec<u8>,
    pub prompts: Vec<Prompt>,
}

/// The protocol events the session emits, consumed in emission order.
pub enum SessionEvent {
    /// A banner to show, when present.
    Banner(Option<Vec<u8>>),
    /// The host key must be verified; carries the message to show.
    HostVerify(Vec<u8>),
    /// Credentials are requested.
    Authenticate(AuthRequest),
    /// A protocol-level error to show; does not end the loop.
    Error(Vec<u8>),
    /// Authentication succeeded; the real pty can be requested.
    Authenticated,
}

/// Whether a host-verification reply counts as affirmative: exactly
/// the inputs y, Y, yes and YES do.
pub open spec fn affirmative(line: Seq<u8>) -> bool {
    ||| line == seq![121u8]
    ||| line == seq![89u8]
    ||| line == seq![121u8, 101u8, 115u8]
    ||| line == seq![89u8, 69u8, 83u8]
}

/// Interpret the line-editor result of a host-verification prompt.
/// Anything but an affirmative answer — any other text, or no input
/// at all — counts as a refusal.
pub fn host_verify_answer(line: &Option<Vec<u8>>) -> (r: bool)
    ensures
        r == (line matches Some(l) && affirmative(l@)),
{
    match line {
        None => false,
        Some(l) => {
            if l.len() == 1 {
                let c = l[0];
                proof {
                    if c == 121u8 {
                        assert(l@ =~= seq![121u8]);
                    }
                    if c == 89u8 {
                        assert(l@ =~= seq![89u8]);
                    }
                }
                c == 121u8 || c == 89u8
            } else if l.len() == 3 {
                let lower = l[0] == 121u8 && l[1] == 101u8 && l[2] == 115u8;
                let upper = l[0] == 89u8 && l[1] == 69u8 && l[2] == 83u8;
                proof {
                    if lower {
                        assert(l@ =~= seq![121u8, 101u8, 115u8]);
                    }
                    if upper {
                        assert(l@ =~= seq![89u8, 69u8, 83u8]);
                    }
                }
                lower || upper
            } else {
                false
            }
        },
    }
}

/// The prompt text the host-verification question is asked with.
pub fn verify_prompt_text() -> (r: Vec<u8>)
    ensures
        r@ == ascii_seq("Enter [y/n]> "@),
{
    proof {
        reveal_strlit("Enter [y/n]> ");
    }
    ascii_bytes("Enter [y/n]> ")
}

/// One run of the line editor: the lines rendered as plain output
/// first, then the prompt text the editor shows, and whether the
/// typed input is echoed.
pub struct EditorRun {
    pub display: Vec<Vec<u8>>,
    pub prompt: Vec<u8>,
    pub echo: bool,
}

/// Plan one credential prompt: its text is split at line breaks, all
/// but the last line become plain output, the last line becomes the
/// editor prompt; input is echoed only when the prompt says so.
pub fn plan_prompt(p: &Prompt) -> (r: EditorRun)
    ensures
        r.display@.map_values(|v: Vec<u8>| v@) == split_lines(p.text@).drop_last(),
        r.prompt@ == split_lines(p.text@).last(),
        r.echo == p.echo,
{
    let (display, prompt) = split_prompt(p.text.as_slice());
    EditorRun { display, prompt, echo: p.echo }
}

/// The lines announced before an authentication round: the username
/// line when a username is present, then the instructions when
/// present.
pub fn auth_preamble(req: &AuthRequest) -> (r: Vec<Vec<u8>>)
    ensures
        r@.map_values(|v: Vec<u8>| v@) == auth_preamble_spec(req.username@, req.instructions@),
{
    let mut out: Vec<Vec<u8>> = Vec::new();
    if req.username.len() != 0 {
        proof {
            reveal_strlit("Authentication for ");
        }
        let prefix = ascii_bytes("Authentication for ");
        out.push(concat_bytes(prefix.as_slice(), req.username.as_slice()));
    }
    if req.instructions.len() != 0 {
        let mut line: Vec<u8> = Vec::new();
        line.extend_from_slice(req.instructions.as_slice());
        proof {
            assert(line@ =~= req.instructions@);
        }
        out.push(line);
    }
    proof {
        assert(out@.map_values(|v: Vec<u8>| v@) =~~= auth_preamble_spec(
            req.username@,
            req.instructions@,
        ));
    }
    out
}

/// What `auth_preamble` renders.
pub open spec fn auth_preamble_spec(username: Seq<u8>, instructions: Seq<u8>) -> Seq<Seq<u8>> {
    let with_user: Seq<Seq<u8>> = if username.len() != 0 {
        seq![ascii_seq("Authentication for "@) + username]
    } else {
        seq![]
    };
    if instructions.len() != 0 {
        with_user.push(instructions)
    } else {
        with_user
    }
}

/// Whether the `k`-th host verification was answered affirmatively:
/// an editor line exists for it and is one of the affirmative words.
pub open spec fn verify_line_ok(lines: Seq<Option<Vec<u8>>>, k: int) -> bool {
    &&& 0 <= k < lines.len()
    &&& lines[k] matches Some(l) && affirmative(l@)
}

/// Whether a sent answer set is exactly what the line editor
/// produced: one answer per prompt, each the line entered for it.
pub open spec fn answers_match(lines: Seq<Option<Vec<u8>>>, ans: Seq<Vec<u8>>) -> bool {
    forall|j: int|
        0 <= j < ans.len() ==> {
            &&& j < lines.len()
            &&& #[trigger] lines[j] matches Some(l) && l@ == ans[j]@
        }
}

/// Whether the line editor produced an answer for prompt `j`.
pub open spec fn answered(lines: Seq<Option<Vec<u8>>>, j: int) -> bool {
    0 <= j < lines.len() && lines[j] is Some
}

/// The first of the `n` prompts that got no answer, or `n` when all
/// were answered.
pub open spec fn first_unanswered(lines: Seq<Option<Vec<u8>>>, n: int) -> int
    decreases n,
{
    if n <= 0 {
        0
    } else if first_unanswered(lines, n - 1) < n - 1 {
        first_unanswered(lines, n - 1)
    } else if answered(lines, n - 1) {
        n
    } else {
        n - 1
    }
}

pub proof fn lemma_first_unanswered_at(lines: Seq<Option<Vec<u8>>>, n: int, j: int)
    requires
        0 <= j <= n,
        forall|k: int| 0 <= k < j ==> answered(lines, k),
        j < n ==> !answered(lines, j),
    ensures
        first_unanswered(lines, n) == j,
    decreases n,
{
    if n > 0 {
        if j == n {
            lemma_first_unanswered_at(lines, n - 1, n - 1);
        } else if j == n - 1 {
            lemma_first_unanswered_at(lines, n - 1, n - 1);
        } else {
            lemma_first_unanswered_at(lines, n - 1, j);
        }
    }
}

/// The plain-output lines of the first `n` credential prompts: for
/// each, every line of its text but the last.
pub open spec fn displays_upto(prompts: Seq<Prompt>, n: int) -> Seq<Seq<u8>>
    decreases n,
{
    if n <= 0 {
        seq![]
    } else {
        displays_upto(prompts, n - 1) + split_lines(prompts[n - 1].text@).drop_last()
    }
}

/// Transcript of one authentication round: the lines rendered, and
/// the collected answers — `None` when the round was cancelled.
pub struct AuthRound {
    pub display: Vec<Vec<u8>>,
    pub answers: Option<Vec<Vec<u8>>>,
}

/// Run one authentication round against what the line editor
/// returned, prompt by prompt: announce username and instructions,
/// render each prompt's leading lines, and collect one answer per
/// prompt.  The first prompt with no answer cancels the whole round:
/// no partial answer set is ever produced, and later prompts are not
/// reached.
pub fn authenticate_round(req: &AuthRequest, lines: &Vec<Option<Vec<u8>>>) -> (r: AuthRound)
    ensures
        (r.answers is Some) == (first_unanswered(lines@, req.prompts@.len() as int)
            == req.prompts@.len()),
        views_of(r.display@) == auth_preamble_spec(req.username@, req.instructions@)
            + displays_upto(
            req.prompts@,
            if first_unanswered(lines@, req.prompts@.len() as int) == req.prompts@.len() {
                req.prompts@.len() as int
            } else {
                first_unanswered(lines@, req.prompts@.len() as int) + 1
            },
        ),
        r.answers matches Some(ans) ==> (ans@.len() == req.prompts@.len() && forall|i: int|
            0 <= i < req.prompts@.len() ==> (#[trigger] lines@[i] matches Some(l) && l@
                == ans@[i]@)),
{
    let ghost n = req.prompts@.len() as int;
    let mut display = auth_preamble(req);
    let mut answers: Vec<Vec<u8>> = Vec::new();
    let mut j: usize = 0;
    proof {
        assert(views_of(display@) =~= auth_preamble_spec(req.username@, req.instructions@)
            + displays_upto(req.prompts@, 0));
    }
    while j < req.prompts.len()
        invariant
            0 <= j <= n,
            n == req.prompts@.len(),
            answers@.len() == j,
            forall|k: int| 0 <= k < j ==> answered(lines@, k),
            forall|k: int| 0 <= k < j ==> (#[trigger] lines@[k] matches Some(l) && l@
                == answers@[k]@),
            views_of(display@) == auth_preamble_spec(req.username@, req.instructions@)
                + displays_upto(req.prompts@, j as int),
        decreases n - j,
    {
        let plan = plan_prompt(&req.prompts[j]);
        let ghost display_pre = display@;
        let mut d = plan.display;
        display.append(&mut d);
        proof {
            assert(views_of(display@) =~= views_of(display_pre) + views_of(
                plan.display@,
            ));
            assert(views_of(display@) =~= auth_preamble_spec(
                req.username@,
                req.instructions@,
            ) + displays_upto(req.prompts@, j + 1));
        }
        let cancelled = if j >= lines.len() {
            true
        } else {
            match &lines[j] {
                Some(l) => {
                    answers.push(copy_bytes(l));
                    false
                },
                None => true,
            }
        };
        if cancelled {
            proof {
                lemma_first_unanswered_at(lines@, n, j as int);
            }
            return AuthRound { display, answers: None };
        }
        j = j + 1;
    }
    proof {
        lemma_first_unanswered_at(lines@, n, n);
    }
    AuthRound { display, answers: Some(answers) }
}

/// Everything a successful pty request hands over: opaque tokens for
/// the real pty, its reader, its writer and the child, and the size
/// the pty was created with.
pub struct PtyUp {
    pub pty_token: u64,
    pub size: PtySize,
    pub writer_token: u64,
    pub reader_token: u64,
    pub child_token: u64,
}

/// One publication through a delivery channel at handoff.
#[derive(Clone, Copy, PartialEq, Eq, Structural, Debug)]
pub enum Delivery {
    Writer(u64),
    Reader(u64),
    Pty(u64, PtySize),
    Child(u64),
}

/// The exact handoff order: writer, reader, pty, child.
pub open spec fn handoff_order(up: PtyUp) -> Seq<Delivery> {
    seq![
        Delivery::Writer(up.writer_token),
        Delivery::Reader(up.reader_token),
        Delivery::Pty(up.pty_token, up.size),
        Delivery::Child(up.child_token),
    ]
}

/// The answer the editor produced for prompt `j` (empty when none;
/// only asked about rounds where every prompt was answered).
pub open spec fn line_answer(lines: Seq<Option<Vec<u8>>>, j: int) -> Seq<u8> {
    if 0 <= j < lines.len() {
        match lines[j] {
            Some(l) => l@,
            None => Seq::empty(),
        }
    } else {
        Seq::empty()
    }
}

/// The complete answer set of a fully answered round of `n` prompts.
pub open spec fn answers_of(lines: Seq<Option<Vec<u8>>>, n: int) -> Seq<Seq<u8>> {
    Seq::new(n as nat, |j: int| line_answer(lines, j))
}

/// The editor lines available for the `ai`-th authentication round;
/// a round the driver has no lines for is wholly unanswered.
pub open spec fn round_lines(plines: Seq<Vec<Option<Vec<u8>>>>, ai: int) -> Seq<
    Option<Vec<u8>>,
> {
    if 0 <= ai < plines.len() {
        plines[ai]@
    } else {
        Seq::empty()
    }
}

/// Whether a round is cancelled: some prompt got no answer.
pub open spec fn round_cancelled(req: AuthRequest, lines: Seq<Option<Vec<u8>>>) -> bool {
    first_unanswered(lines, req.prompts@.len() as int) != req.prompts@.len()
}

/// Everything a round renders: the username and instructions
/// announcements, then each reached prompt's leading lines.
pub open spec fn round_display_spec(req: AuthRequest, lines: Seq<Option<Vec<u8>>>) -> Seq<
    Seq<u8>,
> {
    let n = req.prompts@.len() as int;
    let f = first_unanswered(lines, n);
    auth_preamble_spec(req.username@, req.instructions@) + displays_upto(
        req.prompts@,
        if f == n {
            n
        } else {
            f + 1
        },
    )
}

/// The complete transcript and outcome of a bootstrap run, at the
/// specification level: what `run_events` must produce.
#[verifier::ext_equal]
pub struct RunRec {
    pub output: Seq<Seq<u8>>,
    pub verify: Seq<bool>,
    pub auth: Seq<Seq<Seq<u8>>>,
    pub deliveries: Seq<Delivery>,
    pub outcome: Result<bool, BridgeError>,
}

/// The run from event `i` on, with `vi` host verifications and `ai`
/// authentication rounds already behind: each event contributes its
/// rendered lines and answers until `Authenticated`, a cancelled
/// round, or the end of the stream.
pub open spec fn run_rec(
    events: Seq<SessionEvent>,
    vlines: Seq<Option<Vec<u8>>>,
    plines: Seq<Vec<Option<Vec<u8>>>>,
    pty: Result<PtyUp, Vec<u8>>,
    i: int,
    vi: int,
    ai: int,
) -> RunRec
    decreases events.len() - i,
{
    if i < 0 || i >= events.len() {
        RunRec {
            output: seq![],
            verify: seq![],
            auth: seq![],
            deliveries: seq![],
            outcome: Err(BridgeError::AuthenticationExhausted),
        }
    } else {
        match events[i] {
            SessionEvent::Banner(banner) => {
                let rest = run_rec(events, vlines, plines, pty, i + 1, vi, ai);
                match banner {
                    Some(text) => RunRec { output: seq![text@] + rest.output, ..rest },
                    None => rest,
                }
            },
            SessionEvent::HostVerify(msg) => {
                let rest = run_rec(events, vlines, plines, pty, i + 1, vi + 1, ai);
                RunRec {
                    output: seq![msg@] + rest.output,
                    verify: seq![verify_line_ok(vlines, vi)] + rest.verify,
                    ..rest
                }
            },
            SessionEvent::Authenticate(req) => {
                let lines = round_lines(plines, ai);
                if round_cancelled(req, lines) {
                    RunRec {
                        output: round_display_spec(req, lines),
                        verify: seq![],
                        auth: seq![],
                        deliveries: seq![],
                        outcome: Err(BridgeError::AuthenticationCancelled),
                    }
                } else {
                    let rest = run_rec(events, vlines, plines, pty, i + 1, vi, ai + 1);
                    RunRec {
                        output: round_display_spec(req, lines) + rest.output,
                        auth: seq![answers_of(lines, req.prompts@.len() as int)]
                            + rest.auth,
                        ..rest
                    }
                }
            },
            SessionEvent::Error(msg) => {
                let rest = run_rec(events, vlines, plines, pty, i + 1, vi, ai);
                RunRec { output: seq![ascii_seq("Error: "@) + msg@] + rest.output, ..rest }
            },
            SessionEvent::Authenticated => match pty {
                Ok(up) => RunRec {
                    output: seq![],
                    verify: seq![],
                    auth: seq![],
                    deliveries: handoff_order(up),
                    outcome: Ok(true),
                },
                Err(msg) => RunRec {
                    output: seq![ascii_seq("Failed to spawn command: "@) + msg@],
                    verify: seq![],
                    auth: seq![],
                    deliveries: seq![],
                    outcome: Ok(false),
                },
            },
        }
    }
}

/// How a partial run relates to the whole: the transcript so far,
/// followed by the run from the current position, is the whole run.
pub open spec fn rec_continues(
    whole: RunRec,
    out: Seq<Seq<u8>>,
    ver: Seq<bool>,
    auth: Seq<Seq<Seq<u8>>>,
    rest: RunRec,
) -> bool {
    &&& whole.output == out + rest.output
    &&& whole.verify == ver + rest.verify
    &&& whole.auth == auth + rest.auth
    &&& whole.deliveries == rest.deliveries
    &&& whole.outcome == rest.outcome
}

/// The line rendered for a protocol error event.
pub fn error_line(msg: &[u8]) -> (r: Vec<u8>)
    ensures
        r@ == ascii_seq("Error: "@) + msg@,
{
    proof {
        reveal_strlit("Error: ");
    }
    let prefix = ascii_bytes("Error: ");
    concat_bytes(prefix.as_slice(), msg)
}

/// The line rendered when the pty request fails after authentication.
pub fn spawn_failure_line(msg: &[u8]) -> (r: Vec<u8>)
    ensures
        r@ == ascii_seq("Failed to spawn command: "@) + msg@,
{
    proof {
        reveal_strlit("Failed to spawn command: ");
    }
    let prefix = ascii_bytes("Failed to spawn command: ");
    concat_bytes(prefix.as_slice(), msg)
}

/// Transcript and outcome of one whole bootstrap run.
pub struct BootstrapRun {
    /// Every line rendered into the pane, in order.
    pub output: Vec<Vec<u8>>,
    /// The host-verification answers sent, in order.
    pub verify_answers: Vec<bool>,
    /// The credential answer sets sent, in order; a cancelled round
    /// sends none.
    pub auth_answers: Vec<Vec<Vec<u8>>>,
    /// The handoff publications, in order.
    pub deliveries: Vec<Delivery>,
    /// `Ok(true)`: handoff done.  `Ok(false)`: authenticated but the
    /// pty request failed — nothing is ever delivered and the
    /// placeholder transports stay the caller's only I/O.  `Err`:
    /// cancelled, or the stream ended unauthenticated.
    pub outcome: Result<bool, BridgeError>,
}

/// Drive one authentication attempt over a complete event stream.
/// Events are consumed in order until `Authenticated`, a cancelled
/// round, or the end of the stream; on success the four real
/// resources are published in the exact order writer, reader, pty,
/// child, each on its own channel.
pub fn run_events(
    events: &Vec<SessionEvent>,
    verify_lines: &Vec<Option<Vec<u8>>>,
    prompt_lines: &Vec<Vec<Option<Vec<u8>>>>,
    pty_result: &Result<PtyUp, Vec<u8>>,
) -> (r: BootstrapRun)
    ensures
        r.outcome == Ok::<bool, BridgeError>(true) ==> (pty_result matches Ok(up)
            && r.deliveries@ == handoff_order(*up)),
        r.outcome != Ok::<bool, BridgeError>(true) ==> r.deliveries@ == Seq::<
            Delivery,
        >::empty(),
        r.outcome is Ok ==> exists|i: int|
            0 <= i < events@.len() && (#[trigger] events@[i]) is Authenticated,
        r.outcome == Err::<bool, BridgeError>(BridgeError::AuthenticationExhausted)
            ==> forall|i: int|
            0 <= i < events@.len() ==> !((#[trigger] events@[i]) is Authenticated),
        r.outcome matches Err(e) ==> (e == BridgeError::AuthenticationCancelled || e
            == BridgeError::AuthenticationExhausted),
        r.outcome == Err::<bool, BridgeError>(BridgeError::AuthenticationCancelled)
            ==> exists|i: int|
            0 <= i < events@.len() && (#[trigger] events@[i]) is Authenticate,
        pty_result matches Ok(_) ==> r.outcome != Ok::<bool, BridgeError>(false),
        pty_result matches Err(_) ==> r.outcome != Ok::<bool, BridgeError>(true),
        forall|k: int|
            0 <= k < r.verify_answers@.len() ==> r.verify_answers@[k]
                == #[trigger] verify_line_ok(verify_lines@, k),
        forall|k: int|
            0 <= k < r.auth_answers@.len() && k < prompt_lines@.len()
                ==> answers_match(prompt_lines@[k]@, (#[trigger] r.auth_answers@[k])@),
        forall|k: int|
            0 <= k < r.auth_answers@.len() && k >= prompt_lines@.len() ==> (
            #[trigger] r.auth_answers@[k])@.len() == 0,
        ({
            let track = run_rec(events@, verify_lines@, prompt_lines@, *pty_result, 0, 0, 0);
            &&& views_of(r.output@) == track.output
            &&& r.verify_answers@ == track.verify
            &&& views2_of(r.auth_answers@) == track.auth
            &&& r.deliveries@ == track.deliveries
            &&& r.outcome == track.outcome
        }),
{
    let ghost whole = run_rec(events@, verify_lines@, prompt_lines@, *pty_result, 0, 0, 0);
    let mut output: Vec<Vec<u8>> = Vec::new();
    let mut verify_answers: Vec<bool> = Vec::new();
    let mut auth_answers: Vec<Vec<Vec<u8>>> = Vec::new();
    let mut vi: usize = 0;
    let mut ai: usize = 0;
    let mut i: usize = 0;
    proof {
        assert(views_of(output@) =~= Seq::<Seq<u8>>::empty());
        assert(views2_of(auth_answers@) =~= Seq::<Seq<Seq<u8>>>::empty());
        assert(rec_continues(whole, views_of(output@), verify_answers@, views2_of(auth_answers@), whole)) by {
            assert(views_of(output@) + whole.output =~= whole.output);
            assert(verify_answers@ + whole.verify =~= whole.verify);
            assert(views2_of(auth_answers@) + whole.auth =~= whole.auth);
        }
    }
    while i < events.len()
        invariant
            0 <= i <= events@.len(),
            vi <= i,
            ai <= i,
            verify_answers@.len() == vi,
            auth_answers@.len() == ai,
            whole == run_rec(events@, verify_lines@, prompt_lines@, *pty_result, 0, 0, 0),
            rec_continues(
                whole,
                views_of(output@),
                verify_answers@,
                views2_of(auth_answers@),
                run_rec(
                    events@,
                    verify_lines@,
                    prompt_lines@,
                    *pty_result,
                    i as int,
                    vi as int,
                    ai as int,
                ),
            ),
            forall|k: int|
                0 <= k < vi ==> verify_answers@[k] == #[trigger] verify_line_ok(
                    verify_lines@,
                    k,
                ),
            forall|k: int|
                0 <= k < ai && k < prompt_lines@.len() ==> answers_match(
                    prompt_lines@[k]@,
                    (#[trigger] auth_answers@[k])@,
                ),
            forall|k: int|
                0 <= k < ai && k >= prompt_lines@.len() ==> (
                #[trigger] auth_answers@[k])@.len() == 0,
            forall|k: int| 0 <= k < i ==> !((#[trigger] events@[k]) is Authenticated),
        decreases events@.len() - i,
    {
        let ghost rest = run_rec(
            events@,
            verify_lines@,
            prompt_lines@,
            *pty_result,
            i as int,
            vi as int,
            ai as int,
        );
        let ghost out_pre = views_of(output@);
        let ghost ver_pre = verify_answers@;
        let ghost auth_pre = views2_of(auth_answers@);
        match &events[i] {
            SessionEvent::Banner(banner) => {
                if let Some(b) = banner {
                    output.push(copy_bytes(b));
                    proof {
                        let next = run_rec(
                            events@,
                            verify_lines@,
                            prompt_lines@,
                            *pty_result,
                            i + 1,
                            vi as int,
                            ai as int,
                        );
                        assert(rest.output =~= seq![b@] + next.output);
                        assert(views_of(output@) =~= out_pre + seq![b@]);
                        assert(views_of(output@) + next.output =~= out_pre + rest.output);
                    }
                }
            },
            SessionEvent::HostVerify(msg) => {
                output.push(copy_bytes(msg));
                let ok = if vi < verify_lines.len() {
                    host_verify_answer(&verify_lines[vi])
                } else {
                    let missing: Option<Vec<u8>> = None;
                    host_verify_answer(&missing)
                };
                verify_answers.push(ok);
                proof {
                    let next = run_rec(
                        events@,
                        verify_lines@,
                        prompt_lines@,
                        *pty_result,
                        i + 1,
                        vi + 1,
                        ai as int,
                    );
                    assert(ok == verify_line_ok(verify_lines@, vi as int));
                    assert(rest.output =~= seq![events@[i as int]->HostVerify_0@] + next.output);
                    assert(views_of(output@) =~= out_pre + seq![msg@]);
                    assert(views_of(output@) + next.output =~= out_pre + rest.output);
                    assert(verify_answers@ =~= ver_pre + seq![ok]);
                    assert(verify_answers@ + next.verify =~= ver_pre + rest.verify);
                }
                vi = vi + 1;
            },
            SessionEvent::Authenticate(req) => {
                let ghost lines = round_lines(prompt_lines@, ai as int);
                let round = if ai < prompt_lines.len() {
                    authenticate_round(req, &prompt_lines[ai])
                } else {
                    let missing: Vec<Option<Vec<u8>>> = Vec::new();
                    proof {
                        assert(missing@ =~= lines);
                    }
                    authenticate_round(req, &missing)
                };
                ai = ai + 1;
                let mut d = round.display;
                let ghost display_views = views_of(round.display@);
                output.append(&mut d);
                proof {
                    assert(display_views == round_display_spec(*req, lines));
                    assert(views_of(output@) =~= out_pre + display_views);
                }
                match round.answers {
                    Some(ans) => {
                        proof {
                            let n = req.prompts@.len() as int;
                            assert(!round_cancelled(*req, lines));
                            assert(views_of(ans@) =~= answers_of(lines, n));
                        }
                        auth_answers.push(ans);
                        proof {
                            let next = run_rec(
                                events@,
                                verify_lines@,
                                prompt_lines@,
                                *pty_result,
                                i + 1,
                                vi as int,
                                ai as int,
                            );
                            assert(rest.output =~= round_display_spec(*req, lines)
                                + next.output);
                            assert(views_of(output@) + next.output =~= out_pre
                                + rest.output);
                            assert(views2_of(auth_answers@) =~= auth_pre + seq![
                                answers_of(lines, req.prompts@.len() as int),
                            ]);
                            assert(views2_of(auth_answers@) + next.auth =~= auth_pre
                                + rest.auth);
                        }
                    },
                    None => {
                        proof {
                            assert(events@[i as int] is Authenticate);
                            assert(round_cancelled(*req, lines));
                            assert(whole.output =~= views_of(output@));
                            assert(whole.verify =~= verify_answers@);
                            assert(whole.auth =~= views2_of(auth_answers@));
                            assert(whole.deliveries =~= Seq::<Delivery>::empty());
                        }
                        return BootstrapRun {
                            output,
                            verify_answers,
                            auth_answers,
                            deliveries: Vec::new(),
                            outcome: Err(BridgeError::AuthenticationCancelled),
                        };
                    },
                }
            },
            SessionEvent::Error(msg) => {
                output.push(error_line(msg.as_slice()));
                proof {
                    let next = run_rec(
                        events@,
                        verify_lines@,
                        prompt_lines@,
                        *pty_result,
                        i + 1,
                        vi as int,
                        ai as int,
                    );
                    assert(rest.output =~= seq![ascii_seq("Error: "@) + msg@]
                        + next.output);
                    assert(views_of(output@) =~= out_pre + seq![
                        ascii_seq("Error: "@) + msg@,
                    ]);
                    assert(views_of(output@) + next.output =~= out_pre + rest.output);
                }
            },
            SessionEvent::Authenticated => {
                proof {
                    assert(events@[i as int] is Authenticated);
                }
                match pty_result {
                    Err(msg) => {
                        output.push(spawn_failure_line(msg.as_slice()));
                        proof {
                            assert(whole.output =~= views_of(output@));
                            assert(whole.verify =~= verify_answers@);
                            assert(whole.auth =~= views2_of(auth_answers@));
                            assert(whole.deliveries =~= Seq::<Delivery>::empty());
                        }
                        return BootstrapRun {
                            output,
                            verify_answers,
                            auth_answers,
                            deliveries: Vec::new(),
                            outcome: Ok(false),
                        };
                    },
                    Ok(up) => {
                        let mut deliveries: Vec<Delivery> = Vec::new();
                        deliveries.push(Delivery::Writer(up.writer_token));
                        deliveries.push(Delivery::Reader(up.reader_token));
                        deliveries.push(Delivery::Pty(up.pty_token, up.size));
                        deliveries.push(Delivery::Child(up.child_token));
                        proof {
                            assert(deliveries@ =~= handoff_order(*up));
                            assert(whole.output =~= views_of(output@));
                            assert(whole.verify =~= verify_answers@);
                            assert(whole.auth =~= views2_of(auth_answers@));
                        }
                        return BootstrapRun {
                            output,
                            verify_answers,
                            auth_answers,
                            deliveries,
                            outcome: Ok(true),
                        };
                    },
                }
            },
        }
        i = i + 1;
    }
    proof {
        assert(whole.output =~= views_of(output@));
        assert(whole.verify =~= verify_answers@);
        assert(whole.auth =~= views2_of(auth_answers@));
        assert(whole.deliveries =~= Seq::<Delivery>::empty());
    }
    BootstrapRun {
        output,
        verify_answers,
        auth_answers,
        deliveries: Vec::new(),
        outcome: Err(BridgeError::AuthenticationExhausted),
    }
}

} // verus!
