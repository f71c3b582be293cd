//! The orchestrator, the domain façade, the shim and the masking.

use ssh_bridge::auth::{
    authenticate_round, host_verify_answer, plan_prompt, run_events, verify_prompt_text,
    AuthRequest, Delivery, Prompt, PtyUp, SessionEvent,
};
use ssh_bridge::bytes::{bytes_eq, concat_bytes, copy_bytes, decimal_bytes, split_prompt};
use ssh_bridge::domain::{
    config_hostname, env_with_pane_id, make_pane_handles, publish_handoff, ssh_connect_with_ui,
    DomainState, EnvVar, RemoteSshDomain, UiFailure,
};
use ssh_bridge::errors::BridgeError;
use ssh_bridge::geometry::PtySize;
use ssh_bridge::mask::{display_width, highlight_line, highlight_line_checked};
use ssh_bridge::shim::{
    alternate_screen_unsupported, output_line_bytes, raw_mode_bytes, resize_check,
    sanitize_utf8, set_screen_size_unsupported, ShimInput,
};
use termwiz::input::{InputEvent, KeyCode, KeyEvent, Modifiers};

fn size(rows: u16, cols: u16) -> PtySize {
    PtySize { rows, cols, pixel_width: 0, pixel_height: 0 }
}

fn b(s: &str) -> Vec<u8> {
    s.as_bytes().to_vec()
}

#[test]
fn host_verify_accepts_exactly_the_four_affirmatives() {
    for yes in ["y", "Y", "yes", "YES"] {
        assert!(host_verify_answer(&Some(b(yes))), "{yes} must be affirmative");
    }
    for no in ["n", "N", "no", "NO", "Yes", "yEs", "YE", "y ", "", "true"] {
        assert!(!host_verify_answer(&Some(b(no))), "{no} must be a refusal");
    }
    assert!(!host_verify_answer(&None), "no input is a refusal");
}

#[test]
fn verify_prompt_is_the_yes_no_question() {
    assert_eq!(verify_prompt_text(), b("Enter [y/n]> "));
}

#[test]
fn prompt_text_splits_into_display_and_editor_prompt() {
    let (head, last) = split_prompt(b"Password:");
    assert!(head.is_empty());
    assert_eq!(last, b("Password:"));

    let (head, last) = split_prompt(b"line one\nline two\nAnswer:");
    assert_eq!(head, vec![b("line one"), b("line two")]);
    assert_eq!(last, b("Answer:"));

    let (head, last) = split_prompt(b"");
    assert!(head.is_empty());
    assert!(last.is_empty());

    let (head, last) = split_prompt(b"trailing\n");
    assert_eq!(head, vec![b("trailing")]);
    assert!(last.is_empty());
}

#[test]
fn plan_prompt_keeps_echo_and_splits() {
    let plan = plan_prompt(&Prompt { text: b("Token\ncode:"), echo: true });
    assert_eq!(plan.display, vec![b("Token")]);
    assert_eq!(plan.prompt, b("code:"));
    assert!(plan.echo);
}

#[test]
fn cancelled_round_aborts_without_partial_answers() {
    let req = AuthRequest {
        username: b(""),
        instructions: b(""),
        prompts: vec![
            Prompt { text: b("User:"), echo: true },
            Prompt { text: b("Password:"), echo: false },
        ],
    };
    let round = authenticate_round(&req, &vec![Some(b("me")), None]);
    assert!(round.answers.is_none(), "a cancelled prompt aborts the round");
    // The second prompt's display was reached, nothing after it.
    assert_eq!(round.display, Vec::<Vec<u8>>::new());
}

#[test]
fn cancelled_round_never_sends_an_answer_set() {
    let req = AuthRequest {
        username: b(""),
        instructions: b(""),
        prompts: vec![Prompt { text: b("Password:"), echo: false }],
    };
    let events = vec![SessionEvent::Authenticate(req)];
    let run = run_events(&events, &vec![], &vec![vec![None]], &Err(b("unused")));
    assert_eq!(run.outcome, Err(BridgeError::AuthenticationCancelled));
    assert!(run.auth_answers.is_empty(), "the answer send must never happen");
    assert!(run.deliveries.is_empty());
}

#[test]
fn full_round_announces_and_collects() {
    let req = AuthRequest {
        username: b("me"),
        instructions: b("be careful"),
        prompts: vec![Prompt { text: b("intro\nPassword:"), echo: false }],
    };
    let round = authenticate_round(&req, &vec![Some(b("secret"))]);
    assert_eq!(
        round.display,
        vec![b("Authentication for me"), b("be careful"), b("intro")]
    );
    assert_eq!(round.answers, Some(vec![b("secret")]));
}

#[test]
fn bootstrap_delivers_in_order_writer_reader_pty_child() {
    let events = vec![
        SessionEvent::Banner(Some(b("hi"))),
        SessionEvent::HostVerify(b("fingerprint?")),
        SessionEvent::Authenticate(AuthRequest {
            username: b(""),
            instructions: b(""),
            prompts: vec![Prompt { text: b("Password:"), echo: false }],
        }),
        SessionEvent::Authenticated,
    ];
    let up = PtyUp {
        pty_token: 30,
        size: size(24, 80),
        writer_token: 10,
        reader_token: 20,
        child_token: 40,
    };
    let run = run_events(
        &events,
        &vec![Some(b("y"))],
        &vec![vec![Some(b("secret"))]],
        &Ok(up),
    );
    assert_eq!(run.outcome, Ok(true));
    assert_eq!(run.verify_answers, vec![true]);
    assert_eq!(run.auth_answers, vec![vec![b("secret")]]);
    assert_eq!(run.output, vec![b("hi"), b("fingerprint?")]);
    assert_eq!(
        run.deliveries,
        vec![
            Delivery::Writer(10),
            Delivery::Reader(20),
            Delivery::Pty(30, size(24, 80)),
            Delivery::Child(40),
        ],
        "handoff must publish in the exact order writer, reader, pty, child"
    );

    // Feed the four publications to the wrapper objects: each channel
    // receives exactly one value.
    let mut handles = make_pane_handles(1, 2, size(24, 80));
    let up = PtyUp {
        pty_token: 30,
        size: size(24, 80),
        writer_token: 10,
        reader_token: 20,
        child_token: 40,
    };
    let (dw, dr, dp, dc) = publish_handoff(&up, &mut handles);
    assert!(dw && dr && dp && dc, "all four channels were undelivered");
    let (dw, dr, dp, dc) = publish_handoff(&up, &mut handles);
    assert!(!dw && !dr && !dp && !dc, "no channel accepts a second delivery");

    assert_eq!(handles.writer.write_target(), 10);
    assert_eq!(handles.pty.get_size(), size(24, 80));
    let mut taken = handles.pty.try_clone_reader().unwrap();
    assert_eq!(taken.read_recover(), Some(20));
    let poll = handles.child.try_wait();
    assert_eq!(poll.start_wait, Some(40));
}

#[test]
fn pty_request_failure_renders_and_delivers_nothing() {
    let events = vec![SessionEvent::Authenticated];
    let run = run_events(&events, &vec![], &vec![], &Err(b("boom")));
    assert_eq!(run.outcome, Ok(false));
    assert!(run.deliveries.is_empty());
    assert_eq!(run.output, vec![b("Failed to spawn command: boom")]);
}

#[test]
fn stream_end_without_authenticated_is_exhaustion() {
    let events = vec![
        SessionEvent::Banner(None),
        SessionEvent::Error(b("kex failed")),
    ];
    let run = run_events(&events, &vec![], &vec![], &Err(b("unused")));
    assert_eq!(run.outcome, Err(BridgeError::AuthenticationExhausted));
    assert_eq!(run.output, vec![b("Error: kex failed")]);
    assert!(run.deliveries.is_empty());
}

#[test]
fn refused_host_verification_still_sends_false() {
    let events = vec![SessionEvent::HostVerify(b("key?"))];
    let run = run_events(&events, &vec![Some(b("nope"))], &vec![], &Err(b("unused")));
    assert_eq!(run.verify_answers, vec![false]);
    assert_eq!(run.outcome, Err(BridgeError::AuthenticationExhausted));
}

#[test]
fn connect_with_ui_succeeds_and_announces_host() {
    let events = vec![
        SessionEvent::Banner(Some(b("welcome"))),
        SessionEvent::Authenticated,
    ];
    let run = ssh_connect_with_ui(b"example.com", &events, &vec![], &vec![]);
    assert!(run.outcome.is_ok());
    assert_eq!(
        run.output,
        vec![b("Connecting to example.com using SSH"), b("welcome")]
    );
}

#[test]
fn connect_with_ui_treats_error_event_as_fatal() {
    let events = vec![
        SessionEvent::Error(b("no auth methods")),
        SessionEvent::Authenticated,
    ];
    let run = ssh_connect_with_ui(b"example.com", &events, &vec![], &vec![]);
    match run.outcome {
        Err(UiFailure::ErrorEvent(msg)) => assert_eq!(msg, b("no auth methods")),
        _ => panic!("an error event must end the attempt"),
    }
}

#[test]
fn connect_with_ui_exhausts_without_authenticated() {
    let events = vec![SessionEvent::Banner(None)];
    let run = ssh_connect_with_ui(b"h", &events, &vec![], &vec![]);
    assert!(matches!(run.outcome, Err(UiFailure::Exhausted)));
}

#[test]
fn masked_line_is_one_glyph_per_column_and_scaled_cursor() {
    let line = "secret12";
    let columns = display_width(line);
    assert_eq!(columns, 8);
    let glyph_width = display_width("🔑");
    assert_eq!(glyph_width, 2, "the key glyph occupies two cells");
    let h = highlight_line(line, 8, false);
    assert_eq!(h.elements.len(), columns);
    for e in &h.elements {
        assert_eq!(e.as_str(), "🔑");
    }
    assert_eq!(h.cursor, glyph_width * 8);

    let part = highlight_line(line, 3, false);
    assert_eq!(part.cursor, glyph_width * 3);
}

#[test]
fn echoed_line_passes_through() {
    let h = highlight_line("hello", 4, true);
    assert_eq!(h.elements, vec!["hello".to_string()]);
    assert_eq!(h.cursor, 4);
    let checked = highlight_line_checked("hello", 4, true).unwrap();
    assert_eq!(checked.elements, vec!["hello".to_string()]);
}

#[test]
fn empty_masked_line_has_no_glyphs() {
    let h = highlight_line("", 0, false);
    assert!(h.elements.is_empty());
    assert_eq!(h.cursor, 0);
}

#[test]
fn output_line_encodes_line_feeds() {
    assert_eq!(output_line_bytes(b"hi"), b("hi\r\n"));
    assert_eq!(output_line_bytes(b"a\nb"), b("a\r\nb\r\n"));
    assert_eq!(output_line_bytes(b""), b("\r\n"));
}

#[test]
fn raw_mode_emits_bracketed_paste() {
    assert_eq!(raw_mode_bytes(), b("\u{1b}[?2004h"));
}

#[test]
fn unsupported_shim_operations_fail_explicitly() {
    assert_eq!(alternate_screen_unsupported().unwrap_err(), BridgeError::NoAltScreen);
    assert_eq!(
        set_screen_size_unsupported().unwrap_err(),
        BridgeError::CannotSetScreenSize
    );
}

#[test]
fn resize_surfaces_only_on_change() {
    assert_eq!(resize_check(size(24, 80), size(24, 80)), None);
    assert_eq!(resize_check(size(24, 80), size(50, 132)), Some((132, 50)));
}

#[test]
fn shim_input_parses_bytes_into_queued_events() {
    let mut input = ShimInput::new();
    assert!(input.next_queued().is_none());
    let first = input.on_readable(b"ab", false);
    match first {
        Some(InputEvent::Key(KeyEvent { key: KeyCode::Char('a'), modifiers })) => {
            assert_eq!(modifiers, Modifiers::NONE);
        }
        other => panic!("expected the key event for 'a', got {:?}", other),
    }
    match input.next_queued() {
        Some(InputEvent::Key(KeyEvent { key: KeyCode::Char('b'), .. })) => {}
        other => panic!("expected the queued key event for 'b', got {:?}", other),
    }
    assert!(input.next_queued().is_none());
}

#[test]
fn shim_input_buffers_partial_escape_sequences() {
    let mut input = ShimInput::new();
    let first = input.on_readable(b"\x1b", true);
    assert!(first.is_none(), "a partial escape sequence must be buffered");
    let second = input.on_readable(b"[A", false);
    match second {
        Some(InputEvent::Key(KeyEvent { key: KeyCode::UpArrow, .. })) => {}
        other => panic!("expected the arrow key event, got {:?}", other),
    }
}

#[test]
fn sanitizer_passes_valid_text_and_replaces_garbage() {
    let (clean, rest) = sanitize_utf8("h\u{e9}llo \u{1f511}".as_bytes());
    assert_eq!(clean, "h\u{e9}llo \u{1f511}".as_bytes().to_vec());
    assert!(rest.is_empty());

    let (clean, rest) = sanitize_utf8(&[b'a', 0xff, b'b']);
    assert_eq!(clean, "a\u{fffd}b".as_bytes().to_vec());
    assert!(rest.is_empty());

    // Overlong encodings and surrogates are ill-formed, byte by byte.
    let (clean, _) = sanitize_utf8(&[0xc0, 0x80]);
    assert_eq!(clean, "\u{fffd}\u{fffd}".as_bytes().to_vec());
    let (clean, _) = sanitize_utf8(&[0xed, 0xa0, 0x80]);
    assert_eq!(clean, "\u{fffd}\u{fffd}\u{fffd}".as_bytes().to_vec());
}

#[test]
fn sanitizer_withholds_a_scalar_split_across_reads() {
    let (clean, rest) = sanitize_utf8(&[b'a', 0xf0, 0x9f, 0x94]);
    assert_eq!(clean, b"a".to_vec());
    assert_eq!(rest, vec![0xf0, 0x9f, 0x94]);
}

#[test]
fn shim_input_completes_scalars_across_reads() {
    let mut input = ShimInput::new();
    assert!(input.on_readable(&[0xf0, 0x9f, 0x94], true).is_none());
    match input.on_readable(&[0x91], false) {
        Some(InputEvent::Key(KeyEvent { key: KeyCode::Char(c), .. })) => {
            assert_eq!(c, '\u{1f511}');
        }
        other => panic!("expected the key glyph, got {:?}", other),
    }
}

#[test]
fn shim_input_survives_ill_formed_paste() {
    let mut input = ShimInput::new();
    let mut bytes: Vec<u8> = Vec::new();
    bytes.extend_from_slice(b"\x1b[200~");
    bytes.push(0xff);
    bytes.extend_from_slice(b"\x1b[201~");
    match input.on_readable(&bytes, false) {
        Some(InputEvent::Paste(s)) => assert_eq!(s, "\u{fffd}"),
        other => panic!("expected a paste event, got {:?}", other),
    }
}

#[test]
fn domain_bootstraps_exactly_once() {
    let mut domain = RemoteSshDomain::with_ssh_config("host", 3);
    assert_eq!(domain.domain_id(), 3);
    assert_eq!(domain.domain_name(), "SSH to host");
    assert!(domain.take_events(), "the first spawn claims the event stream");
    assert!(!domain.take_events(), "every later spawn goes direct");
    assert!(domain.attach().is_ok());
    assert_eq!(domain.detach().unwrap_err(), BridgeError::DetachUnsupported);
    assert_eq!(domain.state(), DomainState::Attached);
}

#[test]
fn pane_id_is_injected_into_the_environment() {
    let mut env = vec![EnvVar { key: b("TERM"), value: b("xterm") }];
    env_with_pane_id(&mut env, 17);
    assert_eq!(env.len(), 2);
    assert_eq!(env[1].key, b("WEZTERM_PANE"));
    assert_eq!(env[1].value, b("17"));

    // A second injection replaces, never duplicates.
    env_with_pane_id(&mut env, 18);
    assert_eq!(env.len(), 2);
    assert_eq!(env[1].value, b("18"));
    assert_eq!(env[0].key, b("TERM"));
}

#[test]
fn decimal_rendering_matches() {
    assert_eq!(decimal_bytes(0), b("0"));
    assert_eq!(decimal_bytes(9), b("9"));
    assert_eq!(decimal_bytes(1234567890), b("1234567890"));
    assert_eq!(decimal_bytes(u64::MAX), b("18446744073709551615"));
}

#[test]
fn hostname_is_looked_up_in_the_configuration() {
    let cfg = vec![
        EnvVar { key: b("user"), value: b("me") },
        EnvVar { key: b("hostname"), value: b("example.com") },
    ];
    assert_eq!(config_hostname(&cfg), Some(b("example.com")));
    assert_eq!(config_hostname(&vec![]), None);
}

#[test]
fn byte_helpers_behave() {
    assert!(bytes_eq(b"abc", b"abc"));
    assert!(!bytes_eq(b"abc", b"abd"));
    assert!(!bytes_eq(b"abc", b"ab"));
    assert_eq!(concat_bytes(b"ab", b"cd"), b("abcd"));
    assert_eq!(copy_bytes(&b("xy")), b("xy"));
}
