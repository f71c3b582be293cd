//! The wrapper state machines: delivery channels, hot-swap reader
//! and writer, the pty handle and the child handle.

use ssh_bridge::child::{ExitStatus, HotSwapChild};
use ssh_bridge::errors::BridgeError;
use ssh_bridge::geometry::PtySize;
use ssh_bridge::oneshot::{OneShot, TryRecv};
use ssh_bridge::pty::{HotSwapPty, PtyAttachment};
use ssh_bridge::stream::{HotSwapReader, HotSwapWriter};

fn size(rows: u16, cols: u16) -> PtySize {
    PtySize { rows, cols, pixel_width: 8 * cols, pixel_height: 16 * rows }
}

#[test]
fn oneshot_delivers_exactly_once() {
    let mut ch: OneShot<u32> = OneShot::new();
    assert!(matches!(ch.try_recv(), TryRecv::Empty));
    assert!(ch.deliver(7));
    assert!(!ch.deliver(8), "a second delivery must be refused");
    match ch.try_recv() {
        TryRecv::Got(v) => assert_eq!(v, 7),
        _ => panic!("the delivered value must be received"),
    }
    assert!(matches!(ch.try_recv(), TryRecv::Disconnected));
    assert!(matches!(ch.try_recv(), TryRecv::Disconnected));
}

#[test]
fn oneshot_closed_never_delivers() {
    let mut ch: OneShot<u32> = OneShot::new();
    ch.close();
    assert!(matches!(ch.try_recv(), TryRecv::Disconnected));
    assert!(!ch.deliver(1), "delivery after close must be refused");
    assert_eq!(ch.recv(), None);
}

#[test]
fn writer_switches_before_first_write_after_handoff() {
    let mut w = HotSwapWriter::new(10);
    assert_eq!(w.write_target(), 10);
    assert_eq!(w.write_target(), 10);
    assert!(w.binding.deliver(42));
    assert_eq!(w.write_target(), 42);
    assert_eq!(w.write_target(), 42, "once real, never the placeholder again");
    // The channel is spent: a failed flush now keeps the original error.
    assert_eq!(w.flush_recover(), None);
    assert_eq!(w.write_target(), 42);
}

#[test]
fn writer_flush_recovers_through_blocking_receive() {
    let mut w = HotSwapWriter::new(10);
    assert!(w.binding.deliver(42));
    assert_eq!(w.flush_recover(), Some(42));
    assert_eq!(w.write_target(), 42);
}

#[test]
fn writer_flush_failure_stands_when_nothing_arrives() {
    let mut w = HotSwapWriter::new(10);
    w.binding.close();
    assert_eq!(w.flush_recover(), None);
    assert_eq!(w.write_target(), 10);
}

#[test]
fn reader_retries_on_real_reader_after_placeholder_eof() {
    let mut rd = HotSwapReader::new(3);
    assert_eq!(rd.read_target(), 3);
    assert!(rd.binding.deliver(77));
    // Reads do not poll: the placeholder stays current until it fails.
    assert_eq!(rd.read_target(), 3);
    assert_eq!(rd.read_recover(), Some(77));
    assert_eq!(rd.read_target(), 77);
    // A later failure on the real reader is propagated.
    assert_eq!(rd.read_recover(), None);
    assert_eq!(rd.read_target(), 77);
}

#[test]
fn reader_propagates_when_channel_closed() {
    let mut rd = HotSwapReader::new(3);
    rd.binding.close();
    assert_eq!(rd.read_recover(), None);
    assert_eq!(rd.read_target(), 3);
}

#[test]
fn resize_while_connecting_survives_promotion() {
    let rd = HotSwapReader::new(1);
    let mut pty = HotSwapPty::new(rd, size(24, 80));
    pty.resize(size(50, 132));
    assert_eq!(pty.get_size(), size(50, 132));
    assert!(pty.deliver(9, size(24, 80)));
    // Observed identically before and after promotion.
    assert_eq!(pty.get_size(), size(50, 132));
    assert_eq!(pty.get_size(), size(50, 132));
    match &pty.state {
        PtyAttachment::Connected { pty: real } => {
            assert_eq!(real.token, 9);
            assert_eq!(real.size, size(50, 132), "latched size applied at promotion");
        }
        PtyAttachment::Connecting { .. } => panic!("the handle must have promoted"),
    }
    pty.resize(size(10, 20));
    assert_eq!(pty.get_size(), size(10, 20));
}

#[test]
fn resize_after_delivery_promotes_with_the_new_size() {
    let rd = HotSwapReader::new(1);
    let mut pty = HotSwapPty::new(rd, size(24, 80));
    assert!(pty.deliver(9, size(24, 80)));
    // The resize latches the new geometry first, then promotes:
    // apply-then-promote ordering.
    pty.resize(size(50, 132));
    match &pty.state {
        PtyAttachment::Connected { pty: real } => assert_eq!(real.size, size(50, 132)),
        PtyAttachment::Connecting { .. } => panic!("the resize must have promoted"),
    }
    assert_eq!(pty.get_size(), size(50, 132));
}

#[test]
fn clone_reader_succeeds_exactly_once_before_promotion() {
    let rd = HotSwapReader::new(1);
    let mut pty = HotSwapPty::new(rd, size(24, 80));
    let first = pty.try_clone_reader();
    assert!(first.is_ok());
    assert_eq!(first.unwrap().read_target(), 1);
    assert_eq!(pty.try_clone_reader().unwrap_err(), BridgeError::ReaderAlreadyTaken);
    assert_eq!(pty.try_clone_reader().unwrap_err(), BridgeError::ReaderAlreadyTaken);
}

#[test]
fn clone_reader_succeeds_exactly_once_after_promotion() {
    let rd = HotSwapReader::new(1);
    let mut pty = HotSwapPty::new(rd, size(24, 80));
    assert!(pty.deliver(9, size(24, 80)));
    assert!(pty.try_clone_reader().is_ok());
    assert_eq!(pty.try_clone_reader().unwrap_err(), BridgeError::ReaderAlreadyTaken);
}

#[test]
fn pty_writer_and_direct_io_are_refused() {
    let rd = HotSwapReader::new(1);
    let mut pty = HotSwapPty::new(rd, size(24, 80));
    assert_eq!(pty.try_clone_writer().unwrap_err(), BridgeError::WriterOutsideBootstrap);
    assert_eq!(pty.write(b"x").unwrap_err(), BridgeError::DirectPtyWrite);
    assert_eq!(pty.flush().unwrap_err(), BridgeError::DirectPtyWrite);
    assert_eq!(pty.process_group_leader(), None);
}

#[test]
fn child_wait_reports_error_exit_when_channel_closes() {
    let mut ch = HotSwapChild::new();
    ch.close_child_channel();
    let st = ch.wait();
    assert_eq!(st, ExitStatus::with_exit_code(1));
    assert!(!st.success());
    // Cached: every later call returns the same status without blocking.
    assert_eq!(ch.wait(), st);
    let poll = ch.try_wait();
    assert_eq!(poll.status, Some(st));
    assert_eq!(poll.start_wait, None);
}

#[test]
fn child_try_wait_drives_promotion_and_status() {
    let mut ch = HotSwapChild::new();
    let poll = ch.try_wait();
    assert_eq!(poll.status, None);
    assert_eq!(poll.start_wait, None);

    assert!(ch.deliver_child(5));
    let poll = ch.try_wait();
    assert_eq!(poll.start_wait, Some(5), "pickup must start the asynchronous wait");
    assert_eq!(poll.status, None, "still running until the wait reports");

    assert!(ch.deliver_status(ExitStatus::with_exit_code(0)));
    let poll = ch.try_wait();
    assert_eq!(poll.status, Some(ExitStatus::with_exit_code(0)));
    assert!(poll.status.unwrap().success());
    assert_eq!(ch.wait(), ExitStatus::with_exit_code(0));
}

#[test]
fn child_status_channel_failure_is_abnormal_exit() {
    let mut ch = HotSwapChild::new();
    assert!(ch.deliver_child(5));
    let poll = ch.try_wait();
    assert_eq!(poll.start_wait, Some(5));
    ch.close_status_channel();
    let poll = ch.try_wait();
    assert_eq!(poll.status, Some(ExitStatus::with_exit_code(1)));
    assert_eq!(ch.wait(), ExitStatus::with_exit_code(1));
}

#[test]
fn child_kill_and_ids_are_inert() {
    let mut ch = HotSwapChild::new();
    assert!(ch.kill().is_ok());
    assert_eq!(ch.process_id(), None);
    assert_eq!(ch.as_raw_handle(), None);
}

#[test]
fn geometry_converts_to_screen_size() {
    let s = size(24, 80).to_screen_size();
    assert_eq!(s.cols, 80);
    assert_eq!(s.rows, 24);
    assert_eq!(s.xpixel, 640);
    assert_eq!(s.ypixel, 384);
}

#[test]
fn error_messages_match_their_wording() {
    assert_eq!(BridgeError::ReaderAlreadyTaken.message(), "reader already taken");
    assert_eq!(
        BridgeError::WriterOutsideBootstrap.message(),
        "writer must be created during bootstrap"
    );
    assert_eq!(
        BridgeError::DirectPtyWrite.message(),
        "you are expected to write via try_clone_writer"
    );
    assert_eq!(
        BridgeError::AuthenticationCancelled.message(),
        "Authentication was cancelled"
    );
    assert_eq!(
        BridgeError::AuthenticationExhausted.message(),
        "unable to authenticate session"
    );
    assert_eq!(BridgeError::NoAltScreen.message(), "TerminalShim has no alt screen");
    assert_eq!(
        BridgeError::CannotSetScreenSize.message(),
        "TerminalShim cannot set screen size"
    );
    assert_eq!(BridgeError::DetachUnsupported.message(), "detach not implemented");
}
