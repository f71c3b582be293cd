//! Hot-swappable child-process handle.
//!
//! The real child handle arrives through a one-shot channel; on
//! pickup an asynchronous wait is started whose result comes back on
//! a second one-shot channel.  A channel failure is never surfaced as
//! a hang: it is treated as an abnormal exit with a fixed non-zero
//! status, cached so repeated queries are cheap.

use vstd::prelude::*;
use crate::oneshot::{OneShot, TryRecv};

verus! {

/// The exit code reported for an abnormal termination (a delivery
/// channel failing before a real status could be obtained).
pub const ABNORMAL_EXIT_CODE: u32 = 1;

/// How a child process ended, as this logic reads it.
#[derive(Clone, Copy, PartialEq, Eq, Structural, Debug)]
pub struct ExitStatus {
    pub code: u32,
}

impl ExitStatus {
    /// A status carrying a plain process return code.
    pub fn with_exit_code(code: u32) -> (r: Self)
        ensures
            r.code == code,
    {
        ExitStatus { code }
    }

    /// Whether the child ended successfully.
    pub fn success(&self) -> (r: bool)
        ensures
            r == (self.code == 0),
    {
        self.code == 0
    }
}

/// What one non-blocking or blocking query of the child handle
/// reports, and what it asks its holder to do.
pub struct WaitPoll {
    /// The exit status, when one is known.
    pub status: Option<ExitStatus>,
    /// When set, the real child handle named by this token has just
    /// been picked up: the holder must start an asynchronous wait on
    /// it and report the result through `deliver_status`.
    pub start_wait: Option<u64>,
}

/// Hot-swappable child handle.
pub struct HotSwapChild {
    /// Delivery channel for the real child handle.
    pub rx: OneShot<u64>,
    /// Delivery channel for the exit status; present once the
    /// asynchronous wait has been started.
    pub status: Option<OneShot<ExitStatus>>,
    /// The cached final status, once known; never recomputed.
    pub exited: Option<ExitStatus>,
}

impl HotSwapChild {
    /// A handle still waiting for the real child.
    pub fn new() -> (r: Self)
        ensures
            r.rx is Pending,
            r.status is None,
            r.exited is None,
    {
        HotSwapChild { rx: OneShot::new(), status: None, exited: None }
    }

    /// Producer side: deliver the real child handle's token.
    pub fn deliver_child(&mut self, token: u64) -> (r: bool)
        ensures
            r == (old(self).rx is Pending),
            r ==> *final(self) == (HotSwapChild { rx: OneShot::Ready(token), ..*old(self) }),
            !r ==> *final(self) == *old(self),
    {
        self.rx.deliver(token)
    }

    /// Producer side: the bootstrap goes away without delivering a
    /// child handle.
    pub fn close_child_channel(&mut self)
        ensures
            old(self).rx is Pending ==> *final(self) == (HotSwapChild {
                rx: OneShot::Closed,
                ..*old(self)
            }),
            !(old(self).rx is Pending) ==> *final(self) == *old(self),
    {
        self.rx.close()
    }

    /// The asynchronous wait reports the real exit status here.
    /// Nothing happens unless the wait was started and the status
    /// channel is still open.
    pub fn deliver_status(&mut self, st: ExitStatus) -> (r: bool)
        ensures
            r == (old(self).status matches Some(ch) && ch is Pending),
            r ==> *final(self) == (HotSwapChild {
                status: Some(OneShot::Ready(st)),
                ..*old(self)
            }),
            !r ==> *final(self) == *old(self),
    {
        match &mut self.status {
            Some(ch) => ch.deliver(st),
            None => false,
        }
    }

    /// The asynchronous wait goes away without reporting a status.
    pub fn close_status_channel(&mut self)
        ensures
            (old(self).status matches Some(ch) && ch is Pending) ==> *final(self)
                == (HotSwapChild { status: Some(OneShot::Closed), ..*old(self) }),
            !(old(self).status matches Some(ch) && ch is Pending) ==> *final(self)
                == *old(self),
    {
        match &mut self.status {
            Some(ch) => ch.close(),
            None => {},
        }
    }

    /// Promotion step: when no asynchronous wait is in flight yet,
    /// check non-blockingly for the real child handle.  On pickup the
    /// status channel is opened and the holder is asked to start the
    /// wait; on a dead handle channel the abnormal exit is recorded.
    pub fn check_connected(&mut self) -> (r: Option<u64>)
        ensures
            old(self).status is Some ==> (*final(self) == *old(self) && r is None),
            old(self).status is None ==> final(self).rx == old(self).rx.after_recv_spec(),
            old(self).status is None ==> (old(self).rx matches OneShot::Ready(c) ==> (r
                == Some(c) && final(self).status == Some(OneShot::<ExitStatus>::Pending)
                && final(self).exited == old(self).exited)),
            (old(self).status is None && old(self).rx is Pending) ==> (*final(self)
                == *old(self) && r is None),
            (old(self).status is None && (old(self).rx is Taken || old(self).rx is Closed))
                ==> (r is None && final(self).status is None && final(self).exited
                == Some(ExitStatus { code: ABNORMAL_EXIT_CODE as u32 })),
    {
        if self.status.is_none() {
            match self.rx.try_recv() {
                TryRecv::Got(c) => {
                    self.status = Some(OneShot::new());
                    return Some(c);
                },
                TryRecv::Empty => {},
                TryRecv::Disconnected => {
                    self.exited = Some(ExitStatus::with_exit_code(ABNORMAL_EXIT_CODE));
                },
            }
        }
        None
    }

    /// Non-blocking wait: the cached status if the child already
    /// exited, otherwise one promotion attempt followed by one
    /// non-blocking look at the status channel.  A failed status
    /// channel is recorded as the abnormal exit.  `status: None`
    /// means the child is still running.
    pub fn try_wait(&mut self) -> (r: WaitPoll)
        ensures
            old(self).exited matches Some(st) ==> (r.status == Some(st) && r.start_wait
                is None && *final(self) == *old(self)),
            r.status is Some ==> final(self).exited == r.status,
            final(self).exited is Some ==> r.status == final(self).exited,
            old(self).exited is None ==> (old(self).status matches Some(ch) ==> (r.start_wait
                is None && final(self).status == Some(ch.after_recv_spec()) && match ch {
                OneShot::Ready(st) => r.status == Some(st),
                OneShot::Pending => r.status is None && final(self).exited is None,
                _ => r.status == Some(ExitStatus { code: ABNORMAL_EXIT_CODE as u32 }),
            })),
            (old(self).exited is None && old(self).status is None) ==> (old(self).rx matches
                OneShot::Ready(c) ==> (r.start_wait == Some(c) && r.status is None
                && final(self).status == Some(OneShot::<ExitStatus>::Pending))),
            (old(self).exited is None && old(self).status is None && old(self).rx is Pending)
                ==> (r.status is None && r.start_wait is None && *final(self) == *old(self)),
            (old(self).exited is None && old(self).status is None && (old(self).rx is Taken
                || old(self).rx is Closed)) ==> (r.start_wait is None && r.status
                == Some(ExitStatus { code: ABNORMAL_EXIT_CODE as u32 })),
    {
        if let Some(st) = &self.exited {
            let cached = *st;
            return WaitPoll { status: Some(cached), start_wait: None };
        }

        let start_wait = self.check_connected();
        if self.exited.is_some() {
            // The handle channel died before delivering: abnormal exit,
            // just recorded by the promotion step.
            let st = ExitStatus::with_exit_code(ABNORMAL_EXIT_CODE);
            return WaitPoll { status: Some(st), start_wait };
        }

        match &mut self.status {
            Some(ch) => {
                match ch.try_recv() {
                    TryRecv::Got(st) => {
                        self.exited = Some(st);
                        WaitPoll { status: Some(st), start_wait }
                    },
                    TryRecv::Empty => WaitPoll { status: None, start_wait },
                    TryRecv::Disconnected => {
                        let st = ExitStatus::with_exit_code(ABNORMAL_EXIT_CODE);
                        self.exited = Some(st);
                        WaitPoll { status: Some(st), start_wait }
                    },
                }
            },
            None => WaitPoll { status: None, start_wait },
        }
    }

    /// Whether a blocking wait would sit on a channel that can still
    /// deliver later: that is the one situation the owned model
    /// cannot represent, and `wait` excludes it.  A real handle that
    /// is ready but whose asynchronous wait has not reported yet also
    /// blocks, since the status channel opens pending.
    pub open spec fn wait_would_block(self) -> bool {
        &&& self.exited is None
        &&& match self.status {
            Some(ch) => ch is Pending,
            None => self.rx is Pending || self.rx is Ready,
        }
    }

    /// Blocking wait: returns the cached status at once when the
    /// child already exited; otherwise it blocks on the handle and
    /// status channels and never hangs on a dead channel — that is
    /// reported as the abnormal exit, exactly once, and cached.
    pub fn wait(&mut self) -> (r: ExitStatus)
        requires
            !old(self).wait_would_block(),
        ensures
            old(self).exited matches Some(st) ==> (r == st && *final(self) == *old(self)),
            final(self).exited == Some(r),
            old(self).exited is None ==> (old(self).status matches Some(OneShot::Ready(st))
                ==> r == st),
            (old(self).exited is None && !(old(self).status matches Some(OneShot::Ready(_))))
                ==> r == (ExitStatus { code: ABNORMAL_EXIT_CODE as u32 }),
    {
        if let Some(st) = &self.exited {
            let cached = *st;
            return cached;
        }

        match &mut self.status {
            Some(ch) => {
                match ch.recv() {
                    Some(st) => {
                        self.exited = Some(st);
                        st
                    },
                    None => {
                        let st = ExitStatus::with_exit_code(ABNORMAL_EXIT_CODE);
                        self.exited = Some(st);
                        st
                    },
                }
            },
            None => {
                // The real handle can no longer arrive: the blocking
                // receive fails and the abnormal exit is recorded.
                let st = ExitStatus::with_exit_code(ABNORMAL_EXIT_CODE);
                self.exited = Some(st);
                st
            },
        }
    }

    /// No signal can be delivered through this transport: killing
    /// reports success without effect, a documented limitation.
    pub fn kill(&mut self) -> (r: Result<(), ()>)
        ensures
            r is Ok,
            *final(self) == *old(self),
    {
        Ok(())
    }

    /// No native process id is obtainable through this transport.
    pub fn process_id(&self) -> (r: Option<u32>)
        ensures
            r is None,
    {
        None
    }

    /// No raw handle is obtainable through this transport.
    pub fn as_raw_handle(&self) -> (r: Option<u64>)
        ensures
            r is None,
    {
        None
    }
}

} // verus!
