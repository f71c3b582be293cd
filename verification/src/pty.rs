//! Hot-swappable pseudo-terminal handle.
//!
//! The handle starts in `Connecting`, holding the still-unclaimed
//! reader, a one-shot delivery channel for the real pty and the
//! latched geometry.  Every public operation first attempts
//! promotion: if the real pty has arrived, the latched geometry is
//! applied to it and the handle becomes `Connected`.

use vstd::prelude::*;
use crate::errors::BridgeError;
use crate::geometry::PtySize;
use crate::oneshot::{OneShot, TryRecv};
use crate::stream::{HotSwapReader, HotSwapWriter};

verus! {

/// The real pseudo-terminal, as this logic sees it: an opaque token
/// and the size it was last told to have.
pub struct PtyHandle {
    /// Token naming the real pty for the holder of this model.
    pub token: u64,
    /// The size last applied to the real pty.
    pub size: PtySize,
}

/// Connection state of the hot-swappable pty handle.
pub enum PtyAttachment {
    /// The real pty does not exist yet; `size` is the single source
    /// of truth for geometry and is applied at the moment of handoff.
    Connecting { connected: OneShot<PtyHandle>, size: PtySize },
    /// The real pty is live; operations forward to it.
    Connected { pty: PtyHandle },
}

/// Hot-swappable pty handle: a reader that can be claimed exactly
/// once, and the connection state.
pub struct HotSwapPty {
    pub reader: Option<HotSwapReader>,
    pub state: PtyAttachment,
}

impl PtyAttachment {
    /// The geometry a size query reports in this state.
    pub open spec fn size_spec(self) -> PtySize {
        match self {
            PtyAttachment::Connecting { size, .. } => size,
            PtyAttachment::Connected { pty } => pty.size,
        }
    }

    /// State after the producer's delivery attempt of the real pty.
    pub open spec fn deliver_spec(self, token: u64, size: PtySize) -> Self {
        match self {
            PtyAttachment::Connecting { connected, size: latched } => PtyAttachment::Connecting {
                connected: connected.deliver_spec(PtyHandle { token, size }),
                size: latched,
            },
            PtyAttachment::Connected { .. } => self,
        }
    }

    /// State after one promotion attempt: when the real pty has
    /// arrived, the latched geometry is applied to it first, then the
    /// handle is connected (apply-then-promote).
    pub open spec fn promote_spec(self) -> Self {
        match self {
            PtyAttachment::Connecting { connected, size } => match connected {
                OneShot::Ready(p) => PtyAttachment::Connected {
                    pty: PtyHandle { token: p.token, size },
                },
                _ => self,
            },
            PtyAttachment::Connected { .. } => self,
        }
    }

    /// State after a resize: while connecting the new size is latched
    /// and promotion attempted at once; once connected the real pty
    /// is put to the new size.
    pub open spec fn resize_spec(self, new_size: PtySize) -> Self {
        match self {
            PtyAttachment::Connecting { connected, .. } => (PtyAttachment::Connecting {
                connected,
                size: new_size,
            }).promote_spec(),
            PtyAttachment::Connected { pty } => PtyAttachment::Connected {
                pty: PtyHandle { token: pty.token, size: new_size },
            },
        }
    }
}

/// The operations a pty handle can undergo, for stating what every
/// possible sequence of them preserves.
pub enum PtyOp {
    /// A promotion attempt, as every public operation starts with.
    Promote,
    /// A resize request.
    Resize(PtySize),
    /// A claim of the reader.
    ClaimReader,
    /// The producer delivers the real pty.
    DeliverPty(u64, PtySize),
    /// The producer delivers the real reader's token.
    DeliverReader(u64),
}

impl HotSwapPty {
    /// A handle still waiting for the real pty, holding the reader
    /// and the initial geometry.
    pub fn new(reader: HotSwapReader, size: PtySize) -> (r: Self)
        ensures
            r.reader == Some(reader),
            r.state == (PtyAttachment::Connecting { connected: OneShot::Pending, size }),
    {
        HotSwapPty {
            reader: Some(reader),
            state: PtyAttachment::Connecting { connected: OneShot::new(), size },
        }
    }

    /// Producer side: deliver the real pty.
    pub fn deliver(&mut self, token: u64, size: PtySize) -> (r: bool)
        ensures
            r == (old(self).state matches PtyAttachment::Connecting { connected, .. }
                && connected is Pending),
            *final(self) == old(self).op_spec(PtyOp::DeliverPty(token, size)),
            final(self).reader == old(self).reader,
            final(self).state == old(self).state.deliver_spec(token, size),
            !r ==> *final(self) == *old(self),
    {
        match &mut self.state {
            PtyAttachment::Connecting { connected, .. } => {
                connected.deliver(PtyHandle { token, size })
            },
            PtyAttachment::Connected { .. } => false,
        }
    }

    /// Producer side: deliver the real reader's token to the reader
    /// wrapper, while it still sits unclaimed in this handle.  A
    /// reader already claimed through `try_clone_reader` is delivered
    /// to directly by its holder.
    pub fn deliver_reader(&mut self, token: u64) -> (r: bool)
        ensures
            *final(self) == old(self).op_spec(PtyOp::DeliverReader(token)),
            final(self).state == old(self).state,
            old(self).reader matches Some(rd) ==> (r == (rd.binding.rx is Pending)
                && final(self).reader == Some(
                HotSwapReader { binding: rd.binding.deliver_spec(token) },
            )),
            old(self).reader is None ==> (r == false && *final(self) == *old(self)),
    {
        match &mut self.reader {
            Some(rd) => rd.binding.deliver(token),
            None => false,
        }
    }

    /// Promotion step run at the top of every public operation: pick
    /// up the real pty if it has arrived, resize it to the latched
    /// geometry, and connect.
    pub fn check_connected(&mut self)
        ensures
            *final(self) == old(self).op_spec(PtyOp::Promote),
            final(self).state == old(self).state.promote_spec(),
            final(self).reader == old(self).reader,
    {
        let mut parked = PtyAttachment::Connected {
            pty: PtyHandle { token: 0, size: PtySize { rows: 0, cols: 0, pixel_width: 0, pixel_height: 0 } },
        };
        core::mem::swap(&mut self.state, &mut parked);
        match parked {
            PtyAttachment::Connecting { mut connected, size } => {
                match connected.try_recv() {
                    TryRecv::Got(p) => {
                        self.state = PtyAttachment::Connected {
                            pty: PtyHandle { token: p.token, size },
                        };
                    },
                    _ => {
                        self.state = PtyAttachment::Connecting { connected, size };
                    },
                }
            },
            PtyAttachment::Connected { pty } => {
                self.state = PtyAttachment::Connected { pty };
            },
        }
    }

    /// Resize.  While connecting, the new size is latched as the
    /// shared geometry and promotion is attempted at once, so a
    /// resize issued during bootstrap takes effect the instant the
    /// real pty appears; once connected, it forwards to the real pty.
    pub fn resize(&mut self, new_size: PtySize)
        ensures
            *final(self) == old(self).op_spec(PtyOp::Resize(new_size)),
            final(self).reader == old(self).reader,
            final(self).state == old(self).state.resize_spec(new_size),
            final(self).state.size_spec() == new_size,
    {
        match &mut self.state {
            PtyAttachment::Connecting { size, .. } => {
                *size = new_size;
                self.check_connected();
            },
            PtyAttachment::Connected { pty } => {
                pty.size = new_size;
            },
        }
    }

    /// Size query.  While connecting it reports the latched geometry
    /// (attempting promotion on the way); once connected it asks the
    /// real pty.
    pub fn get_size(&mut self) -> (r: PtySize)
        ensures
            r == old(self).state.size_spec(),
            *final(self) == old(self).op_spec(PtyOp::Promote),
            final(self).state == old(self).state.promote_spec(),
            final(self).reader == old(self).reader,
    {
        match &self.state {
            PtyAttachment::Connecting { size, .. } => {
                let snapshot = *size;
                self.check_connected();
                snapshot
            },
            PtyAttachment::Connected { pty } => pty.size,
        }
    }

    /// Claim the reader.  There is at most one reader per handle: the
    /// first call returns it, in whichever connection state, and
    /// every later call fails with "already taken".
    pub fn try_clone_reader(&mut self) -> (r: Result<HotSwapReader, BridgeError>)
        ensures
            *final(self) == old(self).op_spec(PtyOp::ClaimReader),
            final(self).state == old(self).state.promote_spec(),
            final(self).reader is None,
            old(self).reader matches Some(rd) ==> r == Ok::<HotSwapReader, BridgeError>(rd),
            old(self).reader is None ==> r == Err::<HotSwapReader, BridgeError>(
                BridgeError::ReaderAlreadyTaken,
            ),
    {
        self.check_connected();
        match self.reader.take() {
            Some(rd) => Ok(rd),
            None => Err(BridgeError::ReaderAlreadyTaken),
        }
    }

    /// Cloning a writer is always refused: the only writer for this
    /// pty is the hot-swappable writer created at spawn time.
    pub fn try_clone_writer(&self) -> (r: Result<HotSwapWriter, BridgeError>)
        ensures
            r == Err::<HotSwapWriter, BridgeError>(BridgeError::WriterOutsideBootstrap),
    {
        Err(BridgeError::WriterOutsideBootstrap)
    }

    /// Direct writes on the handle are unsupported; callers must use
    /// the writer obtained at spawn.
    pub fn write(&self, _buf: &[u8]) -> (r: Result<usize, BridgeError>)
        ensures
            r == Err::<usize, BridgeError>(BridgeError::DirectPtyWrite),
    {
        Err(BridgeError::DirectPtyWrite)
    }

    /// Direct flushes on the handle are unsupported, like writes.
    pub fn flush(&self) -> (r: Result<(), BridgeError>)
        ensures
            r == Err::<(), BridgeError>(BridgeError::DirectPtyWrite),
    {
        Err(BridgeError::DirectPtyWrite)
    }

    /// No process group leader is obtainable through this transport;
    /// promotion is still attempted, as in every operation.
    pub fn process_group_leader(&mut self) -> (r: Option<i32>)
        ensures
            r is None,
            *final(self) == old(self).op_spec(PtyOp::Promote),
            final(self).state == old(self).state.promote_spec(),
            final(self).reader == old(self).reader,
    {
        self.check_connected();
        None
    }

    /// The handle state after one operation; size queries change the
    /// state exactly as a bare promotion attempt does.
    pub open spec fn op_spec(self, op: PtyOp) -> Self {
        match op {
            PtyOp::Promote => HotSwapPty { state: self.state.promote_spec(), ..self },
            PtyOp::Resize(ns) => HotSwapPty { state: self.state.resize_spec(ns), ..self },
            PtyOp::ClaimReader => HotSwapPty {
                reader: None,
                state: self.state.promote_spec(),
            },
            PtyOp::DeliverPty(t, s) => HotSwapPty {
                state: self.state.deliver_spec(t, s),
                ..self
            },
            PtyOp::DeliverReader(t) => HotSwapPty {
                reader: match self.reader {
                    Some(rd) => Some(HotSwapReader { binding: rd.binding.deliver_spec(t) }),
                    None => None,
                },
                ..self
            },
        }
    }

    /// The handle state after a whole sequence of operations.
    pub open spec fn run_ops_spec(self, ops: Seq<PtyOp>) -> Self
        decreases ops.len(),
    {
        if ops.len() == 0 {
            self
        } else {
            self.op_spec(ops[0]).run_ops_spec(ops.drop_first())
        }
    }

    /// The geometry latched while connecting is what a size query
    /// reports, unchanged by promotion; and at the moment of handoff
    /// the real pty is put to exactly that latched geometry.
    pub proof fn lemma_resize_survives_promotion(self)
        requires
            self.state is Connecting,
        ensures
            self.state.promote_spec().size_spec() == self.state.size_spec(),
            self.state matches PtyAttachment::Connecting {
                connected: OneShot::Ready(p),
                size,
            } ==> self.state.promote_spec() == (PtyAttachment::Connected {
                pty: PtyHandle { token: p.token, size },
            }),
    {
    }

    /// There is at most one reader per handle, in whichever order the
    /// operations come: once it has been claimed, no sequence of
    /// promotions, resizes, deliveries or further claims ever brings
    /// one back, so every later claim fails.
    pub proof fn lemma_reader_claim_is_permanent(self, ops: Seq<PtyOp>)
        requires
            self.reader is None,
        ensures
            self.run_ops_spec(ops).reader is None,
        decreases ops.len(),
    {
        if ops.len() > 0 {
            assert(self.op_spec(ops[0]).reader is None);
            self.op_spec(ops[0]).lemma_reader_claim_is_permanent(ops.drop_first());
        }
    }
}

} // verus!
