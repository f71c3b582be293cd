//! Hot-swappable reader and writer wrappers.
//!
//! Each starts bound to a placeholder transport and is redirected
//! exactly once to the real transport, delivered through a one-shot
//! channel.  Transports are identified here by plain tokens; the
//! holder of the wrapper performs the actual byte I/O against the
//! transport the wrapper names.

use vstd::prelude::*;
use crate::oneshot::{OneShot, TryRecv};

verus! {

/// The hot-swap core shared by the reader and the writer wrapper:
/// which transport is current, whether the one-way swap to the real
/// transport has happened, and the delivery channel for it.
#[derive(Debug)]
pub struct SwapBinding {
    /// Token of the transport operations are currently forwarded to.
    pub current: u64,
    /// Whether the binding has been redirected to the real transport.
    pub swapped: bool,
    /// Delivery channel for the real transport's token.
    pub rx: OneShot<u64>,
}

/// The operations a binding can undergo, for stating what every
/// possible sequence of them preserves.
pub enum SwapOp {
    /// A non-blocking check of the delivery channel.
    Poll,
    /// A blocking receive on the delivery channel.
    Wait,
}

impl SwapBinding {
    /// The swap is one-way: it happens exactly when the channel's
    /// single value has been consumed.
    pub open spec fn wf(self) -> bool {
        self.swapped <==> self.rx is Taken
    }

    /// State after the producer's delivery attempt.
    pub open spec fn deliver_spec(self, w: u64) -> Self {
        SwapBinding { rx: self.rx.deliver_spec(w), ..self }
    }

    /// State after a non-blocking swap check.
    pub open spec fn poll_swap_spec(self) -> Self {
        match self.rx {
            OneShot::Ready(w) => SwapBinding {
                current: w,
                swapped: true,
                rx: OneShot::Taken,
            },
            _ => self,
        }
    }

    /// State after a blocking swap attempt; same redirection rule.
    pub open spec fn wait_swap_spec(self) -> Self {
        self.poll_swap_spec()
    }

    /// State after any one operation.
    pub open spec fn op_spec(self, op: SwapOp) -> Self {
        match op {
            SwapOp::Poll => self.poll_swap_spec(),
            SwapOp::Wait => self.wait_swap_spec(),
        }
    }

    /// State after a whole sequence of operations.
    pub open spec fn run_ops_spec(self, ops: Seq<SwapOp>) -> Self
        decreases ops.len(),
    {
        if ops.len() == 0 {
            self
        } else {
            self.op_spec(ops[0]).run_ops_spec(ops.drop_first())
        }
    }

    /// A binding bound to the placeholder transport, swap still ahead.
    pub fn new(placeholder: u64) -> (r: Self)
        ensures
            r.wf(),
            !r.swapped,
            r.current == placeholder,
            r.rx is Pending,
    {
        SwapBinding { current: placeholder, swapped: false, rx: OneShot::new() }
    }

    /// Producer side: deliver the real transport's token.
    pub fn deliver(&mut self, w: u64) -> (r: bool)
        ensures
            r == ((*old(self)).rx is Pending),
            *final(self) == old(self).deliver_spec(w),
            !r ==> *final(self) == *old(self),
    {
        self.rx.deliver(w)
    }

    /// Producer side: the producer goes away without delivering.
    pub fn close(&mut self)
        ensures
            (*old(self)).rx is Pending ==> *final(self) == (SwapBinding {
                rx: OneShot::Closed,
                ..*old(self)
            }),
            !((*old(self)).rx is Pending) ==> *final(self) == *old(self),
    {
        self.rx.close()
    }

    /// Non-blocking check: if the real transport has arrived, switch
    /// to it permanently.
    pub fn poll_swap(&mut self)
        ensures
            *final(self) == old(self).poll_swap_spec(),
            old(self).wf() ==> final(self).wf(),
    {
        match self.rx.try_recv() {
            TryRecv::Got(w) => {
                self.current = w;
                self.swapped = true;
            },
            _ => {},
        }
    }

    /// Blocking attempt to obtain the real transport; returns its
    /// token when the swap happened now, `None` when nothing can
    /// arrive any more.  A blocking receive on a still-pending channel
    /// would never return, so that state is excluded.
    pub fn wait_swap(&mut self) -> (r: Option<u64>)
        requires
            !((*old(self)).rx is Pending),
        ensures
            *final(self) == old(self).wait_swap_spec(),
            old(self).wf() ==> final(self).wf(),
            (*old(self)).rx matches OneShot::Ready(w) ==> r == Some(w),
            !((*old(self)).rx is Ready) ==> r is None,
    {
        match self.rx.recv() {
            Some(w) => {
                self.current = w;
                self.swapped = true;
                Some(w)
            },
            None => None,
        }
    }

    /// Once the real transport has been delivered and picked up, every
    /// later operation leaves the binding on that same transport: no
    /// sequence of checks or waits ever rebinds it, to the placeholder
    /// or anywhere else.
    pub proof fn lemma_swap_is_permanent(self, ops: Seq<SwapOp>)
        requires
            self.wf(),
            self.swapped,
        ensures
            self.run_ops_spec(ops) == self,
        decreases ops.len(),
    {
        if ops.len() > 0 {
            assert(self.op_spec(ops[0]) == self);
            self.lemma_swap_is_permanent(ops.drop_first());
        }
    }
}

/// Hot-swappable writer: checks for the real writer before every
/// write; a failed flush falls back to one blocking receive and one
/// retry.
#[derive(Debug)]
pub struct HotSwapWriter {
    pub binding: SwapBinding,
}

/// Hot-swappable reader: reads the current transport and falls back
/// to one blocking receive and one retry when the placeholder side
/// reports end-of-file or an error.
#[derive(Debug)]
pub struct HotSwapReader {
    pub binding: SwapBinding,
}

impl HotSwapWriter {
    pub open spec fn wf(self) -> bool {
        self.binding.wf()
    }

    /// A writer bound to the placeholder transport.
    pub fn new(placeholder: u64) -> (r: Self)
        ensures
            r.wf(),
            !r.binding.swapped,
            r.binding.current == placeholder,
            r.binding.rx is Pending,
    {
        HotSwapWriter { binding: SwapBinding::new(placeholder) }
    }

    /// Which transport a write must go to: the real writer is picked
    /// up first if it has arrived, so no byte is written to a
    /// placeholder that has already been superseded.
    pub fn write_target(&mut self) -> (r: u64)
        ensures
            final(self).binding == old(self).binding.poll_swap_spec(),
            r == final(self).binding.current,
            old(self).wf() ==> final(self).wf(),
            old(self).wf() && old(self).binding.swapped ==> r == old(self).binding.current
                && *final(self) == *old(self),
    {
        self.binding.poll_swap();
        self.binding.current
    }

    /// After a failed flush on the current writer: one blocking
    /// attempt to obtain the real writer.  `Some(w)` asks the holder
    /// to retry the flush once against `w`; `None` means no real
    /// writer can arrive any more and the original failure stands.
    pub fn flush_recover(&mut self) -> (r: Option<u64>)
        requires
            !(old(self).binding.rx is Pending),
        ensures
            final(self).binding == old(self).binding.wait_swap_spec(),
            old(self).wf() ==> final(self).wf(),
            old(self).binding.rx matches OneShot::Ready(w) ==> r == Some(w)
                && final(self).binding.current == w && final(self).binding.swapped,
            !(old(self).binding.rx is Ready) ==> r is None && *final(self) == *old(self),
    {
        self.binding.wait_swap()
    }
}

impl HotSwapReader {
    pub open spec fn wf(self) -> bool {
        self.binding.wf()
    }

    /// A reader bound to the placeholder transport.
    pub fn new(placeholder: u64) -> (r: Self)
        ensures
            r.wf(),
            !r.binding.swapped,
            r.binding.current == placeholder,
            r.binding.rx is Pending,
    {
        HotSwapReader { binding: SwapBinding::new(placeholder) }
    }

    /// Which transport a read goes to; reads do not poll the channel
    /// first — the placeholder stays readable until it is closed.
    pub fn read_target(&self) -> (r: u64)
        ensures
            r == self.binding.current,
    {
        self.binding.current
    }

    /// After the current reader returned end-of-file or an error: one
    /// blocking attempt to obtain the real reader.  `Some(t)` asks the
    /// holder to retry the read once against `t`; `None` means no real
    /// reader can arrive any more and the original result stands.
    pub fn read_recover(&mut self) -> (r: Option<u64>)
        requires
            !(old(self).binding.rx is Pending),
        ensures
            final(self).binding == old(self).binding.wait_swap_spec(),
            old(self).wf() ==> final(self).wf(),
            old(self).binding.rx matches OneShot::Ready(t) ==> r == Some(t)
                && final(self).binding.current == t && final(self).binding.swapped,
            !(old(self).binding.rx is Ready) ==> r is None && *final(self) == *old(self),
    {
        self.binding.wait_swap()
    }
}

} // verus!
