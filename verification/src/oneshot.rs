//! One-shot delivery channel: delivers exactly one value to its
//! consumer, then only ever reports "already delivered".
//!
//! Four independent instances carry the real writer, reader,
//! pseudo-terminal and child handles from the bootstrap worker to the
//! wrapper objects.  The channel is modelled as an owned state
//! machine: `deliver` is the producer side, `try_recv` the
//! non-blocking consumer side and `recv` the blocking one.

use vstd::prelude::*;

verus! {

/// State of a one-shot delivery channel.
#[derive(Debug)]
pub enum OneShot<T> {
    /// Nothing delivered yet; the producer may still deliver or close.
    Pending,
    /// A value was delivered and has not yet been received.
    Ready(T),
    /// The single value has been received; nothing more will arrive.
    Taken,
    /// The producer went away without delivering.
    Closed,
}

/// Outcome of a non-blocking receive.
#[derive(Debug)]
pub enum TryRecv<T> {
    /// The delivered value; the channel will never yield another.
    Got(T),
    /// Nothing yet, but a delivery may still happen.
    Empty,
    /// No value will ever arrive (already taken, or producer gone).
    Disconnected,
}

impl<T> OneShot<T> {
    /// A fresh, undelivered channel.
    pub fn new() -> (r: Self)
        ensures
            r is Pending,
    {
        OneShot::Pending
    }

    /// What a non-blocking receive returns in a given state.
    pub open spec fn try_recv_spec(self) -> TryRecv<T> {
        match self {
            OneShot::Pending => TryRecv::Empty,
            OneShot::Ready(v) => TryRecv::Got(v),
            OneShot::Taken => TryRecv::Disconnected,
            OneShot::Closed => TryRecv::Disconnected,
        }
    }

    /// The state a delivery attempt leaves the channel in.
    pub open spec fn deliver_spec(self, v: T) -> Self {
        match self {
            OneShot::Pending => OneShot::Ready(v),
            other => other,
        }
    }

    /// The state a receive attempt leaves the channel in.
    pub open spec fn after_recv_spec(self) -> Self {
        match self {
            OneShot::Ready(v) => OneShot::Taken,
            other => other,
        }
    }

    /// Producer side: deliver the single value.  Returns whether the
    /// delivery took place; it does exactly when nothing was delivered
    /// or closed before.
    pub fn deliver(&mut self, v: T) -> (r: bool)
        ensures
            r == ((*old(self)) is Pending),
            *final(self) == old(self).deliver_spec(v),
            !r ==> *final(self) == *old(self),
    {
        match self {
            OneShot::Pending => {
                *self = OneShot::Ready(v);
                true
            },
            _ => false,
        }
    }

    /// Producer side: the producer goes away without delivering.
    pub fn close(&mut self)
        ensures
            (*old(self)) is Pending ==> *final(self) == OneShot::<T>::Closed,
            !((*old(self)) is Pending) ==> *final(self) == *old(self),
    {
        match self {
            OneShot::Pending => {
                *self = OneShot::Closed;
            },
            _ => {},
        }
    }

    /// Non-blocking receive.
    pub fn try_recv(&mut self) -> (r: TryRecv<T>)
        ensures
            r == old(self).try_recv_spec(),
            *final(self) == old(self).after_recv_spec(),
    {
        let mut taken = OneShot::Taken;
        core::mem::swap(self, &mut taken);
        match taken {
            OneShot::Pending => {
                *self = OneShot::Pending;
                TryRecv::Empty
            },
            OneShot::Ready(v) => TryRecv::Got(v),
            OneShot::Taken => TryRecv::Disconnected,
            OneShot::Closed => {
                *self = OneShot::Closed;
                TryRecv::Disconnected
            },
        }
    }

    /// Blocking receive.  In this single-owner model a receive on a
    /// still-pending channel would never return, so that state is
    /// excluded; `Some` is the delivered value, `None` means the
    /// channel can no longer deliver.
    pub fn recv(&mut self) -> (r: Option<T>)
        requires
            !((*old(self)) is Pending),
        ensures
            *final(self) == old(self).after_recv_spec(),
            (*old(self)) matches OneShot::Ready(v) ==> r == Some(v),
            !((*old(self)) is Ready) ==> r is None,
    {
        match self.try_recv() {
            TryRecv::Got(v) => Some(v),
            _ => None,
        }
    }

    /// At-most-once delivery: once a receive attempt has yielded the
    /// value, no later receive attempt ever yields a value again —
    /// it observes "already delivered" instead.
    pub proof fn lemma_at_most_once_delivery(self)
        ensures
            self.try_recv_spec() is Got ==> forall|later: Self|
                later == self.after_recv_spec() ==> !(#[trigger] later.try_recv_spec() is Got),
            self.try_recv_spec() is Got ==> self.after_recv_spec().try_recv_spec()
                is Disconnected,
    {
    }
}

} // verus!
