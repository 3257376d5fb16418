//! The single-use delivery slot: one producer side, one consumer side, one
//! cell, delivered at most once.
//!
//! This type is the broker's sequential model of a waiting point. The cell
//! starts `Empty` and makes exactly one terminal transition: to `Filled` when
//! the producer delivers a payload, or to `Closed` when the wait is given up
//! before anything arrives. Retrieval consumes the waiter, so a delivered
//! payload can be observed exactly once.

use vstd::prelude::*;
use crate::errors::BrokerError;

verus! {

/// Mathematical state of a waiter: the slot is empty, holds a delivered
/// payload, or was closed without one.
pub enum WaiterView {
    Empty,
    Filled(Seq<char>),
    Closed,
}

enum Slot {
    Empty,
    Filled(String),
    Closed,
}

/// A single-use delivery cell.
pub struct Waiter {
    slot: Slot,
}

impl View for Waiter {
    type V = WaiterView;

    closed spec fn view(&self) -> WaiterView {
        match self.slot {
            Slot::Empty => WaiterView::Empty,
            Slot::Filled(p) => WaiterView::Filled(p@),
            Slot::Closed => WaiterView::Closed,
        }
    }
}

/// What `fulfill` does to a waiter in state `w`: an empty slot fills with the
/// payload; a filled slot keeps its first payload and reports the double
/// delivery; a closed slot reports that the consumer is gone.
pub open spec fn fulfill_transition(w: WaiterView, payload: Seq<char>) -> (WaiterView, Result<
    (),
    BrokerError,
>) {
    match w {
        WaiterView::Empty => (WaiterView::Filled(payload), Ok(())),
        WaiterView::Filled(p) => (WaiterView::Filled(p), Err(BrokerError::AlreadyFulfilled)),
        WaiterView::Closed => (WaiterView::Closed, Err(BrokerError::ChannelClosed)),
    }
}

/// What `close` does to a waiter in state `w`: an empty slot closes; the two
/// terminal states are left as they are.
pub open spec fn close_transition(w: WaiterView) -> WaiterView {
    match w {
        WaiterView::Empty => WaiterView::Closed,
        WaiterView::Filled(p) => WaiterView::Filled(p),
        WaiterView::Closed => WaiterView::Closed,
    }
}

/// What resolving the consumer-side wait of a waiter in state `w` observes:
/// the payload if one arrived, `Timeout` if the slot is still empty when the
/// wait's bound elapses, `ChannelClosed` if the slot was closed without a
/// payload.
pub open spec fn resolve_outcome(w: WaiterView) -> Result<Seq<char>, BrokerError> {
    match w {
        WaiterView::Empty => Err(BrokerError::Timeout),
        WaiterView::Filled(p) => Ok(p),
        WaiterView::Closed => Err(BrokerError::ChannelClosed),
    }
}

impl Waiter {
    /// A fresh, still-empty waiting point.
    pub fn new() -> (w: Waiter)
        ensures
            w@ == WaiterView::Empty,
    {
        Waiter { slot: Slot::Empty }
    }

    /// Producer side: deliver `payload` into the slot. Succeeds exactly on an
    /// empty slot; a filled or closed slot is left unchanged and the error
    /// names which terminal state blocked the delivery.
    pub fn fulfill(&mut self, payload: String) -> (r: Result<(), BrokerError>)
        ensures
            (final(self)@, r) == fulfill_transition(old(self)@, payload@),
    {
        match self.slot {
            Slot::Empty => {
                self.slot = Slot::Filled(payload);
                Ok(())
            },
            Slot::Filled(_) => Err(BrokerError::AlreadyFulfilled),
            Slot::Closed => Err(BrokerError::ChannelClosed),
        }
    }

    /// Consumer side giving up: close an empty slot so that no payload can
    /// arrive any more. Terminal states are not left.
    pub fn close(&mut self)
        ensures
            final(self)@ == close_transition(old(self)@),
    {
        match self.slot {
            Slot::Empty => {
                self.slot = Slot::Closed;
            },
            _ => {},
        }
    }

    /// Consumer side, at the moment its wait ends: observe the slot's state.
    /// A delivered payload is handed out; an empty slot means the wait's
    /// bound elapsed first; a closed slot means the producer side went away
    /// without delivering. Resolving consumes the waiter, so a payload is
    /// retrieved at most once.
    pub fn resolve(self) -> (r: Result<String, BrokerError>)
        ensures
            resolve_result_view(r) == resolve_outcome(self@),
    {
        match self.slot {
            Slot::Empty => Err(BrokerError::Timeout),
            Slot::Filled(p) => Ok(p),
            Slot::Closed => Err(BrokerError::ChannelClosed),
        }
    }

    /// Whether a payload has been delivered and is still retrievable.
    pub fn is_filled(&self) -> (b: bool)
        ensures
            b == (self@ matches WaiterView::Filled(_)),
    {
        match self.slot {
            Slot::Filled(_) => true,
            _ => false,
        }
    }
}

/// The mathematical value of a resolved wait: the payload's character
/// sequence on success, the error itself otherwise.
pub open spec fn resolve_result_view(r: Result<String, BrokerError>) -> Result<
    Seq<char>,
    BrokerError,
> {
    match r {
        Ok(s) => Ok(s@),
        Err(e) => Err(e),
    }
}

} // verus!
