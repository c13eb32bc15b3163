//! The decisions of the replacement window procedure.
//!
//! Every message goes to the overlay's input handling first. Then, while the
//! overlay captures input, the message is swallowed; otherwise it goes to the
//! saved window procedure with the same arguments and its result is returned
//! as it came.
use crate::overlay::{Lifecycle, Overlay};
use vstd::prelude::*;

verus! {

/// What a window procedure is called with.
#[derive(Clone, Copy, Debug, PartialEq, Eq, Structural)]
pub struct MessageCall {
    pub window: isize,
    pub message: u32,
    pub wparam: usize,
    pub lparam: isize,
}

/// Where a message goes after the overlay has seen it.
#[derive(Clone, Copy, Debug, PartialEq, Eq, Structural)]
pub enum MessageRoute {
    /// The host never sees the message; the window procedure returns
    /// [`SWALLOWED`].
    Swallow,
    /// The saved window procedure is called with `call`.
    Forward { window_proc: usize, call: MessageCall },
}

/// The result of a swallowed message.
pub const SWALLOWED: isize = 0;

pub open spec fn message_route(saved_window_proc: usize, call: MessageCall, active: bool) -> MessageRoute {
    if active {
        MessageRoute::Swallow
    } else {
        MessageRoute::Forward { window_proc: saved_window_proc, call }
    }
}

pub open spec fn message_result(route: MessageRoute, forwarded: isize) -> isize {
    match route {
        MessageRoute::Swallow => SWALLOWED,
        MessageRoute::Forward { .. } => forwarded,
    }
}

impl Overlay {
    /// Routes one message; `active` is the application's answer to whether
    /// the overlay captures input now. Messages only arrive once the overlay
    /// has replaced the window procedure.
    pub fn route_message(&self, call: MessageCall, active: bool) -> (r: MessageRoute)
        requires
            self@ is Active,
        ensures
            r == message_route(self@->saved_window_proc, call, active),
    {
        if active {
            MessageRoute::Swallow
        } else {
            match self.lifecycle() {
                Lifecycle::Active { saved_window_proc } => MessageRoute::Forward {
                    window_proc: saved_window_proc,
                    call,
                },
                _ => MessageRoute::Swallow,
            }
        }
    }
}

/// What the replacement window procedure returns: [`SWALLOWED`] for a
/// swallowed message, else `forwarded`, the saved procedure's own result.
pub fn finish_message(route: &MessageRoute, forwarded: isize) -> (r: isize)
    ensures
        r == message_result(*route, forwarded),
{
    match route {
        MessageRoute::Swallow => SWALLOWED,
        MessageRoute::Forward { .. } => forwarded,
    }
}

/// A message as it arrives, with whether the overlay captured input then.
pub type Delivery = (MessageCall, bool);

/// The calls that reach the saved window procedure, in order.
pub open spec fn forwarded_calls(saved_window_proc: usize, deliveries: Seq<Delivery>) -> Seq<
    MessageCall,
>
    decreases deliveries.len(),
{
    if deliveries.len() == 0 {
        Seq::empty()
    } else {
        let d = deliveries[0];
        let rest = forwarded_calls(saved_window_proc, deliveries.drop_first());
        match message_route(saved_window_proc, d.0, d.1) {
            MessageRoute::Swallow => rest,
            MessageRoute::Forward { window_proc, call } => seq![call] + rest,
        }
    }
}

/// While the overlay captures input no message reaches the saved window
/// procedure; while it does not, every message reaches it unchanged, in
/// order, and its result is what the host gets back.
pub proof fn lemma_input_exclusive(saved_window_proc: usize, deliveries: Seq<Delivery>)
    ensures
        (forall|i: int| 0 <= i < deliveries.len() ==> #[trigger] deliveries[i].1) ==> forwarded_calls(
            saved_window_proc,
            deliveries,
        ) == Seq::<MessageCall>::empty(),
        (forall|i: int| 0 <= i < deliveries.len() ==> !#[trigger] deliveries[i].1) ==> forwarded_calls(
            saved_window_proc,
            deliveries,
        ) == deliveries.map_values(|d: Delivery| d.0),
        forall|i: int, res: isize|
            0 <= i < deliveries.len() && !deliveries[i].1 ==> #[trigger] message_result(
                message_route(saved_window_proc, deliveries[i].0, deliveries[i].1),
                res,
            ) == res,
    decreases deliveries.len(),
{
    if deliveries.len() > 0 {
        let rest = deliveries.drop_first();
        lemma_input_exclusive(saved_window_proc, rest);
        if forall|i: int| 0 <= i < deliveries.len() ==> #[trigger] deliveries[i].1 {
            assert forall|i: int| 0 <= i < rest.len() implies #[trigger] rest[i].1 by {
                assert(deliveries[i + 1].1);
            }
        }
        if forall|i: int| 0 <= i < deliveries.len() ==> !#[trigger] deliveries[i].1 {
            assert forall|i: int| 0 <= i < rest.len() implies !#[trigger] rest[i].1 by {
                assert(!deliveries[i + 1].1);
            }
            assert(!deliveries[0].1);
            assert(forwarded_calls(saved_window_proc, deliveries) =~= deliveries.map_values(
                |d: Delivery| d.0,
            ));
        }
    }
}

} // verus!
