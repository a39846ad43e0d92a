//! Decisions of a server loop.
//!
//! A server waits on a group of kernel objects. Each channel of the group is
//! registered with its own handle as user data, and an interrupt with its own.
//! The loop hands every wake-up to [`on_wake`] and does what it says.

use vstd::prelude::*;

verus! {

/// What a loop does with a wake-up.
#[derive(Debug, Clone, Copy, PartialEq, Eq, Structural)]
pub enum WakeAction {
    /// Nothing: wait again.
    Ignore,
    /// Drain the device, signal the listener if there is one, and acknowledge
    /// the interrupt.
    Interrupt { notify: Option<u32> },
    /// Read one request from this channel, dispatch it, and respond.
    Serve { channel: u32 },
}

/// Route a wake-up. `irq` is the interrupt handle, or 0 where the server has
/// none; `notify_channel` is the listener's channel, or 0. `irq_pending` and
/// `readable` say which of the awaited signals are pending.
pub fn on_wake(
    irq: u32,
    notify_channel: u32,
    user_data: usize,
    irq_pending: bool,
    readable: bool,
) -> (action: WakeAction)
    ensures
        action == (if irq != 0 && user_data as u32 == irq && irq_pending {
            WakeAction::Interrupt {
                notify: if notify_channel != 0 {
                    Some(notify_channel)
                } else {
                    None
                },
            }
        } else if readable {
            WakeAction::Serve { channel: user_data as u32 }
        } else {
            WakeAction::Ignore
        }),
{
    let handle: u32 = #[verifier::truncate]
    (user_data as u32);
    if irq != 0 && handle == irq && irq_pending {
        let notify = if notify_channel != 0 {
            Some(notify_channel)
        } else {
            None
        };
        WakeAction::Interrupt { notify }
    } else if readable {
        WakeAction::Serve { channel: handle }
    } else {
        WakeAction::Ignore
    }
}

/// A server without an interrupt serves its channels and nothing else.
pub fn on_channel_wake(user_data: usize, readable: bool) -> (action: WakeAction)
    ensures
        action == (if readable {
            WakeAction::Serve { channel: user_data as u32 }
        } else {
            WakeAction::Ignore
        }),
{
    on_wake(0, 0, user_data, false, readable)
}

/// A wake-up goes where its signal belongs: a pending interrupt of the server's own
/// handle is handled, and its listener signalled if there is one; any other readable
/// handle is served as a channel; the rest is ignored.
pub proof fn wake_ups_go_where_they_belong(
    irq: u32,
    notify_channel: u32,
    user_data: usize,
    irq_pending: bool,
    readable: bool,
    action: WakeAction,
)
    requires
        user_data <= u32::MAX,
        call_ensures(on_wake, (irq, notify_channel, user_data, irq_pending, readable), action),
    ensures
        action is Interrupt <==> irq_pending && irq != 0 && user_data == irq,
        action matches WakeAction::Interrupt { notify } ==> (notify is Some <==> notify_channel
            != 0) && (notify is Some ==> notify == Some(notify_channel)),
        action matches WakeAction::Serve { channel } ==> channel == user_data && readable,
        action == WakeAction::Ignore <==> !readable && !(irq_pending && irq != 0 && user_data
            == irq),
{
}

/// A server without an interrupt serves the handle that is readable.
pub proof fn channels_are_served_where_readable(
    user_data: usize,
    readable: bool,
    action: WakeAction,
)
    requires
        user_data <= u32::MAX,
        call_ensures(on_channel_wake, (user_data, readable), action),
    ensures
        readable ==> action == (WakeAction::Serve { channel: user_data as u32 }),
        !readable ==> action == WakeAction::Ignore,
{
}

} // verus!
