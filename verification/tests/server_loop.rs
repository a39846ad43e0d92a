//! Routing of wake-ups.

use openprot::server_loop::{on_channel_wake, on_wake, WakeAction};

#[test]
fn interrupts_come_first() {
    assert_eq!(
        on_wake(5, 9, 5, true, true),
        WakeAction::Interrupt { notify: Some(9) }
    );
    assert_eq!(on_wake(5, 0, 5, true, false), WakeAction::Interrupt { notify: None });
}

#[test]
fn a_channel_is_served_when_readable() {
    assert_eq!(on_wake(5, 9, 6, true, true), WakeAction::Serve { channel: 6 });
    assert_eq!(on_wake(5, 9, 5, false, true), WakeAction::Serve { channel: 5 });
    assert_eq!(on_wake(0, 9, 0, true, true), WakeAction::Serve { channel: 0 });
    assert_eq!(on_wake(5, 9, 6, true, false), WakeAction::Ignore);
    assert_eq!(on_channel_wake(7, true), WakeAction::Serve { channel: 7 });
    assert_eq!(on_channel_wake(7, false), WakeAction::Ignore);
}
