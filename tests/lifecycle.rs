use server_lifecycle::outcome::{received_outcome, stop_status, StopError};
use server_lifecycle::panel::{reply_for, ControlPanel, StartError, StopPlan, DEFAULT_GRACE_SECS};
use server_lifecycle::slot::ServerSlot;

fn is_shutdown_of(plan: &StopPlan<u32>, want: u32, want_grace: u64) -> bool {
    match plan {
        StopPlan::Shutdown { handle, graceful, grace_secs } => {
            *handle == want && *graceful && *grace_secs == want_grace
        }
        StopPlan::NotRunning => false,
    }
}

fn is_not_running(plan: &StopPlan<u32>) -> bool {
    matches!(plan, StopPlan::NotRunning)
}

#[test]
fn new_panel_has_address_and_default_grace() {
    let panel: ControlPanel<u32> = ControlPanel::new("127.0.0.1:9001");
    assert_eq!(panel.address(), "127.0.0.1:9001");
    assert_eq!(panel.grace_secs(), 1);
    assert_eq!(DEFAULT_GRACE_SECS, 1);
}

#[test]
fn with_grace_keeps_configured_period() {
    let panel: ControlPanel<u32> = ControlPanel::with_grace("0.0.0.0:80", 30);
    assert_eq!(panel.address(), "0.0.0.0:80");
    assert_eq!(panel.grace_secs(), 30);
}

#[test]
fn start_then_stop_shuts_down_and_releases() {
    let panel: ControlPanel<u32> = ControlPanel::new("127.0.0.1:9001");
    assert_eq!(panel.publish(Some(7)), Ok(None));
    let plan = panel.request_stop();
    assert!(is_shutdown_of(&plan, 7, 1));
    let reply = reply_for(&plan);
    assert_eq!(reply, Ok(()));
    assert_eq!(stop_status(reply), 204);
    let again = panel.request_stop();
    assert!(is_not_running(&again));
}

#[test]
fn stop_on_fresh_panel_is_not_running() {
    let panel: ControlPanel<u32> = ControlPanel::new("127.0.0.1:9001");
    let plan = panel.request_stop();
    assert!(is_not_running(&plan));
    assert_eq!(reply_for(&plan), Err(StopError::NotRunning));
    assert_eq!(stop_status(reply_for(&plan)), 500);
}

#[test]
fn stop_before_start_does_not_block_later_start() {
    let panel: ControlPanel<u32> = ControlPanel::new("127.0.0.1:9001");
    let early = panel.request_stop();
    assert_eq!(reply_for(&early), Err(StopError::NotRunning));
    assert_eq!(panel.publish(Some(3)), Ok(None));
    let late = panel.request_stop();
    assert!(is_shutdown_of(&late, 3, 1));
    assert_eq!(reply_for(&late), Ok(()));
}

#[test]
fn two_stop_requests_plan_one_shutdown() {
    let panel: ControlPanel<u32> = ControlPanel::with_grace("127.0.0.1:9001", 2);
    assert_eq!(panel.publish(Some(11)), Ok(None));
    let first = panel.request_stop();
    let second = panel.request_stop();
    assert!(is_shutdown_of(&first, 11, 2));
    assert!(is_not_running(&second));
    assert_eq!(reply_for(&first), Ok(()));
    assert_eq!(reply_for(&second), Err(StopError::NotRunning));
}

#[test]
fn bind_failure_publishes_nothing() {
    let panel: ControlPanel<u32> = ControlPanel::new("127.0.0.1:9001");
    assert_eq!(panel.publish(None), Err(StartError::BindFailure));
    assert!(is_not_running(&panel.request_stop()));
}

#[test]
fn bind_failure_keeps_running_server() {
    let panel: ControlPanel<u32> = ControlPanel::new("127.0.0.1:9001");
    assert_eq!(panel.publish(Some(4)), Ok(None));
    assert_eq!(panel.publish(None), Err(StartError::BindFailure));
    assert!(is_shutdown_of(&panel.request_stop(), 4, 1));
}

#[test]
fn publishing_again_hands_back_previous_server() {
    let panel: ControlPanel<u32> = ControlPanel::new("127.0.0.1:9001");
    assert_eq!(panel.publish(Some(1)), Ok(None));
    assert_eq!(panel.publish(Some(2)), Ok(Some(1)));
    assert!(is_shutdown_of(&panel.request_stop(), 2, 1));
}

#[test]
fn plan_stop_on_slot_value() {
    let panel: ControlPanel<u32> = ControlPanel::with_grace("h:1", 5);
    let mut slot = ServerSlot::new();
    assert_eq!(slot.set(9), None);
    let plan = panel.plan_stop(&mut slot);
    assert!(is_shutdown_of(&plan, 9, 5));
    assert!(!slot.is_running());
    assert!(is_not_running(&panel.plan_stop(&mut slot)));
}

#[test]
fn slot_set_get_take() {
    let mut slot: ServerSlot<u32> = ServerSlot::new();
    assert!(!slot.is_running());
    assert_eq!(slot.get(), None);
    assert_eq!(slot.set(1), None);
    assert!(slot.is_running());
    assert_eq!(slot.get(), Some(1));
    assert_eq!(slot.set(2), Some(1));
    assert_eq!(slot.get(), Some(2));
    assert_eq!(slot.take(), Some(2));
    assert!(!slot.is_running());
    assert_eq!(slot.take(), None);
}

#[test]
fn abandoned_signal_is_disconnected() {
    assert_eq!(received_outcome(None), Err(StopError::Disconnected));
    assert_eq!(received_outcome(Some(Ok(()))), Ok(()));
    assert_eq!(
        received_outcome(Some(Err(StopError::NotRunning))),
        Err(StopError::NotRunning)
    );
    assert_ne!(received_outcome(None), Err(StopError::NotRunning));
    assert_eq!(stop_status(Err(StopError::Disconnected)), 500);
}

#[test]
fn error_messages() {
    assert_eq!(StopError::NotRunning.message(), "server is not running");
    assert_eq!(StopError::Disconnected.message(), "stop outcome was never delivered");
}
