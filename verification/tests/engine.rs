use litra_glow::engine::{DeviceCommand, DeviceEvent, Engine};
use litra_glow::protocol::{Command, Response};
use litra_glow::status::InitTracker;

#[test]
fn fresh_engine_is_disconnected() {
    let engine = Engine::new();
    assert!(!engine.connected);
    assert!(engine.last_error.is_none());
    assert!(!engine.state.power);
    assert_eq!(engine.state.brightness, 0x14);
    assert_eq!(engine.state.temperature, 2700);
    assert!(engine.state.pending_brightness.is_none());
    assert!(engine.state.pending_temperature.is_none());
}

#[test]
fn commands_while_disconnected_update_state_without_io() {
    let mut engine = Engine::new();
    assert_eq!(engine.on_command(DeviceCommand::SetPower(true), 10), None);
    assert_eq!(engine.on_command(DeviceCommand::SetBrightness(0x80), 20), None);
    assert_eq!(engine.on_command(DeviceCommand::SetTemperature(4000), 30), None);
    assert!(engine.state.power);
    assert_eq!(engine.state.brightness, 0x80);
    assert_eq!(engine.state.temperature, 4000);
    assert_eq!(engine.state.pending_brightness, Some(20));
    assert_eq!(engine.state.pending_temperature, Some(30));
}

#[test]
fn retry_is_a_no_op() {
    let mut engine = Engine::new();
    let before = engine.state;
    assert_eq!(engine.on_command(DeviceCommand::Retry, 5), None);
    assert_eq!(engine.state, before);
}

#[test]
fn connected_commands_forward_to_the_device() {
    let mut engine = Engine::new();
    engine.on_open_success();
    assert_eq!(
        engine.on_command(DeviceCommand::SetPower(true), 10),
        Some(Command::SetPower(true))
    );
    assert_eq!(
        engine.on_command(DeviceCommand::SetBrightness(0x90), 20),
        Some(Command::SetBrightness(0x90))
    );
    assert_eq!(
        engine.on_command(DeviceCommand::SetTemperature(5000), 30),
        Some(Command::SetTemperature(5000))
    );
    assert_eq!(engine.on_command(DeviceCommand::Retry, 40), None);
}

#[test]
fn connecting_emits_one_event_and_three_queries() {
    let mut engine = Engine::new();
    let (event, queries) = engine.on_open_success();
    assert_eq!(event, DeviceEvent::Connected);
    assert_eq!(
        queries,
        vec![Command::GetPower, Command::GetBrightness, Command::GetTemperature]
    );
    assert!(engine.connected);
    assert!(engine.last_error.is_none());
}

#[test]
fn hardware_sourced_response_wins_over_pending_write() {
    let mut engine = Engine::new();
    engine.on_open_success();
    // A software brightness write is pending...
    engine.on_command(DeviceCommand::SetBrightness(0x90), 1000);
    // ...yet a hardware power-off arriving right away still lands.
    let evt = engine.on_response(Response::Power(false, true), 1010);
    assert_eq!(evt, Some(DeviceEvent::Power(false)));
    assert!(!engine.state.power);
    // And a hardware brightness change beats the debounce window too.
    let evt = engine.on_response(Response::Brightness(0x20, true), 1020);
    assert_eq!(evt, Some(DeviceEvent::Brightness(0x20)));
    assert_eq!(engine.state.brightness, 0x20);
}

#[test]
fn stale_echo_inside_window_is_discarded() {
    let mut engine = Engine::new();
    engine.on_open_success();
    engine.on_command(DeviceCommand::SetBrightness(0x90), 1000);
    // 100 ms later, a non-hardware echo with a different value: presumed
    // stale, state untouched.
    let evt = engine.on_response(Response::Brightness(0x30, false), 1100);
    assert_eq!(evt, None);
    assert_eq!(engine.state.brightness, 0x90);
    assert_eq!(engine.state.pending_brightness, Some(1000));
}

#[test]
fn echo_after_window_is_accepted_and_clears_the_marker() {
    let mut engine = Engine::new();
    engine.on_open_success();
    engine.on_command(DeviceCommand::SetBrightness(0x90), 1000);
    // 350 ms later the same kind of response lands and settles the write.
    let evt = engine.on_response(Response::Brightness(0x90, false), 1350);
    assert_eq!(evt, Some(DeviceEvent::Brightness(0x90)));
    assert_eq!(engine.state.brightness, 0x90);
    assert_eq!(engine.state.pending_brightness, None);
}

#[test]
fn temperature_debounce_mirrors_brightness() {
    let mut engine = Engine::new();
    engine.on_open_success();
    engine.on_command(DeviceCommand::SetTemperature(5600), 2000);
    assert_eq!(engine.on_response(Response::Temperature(4300, false), 2100), None);
    assert_eq!(engine.state.temperature, 5600);
    let evt = engine.on_response(Response::Temperature(5600, false), 2400);
    assert_eq!(evt, Some(DeviceEvent::Temperature(5600)));
    assert_eq!(engine.state.pending_temperature, None);
}

#[test]
fn unpended_response_is_accepted_unconditionally() {
    let mut engine = Engine::new();
    engine.on_open_success();
    let evt = engine.on_response(Response::Brightness(0x40, false), 500);
    assert_eq!(evt, Some(DeviceEvent::Brightness(0x40)));
    assert_eq!(engine.state.brightness, 0x40);
    let evt = engine.on_response(Response::Temperature(3000, false), 501);
    assert_eq!(evt, Some(DeviceEvent::Temperature(3000)));
    assert_eq!(engine.state.temperature, 3000);
}

#[test]
fn power_responses_have_no_debounce() {
    let mut engine = Engine::new();
    engine.on_open_success();
    engine.on_command(DeviceCommand::SetBrightness(0x90), 1000);
    let evt = engine.on_response(Response::Power(true, false), 1001);
    assert_eq!(evt, Some(DeviceEvent::Power(true)));
    assert!(engine.state.power);
    // The pending brightness marker is untouched by a power response.
    assert_eq!(engine.state.pending_brightness, Some(1000));
}

#[test]
fn set_power_twice_is_idempotent() {
    let mut engine = Engine::new();
    engine.on_open_success();
    let first = engine.on_command(DeviceCommand::SetPower(true), 10);
    let state_after_one = engine.state;
    let second = engine.on_command(DeviceCommand::SetPower(true), 20);
    assert!(engine.state.power);
    assert_eq!(engine.state, state_after_one);
    // No coalescing: each submission forwards exactly one write.
    assert_eq!(first, Some(Command::SetPower(true)));
    assert_eq!(second, Some(Command::SetPower(true)));
}

#[test]
fn repeated_open_failure_with_same_text_emits_once() {
    let mut engine = Engine::new();
    let first = engine.on_open_failure("Litra device not found".to_string());
    assert_eq!(
        first,
        Some(DeviceEvent::Error("Litra device not found".to_string()))
    );
    let second = engine.on_open_failure("Litra device not found".to_string());
    assert_eq!(second, None);
    let third = engine.on_open_failure("Litra device not found".to_string());
    assert_eq!(third, None);
    assert!(!engine.connected);
}

#[test]
fn changed_failure_text_is_published_again() {
    let mut engine = Engine::new();
    assert!(engine.on_open_failure("Litra device not found".to_string()).is_some());
    let changed = engine.on_open_failure("HID error: read failed".to_string());
    assert_eq!(
        changed,
        Some(DeviceEvent::Error("HID error: read failed".to_string()))
    );
    // And the old text becomes news again once it differs from the last.
    assert!(engine.on_open_failure("Litra device not found".to_string()).is_some());
}

#[test]
fn reconnecting_resets_failure_deduplication() {
    let mut engine = Engine::new();
    assert!(engine.on_open_failure("Litra device not found".to_string()).is_some());
    engine.on_open_success();
    assert!(engine.last_error.is_none());
    // After a connect, the same failure text is news again.
    assert!(engine.on_open_failure("Litra device not found".to_string()).is_some());
}

#[test]
fn transport_error_disconnects_and_reports() {
    let mut engine = Engine::new();
    engine.on_open_success();
    engine.on_command(DeviceCommand::SetBrightness(0x90), 100);
    let before = engine.state;
    let evt = engine.on_transport_error();
    assert_eq!(evt, DeviceEvent::Error("Device disconnected".to_string()));
    assert!(!engine.connected);
    assert_eq!(engine.state, before);
}

#[test]
fn connect_query_reply_cycle_initializes_after_two_fields() {
    let mut engine = Engine::new();
    let mut tracker = InitTracker::new();
    let mut events: Vec<DeviceEvent> = Vec::new();

    let (connected, queries) = engine.on_open_success();
    events.push(connected);
    assert_eq!(queries.len(), 3);

    // All three replies arrive within the window.
    for response in [
        Response::Power(true, false),
        Response::Brightness(0x64, false),
        Response::Temperature(4000, false),
    ] {
        if let Some(evt) = engine.on_response(response, 50) {
            events.push(evt);
        }
    }

    let connected_events = events
        .iter()
        .filter(|e| matches!(e, DeviceEvent::Connected))
        .count();
    assert_eq!(connected_events, 1);
    let field_events: Vec<&DeviceEvent> = events
        .iter()
        .filter(|e| {
            matches!(
                e,
                DeviceEvent::Power(_) | DeviceEvent::Brightness(_) | DeviceEvent::Temperature(_)
            )
        })
        .collect();
    assert_eq!(field_events.len(), 3);

    for (i, evt) in events.iter().enumerate() {
        tracker.note_event(evt);
        // Initialization completes once at least two fields have reported:
        // here, after the Connected event and the first two field updates.
        assert_eq!(tracker.initialized, i >= 2);
    }
}
