use appctx::context::{ApplicationContext, DispatchPhase};
use appctx::devices::{event_source, Deactivation, DeviceSessions, InputDevice};

#[test]
fn devices_are_bound_to_their_event_sources() {
    assert_eq!(event_source(InputDevice::GPIO), Some(2));
    assert_eq!(event_source(InputDevice::Wacom), Some(0));
    assert_eq!(event_source(InputDevice::Multitouch), Some(1));
    assert_eq!(event_source(InputDevice::Unknown), None);
}

#[test]
fn deactivating_twice_is_true_both_times() {
    for device in [InputDevice::GPIO, InputDevice::Wacom, InputDevice::Multitouch] {
        let mut context = ApplicationContext::new(1872, 1404);
        context.dispatch_events(true, true, true);
        let first = context.deactivate_input_device(device, true);
        assert_eq!(first, Deactivation { inactive: true, stop_session: true });
        let second = context.deactivate_input_device(device, true);
        assert_eq!(second, Deactivation { inactive: true, stop_session: false });
        assert!(!context.is_input_device_active(device, true));
    }
}

#[test]
fn deactivating_without_a_session_is_true() {
    let mut context = ApplicationContext::new(1872, 1404);
    for device in [InputDevice::GPIO, InputDevice::Wacom, InputDevice::Multitouch] {
        let answer = context.deactivate_input_device(device, false);
        assert_eq!(answer, Deactivation { inactive: true, stop_session: false });
        let again = context.deactivate_input_device(device, true);
        assert_eq!(again, Deactivation { inactive: true, stop_session: false });
    }
}

#[test]
fn deactivating_an_unknown_device_is_refused() {
    let mut context = ApplicationContext::new(1872, 1404);
    context.dispatch_events(true, true, true);
    let answer = context.deactivate_input_device(InputDevice::Unknown, true);
    assert_eq!(answer, Deactivation { inactive: false, stop_session: false });
    assert!(!context.is_input_device_active(InputDevice::Unknown, true));
    assert!(context.is_input_device_active(InputDevice::GPIO, true));
}

#[test]
fn device_is_active_with_a_session_and_a_live_reader() {
    let mut context = ApplicationContext::new(1872, 1404);
    assert!(!context.is_input_device_active(InputDevice::Wacom, true));
    context.dispatch_events(false, true, false);
    assert!(context.is_input_device_active(InputDevice::Wacom, true));
    assert!(!context.is_input_device_active(InputDevice::Wacom, false));
    assert!(!context.is_input_device_active(InputDevice::GPIO, true));
    assert!(!context.is_input_device_active(InputDevice::Multitouch, true));
}

#[test]
fn session_with_a_dead_reader_stays_until_it_is_joined() {
    let mut context = ApplicationContext::new(1872, 1404);
    context.dispatch_events(false, false, true);
    let answer = context.deactivate_input_device(InputDevice::Multitouch, false);
    assert_eq!(answer, Deactivation { inactive: true, stop_session: false });
    context.stop();
    assert_eq!(context.join_sessions(), vec![InputDevice::Multitouch]);
}

#[test]
fn sessions_start_and_join_in_the_fixed_order() {
    let mut context = ApplicationContext::new(1872, 1404);
    let started = context.dispatch_events(true, true, true);
    assert_eq!(started, vec![InputDevice::Wacom, InputDevice::Multitouch, InputDevice::GPIO]);
    context.stop();
    let joined = context.join_sessions();
    assert_eq!(joined, vec![InputDevice::Wacom, InputDevice::Multitouch, InputDevice::GPIO]);
    assert_eq!(context.join_sessions(), Vec::<InputDevice>::new());
}

#[test]
fn only_enabled_devices_are_started() {
    let mut context = ApplicationContext::new(1872, 1404);
    assert_eq!(context.dispatch_events(true, false, false), vec![InputDevice::GPIO]);
    assert_eq!(context.dispatch_events(false, true, false), vec![InputDevice::Wacom]);
    assert_eq!(context.dispatch_events(false, false, true), vec![InputDevice::Multitouch]);
    assert_eq!(context.dispatch_events(true, false, true), vec![InputDevice::Multitouch, InputDevice::GPIO]);
}

#[test]
fn deactivated_session_is_not_joined() {
    let mut context = ApplicationContext::new(1872, 1404);
    context.dispatch_events(true, true, true);
    context.deactivate_input_device(InputDevice::Multitouch, true);
    context.stop();
    assert_eq!(context.join_sessions(), vec![InputDevice::Wacom, InputDevice::GPIO]);
}

#[test]
fn dispatch_without_sessions_stops_and_joins_nothing() {
    let mut context = ApplicationContext::new(1872, 1404);
    assert_eq!(context.phase(), DispatchPhase::Idle);
    assert!(!context.is_running());
    let started = context.dispatch_events(false, false, false);
    assert!(started.is_empty());
    assert!(context.is_running());
    assert_eq!(context.phase(), DispatchPhase::Running);
    context.stop();
    assert!(!context.is_running());
    assert_eq!(context.phase(), DispatchPhase::Draining);
    assert!(context.join_sessions().is_empty());
    assert_eq!(context.phase(), DispatchPhase::Terminated);
}

#[test]
fn stop_outside_a_running_loop_changes_nothing() {
    let mut context = ApplicationContext::new(1872, 1404);
    context.stop();
    assert_eq!(context.phase(), DispatchPhase::Idle);
    context.dispatch_events(false, false, false);
    context.stop();
    context.stop();
    assert_eq!(context.phase(), DispatchPhase::Draining);
    context.join_sessions();
    context.stop();
    assert_eq!(context.phase(), DispatchPhase::Terminated);
}

#[test]
fn sessions_registry_alone() {
    let mut sessions = DeviceSessions::new();
    assert!(!sessions.has_session(InputDevice::GPIO));
    assert_eq!(sessions.start(true, false, true), vec![InputDevice::Multitouch, InputDevice::GPIO]);
    assert!(sessions.has_session(InputDevice::GPIO));
    assert!(sessions.has_session(InputDevice::Multitouch));
    assert!(!sessions.has_session(InputDevice::Wacom));
    assert!(!sessions.has_session(InputDevice::Unknown));
    assert_eq!(sessions.listed(), vec![InputDevice::Multitouch, InputDevice::GPIO]);
    assert_eq!(sessions.take_all(), vec![InputDevice::Multitouch, InputDevice::GPIO]);
    assert_eq!(sessions, DeviceSessions { wacom: false, multitouch: false, gpio: false });
}
