use aether_core::hotplug::{
    device_change_event, device_change_payload, monitor_action, monitor_step, start_monitor,
    window_proc,
    CallbackAction, ContextTable, MonitorAction, MonitorEvent, MonitorState, DBT_DEVNODES_CHANGED,
    WM_CREATE, WM_DEVICECHANGE,
};

#[test]
fn monitor_walks_through_its_stages() {
    let (mut state, mut action) = start_monitor(false);
    assert_eq!((state, action), (MonitorState::Idle, MonitorAction::RegisterClass));
    (state, action) = monitor_step(state, MonitorEvent::ClassRegistered);
    assert_eq!((state, action), (MonitorState::Registered, MonitorAction::CreateWindow));
    (state, action) = monitor_step(state, MonitorEvent::WindowCreated);
    assert_eq!((state, action), (MonitorState::Listening, MonitorAction::RetrieveMessage));
    for _ in 0..3 {
        (state, action) = monitor_step(state, MonitorEvent::MessageDispatched);
        assert_eq!((state, action), (MonitorState::Listening, MonitorAction::RetrieveMessage));
    }
    (state, action) = monitor_step(state, MonitorEvent::RetrievalEnded);
    assert_eq!((state, action), (MonitorState::Stopped, MonitorAction::Exit));
    assert_eq!(monitor_action(state), MonitorAction::Exit);
}

#[test]
fn class_is_registered_once_per_process() {
    assert_eq!(start_monitor(false), (MonitorState::Idle, MonitorAction::RegisterClass));
    assert_eq!(start_monitor(true), (MonitorState::Registered, MonitorAction::CreateWindow));
}

#[test]
fn events_out_of_stage_change_nothing() {
    assert_eq!(
        monitor_step(MonitorState::Idle, MonitorEvent::WindowCreated),
        (MonitorState::Idle, MonitorAction::RegisterClass)
    );
    assert_eq!(
        monitor_step(MonitorState::Idle, MonitorEvent::RetrievalEnded),
        (MonitorState::Idle, MonitorAction::RegisterClass)
    );
    assert_eq!(
        monitor_step(MonitorState::Registered, MonitorEvent::ClassRegistered),
        (MonitorState::Registered, MonitorAction::CreateWindow)
    );
    assert_eq!(
        monitor_step(MonitorState::Stopped, MonitorEvent::MessageDispatched),
        (MonitorState::Stopped, MonitorAction::Exit)
    );
}

#[test]
fn table_keeps_the_first_registration() {
    let mut table = ContextTable::new();
    assert_eq!(table.lookup(7), None);
    assert!(table.register(7, 1000));
    assert!(table.register(8, 2000));
    assert!(!table.register(7, 3000));
    assert_eq!(table.lookup(7), Some(1000));
    assert_eq!(table.lookup(8), Some(2000));
    assert_eq!(table.lookup(9), None);
}

#[test]
fn creation_message_registers_the_context() {
    let mut table = ContextTable::new();
    let action = window_proc(&mut table, 42, WM_CREATE, 0, 0xbeef);
    assert_eq!(action, CallbackAction::PassOn);
    assert_eq!(table.lookup(42), Some(0xbeef));
}

#[test]
fn device_tree_change_notifies_through_the_registered_handle() {
    let mut table = ContextTable::new();
    window_proc(&mut table, 42, WM_CREATE, 0, 0xbeef);
    let action = window_proc(&mut table, 42, WM_DEVICECHANGE, DBT_DEVNODES_CHANGED, 0);
    assert_eq!(action, CallbackAction::Notify { handle: 0xbeef });
    assert_eq!(table.lookup(42), Some(0xbeef));
    assert_eq!(device_change_event(), "device-change");
    assert_eq!(device_change_payload(), "refresh");
}

#[test]
fn other_device_notifications_are_passed_on() {
    let mut table = ContextTable::new();
    window_proc(&mut table, 42, WM_CREATE, 0, 0xbeef);
    assert_eq!(window_proc(&mut table, 42, WM_DEVICECHANGE, 0x8000, 0), CallbackAction::PassOn);
    assert_eq!(window_proc(&mut table, 42, WM_DEVICECHANGE, 0, 0), CallbackAction::PassOn);
}

#[test]
fn other_messages_are_passed_on() {
    let mut table = ContextTable::new();
    window_proc(&mut table, 42, WM_CREATE, 0, 0xbeef);
    assert_eq!(window_proc(&mut table, 42, 0x000f, DBT_DEVNODES_CHANGED, 5), CallbackAction::PassOn);
    assert_eq!(table.lookup(42), Some(0xbeef));
}

#[test]
fn change_for_an_unknown_window_is_passed_on() {
    let mut table = ContextTable::new();
    window_proc(&mut table, 42, WM_CREATE, 0, 0xbeef);
    let action = window_proc(&mut table, 43, WM_DEVICECHANGE, DBT_DEVNODES_CHANGED, 0);
    assert_eq!(action, CallbackAction::PassOn);
    assert_eq!(table.lookup(43), None);
}

#[test]
fn message_codes_are_those_of_the_platform() {
    assert_eq!(WM_CREATE, 1);
    assert_eq!(WM_DEVICECHANGE, 0x0219);
    assert_eq!(DBT_DEVNODES_CHANGED, 7);
}

#[test]
fn creation_without_a_context_registers_nothing() {
    let mut table = ContextTable::new();
    assert_eq!(window_proc(&mut table, 42, WM_CREATE, 0, 0), CallbackAction::PassOn);
    assert_eq!(table.lookup(42), None);
    let action = window_proc(&mut table, 42, WM_DEVICECHANGE, DBT_DEVNODES_CHANGED, 0);
    assert_eq!(action, CallbackAction::PassOn);
}

#[test]
fn second_creation_message_keeps_the_first_context() {
    let mut table = ContextTable::new();
    window_proc(&mut table, 42, WM_CREATE, 0, 0xbeef);
    window_proc(&mut table, 42, WM_CREATE, 0, 0xcafe);
    assert_eq!(table.lookup(42), Some(0xbeef));
}
