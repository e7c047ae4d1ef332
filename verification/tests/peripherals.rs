use aether_core::driver::{check_driver_status, lowered_name_matches, process_matches};
use aether_core::rgb::{
    controller_index, describe_controller, offline_devices, scan_rgb_devices, uniform_colors, Color,
    ControllerInfo,
};

fn controller(name: &str, modes: &[&str], led_count: usize) -> ControllerInfo {
    ControllerInfo {
        name: name.to_string(),
        modes: modes.iter().map(|m| m.to_string()).collect(),
        led_count,
    }
}

#[test]
fn driver_is_found_whatever_the_case() {
    let processes = vec!["explorer.exe".to_string(), "LGHUB.exe".to_string()];
    assert!(check_driver_status(&processes, "lghub"));
    assert!(check_driver_status(&processes, "LgHub"));
    assert!(check_driver_status(&processes, "EXPLORER"));
    assert!(!check_driver_status(&processes, "icue"));
    assert!(!check_driver_status(&Vec::new(), "lghub"));
}

#[test]
fn process_name_matching_is_by_substring() {
    assert!(process_matches("LGHUB_agent.exe", "hub_AGENT"));
    assert!(!process_matches("hub", "lghub"));
    assert!(process_matches("anything", ""));
    assert!(lowered_name_matches("lghub.exe", "lghub"));
    assert!(!lowered_name_matches("lghub.exe", "LGHUB"));
}

#[test]
fn offline_scan_shows_the_stub() {
    let devices = scan_rgb_devices(&None);
    assert_eq!(devices.len(), 1);
    assert_eq!(devices[0].name, "Emulator/Stub (OpenRGB Offline)");
    assert_eq!(devices[0].index, -1);
    assert_eq!(devices[0].modes, vec!["Static".to_string()]);
    assert_eq!(devices[0].led_count, 0);
    let stub = offline_devices();
    assert_eq!(stub.len(), 1);
    assert_eq!(stub[0].index, -1);
}

#[test]
fn scan_lists_controllers_that_answered() {
    let found = Some(vec![
        Some(controller("Keyboard", &["Static", "Wave"], 104)),
        None,
        Some(controller("Strip", &[], 30)),
    ]);
    let devices = scan_rgb_devices(&found);
    assert_eq!(devices.len(), 2);
    assert_eq!(devices[0].name, "Keyboard");
    assert_eq!(devices[0].index, 0);
    assert_eq!(devices[0].modes, vec!["Static".to_string(), "Wave".to_string()]);
    assert_eq!(devices[0].led_count, 104);
    assert_eq!(devices[1].name, "Strip");
    assert_eq!(devices[1].index, 2);
    assert!(devices[1].modes.is_empty());
    assert_eq!(devices[1].led_count, 30);
}

#[test]
fn scan_of_no_controllers_is_empty() {
    assert!(scan_rgb_devices(&Some(Vec::new())).is_empty());
}

#[test]
fn controller_record_keeps_its_index() {
    let device = describe_controller(5, &controller("Fan", &["Direct"], 8));
    assert_eq!(device.index, 5);
    assert_eq!(device.name, "Fan");
    assert_eq!(device.led_count, 8);
}

#[test]
fn negative_index_names_no_controller() {
    assert_eq!(controller_index(-1), None);
    assert_eq!(controller_index(i32::MIN), None);
    assert_eq!(controller_index(0), Some(0));
    assert_eq!(controller_index(17), Some(17));
}

#[test]
fn every_light_gets_the_colour() {
    let colour = Color { r: 255, g: 16, b: 0 };
    assert_eq!(uniform_colors(3, colour), vec![colour, colour, colour]);
    assert!(uniform_colors(0, colour).is_empty());
}
