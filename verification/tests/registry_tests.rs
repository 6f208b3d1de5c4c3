use gopro_shell::controller::{discover, find_device, GoPro};

#[test]
fn a_new_device_is_not_recording() {
    let device = GoPro::new("studio-cam".to_string());
    assert_eq!(device.name, "studio-cam");
    assert!(!device.recording);
}

#[test]
fn record_and_stop_leave_the_entry_as_it_is() {
    let mut device = GoPro::new("studio-cam".to_string());
    device.record();
    assert!(!device.recording);
    device.stop_record();
    assert!(!device.recording);
    device.set_recording(true);
    device.record();
    assert!(device.recording);
    device.stop_record();
    assert!(device.recording);
    assert_eq!(device.name, "studio-cam");
}

#[test]
fn set_recording_sets_the_flag_and_keeps_the_name() {
    let mut device = GoPro::new("studio-cam".to_string());
    device.set_recording(true);
    assert!(device.recording);
    assert_eq!(device.name, "studio-cam");
    device.set_recording(true);
    assert!(device.recording);
    device.set_recording(false);
    assert!(!device.recording);
    assert_eq!(device.name, "studio-cam");
}

#[test]
fn discover_keeps_the_order_of_the_listing() {
    let names = vec!["b".to_string(), "a".to_string(), "b".to_string()];
    let devices = discover(&names);
    assert_eq!(devices.len(), 3);
    assert_eq!(devices[0].name, "b");
    assert_eq!(devices[1].name, "a");
    assert_eq!(devices[2].name, "b");
    assert!(devices.iter().all(|device| !device.recording));
    assert!(discover(&Vec::new()).is_empty());
}

#[test]
fn find_device_gives_the_first_place() {
    let devices = discover(&vec!["one".to_string(), "Two".to_string(), "TWO".to_string()]);
    assert_eq!(find_device(&devices, "two"), Some(1));
    assert_eq!(find_device(&devices, "ONE"), Some(0));
    assert_eq!(find_device(&devices, "three"), None);
    assert_eq!(find_device(&Vec::new(), "one"), None);
}
