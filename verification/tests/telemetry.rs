use aether_core::telemetry::{
    broker_client_id, broker_host, telemetry_event, BROKER_KEEP_ALIVE_SECONDS, BROKER_PORT,
    BROKER_QUEUE_CAPACITY, TICK_SECONDS,
    aggregate, field_of_topic, normalize_reading, sensor_topics, sum_traffic, InterfaceTraffic,
    SensorField, SensorStore,
};

fn parse(payload: &str) -> Option<u32> {
    payload.parse::<f32>().ok().map(f32::to_bits)
}

fn traffic(transmitted: u64, received: u64) -> InterfaceTraffic {
    InterfaceTraffic { transmitted, received }
}

#[test]
fn store_starts_zeroed() {
    let store = SensorStore::new();
    assert_eq!(f32::from_bits(store.temperature), 0.0);
    assert_eq!(f32::from_bits(store.humidity), 0.0);
    assert_eq!(f32::from_bits(store.power), 0.0);
}

#[test]
fn published_temperature_reaches_the_snapshot() {
    let mut store = SensorStore::new();
    store.record("sensor/temp", parse("21.5"));
    let data = aggregate(&store, 12.5f32.to_bits(), 1024, &vec![traffic(10, 20)]).unwrap();
    assert_eq!(f32::from_bits(data.temperature), 21.5);
    assert_eq!(f32::from_bits(data.humidity), 0.0);
    assert_eq!(f32::from_bits(data.power), 0.0);
    assert_eq!(f32::from_bits(data.cpu_load), 12.5);
    assert_eq!(data.memory_load, 1024);
    assert_eq!(data.net_up, 10);
    assert_eq!(data.net_down, 20);
}

#[test]
fn malformed_payload_is_stored_as_zero() {
    let mut store = SensorStore::new();
    store.record("sensor/temp", parse("30.25"));
    assert_eq!(f32::from_bits(store.temperature), 30.25);
    store.record("sensor/temp", parse("not-a-number"));
    assert_eq!(f32::from_bits(store.temperature), 0.0);
    assert_eq!(store.temperature, 0);
}

#[test]
fn each_topic_feeds_its_own_field() {
    let mut store = SensorStore::new();
    store.record("sensor/humidity", parse("55"));
    store.record("sensor/power", parse("120.75"));
    store.record("sensor/temp", parse("-3.5"));
    assert_eq!(f32::from_bits(store.temperature), -3.5);
    assert_eq!(f32::from_bits(store.humidity), 55.0);
    assert_eq!(f32::from_bits(store.power), 120.75);
}

#[test]
fn unknown_topic_changes_nothing() {
    let mut store = SensorStore::new();
    store.record("sensor/temp", parse("1.5"));
    let before = store;
    store.record("sensor/other", parse("9"));
    store.record("SENSOR/TEMP", parse("9"));
    store.record("", parse("9"));
    assert_eq!(store, before);
}

#[test]
fn snapshot_holds_all_three_fields_of_one_moment() {
    let mut store = SensorStore::new();
    store.record("sensor/temp", parse("1"));
    store.record("sensor/humidity", parse("2"));
    let first = store.snapshot();
    store.record("sensor/temp", parse("3"));
    store.record("sensor/humidity", parse("4"));
    let second = store.snapshot();
    assert_eq!((f32::from_bits(first.temperature), f32::from_bits(first.humidity)), (1.0, 2.0));
    assert_eq!((f32::from_bits(second.temperature), f32::from_bits(second.humidity)), (3.0, 4.0));
}

#[test]
fn topics_are_the_three_sensor_topics() {
    assert_eq!(sensor_topics(), vec!["sensor/temp", "sensor/humidity", "sensor/power"]);
    assert_eq!(field_of_topic("sensor/temp"), Some(SensorField::Temperature));
    assert_eq!(field_of_topic("sensor/humidity"), Some(SensorField::Humidity));
    assert_eq!(field_of_topic("sensor/power"), Some(SensorField::Power));
    assert_eq!(field_of_topic("sensor/temp "), None);
}

#[test]
fn normalize_keeps_parsed_bits() {
    assert_eq!(normalize_reading(Some(0x41ac0000)), 0x41ac0000);
    assert_eq!(normalize_reading(None), 0);
}

#[test]
fn traffic_is_summed_over_interfaces() {
    let interfaces = vec![traffic(100, 7), traffic(0, 0), traffic(23, 1000)];
    assert_eq!(sum_traffic(&interfaces), Some((123, 1007)));
    assert_eq!(sum_traffic(&Vec::new()), Some((0, 0)));
    assert_eq!(sum_traffic(&vec![traffic(u64::MAX, 0)]), Some((u64::MAX, 0)));
}

#[test]
fn traffic_beyond_64_bits_has_no_total() {
    assert_eq!(sum_traffic(&vec![traffic(u64::MAX, 0), traffic(1, 0)]), None);
    assert_eq!(sum_traffic(&vec![traffic(0, u64::MAX), traffic(0, 1), traffic(5, 5)]), None);
    let store = SensorStore::new();
    assert_eq!(aggregate(&store, 0, 0, &vec![traffic(u64::MAX, 0), traffic(1, 0)]), None);
}

#[test]
fn totals_do_not_fall_when_no_counter_falls() {
    let earlier = vec![traffic(10, 5), traffic(0, 0), traffic(7, 7)];
    let later = vec![traffic(10, 6), traffic(3, 0), traffic(7, 90)];
    let (up_a, down_a) = sum_traffic(&earlier).unwrap();
    let (up_b, down_b) = sum_traffic(&later).unwrap();
    assert!(up_a <= up_b);
    assert!(down_a <= down_b);
}

#[test]
fn merge_copies_the_local_sample() {
    let mut store = SensorStore::new();
    store.record("sensor/power", parse("42"));
    let data = store.merge(99.0f32.to_bits(), 8_000_000_000, 1, 2);
    assert_eq!(f32::from_bits(data.power), 42.0);
    assert_eq!(f32::from_bits(data.cpu_load), 99.0);
    assert_eq!(data.memory_load, 8_000_000_000);
    assert_eq!((data.net_up, data.net_down), (1, 2));
}

#[test]
fn broker_and_tick_settings_are_fixed() {
    assert_eq!(telemetry_event(), "iot-data");
    assert_eq!(broker_client_id(), "aether-pc-client");
    assert_eq!(broker_host(), "localhost");
    assert_eq!(BROKER_PORT, 1883);
    assert_eq!(BROKER_KEEP_ALIVE_SECONDS, 5);
    assert_eq!(BROKER_QUEUE_CAPACITY, 10);
    assert_eq!(TICK_SECONDS, 2);
}
