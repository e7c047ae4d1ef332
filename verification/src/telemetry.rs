//! Telemetry aggregator: the store of the latest sensor readings, the
//! routing of broker messages into it, and the merge of a local sample with
//! a snapshot of the store.
//!
//! Sensor readings and the processor load are real numbers in single
//! precision. This module never computes with them; it carries each as its
//! 32-bit pattern, unchanged.

use vstd::prelude::*;
use vstd::string::*;

verus! {

/// Seconds between two aggregation ticks.
pub const TICK_SECONDS: u64 = 2;

/// The port of the message broker.
pub const BROKER_PORT: u16 = 1883;

/// Seconds between two keep-alive messages to the broker.
pub const BROKER_KEEP_ALIVE_SECONDS: u64 = 5;

/// How many requests to the broker may wait in its queue.
pub const BROKER_QUEUE_CAPACITY: usize = 10;

/// The latest reading of each sensor, as bit patterns. All zero at startup.
#[derive(Clone, Copy, Debug, PartialEq, Eq, Structural)]
pub struct SensorStore {
    pub temperature: u32,
    pub humidity: u32,
    pub power: u32,
}

/// The three sensors.
#[derive(Clone, Copy, Debug, PartialEq, Eq, Structural)]
pub enum SensorField {
    Temperature,
    Humidity,
    Power,
}

/// One merged reading of local and sensor metrics.
#[derive(Clone, Copy, Debug, PartialEq, Eq, Structural)]
pub struct TelemetryData {
    pub temperature: u32,
    pub humidity: u32,
    pub power: u32,
    pub cpu_load: u32,
    pub memory_load: u64,
    pub net_up: u64,
    pub net_down: u64,
}

/// The byte counters of one network interface since the previous refresh.
#[derive(Clone, Copy, Debug, PartialEq, Eq, Structural)]
pub struct InterfaceTraffic {
    pub transmitted: u64,
    pub received: u64,
}

/// The sensor that a topic feeds, if any.
pub open spec fn field_of(topic: Seq<char>) -> Option<SensorField> {
    if topic == "sensor/temp"@ {
        Some(SensorField::Temperature)
    } else if topic == "sensor/humidity"@ {
        Some(SensorField::Humidity)
    } else if topic == "sensor/power"@ {
        Some(SensorField::Power)
    } else {
        None
    }
}

/// A payload that did not parse counts as zero, whose bit pattern is zero.
pub open spec fn normalized(reading: Option<u32>) -> u32 {
    match reading {
        Some(bits) => bits,
        None => 0,
    }
}

/// Bytes sent over all interfaces.
pub open spec fn total_transmitted(interfaces: Seq<InterfaceTraffic>) -> int
    decreases interfaces.len(),
{
    if interfaces.len() == 0 {
        0
    } else {
        total_transmitted(interfaces.drop_last()) + interfaces.last().transmitted
    }
}

/// Bytes received over all interfaces.
pub open spec fn total_received(interfaces: Seq<InterfaceTraffic>) -> int
    decreases interfaces.len(),
{
    if interfaces.len() == 0 {
        0
    } else {
        total_received(interfaces.drop_last()) + interfaces.last().received
    }
}

impl SensorStore {
    /// The store after a reading arrived on `topic`: the one field that the
    /// topic feeds holds the normalized reading, the others are untouched; a
    /// topic that feeds no field changes nothing.
    pub open spec fn recorded(self, topic: Seq<char>, reading: Option<u32>) -> SensorStore {
        match field_of(topic) {
            Some(SensorField::Temperature) => SensorStore {
                temperature: normalized(reading),
                ..self
            },
            Some(SensorField::Humidity) => SensorStore { humidity: normalized(reading), ..self },
            Some(SensorField::Power) => SensorStore { power: normalized(reading), ..self },
            None => self,
        }
    }

    /// The merge of this store with a local sample.
    pub open spec fn merged(
        self,
        cpu_load: u32,
        memory_used: u64,
        net_up: u64,
        net_down: u64,
    ) -> TelemetryData {
        TelemetryData {
            temperature: self.temperature,
            humidity: self.humidity,
            power: self.power,
            cpu_load,
            memory_load: memory_used,
            net_up,
            net_down,
        }
    }

    /// The store at startup.
    pub fn new() -> (store: SensorStore)
        ensures
            store == (SensorStore { temperature: 0, humidity: 0, power: 0 }),
    {
        SensorStore { temperature: 0, humidity: 0, power: 0 }
    }

    /// Writes one reading into the field that `topic` feeds. `reading` is
    /// the parsed payload, `None` where it did not parse.
    pub fn record(&mut self, topic: &str, reading: Option<u32>)
        ensures
            *final(self) == old(self).recorded(topic@, reading),
    {
        let value = normalize_reading(reading);
        match field_of_topic(topic) {
            Some(SensorField::Temperature) => {
                self.temperature = value;
            },
            Some(SensorField::Humidity) => {
                self.humidity = value;
            },
            Some(SensorField::Power) => {
                self.power = value;
            },
            None => {},
        }
    }

    /// Reads all three fields together.
    pub fn snapshot(&self) -> (copy: SensorStore)
        ensures
            copy == *self,
    {
        *self
    }

    /// Merges one snapshot of the store with a local sample. The three
    /// sensor fields of the result are those of this one store value.
    pub fn merge(&self, cpu_load: u32, memory_used: u64, net_up: u64, net_down: u64) -> (data:
        TelemetryData)
        ensures
            data == self.merged(cpu_load, memory_used, net_up, net_down),
    {
        let copy = self.snapshot();
        TelemetryData {
            temperature: copy.temperature,
            humidity: copy.humidity,
            power: copy.power,
            cpu_load,
            memory_load: memory_used,
            net_up,
            net_down,
        }
    }
}

/// The bus event that carries a telemetry snapshot.
pub fn telemetry_event() -> (name: &'static str)
    ensures
        name@ == "iot-data"@,
{
    "iot-data"
}

/// The name under which the subscriber connects to the broker.
pub fn broker_client_id() -> (id: &'static str)
    ensures
        id@ == "aether-pc-client"@,
{
    "aether-pc-client"
}

/// The host of the message broker.
pub fn broker_host() -> (host: &'static str)
    ensures
        host@ == "localhost"@,
{
    "localhost"
}

fn same_text(a: &str, b: &str) -> (r: bool)
    ensures
        r == (a@ == b@),
{
    String::from_str(a) == String::from_str(b)
}

/// The topics to subscribe to, in the order of subscription.
pub fn sensor_topics() -> (topics: Vec<String>)
    ensures
        topics.deep_view() == seq!["sensor/temp"@, "sensor/humidity"@, "sensor/power"@],
{
    let mut topics: Vec<String> = Vec::new();
    topics.push(String::from_str("sensor/temp"));
    topics.push(String::from_str("sensor/humidity"));
    topics.push(String::from_str("sensor/power"));
    assert(topics.deep_view() =~= seq!["sensor/temp"@, "sensor/humidity"@, "sensor/power"@]);
    topics
}

/// Finds the sensor that a topic feeds.
pub fn field_of_topic(topic: &str) -> (r: Option<SensorField>)
    ensures
        r == field_of(topic@),
{
    if same_text(topic, "sensor/temp") {
        Some(SensorField::Temperature)
    } else if same_text(topic, "sensor/humidity") {
        Some(SensorField::Humidity)
    } else if same_text(topic, "sensor/power") {
        Some(SensorField::Power)
    } else {
        None
    }
}

/// Replaces a payload that did not parse by zero.
pub fn normalize_reading(reading: Option<u32>) -> (bits: u32)
    ensures
        bits == normalized(reading),
{
    match reading {
        Some(bits) => bits,
        None => 0,
    }
}

/// A reading changes at most the one field that its topic feeds.
pub proof fn recording_changes_one_field(store: SensorStore, topic: Seq<char>, reading: Option<u32>)
    ensures
        field_of(topic) != Some(SensorField::Temperature) ==> store.recorded(
            topic,
            reading,
        ).temperature == store.temperature,
        field_of(topic) != Some(SensorField::Humidity) ==> store.recorded(topic, reading).humidity
            == store.humidity,
        field_of(topic) != Some(SensorField::Power) ==> store.recorded(topic, reading).power
            == store.power,
{
}

/// The total over a prefix never exceeds the total over the whole.
proof fn prefix_totals_bounded(interfaces: Seq<InterfaceTraffic>, n: int)
    requires
        0 <= n <= interfaces.len(),
    ensures
        0 <= total_transmitted(interfaces.subrange(0, n)) <= total_transmitted(interfaces),
        0 <= total_received(interfaces.subrange(0, n)) <= total_received(interfaces),
    decreases interfaces.len() - n,
{
    if n == interfaces.len() {
        assert(interfaces.subrange(0, n) =~= interfaces);
        nonnegative_totals(interfaces);
    } else {
        prefix_totals_bounded(interfaces, n + 1);
        assert(interfaces.subrange(0, n + 1).drop_last() =~= interfaces.subrange(0, n));
        nonnegative_totals(interfaces.subrange(0, n));
    }
}

proof fn nonnegative_totals(interfaces: Seq<InterfaceTraffic>)
    ensures
        0 <= total_transmitted(interfaces),
        0 <= total_received(interfaces),
    decreases interfaces.len(),
{
    if interfaces.len() > 0 {
        nonnegative_totals(interfaces.drop_last());
    }
}

/// Where no counter of the later sample lies below its counter in the
/// earlier one, neither total of the later sample lies below the earlier
/// total.
pub proof fn totals_never_fall(earlier: Seq<InterfaceTraffic>, later: Seq<InterfaceTraffic>)
    requires
        earlier.len() == later.len(),
        forall|i: int|
            0 <= i < earlier.len() ==> earlier[i].transmitted <= later[i].transmitted
                && earlier[i].received <= later[i].received,
    ensures
        total_transmitted(earlier) <= total_transmitted(later),
        total_received(earlier) <= total_received(later),
    decreases earlier.len(),
{
    if earlier.len() > 0 {
        totals_never_fall(earlier.drop_last(), later.drop_last());
    }
}

/// Sums the counters of all interfaces: sent first, received second.
/// `None` exactly where one of the two totals does not fit in 64 bits.
pub fn sum_traffic(interfaces: &Vec<InterfaceTraffic>) -> (totals: Option<(u64, u64)>)
    ensures
        totals is Some <==> total_transmitted(interfaces@) <= u64::MAX && total_received(
            interfaces@,
        ) <= u64::MAX,
        totals matches Some(t) ==> (t.0 == total_transmitted(interfaces@) && t.1
            == total_received(interfaces@)),
{
    let mut up: u64 = 0;
    let mut down: u64 = 0;
    let mut i: usize = 0;
    while i < interfaces.len()
        invariant
            i <= interfaces@.len(),
            up == total_transmitted(interfaces@.subrange(0, i as int)),
            down == total_received(interfaces@.subrange(0, i as int)),
        decreases interfaces@.len() - i,
    {
        let counters = interfaces[i];
        proof {
            assert(interfaces@.subrange(0, i + 1).drop_last() =~= interfaces@.subrange(
                0,
                i as int,
            ));
            prefix_totals_bounded(interfaces@, i + 1);
        }
        if counters.transmitted > u64::MAX - up || counters.received > u64::MAX - down {
            return None;
        }
        up = up + counters.transmitted;
        down = down + counters.received;
        i = i + 1;
    }
    assert(interfaces@.subrange(0, i as int) =~= interfaces@);
    Some((up, down))
}

/// Produces the snapshot of one aggregation tick from the store and the
/// local sample. `None` exactly where a traffic total does not fit in 64
/// bits.
pub fn aggregate(
    store: &SensorStore,
    cpu_load: u32,
    memory_used: u64,
    interfaces: &Vec<InterfaceTraffic>,
) -> (data: Option<TelemetryData>)
    ensures
        data is Some <==> total_transmitted(interfaces@) <= u64::MAX && total_received(
            interfaces@,
        ) <= u64::MAX,
        data matches Some(d) ==> d == store.merged(
            cpu_load,
            memory_used,
            total_transmitted(interfaces@) as u64,
            total_received(interfaces@) as u64,
        ),
{
    match sum_traffic(interfaces) {
        Some((up, down)) => Some(store.merge(cpu_load, memory_used, up, down)),
        None => None,
    }
}

} // verus!
