//! Device registry: turning the raw property reads of one enumeration pass
//! into the list of device records handed to the caller.

use vstd::prelude::*;
use vstd::string::*;
use crate::text::{decimal, decimal_is_nonempty, decode_utf16, render_decimal, utf16_text};

verus! {

/// The size in bytes of the buffer that a property is read into.
pub const PROPERTY_BUFFER_BYTES: usize = 1024;

/// One device as reported to the caller.
#[derive(Clone, Debug)]
pub struct DeviceInfo {
    pub name: String,
    pub id: String,
    pub class: String,
}

/// What a `DeviceInfo` holds, as plain text.
pub struct DeviceRecord {
    pub name: Seq<char>,
    pub hardware_id: Seq<char>,
    pub class: Seq<char>,
}

impl DeepView for DeviceInfo {
    type V = DeviceRecord;

    open spec fn deep_view(&self) -> DeviceRecord {
        DeviceRecord { name: self.name@, hardware_id: self.id@, class: self.class@ }
    }
}

/// The three descriptive properties read for one device; `None` where the
/// read failed.
#[derive(Clone, Debug)]
pub struct DeviceProperties {
    pub friendly_name: Option<String>,
    pub description: Option<String>,
    pub hardware_id: Option<String>,
}

/// What a `DeviceProperties` holds, as plain text.
pub struct PropertyTexts {
    pub friendly_name: Option<Seq<char>>,
    pub description: Option<Seq<char>>,
    pub hardware_id: Option<Seq<char>>,
}

impl DeepView for DeviceProperties {
    type V = PropertyTexts;

    open spec fn deep_view(&self) -> PropertyTexts {
        PropertyTexts {
            friendly_name: self.friendly_name.deep_view(),
            description: self.description.deep_view(),
            hardware_id: self.hardware_id.deep_view(),
        }
    }
}

/// The name given to a device none of whose names could be read.
pub open spec fn placeholder_name() -> Seq<char> {
    "Unknown Device"@
}

/// The class reported for every device.
pub open spec fn generic_class() -> Seq<char> {
    "Generic"@
}

/// A property counts as read only if it holds at least one character.
pub open spec fn present(p: Option<Seq<char>>) -> bool {
    p matches Some(t) && t.len() > 0
}

/// Friendly name first, then the description, then the placeholder.
pub open spec fn resolved_name(friendly: Option<Seq<char>>, description: Option<Seq<char>>) -> Seq<
    char,
> {
    if present(friendly) {
        friendly->0
    } else if present(description) {
        description->0
    } else {
        placeholder_name()
    }
}

/// The identifier made up for the device at `index` of the enumeration.
pub open spec fn synthetic_id(index: nat) -> Seq<char> {
    "UNK_"@ + decimal(index)
}

/// The hardware id as read, or the synthetic one.
pub open spec fn resolved_id(hardware_id: Option<Seq<char>>, index: nat) -> Seq<char> {
    if present(hardware_id) {
        hardware_id->0
    } else {
        synthetic_id(index)
    }
}

/// A device is listed unless its name resolves to the placeholder.
pub open spec fn is_listed(p: PropertyTexts) -> bool {
    resolved_name(p.friendly_name, p.description) != placeholder_name()
}

/// The record of the device at `index`.
pub open spec fn record_of(p: PropertyTexts, index: nat) -> DeviceRecord {
    DeviceRecord {
        name: resolved_name(p.friendly_name, p.description),
        hardware_id: resolved_id(p.hardware_id, index),
        class: generic_class(),
    }
}

/// The records of the first `n` devices of an enumeration, in order, without
/// those that are not listed.
pub open spec fn records_of(raw: Seq<PropertyTexts>, n: nat) -> Seq<DeviceRecord>
    decreases n,
{
    if n == 0 || n > raw.len() {
        Seq::empty()
    } else {
        let earlier = records_of(raw, (n - 1) as nat);
        if is_listed(raw[n - 1]) {
            earlier.push(record_of(raw[n - 1], (n - 1) as nat))
        } else {
            earlier
        }
    }
}

/// No record of an enumeration carries the placeholder as its name, and
/// none has an empty hardware id.
pub proof fn listed_records_are_named(raw: Seq<PropertyTexts>, n: nat)
    ensures
        forall|j: int|
            0 <= j < records_of(raw, n).len() ==> (#[trigger] records_of(raw, n)[j]).name
                != placeholder_name() && records_of(raw, n)[j].hardware_id.len() > 0,
    decreases n,
{
    if n == 0 || n > raw.len() {
    } else {
        listed_records_are_named(raw, (n - 1) as nat);
        decimal_is_nonempty((n - 1) as nat);
        let earlier = records_of(raw, (n - 1) as nat);
        let last = record_of(raw[n - 1], (n - 1) as nat);
        assert(last.hardware_id.len() > 0);
        assert forall|j: int| 0 <= j < records_of(raw, n).len() implies (#[trigger] records_of(
            raw,
            n,
        )[j]).name != placeholder_name() && records_of(raw, n)[j].hardware_id.len() > 0 by {
            if j < earlier.len() {
                assert(records_of(raw, n)[j] == earlier[j]);
            } else {
                assert(records_of(raw, n)[j] == last);
            }
        }
    }
}

/// The UTF-16 units that a property read left in `buffer`: `required_size`
/// counts bytes, two to a unit, low byte first. `None` where the size
/// exceeds the buffer.
pub open spec fn units_in(buffer: Seq<u8>, required_size: nat) -> Option<Seq<u16>> {
    if required_size > buffer.len() {
        None
    } else {
        Some(
            Seq::new(
                required_size / 2,
                |k: int| (buffer[2 * k] as int + 256 * (buffer[2 * k + 1] as int)) as u16,
            ),
        )
    }
}

/// The units without one terminating zero, if there is one.
pub open spec fn without_terminator(units: Seq<u16>) -> Seq<u16> {
    if units.len() > 0 && units.last() == 0 {
        units.drop_last()
    } else {
        units
    }
}

/// A decoded text, kept only if it holds at least one character.
pub open spec fn kept_text(decoded: Option<Seq<char>>) -> Option<Seq<char>> {
    if present(decoded) {
        decoded
    } else {
        None
    }
}

/// The value of a property after a read that filled `buffer`.
pub open spec fn property_text(buffer: Seq<u8>, required_size: nat) -> Option<Seq<char>> {
    match units_in(buffer, required_size) {
        Some(units) => kept_text(utf16_text(without_terminator(units))),
        None => None,
    }
}

/// Collects the UTF-16 units of a property from the bytes of its buffer and
/// strips one terminating zero.
pub fn property_units(buffer: &Vec<u8>, required_size: usize) -> (r: Option<Vec<u16>>)
    ensures
        match units_in(buffer@, required_size as nat) {
            Some(units) => r matches Some(v) && v@ == without_terminator(units),
            None => r is None,
        },
{
    if required_size > buffer.len() {
        return None;
    }
    let count: usize = required_size / 2;
    let mut units: Vec<u16> = Vec::new();
    let mut k: usize = 0;
    while k < count
        invariant
            k <= count,
            count == required_size / 2,
            required_size <= buffer.len(),
            units@.len() == k,
            forall|j: int|
                0 <= j < k ==> units@[j] == (buffer@[2 * j] as int + 256 * (buffer@[2 * j
                    + 1] as int)) as u16,
        decreases count - k,
    {
        let lo: u16 = buffer[2 * k] as u16;
        let hi: u16 = buffer[2 * k + 1] as u16;
        units.push(lo + 256 * hi);
        k = k + 1;
    }
    assert(units@ =~= units_in(buffer@, required_size as nat)->0);
    if count > 0 && units[count - 1] == 0 {
        units.pop();
        assert(units@ =~= without_terminator(units_in(buffer@, required_size as nat)->0));
    }
    Some(units)
}

/// Treats an empty text as absent.
pub fn keep_text(decoded: Option<String>) -> (r: Option<String>)
    ensures
        r.deep_view() == kept_text(decoded.deep_view()),
{
    match decoded {
        Some(t) => {
            if t.as_str().is_empty() {
                None
            } else {
                Some(t)
            }
        },
        None => None,
    }
}

/// Reads the text of a property out of the buffer that the read filled. A
/// size beyond the buffer, units that are no valid UTF-16, and an empty text
/// all count as an absent property.
pub fn decode_property(buffer: &Vec<u8>, required_size: usize) -> (r: Option<String>)
    ensures
        r.deep_view() == property_text(buffer@, required_size as nat),
{
    match property_units(buffer, required_size) {
        Some(units) => keep_text(decode_utf16(units.as_slice())),
        None => None,
    }
}

fn has_text(p: &Option<String>) -> (r: bool)
    ensures
        r == present(p.deep_view()),
{
    match p {
        Some(t) => !t.as_str().is_empty(),
        None => false,
    }
}

/// Resolves the name of a device: the friendly name, else the description,
/// else the placeholder.
pub fn resolve_name(friendly: &Option<String>, description: &Option<String>) -> (name: String)
    ensures
        name@ == resolved_name(friendly.deep_view(), description.deep_view()),
{
    if has_text(friendly) {
        match friendly {
            Some(t) => t.clone(),
            None => String::from_str("Unknown Device"),
        }
    } else if has_text(description) {
        match description {
            Some(t) => t.clone(),
            None => String::from_str("Unknown Device"),
        }
    } else {
        String::from_str("Unknown Device")
    }
}

/// Resolves the hardware id of the device at `index`: the id as read, else
/// `UNK_` followed by the index.
pub fn resolve_id(hardware_id: &Option<String>, index: usize) -> (id: String)
    ensures
        id@ == resolved_id(hardware_id.deep_view(), index as nat),
        id@.len() > 0,
{
    proof {
        decimal_is_nonempty(index as nat);
    }
    if has_text(hardware_id) {
        match hardware_id {
            Some(t) => t.clone(),
            None => String::new(),
        }
    } else {
        let mut id = String::from_str("UNK_");
        let digits = render_decimal(index);
        id.append(digits.as_str());
        id
    }
}

/// Builds the device list of one enumeration pass. `raw` holds the property
/// reads of every device visited, in enumeration order. Devices without a
/// readable name are left out; every device listed has a name other than
/// the placeholder and a hardware id of at least one character.
pub fn enumerate_devices(raw: &Vec<DeviceProperties>) -> (devices: Vec<DeviceInfo>)
    ensures
        devices.deep_view() == records_of(raw.deep_view(), raw@.len()),
        forall|j: int|
            0 <= j < devices@.len() ==> (#[trigger] devices@[j]).name@ != placeholder_name()
                && devices@[j].id@.len() > 0,
{
    let mut devices: Vec<DeviceInfo> = Vec::new();
    let placeholder = String::from_str("Unknown Device");
    let mut i: usize = 0;
    while i < raw.len()
        invariant
            i <= raw@.len(),
            placeholder@ == placeholder_name(),
            devices.deep_view() =~= records_of(raw.deep_view(), i as nat),
            forall|j: int|
                0 <= j < devices@.len() ==> (#[trigger] devices@[j]).name@ != placeholder_name()
                    && devices@[j].id@.len() > 0,
        decreases raw@.len() - i,
    {
        let p = &raw[i];
        let name = resolve_name(&p.friendly_name, &p.description);
        let id = resolve_id(&p.hardware_id, i);
        let ghost before = devices.deep_view();
        assert(raw.deep_view()[i as int] == p.deep_view());
        if name != placeholder {
            let device = DeviceInfo { name, id, class: String::from_str("Generic") };
            devices.push(device);
            assert(devices.deep_view() =~= before.push(record_of(p.deep_view(), i as nat)));
        }
        i = i + 1;
    }
    devices
}

/// The address reported where the local address cannot be found.
pub open spec fn loopback_address() -> Seq<char> {
    "127.0.0.1"@
}

/// The local address as found, else the loopback address.
pub fn local_ip_or_loopback(found: Option<String>) -> (address: String)
    ensures
        address@ == (match found {
            Some(ip) => ip@,
            None => loopback_address(),
        }),
{
    match found {
        Some(ip) => ip,
        None => String::from_str("127.0.0.1"),
    }
}

} // verus!
