//! Lighting devices: the records shown for the controllers of the lighting
//! service, and the values handed to it when a colour is set.

use vstd::prelude::*;
use vstd::string::*;

verus! {

/// One lighting device as reported to the caller.
#[derive(Clone, Debug)]
pub struct RGBDevice {
    pub name: String,
    pub index: i32,
    pub modes: Vec<String>,
    pub led_count: usize,
}

/// What a `RGBDevice` holds, as plain values.
pub struct RgbDeviceText {
    pub name: Seq<char>,
    pub index: i32,
    pub modes: Seq<Seq<char>>,
    pub led_count: usize,
}

impl DeepView for RGBDevice {
    type V = RgbDeviceText;

    open spec fn deep_view(&self) -> RgbDeviceText {
        RgbDeviceText {
            name: self.name@,
            index: self.index,
            modes: self.modes.deep_view(),
            led_count: self.led_count,
        }
    }
}

/// What the lighting service told about one controller.
#[derive(Clone, Debug)]
pub struct ControllerInfo {
    pub name: String,
    pub modes: Vec<String>,
    pub led_count: usize,
}

/// One colour.
#[derive(Clone, Copy, Debug, PartialEq, Eq, Structural)]
pub struct Color {
    pub r: u8,
    pub g: u8,
    pub b: u8,
}

/// The record of the controller at `index`.
pub open spec fn device_of(index: u32, controller: ControllerInfo) -> RgbDeviceText {
    RgbDeviceText {
        name: controller.name@,
        index: index as i32,
        modes: controller.modes.deep_view(),
        led_count: controller.led_count,
    }
}

/// The single record shown while the lighting service cannot be reached.
pub open spec fn offline_device() -> RgbDeviceText {
    RgbDeviceText {
        name: "Emulator/Stub (OpenRGB Offline)"@,
        index: -1i32,
        modes: seq!["Static"@],
        led_count: 0,
    }
}

/// The records of the first `n` controllers, in order, without those whose
/// query failed.
pub open spec fn devices_of(found: Seq<Option<ControllerInfo>>, n: nat) -> Seq<RgbDeviceText>
    decreases n,
{
    if n == 0 || n > found.len() {
        Seq::empty()
    } else {
        let earlier = devices_of(found, (n - 1) as nat);
        match found[n - 1] {
            Some(controller) => earlier.push(device_of((n - 1) as u32, controller)),
            None => earlier,
        }
    }
}

fn copy_texts(texts: &Vec<String>) -> (copy: Vec<String>)
    ensures
        copy.deep_view() == texts.deep_view(),
{
    let mut copy: Vec<String> = Vec::new();
    let mut i: usize = 0;
    while i < texts.len()
        invariant
            i <= texts@.len(),
            copy@.len() == i,
            forall|j: int| 0 <= j < i ==> copy@[j]@ == texts@[j]@,
        decreases texts@.len() - i,
    {
        copy.push(texts[i].clone());
        i = i + 1;
    }
    assert(copy.deep_view() =~= texts.deep_view());
    copy
}

/// Builds the record of one controller.
pub fn describe_controller(index: u32, controller: &ControllerInfo) -> (device: RGBDevice)
    ensures
        device.deep_view() == device_of(index, *controller),
{
    RGBDevice {
        name: controller.name.clone(),
        index: index as i32,
        modes: copy_texts(&controller.modes),
        led_count: controller.led_count,
    }
}

/// Builds the list shown while the lighting service cannot be reached.
pub fn offline_devices() -> (devices: Vec<RGBDevice>)
    ensures
        devices.deep_view() == seq![offline_device()],
{
    let mut modes: Vec<String> = Vec::new();
    modes.push(String::from_str("Static"));
    assert(modes.deep_view() =~= seq!["Static"@]);
    let mut devices: Vec<RGBDevice> = Vec::new();
    devices.push(
        RGBDevice {
            name: String::from_str("Emulator/Stub (OpenRGB Offline)"),
            index: -1,
            modes,
            led_count: 0,
        },
    );
    assert(devices.deep_view() =~= seq![offline_device()]);
    devices
}

/// Builds the device list of one scan. `found` is `None` where the service
/// is not connected or did not tell how many controllers it has; else it
/// holds, for each controller index in order, what the query for that
/// controller returned, `None` where the query failed.
pub fn scan_rgb_devices(found: &Option<Vec<Option<ControllerInfo>>>) -> (devices: Vec<RGBDevice>)
    requires
        found matches Some(list) ==> list@.len() <= u32::MAX,
    ensures
        devices.deep_view() == (match *found {
            Some(list) => devices_of(list@, list@.len()),
            None => seq![offline_device()],
        }),
{
    match found {
        Some(list) => {
            let mut devices: Vec<RGBDevice> = Vec::new();
            let mut i: usize = 0;
            while i < list.len()
                invariant
                    i <= list@.len(),
                    list@.len() <= u32::MAX,
                    devices.deep_view() =~= devices_of(list@, i as nat),
                decreases list@.len() - i,
            {
                let ghost before = devices.deep_view();
                match &list[i] {
                    Some(controller) => {
                        let device = describe_controller(i as u32, controller);
                        devices.push(device);
                        assert(devices.deep_view() =~= before.push(
                            device_of(i as u32, *controller),
                        ));
                    },
                    None => {},
                }
                i = i + 1;
            }
            devices
        },
        None => offline_devices(),
    }
}

/// The controller that a device index names: none for a negative index.
pub fn controller_index(index: i32) -> (r: Option<u32>)
    ensures
        r == (if index < 0 {
            None
        } else {
            Some(index as u32)
        }),
{
    if index < 0 {
        None
    } else {
        Some(index as u32)
    }
}

/// One colour for each of `led_count` lights.
pub fn uniform_colors(led_count: usize, color: Color) -> (colors: Vec<Color>)
    ensures
        colors@ == Seq::new(led_count as nat, |i: int| color),
{
    let mut colors: Vec<Color> = Vec::new();
    let mut i: usize = 0;
    while i < led_count
        invariant
            i <= led_count,
            colors@ =~= Seq::new(i as nat, |j: int| color),
        decreases led_count - i,
    {
        colors.push(color);
        i = i + 1;
    }
    colors
}

} // verus!
