//! What one run of the tool is asked to do.

use vstd::prelude::*;

verus! {

/// How the device's LED is driven: off, a fixed color, or a color cycle
/// with a 16-bit speed and a brightness.
#[derive(Clone, Copy, Debug, PartialEq, Eq, Structural)]
pub enum LedMode {
    Off,
    Static { r: u8, g: u8, b: u8 },
    Cycle { speed: u16, brightness: u8 },
}

/// The device identity to match and the operations to run against each
/// matching device.
#[derive(Clone, Copy, Debug)]
pub struct Config {
    pub vendor_id: u16,
    pub product_id: u16,
    pub print_endpoints: bool,
    pub print_status: bool,
    pub clear_queue: bool,
    pub switch_to_profile: u8,
    pub write_profile: bool,
    pub write_color: bool,
    pub poll_rate: u16,
    pub dpi_array: [u16; 5],
    pub led_mode: LedMode,
}

impl Config {
    /// The defaults: match the supported device, drain the response queue,
    /// and — only where a flag asks for it — switch or write a profile at
    /// 1000 Hz with four enabled DPI slots, or set a static yellow LED.
    pub fn default() -> (r: Config)
        ensures
            r.vendor_id == 0x046d,
            r.product_id == 0xc08c,
            !r.print_endpoints,
            !r.print_status,
            r.clear_queue,
            r.switch_to_profile == 0,
            !r.write_profile,
            !r.write_color,
            r.poll_rate == 1000,
            r.dpi_array@ == seq![400u16, 800, 1600, 3200, 0],
            r.led_mode == (LedMode::Static { r: 0xff, g: 0xff, b: 0x00 }),
    {
        Config {
            vendor_id: 0x046d,
            product_id: 0xc08c,
            print_endpoints: false,
            print_status: false,
            clear_queue: true,
            switch_to_profile: 0x00,
            write_profile: false,
            write_color: false,
            poll_rate: 1000,
            dpi_array: [400, 800, 1600, 3200, 0],
            led_mode: LedMode::Static { r: 0xff, g: 0xff, b: 0x00 },
        }
    }
}

} // verus!
