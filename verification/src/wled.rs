//! WLED device auto-configuration.
//!
//! Values fetched from a WLED device's JSON API fill in the LED settings that
//! the local configuration leaves unset.
use crate::config::LedConfig;
use crate::util::{order_name, ColorOrder};
use vstd::prelude::*;

verus! {

/// The byte order that WLED's numeric colour-order code stands for (only the
/// low four bits count; unknown codes mean GRB).
pub open spec fn wled_color_order(code: u8) -> ColorOrder {
    let c = code % 16;
    if c == 1 {
        ColorOrder::Rgb
    } else if c == 2 {
        ColorOrder::Brg
    } else if c == 3 {
        ColorOrder::Rbg
    } else if c == 4 {
        ColorOrder::Bgr
    } else if c == 5 {
        ColorOrder::Gbr
    } else {
        ColorOrder::Grb
    }
}

/// The colour order for WLED's numeric code.
fn wled_order(code: u8) -> (o: ColorOrder)
    ensures
        o == wled_color_order(code),
{
    let c = code & 0x0F;
    assert(c == code % 16) by (bit_vector)
        requires
            c == code & 0x0F,
    ;
    if c == 1 {
        ColorOrder::Rgb
    } else if c == 2 {
        ColorOrder::Brg
    } else if c == 3 {
        ColorOrder::Rbg
    } else if c == 4 {
        ColorOrder::Bgr
    } else if c == 5 {
        ColorOrder::Gbr
    } else {
        ColorOrder::Grb
    }
}

/// The name of the colour order ("GRB", "RGB", ...) for WLED's numeric code.
pub fn color_order_from_wled(code: u8) -> (name: &'static str)
    ensures
        name@ == order_name(wled_color_order(code)),
{
    wled_order(code).name()
}

/// Merge values read from a WLED controller into `led_config`.
///
/// `device_count` is the LED count the device reported (`None` when it
/// could not be read); `device_order` is the colour-order code of the
/// device's first LED output (`None` when the configuration could not be
/// read or lists no output). Only fields that are unset are filled in.
/// Returns whether any field was filled in.
pub fn apply_wled_config(
    led_config: &mut LedConfig,
    device_count: Option<usize>,
    device_order: Option<u8>,
) -> (changed: bool)
    ensures
        final(led_config).count == if old(led_config).count is None {
            device_count
        } else {
            old(led_config).count
        },
        old(led_config).rgb_order is Some ==> final(led_config).rgb_order
            == old(led_config).rgb_order,
        old(led_config).rgb_order is None ==> match device_order {
            Some(code) => (final(led_config).rgb_order matches Some(s) && s@ == order_name(
                wled_color_order(code),
            )),
            None => final(led_config).rgb_order is None,
        },
        changed == ((old(led_config).count is None && device_count is Some)
            || (old(led_config).rgb_order is None && device_order is Some)),
{
    let mut changed = false;
    if led_config.count.is_none() {
        if let Some(count) = device_count {
            led_config.count = Some(count);
            changed = true;
        }
    }
    if led_config.rgb_order.is_none() {
        if let Some(code) = device_order {
            led_config.rgb_order = Some(color_order_from_wled(code).to_owned());
            changed = true;
        }
    }
    changed
}

} // verus!
