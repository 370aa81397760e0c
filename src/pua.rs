//! Strings with Unicode Private Use Area characters for UI Sprites
use vstd::prelude::*;

verus! {

pub const BATTERY_05: &'static str = "\u{E700}";
pub const BATTERY_25: &'static str = "\u{E701}";
pub const BATTERY_50: &'static str = "\u{E702}";
pub const BATTERY_75: &'static str = "\u{E703}";
pub const BATTERY_99: &'static str = "\u{E704}";
pub const RADIO_3: &'static str = "\u{E705}";
pub const RADIO_2: &'static str = "\u{E706}";
pub const RADIO_1: &'static str = "\u{E707}";
pub const RADIO_0: &'static str = "\u{E708}";
pub const RADIO_OFF: &'static str = "\u{E709}";
pub const SHIFT_ARROW: &'static str = "\u{E70A}";
pub const BACKSPACE_SYMBOL: &'static str = "\u{E70B}";
pub const ENTER_SYMBOL: &'static str = "\u{E70C}";

} // verus!
