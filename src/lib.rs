//! Drives wireless RGB light fixtures so that they follow the dominant
//! colours of a camera feed.
//!
//! The library holds the logic: the fixed-length command frames the fixtures
//! accept, the per-fixture colour state and its smoothed transitions, the
//! palette extraction with its saturation shaping, the assignment of palette
//! entries to fixtures, the keep-alive cadence, and the decisions taken while
//! discovering fixtures. Transport and capture are left to the caller.

pub mod codec;
pub mod control;
pub mod discovery;
pub mod light;
pub mod palette;

pub use codec::{
    encode, fill_and_sum, keep_alive_command, power_off_command, set_color_command, FrameError,
    BODY_LEN, FRAME_LEN,
};
pub use control::{assign_targets, target_index, ColorMode, Controller, TickPlan};
pub use discovery::{
    find_control_characteristic, name_matches, next_stage, Event, Rejection, Stage,
    CONTROL_CHARACTERISTIC,
};
pub use light::{Color, Light, Transition};
pub use palette::{
    boost_color, boost_palette, boost_saturation, extract_palette, frame_is_blank, palette_size,
    ExtractError, SaturationBoost, MAX_FRAME_BYTES, SATURATION_MAX,
};
