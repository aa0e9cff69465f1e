//! Status line producer for i3bar: protocol codecs, block building and the
//! bar controller that decides what is shown and in which order.

pub mod backlight;
pub mod battery;
pub mod buffer;
pub mod codec;
pub mod controller;
pub mod i3status;
pub mod icon;
pub mod media;
pub mod stdin;
pub mod sysfs;
pub mod systeminfo;
pub mod text;
pub mod time;
pub mod timer;
