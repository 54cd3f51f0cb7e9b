//! Host-side protocol for IT8951 e-paper panel controllers reached over a
//! USB bulk-only transport: command framing, status handling and the
//! banded update of a screen region.
//!
//! Nothing here performs a transfer. A command is a `Transaction` that names
//! the next bulk transfer to make; the caller makes it on its USB handle and
//! hands the outcome back, until the transaction completes or fails.

pub mod commands;
pub mod device;
pub mod usb;
pub mod wire;

pub use commands::{
    Area, Command, DecodeError, DisplayArea, Inquiry, Mode, SystemInfo, AREA_LEN,
    DISPLAY_AREA_LEN, INQUIRY_LEN, MAX_TRANSFER, SYSTEM_INFO_LEN,
};
pub use device::{ConfigError, It8951};
pub use usb::{
    get_command_block_wrapper, CommandError, CommandFramer, CommandStatusWrapper, CswStatus,
    Direction, ScsiOverUsbConnection, StatusReader, StatusStep, Step, Transaction,
    TransportError, CBW_LEN, CSW_LEN,
};
