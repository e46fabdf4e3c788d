//! Verified core of the robot firmware: the Tinymovr CAN protocol, the
//! frames it puts on the bus, and the small pieces of byte handling that the
//! dongle and the SPI display link perform.

pub mod can_frame;
pub mod le_bytes;
pub mod serial_echo;
pub mod spi_buffer;
pub mod tinymovr;
