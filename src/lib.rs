//! Flash write sequence for ESP8266-class chips: the erase window a write
//! needs, and the begin / data / end commands that program a segment.
pub mod command;
pub mod erase;
pub mod sequence;

pub use command::{Command, CommandType, Timeout};
pub use erase::{erase_size, get_erase_size, FLASH_SECTORS_PER_BLOCK, FLASH_SECTOR_SIZE, FLASH_WRITE_SIZE};
pub use sequence::{Action, Esp8266Target, RomSegment, Sequence, Status, Step};
