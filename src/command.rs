//! The flash commands that the write sequence sends, and how long each may
//! take. Their wire encoding belongs to the connection.
use vstd::prelude::*;

verus! {

/// Kind of a flash command, which keys the connection's timeout policy.
#[derive(Clone, Copy, Debug, PartialEq, Eq, Structural)]
pub enum CommandType {
    FlashBegin,
    FlashData,
    FlashEnd,
}

/// The timeout under which a command is sent.
#[derive(Clone, Copy, Debug, PartialEq, Eq, Structural)]
pub enum Timeout {
    /// Whatever the connection uses when nothing else is asked for.
    ConnectionDefault,
    /// The policy's timeout for `kind`, scaled by a byte count (erasing
    /// takes longer the more there is to erase).
    Scaled { kind: CommandType, size: u32 },
    /// The policy's fixed timeout for `kind`.
    Fixed(CommandType),
}

/// A flash command.
#[derive(Debug, PartialEq, Eq)]
pub enum Command {
    /// Prepares the device to take `blocks` data blocks of `block_size`
    /// bytes at `offset`, erasing `size` bytes first.
    FlashBegin { size: u32, blocks: u32, block_size: u32, offset: u32, supports_encryption: bool },
    /// One block of data; the device pads it to `pad_to` bytes with `pad_byte`.
    FlashData { sequence: u32, pad_to: usize, pad_byte: u8, data: Vec<u8> },
    /// Ends the flash write; with `reboot` the device would run the new image.
    FlashEnd { reboot: bool },
}

/// A command as a mathematical value.
pub enum CommandView {
    FlashBegin { size: u32, blocks: u32, block_size: u32, offset: u32, supports_encryption: bool },
    FlashData { sequence: u32, pad_to: usize, pad_byte: u8, data: Seq<u8> },
    FlashEnd { reboot: bool },
}

impl View for Command {
    type V = CommandView;

    open spec fn view(&self) -> CommandView {
        match self {
            Command::FlashBegin { size, blocks, block_size, offset, supports_encryption } => CommandView::FlashBegin {
                size: *size,
                blocks: *blocks,
                block_size: *block_size,
                offset: *offset,
                supports_encryption: *supports_encryption,
            },
            Command::FlashData { sequence, pad_to, pad_byte, data } => CommandView::FlashData {
                sequence: *sequence,
                pad_to: *pad_to,
                pad_byte: *pad_byte,
                data: data@,
            },
            Command::FlashEnd { reboot } => CommandView::FlashEnd { reboot: *reboot },
        }
    }
}

} // verus!
