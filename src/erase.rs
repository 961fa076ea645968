//! How much flash must be erased before a write.
//!
//! The device erases whole sectors. A write that starts part-way into an
//! erase block has its first sectors (up to the end of that block) covered by
//! the device's own block handling, so the window asked for can be smaller
//! than the range touched.
use vstd::arithmetic::div_mod::{lemma_div_is_ordered, lemma_fundamental_div_mod, lemma_mod_multiples_basic};
use vstd::arithmetic::mul::lemma_mul_inequality;
use vstd::prelude::*;

verus! {

/// Bytes in one flash sector, the smallest unit the device erases.
pub const FLASH_SECTOR_SIZE: usize = 0x1000;

/// Sectors in one erase block.
pub const FLASH_SECTORS_PER_BLOCK: usize = 16;

/// Largest payload carried by one data command.
pub const FLASH_WRITE_SIZE: usize = 0x400;

/// `n / d`, rounded up.
pub open spec fn ceil_div(n: int, d: int) -> int {
    n / d + if n % d == 0 { 0int } else { 1int }
}

/// Number of sectors that a write of `length` bytes touches.
pub open spec fn sectors_touched(length: int, sector_size: int) -> int {
    ceil_div(length, sector_size)
}

/// Sectors from the start of the write to the end of its erase block,
/// capped at the number of sectors touched.
pub open spec fn head_sectors(offset: int, length: int, sector_size: int, sectors_per_block: int) -> int {
    let to_block_end = sectors_per_block - (offset / sector_size) % sectors_per_block;
    let touched = sectors_touched(length, sector_size);
    if to_block_end < touched { to_block_end } else { touched }
}

/// Number of sectors in the erase window.
pub open spec fn erase_sectors(offset: int, length: int, sector_size: int, sectors_per_block: int) -> int {
    let touched = sectors_touched(length, sector_size);
    let head = head_sectors(offset, length, sector_size, sectors_per_block);
    if touched < 2 * head {
        (touched + 1) / 2
    } else {
        touched - head
    }
}

/// Size in bytes of the erase window for a write of `length` bytes at `offset`.
pub open spec fn erase_window(offset: int, length: int, sector_size: int, sectors_per_block: int) -> int {
    erase_sectors(offset, length, sector_size, sectors_per_block) * sector_size
}

/// `(sectors_touched - 1) * sector_size` stays below the length written.
pub(crate) proof fn lemma_touched_below_length(length: int, sector_size: int)
    requires
        length > 0,
        sector_size > 0,
    ensures
        (sectors_touched(length, sector_size) - 1) * sector_size < length,
        sectors_touched(length, sector_size) >= 1,
{
    lemma_fundamental_div_mod(length, sector_size);
    let q = length / sector_size;
    let r = length % sector_size;
    assert(length == sector_size * q + r);
    assert(q >= 0 && 0 <= r < sector_size);
    if r == 0 {
        assert(q >= 1) by (nonlinear_arith)
            requires
                length == sector_size * q,
                length > 0,
                sector_size > 0,
                q >= 0,
        ;
        assert((q - 1) * sector_size < length) by (nonlinear_arith)
            requires
                length == sector_size * q,
                sector_size > 0,
        ;
    } else {
        assert(q * sector_size < length) by (nonlinear_arith)
            requires
                length == sector_size * q + r,
                r > 0,
        ;
    }
}

/// Size in bytes of the erase window for a write of `length` bytes at
/// `offset`, on flash with the given sector size and sectors per block.
pub fn erase_size(offset: usize, length: usize, sector_size: usize, sectors_per_block: usize) -> (r: usize)
    requires
        sector_size > 0,
        sectors_per_block > 0,
    ensures
        r == erase_window(offset as int, length as int, sector_size as int, sectors_per_block as int),
{
    proof {
        if length % sector_size != 0 {
            lemma_fundamental_div_mod(length as int, sector_size as int);
            let q = length as int / sector_size as int;
            assert(q <= sector_size * q) by (nonlinear_arith)
                requires
                    q >= 0,
                    sector_size >= 1,
            ;
        }
    }
    let sector_count: usize = length / sector_size + if length % sector_size == 0 { 0usize } else { 1usize };
    let start_sector: usize = offset / sector_size;
    let to_block_end: usize = sectors_per_block - start_sector % sectors_per_block;
    let head: usize = if to_block_end < sector_count { to_block_end } else { sector_count };
    proof {
        assert(sector_count == sectors_touched(length as int, sector_size as int));
        if length > 0 {
            lemma_touched_below_length(length as int, sector_size as int);
        }
    }
    if sector_count - head < head {
        let half: usize = sector_count / 2 + sector_count % 2;
        assert(half == (sector_count + 1) / 2);
        proof {
            if sector_count >= 2 {
                lemma_mul_inequality(half as int, sector_count - 1, sector_size as int);
                assert(half * sector_size < length);
            } else {
                assert(half * sector_size == sector_size) by (nonlinear_arith)
                    requires
                        half == 1,
                ;
            }
        }
        half * sector_size
    } else {
        assert(to_block_end >= 1);
        proof {
            if sector_count >= 1 {
                lemma_mul_inequality(sector_count - head, sector_count - 1, sector_size as int);
                assert((sector_count - head) * sector_size < length);
            } else {
                assert((sector_count - head) * sector_size == 0) by (nonlinear_arith)
                    requires
                        sector_count - head == 0,
                ;
            }
        }
        (sector_count - head) * sector_size
    }
}

/// Erase window for a write at `offset` of `size` bytes, on the ESP8266's
/// flash geometry.
pub fn get_erase_size(offset: usize, size: usize) -> (r: usize)
    ensures
        r == erase_window(offset as int, size as int, FLASH_SECTOR_SIZE as int, FLASH_SECTORS_PER_BLOCK as int),
{
    erase_size(offset, size, FLASH_SECTOR_SIZE, FLASH_SECTORS_PER_BLOCK)
}

/// The erase window is never negative and is always a whole number of sectors.
pub proof fn lemma_erase_window_whole_sectors(offset: int, length: int, sector_size: int, sectors_per_block: int)
    requires
        offset >= 0,
        length >= 0,
        sector_size > 0,
        sectors_per_block > 0,
    ensures
        erase_window(offset, length, sector_size, sectors_per_block) >= 0,
        erase_window(offset, length, sector_size, sectors_per_block) % sector_size == 0,
{
    let k = erase_sectors(offset, length, sector_size, sectors_per_block);
    lemma_div_is_ordered(0, length, sector_size);
    assert(k >= 0);
    lemma_mul_inequality(0, k, sector_size);
    lemma_mod_multiples_basic(k, sector_size);
}

/// A write of no bytes needs no erase, wherever it starts.
pub proof fn lemma_erase_window_empty(offset: int, sector_size: int, sectors_per_block: int)
    requires
        sector_size > 0,
        sectors_per_block > 0,
    ensures
        erase_window(offset, 0, sector_size, sectors_per_block) == 0,
{
    assert(sectors_touched(0, sector_size) == 0);
}

/// The number of sectors touched grows with the length written.
proof fn lemma_sectors_touched_monotonic(short: int, long: int, sector_size: int)
    requires
        0 <= short <= long,
        sector_size > 0,
    ensures
        sectors_touched(short, sector_size) <= sectors_touched(long, sector_size),
{
    lemma_div_is_ordered(short, long, sector_size);
    lemma_fundamental_div_mod(short, sector_size);
    lemma_fundamental_div_mod(long, sector_size);
    if short / sector_size == long / sector_size && short % sector_size != 0 {
        assert(long % sector_size != 0);
    }
}

/// For a fixed start and geometry, a longer write never needs a smaller
/// erase window.
pub proof fn lemma_erase_window_monotonic(
    offset: int,
    short: int,
    long: int,
    sector_size: int,
    sectors_per_block: int,
)
    requires
        offset >= 0,
        0 <= short <= long,
        sector_size > 0,
        sectors_per_block > 0,
    ensures
        erase_window(offset, short, sector_size, sectors_per_block) <= erase_window(
            offset,
            long,
            sector_size,
            sectors_per_block,
        ),
{
    lemma_sectors_touched_monotonic(short, long, sector_size);
    let to_block_end = sectors_per_block - (offset / sector_size) % sectors_per_block;
    assert(to_block_end >= 1);
    let a = erase_sectors(offset, short, sector_size, sectors_per_block);
    let b = erase_sectors(offset, long, sector_size, sectors_per_block);
    assert(a <= b);
    lemma_mul_inequality(a, b, sector_size);
}

} // verus!
