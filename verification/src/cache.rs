//! Cache maintenance by address.
//!
//! The functions here decide which maintenance operations cover a range of addresses; the
//! hardware layer issues them. Cache lines are fixed to 32 bytes on Cortex-M7. On targets
//! without a DMA engine there is nothing to issue.

use vstd::prelude::*;

verus! {

/// Size of a data cache line, in bytes.
pub const LINESIZE: usize = 32;

/// A cache maintenance operation.
#[derive(Debug, Clone, Copy, PartialEq, Eq, Structural)]
pub enum CacheOp {
    /// Data synchronization barrier.
    Dsb,
    /// Instruction synchronization barrier.
    Isb,
    /// Invalidate the data cache line at an address (discard only, no write-back).
    Dcimvac(u32),
    /// Clean and invalidate the data cache line at an address.
    Dccimvac(u32),
}

/// The address of the cache line that contains `addr`, in the 32-bit address space.
pub open spec fn line_address(addr: usize) -> int {
    let low = addr as int % 0x1_0000_0000;
    low - low % 32
}

/// The number of lines to maintain for `size` bytes: the least number that holds them.
pub open spec fn line_count(size: usize) -> int {
    (size + 31) / 32
}

/// The operations that maintain the lines for `size` bytes from `addr` on, one line after
/// the other, between barriers. Nothing at all for no bytes.
pub open spec fn line_ops(addr: usize, size: usize, op: spec_fn(u32) -> CacheOp) -> Seq<CacheOp> {
    if size == 0 {
        Seq::empty()
    } else {
        seq![CacheOp::Dsb] + Seq::new(
            line_count(size) as nat,
            |i: int| op((line_address(addr) + 32 * i) as u32),
        ) + seq![CacheOp::Dsb, CacheOp::Isb]
    }
}

/// Whether the lines to maintain lie within the 32-bit address space.
pub open spec fn lines_fit(addr: usize, size: usize) -> bool {
    line_address(addr) + 32 * line_count(size) <= 0xFFFF_FFFF
}

/// Invalidates D-cache by address (discard only, no write-back).
///
/// * `addr`: The address to invalidate.
/// * `size`: The number of bytes to invalidate.
///
/// Invalidates D-cache starting from the first cache line containing `addr`,
/// finishing once at least `size` bytes have been invalidated.
///
/// **Warning**: Any dirty data in the invalidated cache lines is **discarded**
/// without being written back to main memory. This is correct for DMA receive
/// buffers (where RAM contents written by hardware are authoritative), but
/// must NOT be used for data the CPU has modified and not yet flushed.
///
/// It is recommended that `addr` is aligned to the cache line size and `size`
/// is a multiple of the cache line size, otherwise surrounding data will also
/// be invalidated.
pub fn invalidate_dcache_by_address(addr: usize, size: usize) -> (ops: Vec<CacheOp>)
    requires
        lines_fit(addr, size),
    ensures
        ops@ == line_ops(addr, size, |line: u32| CacheOp::Dcimvac(line)),
{
    let mut ops: Vec<CacheOp> = Vec::new();
    // No-op zero sized operations
    if size == 0 {
        return ops;
    }
    ops.push(CacheOp::Dsb);
    let num_lines: usize = ((size - 1) / LINESIZE) + 1;
    proof {
        lemma_line_mask(addr);
    }
    let first: usize = addr & 0xFFFF_FFE0;
    let mut line: usize = first;
    let mut i: usize = 0;
    while i < num_lines
        invariant
            i <= num_lines,
            num_lines == line_count(size),
            lines_fit(addr, size),
            first == line_address(addr),
            line == first + 32 * i,
            ops@ == seq![CacheOp::Dsb] + Seq::new(
                i as nat,
                |j: int| CacheOp::Dcimvac((first + 32 * j) as u32),
            ),
        decreases num_lines - i,
    {
        ops.push(CacheOp::Dcimvac(line as u32));
        line = line + LINESIZE;
        i = i + 1;
    }
    ops.push(CacheOp::Dsb);
    ops.push(CacheOp::Isb);
    ops
}

/// Cleans and invalidates D-cache by address.
///
/// * `addr`: The address to clean and invalidate.
/// * `size`: The number of bytes to clean and invalidate.
///
/// Cleans and invalidates D-cache starting from the first cache line containing `addr`,
/// finishing once at least `size` bytes have been cleaned and invalidated.
///
/// It is recommended that `addr` is aligned to the cache line size and `size` is a multiple of
/// the cache line size, otherwise surrounding data will also be cleaned.
///
/// Cleaning and invalidating causes data in the D-cache to be written back to main memory,
/// and then marks that data in the D-cache as invalid, causing future reads to first fetch
/// from main memory.
pub fn clean_invalidate_dcache_by_address(addr: usize, size: usize) -> (ops: Vec<CacheOp>)
    requires
        lines_fit(addr, size),
    ensures
        ops@ == line_ops(addr, size, |line: u32| CacheOp::Dccimvac(line)),
{
    let mut ops: Vec<CacheOp> = Vec::new();
    // No-op zero sized operations
    if size == 0 {
        return ops;
    }
    ops.push(CacheOp::Dsb);
    let num_lines: usize = ((size - 1) / LINESIZE) + 1;
    proof {
        lemma_line_mask(addr);
    }
    let first: usize = addr & 0xFFFF_FFE0;
    let mut line: usize = first;
    let mut i: usize = 0;
    while i < num_lines
        invariant
            i <= num_lines,
            num_lines == line_count(size),
            lines_fit(addr, size),
            first == line_address(addr),
            line == first + 32 * i,
            ops@ == seq![CacheOp::Dsb] + Seq::new(
                i as nat,
                |j: int| CacheOp::Dccimvac((first + 32 * j) as u32),
            ),
        decreases num_lines - i,
    {
        ops.push(CacheOp::Dccimvac(line as u32));
        line = line + LINESIZE;
        i = i + 1;
    }
    ops.push(CacheOp::Dsb);
    ops.push(CacheOp::Isb);
    ops
}

proof fn lemma_line_mask(addr: usize)
    ensures
        addr & 0xFFFF_FFE0 == line_address(addr),
{
    let wide = addr as u64;
    assert(wide & 0xFFFF_FFE0 == wide % 0x1_0000_0000 - wide % 0x1_0000_0000 % 32) by (bit_vector);
    assert((addr & 0xFFFF_FFE0) as u64 == wide & 0xFFFF_FFE0);
}

/// The maintained lines start at the line that contains `addr` and follow one another; together
/// they hold at least `size` bytes, and less than one line more. Where `addr` is aligned to the
/// line size, they cover all of the range.
pub proof fn lemma_lines_cover(addr: usize, size: usize)
    requires
        size > 0,
    ensures
        line_address(addr) % 32 == 0,
        line_address(addr) <= addr as int % 0x1_0000_0000 < line_address(addr) + 32,
        size <= 32 * line_count(size) < size + 32,
        addr % 32 == 0 ==> addr as int % 0x1_0000_0000 + size <= line_address(addr) + 32
            * line_count(size),
{
}

/// What is maintained, operation by operation: a barrier, then one operation for each line from
/// the one that holds `addr` on, as many as it takes to hold `size` bytes, then a data barrier and
/// an instruction barrier. For no bytes, there is no operation at all.
pub proof fn lemma_line_ops(addr: usize, size: usize, op: spec_fn(u32) -> CacheOp)
    ensures
        ({
            let ops = line_ops(addr, size, op);
            let first = 32 * (addr as int % 0x1_0000_0000 / 32);
            let lines = (size - 1) / 32 + 1;
            &&& size == 0 ==> ops.len() == 0
            &&& size > 0 ==> {
                &&& ops.len() == lines + 3
                &&& ops[0] == CacheOp::Dsb
                &&& forall|i: int|
                    0 <= i < lines ==> #[trigger] ops[i + 1] == op((first + 32 * i) as u32)
                &&& ops[lines + 1] == CacheOp::Dsb
                &&& ops[lines + 2] == CacheOp::Isb
            }
        }),
        LINESIZE == 32,
{
}

/// Lines fit exactly if the last one ends within the 32-bit address space.
pub proof fn lemma_lines_fit(addr: usize, size: usize)
    ensures
        size == 0 ==> lines_fit(addr, size),
        size > 0 ==> (lines_fit(addr, size) <==> 32 * (addr as int % 0x1_0000_0000 / 32) + 32 * ((
        size - 1) / 32 + 1) < 0x1_0000_0000),
{
}

} // verus!
