//! Address arithmetic shared by the register backends.

use vstd::prelude::*;

pub mod x86_64;

pub use self::x86_64::{
    bootstrap_green_task, initialize_call_frame, load_registers, save_registers,
    swap_registers, Cpu, EntryArguments, Registers,
};

verus! {

/// Stack alignment, in bytes, that the calling convention mandates at a call.
pub const STACK_ALIGNMENT: usize = 16;

/// Size of one machine word, in bytes.
pub const WORD_SIZE: usize = 8;

/// The greatest multiple of the stack alignment that is not above `addr`.
pub open spec fn aligned_down(addr: int) -> int {
    addr - addr % (STACK_ALIGNMENT as int)
}

/// Rounds a stack address down to the mandated alignment.
pub fn align_down(sp: usize) -> (aligned: usize)
    ensures
        aligned == aligned_down(sp as int),
        aligned % STACK_ALIGNMENT == 0,
        aligned <= sp < aligned + STACK_ALIGNMENT,
{
    assert(sp & !15usize == sp - sp % 16) by (bit_vector);
    sp & !(16 - 1)
}

/// The address `count` machine words away from `ptr`; a negative `count`
/// leads towards lower addresses.
pub open spec fn word_offset(ptr: int, count: int) -> int {
    ptr + count * (WORD_SIZE as int)
}

/// Moves an address by `count` machine words. The target has to be an
/// address: the offset may not leave the address space.
pub fn mut_offset(ptr: usize, count: isize) -> (moved: usize)
    requires
        0 <= word_offset(ptr as int, count as int) <= usize::MAX,
    ensures
        moved == word_offset(ptr as int, count as int),
{
    if count >= 0 {
        ptr + (count as usize) * WORD_SIZE
    } else {
        let back: usize = ((-(count + 1)) as usize) + 1;
        ptr - back * WORD_SIZE
    }
}

} // verus!
