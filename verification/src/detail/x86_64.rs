//! Register layout and register transfers of the x86-64 System V backend.
//!
//! A switch moves exactly the state that the calling convention makes a
//! callee preserve: `rbx`, `rbp`, `r12` to `r15`, the stack pointer and the
//! address at which the flow goes on. That state is an explicit value here,
//! `Cpu`, so that each transfer is a function with a contract. The machine
//! routine around these functions only copies the register file into a
//! `Cpu` before the transfer and back out of it afterwards.

use vstd::prelude::*;

use super::{align_down, aligned_down, mut_offset, word_offset, STACK_ALIGNMENT, WORD_SIZE};

verus! {

/// Number of machine words in a register set.
pub const REGISTER_WORDS: usize = 10;

/// Slot of `rbx`.
pub const SLOT_RBX: usize = 0;

/// Slot of the stack pointer.
pub const SLOT_RSP: usize = 1;

/// Slot of the frame pointer.
pub const SLOT_RBP: usize = 2;

/// Slot of `r12`.
pub const SLOT_R12: usize = 4;

/// Slot of `r13`.
pub const SLOT_R13: usize = 5;

/// Slot of `r14`.
pub const SLOT_R14: usize = 6;

/// Slot of `r15`.
pub const SLOT_R15: usize = 7;

/// Slot of the resume address.
pub const SLOT_IP: usize = 8;

/// The state of the flow that is on the processor, as far as it outlives a
/// switch: the address at which the flow goes on, its stack pointer, and the
/// callee-saved registers. No flow may rely on any other register across a
/// switch, and no switch keeps one.
#[derive(Clone, Copy, Debug, PartialEq, Eq, Structural)]
pub struct Cpu {
    pub rip: usize,
    pub rsp: usize,
    pub rbp: usize,
    pub rbx: usize,
    pub r12: usize,
    pub r13: usize,
    pub r14: usize,
    pub r15: usize,
}

/// The two arguments that an entry function starts with, as the bootstrap
/// routine leaves them in the first and the second argument register.
#[derive(Clone, Copy, Debug, PartialEq, Eq, Structural)]
pub struct EntryArguments {
    pub arg: usize,
    pub thunk: usize,
}

/// The registers of one suspended flow, in the order the switch stores them.
#[derive(Clone, Copy, Debug)]
pub struct Registers {
    pub gpr: [usize; 10],
}

impl View for Registers {
    type V = Seq<usize>;

    open spec fn view(&self) -> Seq<usize> {
        self.gpr@
    }
}

/// A register set with every word zero.
pub open spec fn zeroed() -> Seq<usize> {
    Seq::new(REGISTER_WORDS as nat, |i: int| 0usize)
}

/// The register set `words` after the flow `cpu` was stored into it. The
/// slots that hold no register keep their words.
pub open spec fn stored(words: Seq<usize>, cpu: Cpu) -> Seq<usize> {
    words.update(SLOT_RBX as int, cpu.rbx).update(SLOT_RSP as int, cpu.rsp).update(
        SLOT_RBP as int,
        cpu.rbp,
    ).update(SLOT_R12 as int, cpu.r12).update(SLOT_R13 as int, cpu.r13).update(
        SLOT_R14 as int,
        cpu.r14,
    ).update(SLOT_R15 as int, cpu.r15).update(SLOT_IP as int, cpu.rip)
}

/// The flow that is on the processor after the register set `words` was
/// resumed.
pub open spec fn resumed(words: Seq<usize>) -> Cpu {
    Cpu {
        rip: words[SLOT_IP as int],
        rsp: words[SLOT_RSP as int],
        rbp: words[SLOT_RBP as int],
        rbx: words[SLOT_RBX as int],
        r12: words[SLOT_R12 as int],
        r13: words[SLOT_R13 as int],
        r14: words[SLOT_R14 as int],
        r15: words[SLOT_R15 as int],
    }
}

/// The return slot of a fresh flow on a stack whose top is `top`: the word
/// just below the aligned top. A fresh flow starts with its stack pointer
/// there, as if a call had pushed a return address.
pub open spec fn return_slot(top: usize) -> usize {
    word_offset(aligned_down(top as int), -1) as usize
}

/// The flow that a fresh call frame stands for: it is about to run the
/// bootstrap routine, with the entry function and its two arguments in
/// callee-saved registers, the stack pointer at the return slot and no frame
/// above. `rbx` and `r15` mean nothing to it.
pub open spec fn fresh_flow(
    fptr: usize,
    arg: usize,
    thunkptr: usize,
    top: usize,
    bootstrap: usize,
    rbx: usize,
    r15: usize,
) -> Cpu {
    Cpu {
        rip: bootstrap,
        rsp: return_slot(top),
        rbp: 0,
        rbx,
        r12: arg,
        r13: thunkptr,
        r14: fptr,
        r15,
    }
}

/// The register set `words` after a call frame was laid out in it: resumed,
/// it goes on at `bootstrap`, with the entry function and its two arguments
/// in callee-saved registers, the stack pointer at the return slot and a
/// frame pointer of 0. The other slots keep their words.
pub open spec fn call_frame(
    words: Seq<usize>,
    fptr: usize,
    arg: usize,
    thunkptr: usize,
    top: usize,
    bootstrap: usize,
) -> Seq<usize> {
    words.update(SLOT_R12 as int, arg).update(SLOT_R13 as int, thunkptr).update(
        SLOT_R14 as int,
        fptr,
    ).update(SLOT_RSP as int, return_slot(top)).update(SLOT_IP as int, bootstrap).update(
        SLOT_RBP as int,
        0usize,
    )
}

/// The flow after the bootstrap routine ran: it goes on at the entry
/// function, which was in `r14`. Nothing else of the flow changes.
pub open spec fn entered(cpu: Cpu) -> Cpu {
    Cpu { rip: cpu.r14, ..cpu }
}

/// The arguments that the bootstrap routine hands to the entry function: the
/// first was in `r12`, the second in `r13`.
pub open spec fn entry_arguments(cpu: Cpu) -> EntryArguments {
    EntryArguments { arg: cpu.r12, thunk: cpu.r13 }
}

impl Registers {
    /// A register set with every word zero. It belongs to no flow yet.
    pub fn new() -> (regs: Registers)
        ensures
            regs@ == zeroed(),
    {
        let regs = Registers { gpr: [0, 0, 0, 0, 0, 0, 0, 0, 0, 0] };
        assert(regs@ =~= zeroed());
        regs
    }
}

/// Lays out in `regs` the call frame of a fresh flow that runs `fptr` with
/// `arg` and `thunkptr` on the stack whose top is `sp`, and returns the
/// address of the frame's return slot.
///
/// The memory of the stack is out of reach here: before the flow is first
/// resumed, the caller stores the word 0 at the returned address, which ends
/// the chain of return addresses.
pub fn initialize_call_frame(
    regs: &mut Registers,
    fptr: usize,
    arg: usize,
    thunkptr: usize,
    sp: usize,
    bootstrap: usize,
) -> (slot: usize)
    requires
        sp >= STACK_ALIGNMENT,
    ensures
        final(regs)@ == call_frame(old(regs)@, fptr, arg, thunkptr, sp, bootstrap),
        slot == return_slot(sp),
        slot + WORD_SIZE == aligned_down(sp as int),
{
    let sp = align_down(sp);
    let sp = mut_offset(sp, -1);

    // The bootstrap routine moves these into the argument registers.
    regs.gpr[SLOT_R12] = arg;
    regs.gpr[SLOT_R13] = thunkptr;
    regs.gpr[SLOT_R14] = fptr;

    // These are picked up by the regular switch.
    regs.gpr[SLOT_RSP] = sp;
    regs.gpr[SLOT_IP] = bootstrap;

    // The last frame pointer on the stack is 0.
    regs.gpr[SLOT_RBP] = 0;
    sp
}

/// One run of the bootstrap routine, at which a fresh flow is first resumed:
/// it hands the two arguments in `r12` and `r13` to the entry function in
/// `r14` and goes on there.
pub fn bootstrap_green_task(cpu: &mut Cpu) -> (arguments: EntryArguments)
    ensures
        *final(cpu) == entered(*old(cpu)),
        arguments == entry_arguments(*old(cpu)),
{
    let arguments = EntryArguments { arg: cpu.r12, thunk: cpu.r13 };
    cpu.rip = cpu.r14;
    arguments
}

/// Stores the flow on `cpu` into `regs`. The slots that hold no register
/// keep their words.
pub fn save_registers(regs: &mut Registers, cpu: &Cpu)
    ensures
        final(regs)@ == stored(old(regs)@, *cpu),
{
    regs.gpr[SLOT_RBX] = cpu.rbx;
    regs.gpr[SLOT_RSP] = cpu.rsp;
    regs.gpr[SLOT_RBP] = cpu.rbp;
    regs.gpr[SLOT_R12] = cpu.r12;
    regs.gpr[SLOT_R13] = cpu.r13;
    regs.gpr[SLOT_R14] = cpu.r14;
    regs.gpr[SLOT_R15] = cpu.r15;
    regs.gpr[SLOT_IP] = cpu.rip;
}

/// Puts the flow stored in `regs` on `cpu`. Nothing of the flow that was on
/// the processor is kept.
pub fn load_registers(regs: &Registers, cpu: &mut Cpu)
    ensures
        *final(cpu) == resumed(regs@),
{
    cpu.rbx = regs.gpr[SLOT_RBX];
    cpu.rsp = regs.gpr[SLOT_RSP];
    cpu.rbp = regs.gpr[SLOT_RBP];
    cpu.r12 = regs.gpr[SLOT_R12];
    cpu.r13 = regs.gpr[SLOT_R13];
    cpu.r14 = regs.gpr[SLOT_R14];
    cpu.r15 = regs.gpr[SLOT_R15];
    cpu.rip = regs.gpr[SLOT_IP];
}

/// Stores the flow on `cpu` into `out_regs`, then puts the flow stored in
/// `in_regs` on `cpu`.
pub fn swap_registers(out_regs: &mut Registers, in_regs: &Registers, cpu: &mut Cpu)
    ensures
        final(out_regs)@ == stored(old(out_regs)@, *old(cpu)),
        *final(cpu) == resumed(in_regs@),
{
    save_registers(out_regs, cpu);
    load_registers(in_regs, cpu);
}

/// Resuming a stored flow puts that very flow on the processor: every
/// register that was stored comes back from the slot it went to.
pub proof fn lemma_resume_after_store(words: Seq<usize>, flow: Cpu)
    requires
        words.len() == REGISTER_WORDS,
    ensures
        resumed(stored(words, flow)) == flow,
{
}

/// What is stored is what is resumed, slot by slot: storing a flow that was
/// just resumed from a register set gives that register set again.
pub proof fn lemma_store_after_resume(words: Seq<usize>)
    requires
        words.len() == REGISTER_WORDS,
    ensures
        stored(words, resumed(words)) == words,
{
    assert(stored(words, resumed(words)) =~= words);
}

/// A first resume is a resume like any other: the call frame of a fresh flow
/// is the register set that storing a running flow would have left.
pub proof fn lemma_call_frame_is_stored_flow(
    words: Seq<usize>,
    fptr: usize,
    arg: usize,
    thunkptr: usize,
    top: usize,
    bootstrap: usize,
)
    requires
        words.len() == REGISTER_WORDS,
    ensures
        call_frame(words, fptr, arg, thunkptr, top, bootstrap) == stored(
            words,
            fresh_flow(
                fptr,
                arg,
                thunkptr,
                top,
                bootstrap,
                words[SLOT_RBX as int],
                words[SLOT_R15 as int],
            ),
        ),
{
    assert(call_frame(words, fptr, arg, thunkptr, top, bootstrap) =~= stored(
        words,
        fresh_flow(
            fptr,
            arg,
            thunkptr,
            top,
            bootstrap,
            words[SLOT_RBX as int],
            words[SLOT_R15 as int],
        ),
    ));
}

/// The entry function of a fresh flow observes exactly the two arguments
/// that the call frame was laid out with, bit for bit. It starts on a stack
/// pointer that stands as the calling convention wants it at the start of a
/// function, one word below a multiple of the stack alignment, and that
/// leaves the return slot below the top of the stack.
pub proof fn lemma_entry_observes_arguments(
    words: Seq<usize>,
    fptr: usize,
    arg: usize,
    thunkptr: usize,
    top: usize,
    bootstrap: usize,
)
    requires
        words.len() == REGISTER_WORDS,
        top >= STACK_ALIGNMENT,
    ensures
        ({
            let first = resumed(call_frame(words, fptr, arg, thunkptr, top, bootstrap));
            &&& first.rip == bootstrap
            &&& entered(first).rip == fptr
            &&& entry_arguments(first) == (EntryArguments { arg, thunk: thunkptr })
            &&& entered(first).rbp == 0
            &&& entered(first).rsp == return_slot(top)
            &&& (entered(first).rsp + WORD_SIZE) % (STACK_ALIGNMENT as int) == 0
            &&& entered(first).rsp + WORD_SIZE <= top
        }),
{
}

} // verus!
