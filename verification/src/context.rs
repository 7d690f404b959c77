//! The handle of one flow of execution: its register set, and where the flow
//! stands in its life.

use vstd::prelude::*;

use crate::detail::x86_64::{
    call_frame, entered, entry_arguments, resumed, stored, zeroed, REGISTER_WORDS,
};
use crate::detail::{
    initialize_call_frame, load_registers, save_registers, swap_registers, Cpu, EntryArguments,
    Registers, STACK_ALIGNMENT,
};

verus! {

/// Where a flow stands in its life. The flow that runs is the one on the
/// processor; a handle only ever records a flow that does not run.
#[derive(Clone, Copy, Debug, PartialEq, Eq, Structural)]
pub enum Status {
    /// No flow was stored yet: the handle may only receive one.
    Uninitialized,
    /// A call frame was laid out; the flow starts at its entry function.
    SuspendedAtEntry,
    /// A running flow was stored; it goes on where it was stored.
    Suspended,
}

/// What a context is, to a contract: the words of its register set and the
/// status of its flow.
pub struct ContextView {
    pub registers: Seq<usize>,
    pub status: Status,
}

/// The registers of one flow while it does not run. The stack that the flow
/// runs on belongs to somebody else and has to outlive the context.
#[derive(Debug)]
pub struct Context {
    /// Hold the registers while the flow is suspended.
    regs: Registers,
    status: Status,
}

impl View for Context {
    type V = ContextView;

    closed spec fn view(&self) -> ContextView {
        ContextView { registers: self.regs@, status: self.status }
    }
}

impl Context {
    /// Whether the context holds a flow that a switch may resume.
    pub open spec fn resumable(&self) -> bool {
        self@.status != Status::Uninitialized
    }

    /// The stored registers.
    pub fn registers(&self) -> (regs: &Registers)
        ensures
            regs@ == self@.registers,
    {
        &self.regs
    }

    /// Where the flow of this context stands.
    pub fn status(&self) -> (status: Status)
        ensures
            status == self@.status,
    {
        self.status
    }

    /// A register set has its fixed number of words, whatever it holds.
    pub proof fn lemma_register_words(&self)
        ensures
            self@.registers.len() == REGISTER_WORDS,
    {
    }

    /// A context that holds no flow. It can take the outgoing side of
    /// `swap` or `save`, and must be initialized before anything resumes it.
    pub fn empty() -> (ctx: Context)
        ensures
            ctx@.registers == zeroed(),
            ctx@.status == Status::Uninitialized,
    {
        Context { regs: Registers::new(), status: Status::Uninitialized }
    }

    /// A context that, when first resumed, runs `init` on the stack whose
    /// top is `stack`, with `arg` as its first and `start` as its second
    /// argument. `init` must never return.
    ///
    /// `bootstrap` is the address of the bootstrap routine. The word at the
    /// frame's return slot has to be set to 0 before the first resume.
    pub fn new(init: usize, arg: usize, start: usize, stack: usize, bootstrap: usize) -> (ctx:
        Context)
        requires
            stack >= STACK_ALIGNMENT,
        ensures
            ctx@.registers == call_frame(zeroed(), init, arg, start, stack, bootstrap),
            ctx@.status == Status::SuspendedAtEntry,
    {
        let mut ctx = Context::empty();
        ctx.init_with(init, arg, start, stack, bootstrap);
        ctx
    }

    /// Lays out a fresh flow in this context, whatever it held before: see
    /// `new`.
    pub fn init_with(
        &mut self,
        init: usize,
        arg: usize,
        start: usize,
        stack: usize,
        bootstrap: usize,
    )
        requires
            stack >= STACK_ALIGNMENT,
        ensures
            final(self)@.registers == call_frame(
                old(self)@.registers,
                init,
                arg,
                start,
                stack,
                bootstrap,
            ),
            final(self)@.status == Status::SuspendedAtEntry,
    {
        initialize_call_frame(&mut self.regs, init, arg, start, stack, bootstrap);
        self.status = Status::SuspendedAtEntry;
    }

    /// Switch contexts.
    ///
    /// Suspends the flow on `cpu` into `out_context` and resumes the flow of
    /// `in_context`. The suspended flow goes on after this call once a later
    /// switch resumes `out_context`.
    pub fn swap(out_context: &mut Context, in_context: &Context, cpu: &mut Cpu)
        requires
            in_context.resumable(),
        ensures
            final(out_context)@.registers == stored(old(out_context)@.registers, *old(cpu)),
            final(out_context)@.status == Status::Suspended,
            *final(cpu) == resumed(in_context@.registers),
    {
        swap_registers(&mut out_context.regs, &in_context.regs, cpu);
        out_context.status = Status::Suspended;
    }

    /// Save the current context: stores the flow on `cpu` into `context` and
    /// lets it run on. A later `load` of `context` goes on after this call
    /// once more.
    pub fn save(context: &mut Context, cpu: &Cpu)
        ensures
            final(context)@.registers == stored(old(context)@.registers, *cpu),
            final(context)@.status == Status::Suspended,
    {
        save_registers(&mut context.regs, cpu);
        context.status = Status::Suspended;
    }

    /// Load the context and switch. Control never comes back to the caller:
    /// the flow that was on `cpu` is stored nowhere, and nothing of it is
    /// left on the processor.
    ///
    /// It is `swap` with an outgoing context that is thrown away.
    pub fn load(to_context: &Context, cpu: &mut Cpu)
        requires
            to_context.resumable(),
        ensures
            *final(cpu) == resumed(to_context@.registers),
    {
        load_registers(&to_context.regs, cpu);
    }
}

/// Swap symmetry. Let `x` be the current context and `y` one laid out with
/// an entry function that swaps back into `x`. The swap from the call site
/// `site` into `y` starts the entry function with its two arguments; when
/// the entry function swaps back, at whatever point `back` of its own flow,
/// the call site is on the processor again with every preserved register as
/// it was. `y` then stands past its entry: resuming it goes on at `back` and
/// does not start the entry function a second time.
pub proof fn lemma_swap_symmetry(
    x: ContextView,
    y: ContextView,
    init: usize,
    arg: usize,
    start: usize,
    stack: usize,
    bootstrap: usize,
    site: Cpu,
    back: Cpu,
)
    requires
        x.registers.len() == REGISTER_WORDS,
        y.registers.len() == REGISTER_WORDS,
        stack >= STACK_ALIGNMENT,
    ensures
        ({
            let y_fresh = call_frame(y.registers, init, arg, start, stack, bootstrap);
            let x_stored = stored(x.registers, site);
            let first = resumed(y_fresh);
            let y_stored = stored(y_fresh, back);
            &&& first.rip == bootstrap
            &&& entered(first).rip == init
            &&& entry_arguments(first) == (EntryArguments { arg, thunk: start })
            &&& resumed(x_stored) == site
            &&& resumed(y_stored) == back
        }),
{
}

/// Save and load. A `load` of a context resumes exactly at the point `site`
/// at which `save` stored it, with every preserved register as it was then,
/// however often it is loaded and whatever ran in between: the `load` does
/// not change the context.
pub proof fn lemma_save_load_reentry(context: ContextView, site: Cpu)
    requires
        context.registers.len() == REGISTER_WORDS,
    ensures
        resumed(stored(context.registers, site)) == site,
{
}

} // verus!
