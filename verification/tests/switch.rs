//! Switches between flows, driven on an explicit processor value.

use context::context::Status;
use context::detail::x86_64::{SLOT_IP, SLOT_RSP};
use context::detail::{bootstrap_green_task, Cpu, EntryArguments};
use context::{Context, Stack};

const MIN_STACK: usize = 2 * 1024 * 1024;
const PAGE: usize = 4096;

// Addresses of the code and data that the flows below consist of.
const BOOTSTRAP: usize = 0x0040_1000;
const INIT_FN: usize = 0x0040_2000;
const CALLBACK: usize = 0x0040_3000;
const CALL_SITE: usize = 0x0040_4000;
const CUR: usize = 0x7ffd_1000;

fn main_flow() -> Cpu {
    Cpu {
        rip: CALL_SITE,
        rsp: 0x7ffd_2000,
        rbp: 0x7ffd_2040,
        rbx: 11,
        r12: 12,
        r13: 13,
        r14: 14,
        r15: 15,
    }
}

/// The entry function of the fresh flows: it calls the function that its
/// second argument names, then goes back to the context that its first
/// argument names and never comes back.
fn init_fn(cpu: &mut Cpu, arguments: EntryArguments, cur: &Context, val: &mut bool) {
    assert_eq!(cpu.rip, INIT_FN);
    assert_eq!(arguments.thunk, CALLBACK);
    *val = true;

    assert_eq!(arguments.arg, CUR);
    Context::load(cur, cpu);
}

#[test]
fn test_swap_context() {
    let mut val = false;
    let mut cur = Context::empty();

    let stk = Stack::new(MIN_STACK, PAGE).unwrap();
    let ctx = Context::new(INIT_FN, CUR, CALLBACK, stk.end(), BOOTSTRAP);

    let mut cpu = main_flow();
    Context::swap(&mut cur, &ctx, &mut cpu);

    let arguments = bootstrap_green_task(&mut cpu);
    init_fn(&mut cpu, arguments, &cur, &mut val);

    assert_eq!(cpu, main_flow());
    assert!(val);
}

#[test]
fn test_load_save_context() {
    let mut val = false;
    let mut cur = Context::empty();

    let stk = Stack::new(MIN_STACK, PAGE).unwrap();
    let ctx = Context::new(INIT_FN, CUR, CALLBACK, stk.end(), BOOTSTRAP);

    let mut cpu = main_flow();
    Context::save(&mut cur, &cpu);
    Context::load(&ctx, &mut cpu);

    let arguments = bootstrap_green_task(&mut cpu);
    init_fn(&mut cpu, arguments, &cur, &mut val);

    assert_eq!(cpu, main_flow());
    assert!(val);
}

#[test]
fn empty_context_holds_no_flow() {
    let ctx = Context::empty();
    assert_eq!(ctx.status(), Status::Uninitialized);
    assert_eq!(ctx.registers().gpr, [0usize; 10]);
}

#[test]
fn new_context_holds_the_call_frame() {
    let ctx = Context::new(INIT_FN, 7, 9, 0x7000_0004, BOOTSTRAP);
    assert_eq!(ctx.status(), Status::SuspendedAtEntry);
    assert_eq!(
        ctx.registers().gpr,
        [0, 0x7000_0000 - 8, 0, 0, 7, 9, INIT_FN, 0, BOOTSTRAP, 0]
    );
}

#[test]
fn init_with_keeps_the_other_slots() {
    let mut ctx = Context::empty();
    Context::save(&mut ctx, &main_flow());
    ctx.init_with(INIT_FN, 7, 9, 0x7000_0000, BOOTSTRAP);
    assert_eq!(ctx.status(), Status::SuspendedAtEntry);
    assert_eq!(
        ctx.registers().gpr,
        [11, 0x7000_0000 - 8, 0, 0, 7, 9, INIT_FN, 15, BOOTSTRAP, 0]
    );
}

#[test]
fn status_follows_the_life_of_a_flow() {
    let mut ctx = Context::empty();
    assert_eq!(ctx.status(), Status::Uninitialized);

    ctx.init_with(INIT_FN, 0, 0, 0x8000, BOOTSTRAP);
    assert_eq!(ctx.status(), Status::SuspendedAtEntry);

    let mut cpu = main_flow();
    let mut main = Context::empty();
    Context::swap(&mut main, &ctx, &mut cpu);
    assert_eq!(main.status(), Status::Suspended);
    assert_eq!(ctx.status(), Status::SuspendedAtEntry);

    Context::save(&mut ctx, &cpu);
    assert_eq!(ctx.status(), Status::Suspended);
}

#[test]
fn argument_round_trip_nonzero() {
    let arg = 0xdead_beef_usize;
    let data = 0x1234_5678_usize;
    let ctx = Context::new(INIT_FN, arg, data, 0x7000_0000, BOOTSTRAP);

    let mut cpu = main_flow();
    Context::load(&ctx, &mut cpu);
    assert_eq!(cpu.rip, BOOTSTRAP);
    let arguments = bootstrap_green_task(&mut cpu);

    assert_eq!(cpu.rip, INIT_FN);
    assert_eq!(arguments, EntryArguments { arg, thunk: data });
}

#[test]
fn argument_round_trip_zero() {
    let ctx = Context::new(INIT_FN, 0, 0, 0x7000_0000, BOOTSTRAP);

    let mut cpu = main_flow();
    Context::load(&ctx, &mut cpu);
    let arguments = bootstrap_green_task(&mut cpu);

    assert_eq!(cpu.rip, INIT_FN);
    assert_eq!(arguments, EntryArguments { arg: 0, thunk: 0 });
}

#[test]
fn argument_round_trip_all_ones() {
    let ctx = Context::new(INIT_FN, usize::MAX, usize::MAX, 0x7000_0000, BOOTSTRAP);

    let mut cpu = main_flow();
    Context::load(&ctx, &mut cpu);
    let arguments = bootstrap_green_task(&mut cpu);

    assert_eq!(arguments, EntryArguments { arg: usize::MAX, thunk: usize::MAX });
}

#[test]
fn bootstrap_changes_the_resume_address_only() {
    let mut cpu = main_flow();
    let arguments = bootstrap_green_task(&mut cpu);
    assert_eq!(arguments, EntryArguments { arg: 12, thunk: 13 });
    assert_eq!(cpu, Cpu { rip: 14, ..main_flow() });
}

#[test]
fn swap_symmetry_runs_the_entry_once() {
    let mut entries = 0;
    let mut x = Context::empty();
    let mut y = Context::new(INIT_FN, CUR, CALLBACK, 0x7000_0000, BOOTSTRAP);

    // Locals of the flow that swaps out.
    let local = [3usize, 1, 4, 1, 5];

    let mut cpu = main_flow();
    Context::swap(&mut x, &y, &mut cpu);

    // The entry function runs and swaps straight back.
    bootstrap_green_task(&mut cpu);
    assert_eq!(cpu.rip, INIT_FN);
    entries += 1;
    cpu.rip = INIT_FN + 0x20;
    cpu.rsp -= 0x40;
    cpu.rbx = 0xbad;
    cpu.r12 = 0xbad;
    cpu.r15 = 0xbad;
    let inside = cpu;
    Context::swap(&mut y, &x, &mut cpu);

    assert_eq!(cpu, main_flow());
    assert_eq!(local, [3, 1, 4, 1, 5]);
    assert_eq!(entries, 1);

    // y stands past its entry now: a resume goes on inside the entry function.
    assert_eq!(y.status(), Status::Suspended);
    assert_eq!(y.registers().gpr[SLOT_IP], INIT_FN + 0x20);
    Context::swap(&mut x, &y, &mut cpu);
    assert_eq!(cpu, inside);
    assert_eq!(entries, 1);
}

#[test]
fn swap_stores_the_outgoing_flow() {
    let mut out = Context::empty();
    let ctx = Context::new(INIT_FN, 1, 2, 0x7000_0000, BOOTSTRAP);
    let mut cpu = main_flow();
    Context::swap(&mut out, &ctx, &mut cpu);

    assert_eq!(
        out.registers().gpr,
        [11, 0x7ffd_2000, 0x7ffd_2040, 0, 12, 13, 14, 15, CALL_SITE, 0]
    );
    assert_eq!(
        cpu,
        Cpu {
            rip: BOOTSTRAP,
            rsp: 0x7000_0000 - 8,
            rbp: 0,
            rbx: 0,
            r12: 1,
            r13: 2,
            r14: INIT_FN,
            r15: 0,
        }
    );
}

#[test]
fn save_lets_the_flow_run_on() {
    let mut context = Context::empty();
    let cpu = main_flow();
    Context::save(&mut context, &cpu);
    assert_eq!(cpu, main_flow());
    assert_eq!(context.status(), Status::Suspended);
    assert_eq!(
        context.registers().gpr,
        [11, 0x7ffd_2000, 0x7ffd_2040, 0, 12, 13, 14, 15, CALL_SITE, 0]
    );
}

#[test]
fn save_load_reenters_once() {
    // One flow saves itself, flips a flag and loads what it saved: it comes
    // out of the save a second time, sees the flag and goes on.
    let mut flag = false;
    let mut flips = 0;
    let mut passes = 0;

    let mut context = Context::empty();
    let mut cpu = main_flow();
    Context::save(&mut context, &cpu);
    loop {
        // The point after the save.
        passes += 1;
        assert_eq!(cpu, main_flow());
        if flag {
            break;
        }
        flag = true;
        flips += 1;
        cpu.rip = CALL_SITE + 0x30;
        cpu.rbx = 99;
        Context::load(&context, &mut cpu);
    }

    assert_eq!(flips, 1);
    assert_eq!(passes, 2);
}

#[test]
fn save_load_chain_of_three() {
    // Three contexts, each saved at a point of its own and loaded in turn.
    let sites = [CALL_SITE, CALL_SITE + 0x100, CALL_SITE + 0x200];
    let mut contexts = [Context::empty(), Context::empty(), Context::empty()];
    let mut flags = [false, false, false];

    let mut cpu = main_flow();
    for i in 0..3 {
        cpu.rip = sites[i];
        cpu.rsp = 0x7ffd_2000 - 0x100 * i;
        cpu.r12 = 100 + i;
        Context::save(&mut contexts[i], &cpu);
    }

    let mut resumes = 0;
    for i in 0..3 {
        assert!(!flags[i]);
        flags[i] = true;
        cpu.rip = 0;
        cpu.r12 = 0;
        Context::load(&contexts[i], &mut cpu);
        resumes += 1;
        assert_eq!(cpu.rip, sites[i]);
        assert_eq!(cpu.rsp, 0x7ffd_2000 - 0x100 * i);
        assert_eq!(cpu.r12, 100 + i);
        assert_eq!(contexts[i].registers().gpr[SLOT_RSP], 0x7ffd_2000 - 0x100 * i);
    }

    assert_eq!(flags, [true, true, true]);
    assert_eq!(resumes, 3);
}

#[test]
fn load_keeps_nothing_of_the_caller() {
    let ctx = Context::new(INIT_FN, 1, 2, 0x7000_0000, BOOTSTRAP);

    let mut a = main_flow();
    let mut b = Cpu { rip: 1, rsp: 2, rbp: 3, rbx: 4, r12: 5, r13: 6, r14: 7, r15: 8 };
    Context::load(&ctx, &mut a);
    Context::load(&ctx, &mut b);
    assert_eq!(a, b);
}

#[test]
fn contexts_on_two_stacks_keep_their_own_stack_pointers() {
    let stack_a = Stack::new(16_384, PAGE).unwrap();
    let stack_b = Stack::new(16_384, PAGE).unwrap();
    let mut main = Context::empty();
    let mut a = Context::new(INIT_FN, 1, 0, stack_a.end(), BOOTSTRAP);
    let mut b = Context::new(INIT_FN, 2, 0, stack_b.end(), BOOTSTRAP);

    let on = |stack: &Stack, sp: usize| stack.start() <= sp && sp < stack.end();

    let mut cpu = main_flow();
    Context::swap(&mut main, &a, &mut cpu);
    bootstrap_green_task(&mut cpu);
    assert!(on(&stack_a, cpu.rsp) && !on(&stack_b, cpu.rsp));

    // a goes deep into its stack, then switches to b.
    cpu.rsp -= 8192;
    let deep = cpu.rsp;
    Context::swap(&mut a, &b, &mut cpu);
    bootstrap_green_task(&mut cpu);
    assert!(on(&stack_b, cpu.rsp) && !on(&stack_a, cpu.rsp));

    // b works on its own stack and switches back: a is where it was.
    cpu.rsp -= 4096;
    Context::swap(&mut b, &a, &mut cpu);
    assert_eq!(cpu.rsp, deep);
    assert!(on(&stack_a, cpu.rsp) && !on(&stack_b, cpu.rsp));

    Context::load(&main, &mut cpu);
    assert_eq!(cpu, main_flow());
}
