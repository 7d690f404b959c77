//! The memory a flow runs on: a mapped region whose usable pages lie between
//! two guard pages.
//!
//! ```text
//!   base               start                      end               limit
//!    |    low guard      |         usable          |    high guard    |
//! ```
//!
//! The stack grows from `end` towards `start`. The library lays the region
//! out and holds the mapping; taking the access rights from the guard pages
//! is a system call that the owner of the stack makes with the addresses
//! given here.

use memmap::MmapMut;
use vstd::prelude::*;

use crate::detail::x86_64::return_slot;
use crate::detail::{STACK_ALIGNMENT, WORD_SIZE};

verus! {

/// `memmap::MmapMut`, a mapping of memory that is released when the value is
/// dropped. Nothing inside it is visible here: a stack holds one to keep its
/// region alive.
#[verifier::external_type_specification]
#[verifier::external_body]
pub struct ExMmapMut(memmap::MmapMut);

/// `std::io::Error`, with which `memmap` reports that the operating system
/// gave no mapping. Nothing inside it is visible here.
#[verifier::external_type_specification]
#[verifier::external_body]
pub struct ExIoError(std::io::Error);

/// Why no stack came about.
#[derive(Clone, Copy, Debug, PartialEq, Eq, Structural)]
pub enum StackError {
    /// The page size is zero or no multiple of the stack alignment.
    InvalidPageSize,
    /// The usable pages and the guard pages together are more bytes than
    /// one region of memory can have.
    TooLarge,
    /// The operating system gave no mapping.
    AllocationFailed,
    /// The mapping is not one that the layout can be placed on: it has
    /// another length, does not start at a page boundary, or runs past the
    /// end of the address space.
    Misplaced,
}

/// Whether `page` can be a page size: positive, and a multiple of the stack
/// alignment.
pub open spec fn valid_page_size(page: int) -> bool {
    page > 0 && page % (STACK_ALIGNMENT as int) == 0
}

/// The number of usable pages for a request of `size` bytes: as many as hold
/// `size` bytes, and one at least.
pub open spec fn usable_pages(size: int, page: int) -> int {
    if size <= page {
        1
    } else {
        (size - 1) / page + 1
    }
}

/// The usable bytes of a stack for a request of `size` bytes.
pub open spec fn usable_bytes(size: int, page: int) -> int {
    usable_pages(size, page) * page
}

/// The bytes to map for a request of `size` bytes: the usable pages and one
/// guard page at either end.
pub open spec fn mapped_bytes(size: int, page: int) -> int {
    usable_bytes(size, page) + 2 * page
}

/// The usable bytes are the least number of whole pages that hold the
/// request, and one page where the request is for less.
pub proof fn lemma_usable_bytes(size: int, page: int)
    requires
        size >= 0,
        page > 0,
    ensures
        usable_bytes(size, page) % page == 0,
        usable_bytes(size, page) >= size,
        usable_bytes(size, page) >= page,
        size <= page ==> usable_bytes(size, page) == page,
        size > page ==> usable_bytes(size, page) < size + page,
{
    let n = usable_pages(size, page);
    assert((n * page) % page == 0) by (nonlinear_arith)
        requires
            page > 0,
    ;
    if size > page {
        let q = (size - 1) / page;
        assert(q * page <= size - 1 < q * page + page) by (nonlinear_arith)
            requires
                q == (size - 1) / page,
                page > 0,
                size >= 1,
        ;
        assert((q + 1) * page == q * page + page) by (nonlinear_arith);
    } else {
        assert(1 * page == page);
    }
}

/// The sizes of a stack region: how large a page is, and how many bytes
/// between the guard pages are usable.
#[derive(Clone, Copy, Debug)]
pub struct StackLayout {
    page: usize,
    usable: usize,
}

/// What a layout is, to a contract.
pub struct StackLayoutView {
    pub page_size: int,
    pub usable_size: int,
}

impl StackLayoutView {
    /// The bytes of the whole region, guard pages included.
    pub open spec fn mapped_size(self) -> int {
        self.usable_size + 2 * self.page_size
    }

    /// A layout is well formed when its page size is valid, its usable bytes
    /// are whole pages, one at least, and the region is no larger than a
    /// region of memory can be.
    pub open spec fn wf(self) -> bool {
        &&& valid_page_size(self.page_size)
        &&& self.usable_size % self.page_size == 0
        &&& self.usable_size >= self.page_size
        &&& self.mapped_size() <= isize::MAX
    }
}

impl View for StackLayout {
    type V = StackLayoutView;

    closed spec fn view(&self) -> StackLayoutView {
        StackLayoutView { page_size: self.page as int, usable_size: self.usable as int }
    }
}

impl StackLayout {
    #[verifier::type_invariant]
    pub open spec fn well_formed(&self) -> bool {
        self@.wf()
    }

    /// The layout of a stack with at least `size` usable bytes on pages of
    /// `page_size` bytes. The request is never cut down: it is rounded up to
    /// whole pages, or refused.
    pub fn new(size: usize, page_size: usize) -> (made: Result<StackLayout, StackError>)
        ensures
            !valid_page_size(page_size as int) ==> made == Err::<StackLayout, StackError>(
                StackError::InvalidPageSize,
            ),
            valid_page_size(page_size as int) && mapped_bytes(size as int, page_size as int)
                > isize::MAX ==> made == Err::<StackLayout, StackError>(StackError::TooLarge),
            valid_page_size(page_size as int) && mapped_bytes(size as int, page_size as int)
                <= isize::MAX ==> made is Ok && made->Ok_0@ == (StackLayoutView {
                page_size: page_size as int,
                usable_size: usable_bytes(size as int, page_size as int),
            }) && made->Ok_0@.wf() && made->Ok_0@.usable_size >= size,
    {
        if page_size == 0 || page_size % STACK_ALIGNMENT != 0 {
            return Err(StackError::InvalidPageSize);
        }
        let pages: usize = if size <= page_size {
            1
        } else {
            (size - 1) / page_size + 1
        };
        proof {
            lemma_usable_bytes(size as int, page_size as int);
        }
        let usable = match pages.checked_mul(page_size) {
            Some(usable) => usable,
            None => { return Err(StackError::TooLarge); },
        };
        let guards = match page_size.checked_add(page_size) {
            Some(guards) => guards,
            None => { return Err(StackError::TooLarge); },
        };
        match usable.checked_add(guards) {
            Some(mapped) if mapped <= isize::MAX as usize => Ok(
                StackLayout { page: page_size, usable },
            ),
            _ => Err(StackError::TooLarge),
        }
    }

    /// The size of a page, and of each guard.
    pub fn page_size(&self) -> (page: usize)
        ensures
            page == self@.page_size,
    {
        self.page
    }

    /// The usable bytes between the guards.
    pub fn usable_size(&self) -> (usable: usize)
        ensures
            usable == self@.usable_size,
    {
        self.usable
    }

    /// The bytes of the whole region, guard pages included.
    pub fn mapped_size(&self) -> (mapped: usize)
        ensures
            mapped == self@.mapped_size(),
    {
        proof {
            use_type_invariant(self);
        }
        self.usable + 2 * self.page
    }
}

/// Calls `memmap::MmapMut::map_anon`, which asks the operating system for an
/// anonymous, readable and writable mapping of `len` bytes. Whether a
/// mapping comes back is the system's to decide: nothing is claimed of the
/// outcome.
#[verifier::external_body]
fn map_anon(len: usize) -> (mapped: Result<MmapMut, std::io::Error>) {
    MmapMut::map_anon(len)
}

/// Calls `as_ptr` on the bytes that `memmap::MmapMut` derefs to, and gives
/// the address of the first mapped byte as a number. The system chose the
/// address: nothing is claimed of it.
#[verifier::external_body]
fn mapping_address(buf: &MmapMut) -> (address: usize) {
    buf.as_ptr() as usize
}

/// Calls `len` on the bytes that `memmap::MmapMut` derefs to. Nothing is
/// claimed of the length: the caller compares it with what it asked for.
#[verifier::external_body]
fn mapping_len(buf: &MmapMut) -> (len: usize) {
    buf.len()
}

/// One guard page of a stack: where it starts, and how many bytes it has.
/// The owner of the stack takes every access right from these bytes.
#[derive(Clone, Copy, Debug, PartialEq, Eq, Structural)]
pub struct Guard {
    pub start: usize,
    pub len: usize,
}

impl Guard {
    /// Whether `addr` is one of the bytes of this guard page.
    pub open spec fn covers(self, addr: int) -> bool {
        self.start <= addr < self.start + self.len
    }
}

/// A flow's stack: a mapping, and the layout placed on it. Dropping the
/// stack releases the mapping; every context initialized against the stack
/// has to be abandoned by then.
#[derive(Debug)]
pub struct Stack {
    buf: MmapMut,
    base: usize,
    layout: StackLayout,
}

/// What a stack is, to a contract: where its region starts, and its layout.
pub struct StackView {
    pub base: int,
    pub layout: StackLayoutView,
}

impl StackView {
    /// The low end of the usable bytes, where the low guard page ends.
    pub open spec fn start(self) -> int {
        self.base + self.layout.page_size
    }

    /// The high end of the usable bytes, where the high guard page starts:
    /// the stack pointer of an empty stack.
    pub open spec fn end(self) -> int {
        self.start() + self.layout.usable_size
    }

    /// The end of the whole region.
    pub open spec fn limit(self) -> int {
        self.end() + self.layout.page_size
    }

    /// Whether `addr` is one of the usable bytes.
    pub open spec fn usable(self, addr: int) -> bool {
        self.start() <= addr < self.end()
    }

    /// Whether `addr` lies in one of the two guard pages.
    pub open spec fn guarded(self, addr: int) -> bool {
        self.base <= addr < self.start() || self.end() <= addr < self.limit()
    }

    /// A stack is well formed when its layout is, and its region starts at a
    /// page boundary and ends within the address space.
    pub open spec fn wf(self) -> bool {
        &&& self.layout.wf()
        &&& self.base >= 0
        &&& self.base % self.layout.page_size == 0
        &&& self.limit() <= usize::MAX
    }
}

impl View for Stack {
    type V = StackView;

    closed spec fn view(&self) -> StackView {
        StackView { base: self.base as int, layout: self.layout@ }
    }
}

impl Stack {
    #[verifier::type_invariant]
    pub open spec fn well_formed(&self) -> bool {
        self@.wf()
    }

    /// Allocate a new stack with at least `size` usable bytes, on pages of
    /// `page_size` bytes, between two guard pages.
    ///
    /// A request that cannot be served is an error, never a smaller stack.
    /// The guard pages are readable and writable until the owner protects
    /// them.
    pub fn new(size: usize, page_size: usize) -> (made: Result<Stack, StackError>)
        ensures
            !valid_page_size(page_size as int) ==> made is Err && made->Err_0
                == StackError::InvalidPageSize,
            valid_page_size(page_size as int) && mapped_bytes(size as int, page_size as int)
                > isize::MAX ==> made is Err && made->Err_0 == StackError::TooLarge,
            valid_page_size(page_size as int) && mapped_bytes(size as int, page_size as int)
                <= isize::MAX ==> match made {
                Ok(stack) => {
                    &&& stack@.wf()
                    &&& stack@.layout.page_size == page_size
                    &&& stack@.layout.usable_size == usable_bytes(size as int, page_size as int)
                    &&& stack@.layout.usable_size >= size
                },
                Err(e) => e == StackError::AllocationFailed || e == StackError::Misplaced,
            },
    {
        let layout = match StackLayout::new(size, page_size) {
            Ok(layout) => layout,
            Err(e) => { return Err(e); },
        };
        match map_anon(layout.mapped_size()) {
            Ok(buf) => {
                let base = mapping_address(&buf);
                let len = mapping_len(&buf);
                Stack::place(buf, base, len, layout)
            },
            Err(_) => Err(StackError::AllocationFailed),
        }
    }

    /// Places `layout` on the mapping `buf`, which starts at `base` and is
    /// `len` bytes long. The stack comes about when the mapping has the
    /// length of the layout, starts at a page boundary and ends within the
    /// address space.
    pub fn place(buf: MmapMut, base: usize, len: usize, layout: StackLayout) -> (made: Result<
        Stack,
        StackError,
    >)
        ensures
            fits(base as int, len as int, layout@) ==> made is Ok && made->Ok_0@ == (StackView {
                base: base as int,
                layout: layout@,
            }) && made->Ok_0@.wf(),
            !fits(base as int, len as int, layout@) ==> made is Err && made->Err_0
                == StackError::Misplaced,
    {
        proof {
            use_type_invariant(&layout);
        }
        if len != layout.mapped_size() || base % layout.page_size() != 0 || base > usize::MAX
            - len {
            return Err(StackError::Misplaced);
        }
        Ok(Stack { buf, base, layout })
    }

    /// The start of the region, which is the start of the low guard page.
    pub fn base(&self) -> (addr: usize)
        ensures
            addr == self@.base,
            self@.wf(),
    {
        proof {
            use_type_invariant(self);
        }
        self.base
    }

    /// The end of the region, which is the end of the high guard page.
    pub fn limit(&self) -> (addr: usize)
        ensures
            addr == self@.limit(),
            self@.wf(),
    {
        proof {
            use_type_invariant(self);
            use_type_invariant(&self.layout);
        }
        self.base + self.layout.mapped_size()
    }

    /// The two guard pages, the low one first: the page below the usable
    /// bytes, which a stack that grows too far runs into, and the page above
    /// them.
    pub fn guards(&self) -> (pages: [Guard; 2])
        ensures
            pages[0] == (Guard {
                start: self@.base as usize,
                len: self@.layout.page_size as usize,
            }),
            pages[1] == (Guard {
                start: self@.end() as usize,
                len: self@.layout.page_size as usize,
            }),
            forall|addr: int|
                self@.guarded(addr) <==> pages[0].covers(addr) || pages[1].covers(addr),
            self@.wf(),
    {
        proof {
            use_type_invariant(self);
            use_type_invariant(&self.layout);
        }
        let page = self.layout.page_size();
        [Guard { start: self.base, len: page }, Guard { start: self.end(), len: page }]
    }

    /// The sizes of the region.
    pub fn layout(&self) -> (layout: StackLayout)
        ensures
            layout@ == self@.layout,
            self@.wf(),
    {
        proof {
            use_type_invariant(self);
        }
        self.layout
    }

    /// The low end of the usable bytes.
    pub fn start(&self) -> (addr: usize)
        ensures
            addr == self@.start(),
            self@.wf(),
    {
        proof {
            use_type_invariant(self);
            use_type_invariant(&self.layout);
        }
        self.base + self.layout.page_size()
    }

    /// The high end of the usable bytes: the stack pointer of an empty stack,
    /// which meets the alignment that the calling convention mandates.
    pub fn end(&self) -> (addr: usize)
        ensures
            addr == self@.end(),
            addr % STACK_ALIGNMENT == 0,
            self@.wf(),
    {
        proof {
            use_type_invariant(self);
            use_type_invariant(&self.layout);
            lemma_end_aligned(self@);
        }
        self.base + self.layout.page_size() + self.layout.usable_size()
    }
}

/// Whether a mapping of `len` bytes at `base` can carry `layout`.
pub open spec fn fits(base: int, len: int, layout: StackLayoutView) -> bool {
    &&& len == layout.mapped_size()
    &&& base % layout.page_size == 0
    &&& base + len <= usize::MAX
}

/// Both ends of the usable bytes of a well-formed stack are multiples of the
/// stack alignment.
pub proof fn lemma_end_aligned(stack: StackView)
    requires
        stack.wf(),
    ensures
        stack.start() % (STACK_ALIGNMENT as int) == 0,
        stack.end() % (STACK_ALIGNMENT as int) == 0,
{
    let page = stack.layout.page_size;
    lemma_multiple_of_page(stack.base, page);
    lemma_multiple_of_page(stack.layout.usable_size, page);
}

/// The call frame of a fresh flow lies on the flow's own stack: laid out
/// against the end of a well-formed stack, its return slot is the topmost
/// usable word.
pub proof fn lemma_frame_on_stack(stack: StackView)
    requires
        stack.wf(),
    ensures
        stack.end() >= STACK_ALIGNMENT,
        return_slot(stack.end() as usize) + WORD_SIZE == stack.end(),
        stack.usable(return_slot(stack.end() as usize) as int),
{
    lemma_end_aligned(stack);
}

/// Two stacks whose regions do not overlap share no byte that either can
/// use: what one flow keeps on its stack is out of the other's usable bytes
/// and guard pages alike.
pub proof fn lemma_stacks_apart(a: StackView, b: StackView, addr: int)
    requires
        a.wf(),
        b.wf(),
        a.limit() <= b.base || b.limit() <= a.base,
        a.usable(addr),
    ensures
        !b.usable(addr),
        !b.guarded(addr),
{
}

/// A stack pointer that leaves the usable bytes downwards by a step of at
/// most one page lands in the low guard page, not in memory beyond the
/// region.
pub proof fn lemma_overflow_meets_guard(stack: StackView, sp: int, step: int)
    requires
        stack.wf(),
        stack.start() <= sp <= stack.end(),
        0 < step <= stack.layout.page_size,
        sp - step < stack.start(),
    ensures
        stack.guarded(sp - step),
        !stack.usable(sp - step),
{
}

/// A multiple of a valid page size is a multiple of the stack alignment.
proof fn lemma_multiple_of_page(n: int, page: int)
    requires
        valid_page_size(page),
        n >= 0,
        n % page == 0,
    ensures
        n % 16 == 0,
{
    let k = n / page;
    let m = page / 16;
    assert(n == k * page) by (nonlinear_arith)
        requires
            k == n / page,
            n % page == 0,
            page > 0,
    ;
    assert(page == m * 16);
    assert(n == (k * m) * 16) by (nonlinear_arith)
        requires
            n == k * page,
            page == m * 16,
    ;
    assert(((k * m) * 16) % 16 == 0) by (nonlinear_arith);
}

} // verus!
