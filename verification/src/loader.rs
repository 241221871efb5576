use vstd::prelude::*;

use crate::config::{
    APP_BASE_ADDRESS, APP_SIZE_LIMIT, KERNEL_STACK_SIZE, MAX_APP_NUM, USER_STACK_SIZE,
};
use crate::trap::TrapContext;

verus! {

/// Start address of application slot `id`.
pub open spec fn base_of(id: int) -> int {
    APP_BASE_ADDRESS + id * APP_SIZE_LIMIT
}

/// Start address of the slot into which application `id` is loaded.
pub fn get_base_i(id: usize) -> (base: usize)
    requires
        base_of(id as int) <= usize::MAX,
    ensures
        base == base_of(id as int),
        base == 0x8040_0000 + id * 0x20000,
{
    APP_BASE_ADDRESS + id * APP_SIZE_LIMIT
}

/// The kernel stack of an application, known by the address of its lowest
/// byte.
pub struct KernelStack {
    pub data_addr: usize,
}

/// The user stack of an application, known by the address of its lowest
/// byte.
pub struct UserStack {
    pub data_addr: usize,
}

impl KernelStack {
    /// Whether the whole stack lies within the address space.
    pub open spec fn wf(&self) -> bool {
        self.data_addr + KERNEL_STACK_SIZE <= usize::MAX
    }

    /// The initial stack pointer: one past the highest byte.
    pub fn get_sp(&self) -> (sp: usize)
        requires
            self.wf(),
        ensures
            sp == self.data_addr + KERNEL_STACK_SIZE,
    {
        self.data_addr + KERNEL_STACK_SIZE
    }

    /// The address at which a trap context pushed onto this empty stack
    /// lies: it ends at the stack pointer, within the stack. The caller
    /// stores the context there. A context has to fit in a kernel stack.
    pub fn push_context(&self) -> (addr: usize)
        requires
            self.wf(),
            vstd::layout::size_of::<TrapContext>() <= KERNEL_STACK_SIZE,
        ensures
            addr + vstd::layout::size_of::<TrapContext>() == self.data_addr + KERNEL_STACK_SIZE,
            self.data_addr <= addr,
    {
        self.get_sp() - core::mem::size_of::<TrapContext>()
    }
}

impl UserStack {
    /// Whether the whole stack lies within the address space.
    pub open spec fn wf(&self) -> bool {
        self.data_addr + USER_STACK_SIZE <= usize::MAX
    }

    /// The initial stack pointer: one past the highest byte.
    pub fn get_sp(&self) -> (sp: usize)
        requires
            self.wf(),
        ensures
            sp == self.data_addr + USER_STACK_SIZE,
    {
        self.data_addr + USER_STACK_SIZE
    }
}

/// The kernel stacks of all applications, one after the other from
/// `base`: the stack of application `id` starts `id` stack sizes in.
pub struct KernelStackArray {
    pub base: usize,
}

/// The user stacks of all applications, one after the other from `base`.
pub struct UserStackArray {
    pub base: usize,
}

impl KernelStackArray {
    /// Whether all the stacks lie within the address space.
    pub open spec fn wf(&self) -> bool {
        self.base + MAX_APP_NUM * KERNEL_STACK_SIZE <= usize::MAX
    }

    /// Lowest address of the kernel stack of application `id`.
    pub open spec fn stack_base(&self, id: int) -> int {
        self.base + id * KERNEL_STACK_SIZE
    }

    /// Where the initial trap context of application `id` lies: at the top
    /// of its kernel stack.
    pub open spec fn context_addr(&self, id: int) -> int {
        self.stack_base(id) + KERNEL_STACK_SIZE - vstd::layout::size_of::<TrapContext>()
    }

    /// The kernel stack of application `id`.
    pub fn get(&self, id: usize) -> (ks: KernelStack)
        requires
            self.wf(),
            id < MAX_APP_NUM,
        ensures
            ks.data_addr == self.stack_base(id as int),
            ks.data_addr == self.base + id * KERNEL_STACK_SIZE,
            ks.wf(),
    {
        proof {
            lemma_stack_in_array(id as int, KERNEL_STACK_SIZE as int);
        }
        KernelStack { data_addr: self.base + id * KERNEL_STACK_SIZE }
    }
}

impl UserStackArray {
    /// Whether all the stacks lie within the address space.
    pub open spec fn wf(&self) -> bool {
        self.base + MAX_APP_NUM * USER_STACK_SIZE <= usize::MAX
    }

    /// Lowest address of the user stack of application `id`.
    pub open spec fn stack_base(&self, id: int) -> int {
        self.base + id * USER_STACK_SIZE
    }

    /// The user stack of application `id`.
    pub fn get(&self, id: usize) -> (us: UserStack)
        requires
            self.wf(),
            id < MAX_APP_NUM,
        ensures
            us.data_addr == self.stack_base(id as int),
            us.data_addr == self.base + id * USER_STACK_SIZE,
            us.wf(),
    {
        proof {
            lemma_stack_in_array(id as int, USER_STACK_SIZE as int);
        }
        UserStack { data_addr: self.base + id * USER_STACK_SIZE }
    }
}

proof fn lemma_stack_in_array(id: int, size: int)
    requires
        0 <= id < MAX_APP_NUM,
        0 <= size,
    ensures
        0 <= id * size,
        id * size + size <= MAX_APP_NUM * size,
{
    assert(0 <= id * size) by (nonlinear_arith)
        requires
            0 <= id,
            0 <= size,
    ;
    assert(id * size + size <= MAX_APP_NUM * size) by (nonlinear_arith)
        requires
            0 <= id < MAX_APP_NUM,
            0 <= size,
    ;
}

/// The initial trap context of application `id` and where it goes: the
/// application starts at the base of its slot on its own user stack with
/// status `sstatus`, and the context lies at the top of its own kernel
/// stack.
pub fn init_app_cx(
    id: usize,
    kernel_stacks: &KernelStackArray,
    user_stacks: &UserStackArray,
    sstatus: usize,
) -> (placed: (usize, TrapContext))
    requires
        id < MAX_APP_NUM,
        kernel_stacks.wf(),
        user_stacks.wf(),
        vstd::layout::size_of::<TrapContext>() <= KERNEL_STACK_SIZE,
    ensures
        placed.0 == kernel_stacks.context_addr(id as int),
        placed.0 + vstd::layout::size_of::<TrapContext>() == kernel_stacks.base + (id + 1)
            * KERNEL_STACK_SIZE,
        placed.1.x@[2] == user_stacks.base + (id + 1) * USER_STACK_SIZE,
        placed.1.sepc == base_of(id as int),
        placed.1.sstatus == sstatus,
        forall|i: int|
            0 <= i < 32 ==> #[trigger] placed.1.x@[i] == if i == 2 {
                user_stacks.stack_base(id as int) + USER_STACK_SIZE
            } else {
                0
            },
{
    proof {
        assert((id + 1) * USER_STACK_SIZE == id * USER_STACK_SIZE + USER_STACK_SIZE)
            by (nonlinear_arith);
        assert((id + 1) * KERNEL_STACK_SIZE == id * KERNEL_STACK_SIZE + KERNEL_STACK_SIZE)
            by (nonlinear_arith);
    }
    let user_stack = user_stacks.get(id);
    let kernel_stack = kernel_stacks.get(id);
    let cx = TrapContext::app_init_context(get_base_i(id), user_stack.get_sp(), sstatus);
    (kernel_stack.push_context(), cx)
}

/// Different applications get disjoint stacks: the kernel stack and the
/// user stack of application `i` end at or before those of any later
/// application `j` start, each application's stacks lying one stack size
/// further on per application before it.
pub proof fn lemma_stacks_disjoint(
    kernel_stacks: KernelStackArray,
    user_stacks: UserStackArray,
    i: int,
    j: int,
)
    requires
        0 <= i < j,
    ensures
        kernel_stacks.stack_base(i) == kernel_stacks.base + i * KERNEL_STACK_SIZE,
        user_stacks.stack_base(i) == user_stacks.base + i * USER_STACK_SIZE,
        kernel_stacks.stack_base(i) + KERNEL_STACK_SIZE <= kernel_stacks.stack_base(j),
        user_stacks.stack_base(i) + USER_STACK_SIZE <= user_stacks.stack_base(j),
{
    assert((j - i) * KERNEL_STACK_SIZE >= KERNEL_STACK_SIZE) by (nonlinear_arith)
        requires
            j - i >= 1,
    ;
    assert(j * KERNEL_STACK_SIZE - i * KERNEL_STACK_SIZE == (j - i) * KERNEL_STACK_SIZE)
        by (nonlinear_arith);
    assert((j - i) * USER_STACK_SIZE >= USER_STACK_SIZE) by (nonlinear_arith)
        requires
            j - i >= 1,
    ;
    assert(j * USER_STACK_SIZE - i * USER_STACK_SIZE == (j - i) * USER_STACK_SIZE)
        by (nonlinear_arith);
}

/// The initial contexts of different applications are one kernel stack
/// size apart for each application in between, so they never overlap.
pub proof fn lemma_contexts_disjoint(kernel_stacks: KernelStackArray, i: int, j: int)
    requires
        0 <= i < j,
        vstd::layout::size_of::<TrapContext>() <= KERNEL_STACK_SIZE,
    ensures
        kernel_stacks.context_addr(j) - kernel_stacks.context_addr(i) == (j - i) * KERNEL_STACK_SIZE,
        kernel_stacks.context_addr(i) + vstd::layout::size_of::<TrapContext>()
            <= kernel_stacks.context_addr(j),
{
    assert(j * KERNEL_STACK_SIZE - i * KERNEL_STACK_SIZE == (j - i) * KERNEL_STACK_SIZE)
        by (nonlinear_arith);
    assert((j - i) * KERNEL_STACK_SIZE >= KERNEL_STACK_SIZE) by (nonlinear_arith)
        requires
            j - i >= 1,
    ;
}

/// How one application is loaded: its slot `[base, base + APP_SIZE_LIMIT)`
/// is cleared, then the `len` bytes of its image at `src_start` are copied
/// to `base`.
#[derive(Debug, Clone, Copy, PartialEq, Eq, Structural)]
pub struct AppLoad {
    pub base: usize,
    pub src_start: usize,
    pub len: usize,
}

/// Whether `app_start` is a table of application image bounds that can be
/// loaded: image `i` spans `[app_start[i], app_start[i + 1])`, the bounds
/// do not decrease, and every slot lies within the address space.
pub open spec fn loadable(app_start: Seq<usize>) -> bool {
    &&& app_start.len() >= 1
    &&& forall|i: int| 0 <= i < app_start.len() - 1 ==> app_start[i] <= #[trigger] app_start[i + 1]
    &&& base_of(app_start.len() - 1) <= usize::MAX
}

/// The loading of the applications whose image bounds `app_start` lists:
/// application `i` goes to slot `i`, taking the bytes between its bound and
/// the next.
pub fn load_apps(app_start: &[usize]) -> (plan: Vec<AppLoad>)
    requires
        loadable(app_start@),
    ensures
        plan@.len() == app_start@.len() - 1,
        forall|i: int|
            0 <= i < plan@.len() ==> #[trigger] plan@[i] == (AppLoad {
                base: base_of(i) as usize,
                src_start: app_start@[i],
                len: (app_start@[i + 1] - app_start@[i]) as usize,
            }),
        forall|i: int|
            0 <= i < plan@.len() ==> #[trigger] plan@[i].base == 0x8040_0000 + i * 0x20000,
{
    let num_app = app_start.len() - 1;
    let mut plan: Vec<AppLoad> = Vec::new();
    let mut i: usize = 0;
    while i < num_app
        invariant
            num_app == app_start@.len() - 1,
            loadable(app_start@),
            i <= num_app,
            plan@.len() == i,
            forall|j: int|
                0 <= j < i ==> #[trigger] plan@[j] == (AppLoad {
                    base: base_of(j) as usize,
                    src_start: app_start@[j],
                    len: (app_start@[j + 1] - app_start@[j]) as usize,
                }),
        decreases num_app - i,
    {
        let base_i = get_base_i(i);
        let len = app_start[i + 1] - app_start[i];
        plan.push(AppLoad { base: base_i, src_start: app_start[i], len });
        i = i + 1;
    }
    plan
}

/// Application slots do not overlap: slot `i` ends at or before the start
/// of every later slot `j`.
pub proof fn lemma_slots_disjoint(i: int, j: int)
    requires
        0 <= i < j,
    ensures
        base_of(i) + APP_SIZE_LIMIT <= base_of(j),
{
    assert((j - i) * APP_SIZE_LIMIT >= APP_SIZE_LIMIT) by (nonlinear_arith)
        requires
            j - i >= 1,
    ;
    assert(base_of(j) - base_of(i) == (j - i) * APP_SIZE_LIMIT) by (nonlinear_arith);
}

} // verus!
