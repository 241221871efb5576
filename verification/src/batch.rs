use vstd::prelude::*;

use crate::config::{APP_BASE_ADDRESS, KERNEL_STACK_SIZE, MAX_APP_NUM, USER_STACK_SIZE};
use crate::loader::{AppLoad, KernelStack, UserStack};
use crate::trap::TrapContext;

verus! {

/// The batch-mode application manager: applications run one after the
/// other, each loaded into the single slot at `APP_BASE_ADDRESS`.
pub struct AppManager {
    num_app: usize,
    current_app: usize,
    app_start: [usize; 17],
}

/// What loading an application amounts to in batch mode.
///
/// `AllComplete`: no application is left, and the machine is to report
/// it and power off. `Load`: the slot is to be filled as the plan says.
#[derive(Debug, Clone, Copy, PartialEq, Eq, Structural)]
pub enum BatchLoad {
    AllComplete,
    Load(AppLoad),
}

/// The steps of starting the next application in batch mode: the load,
/// and the initial trap context with the address it is stored at, from
/// which the trap-restore routine enters the application.
pub struct NextApp {
    pub load: BatchLoad,
    pub cx_addr: usize,
    pub cx: TrapContext,
}

impl AppManager {
    /// Number of applications.
    pub closed spec fn app_count(&self) -> usize {
        self.num_app
    }

    /// Index of the application to run next.
    pub closed spec fn current(&self) -> usize {
        self.current_app
    }

    /// The table of image bounds: image `i` spans `[starts[i], starts[i + 1])`.
    pub closed spec fn starts(&self) -> Seq<usize> {
        self.app_start@
    }

    /// At most `MAX_APP_NUM` applications.
    pub closed spec fn wf(&self) -> bool {
        self.num_app <= MAX_APP_NUM
    }

    /// Whether image `id` has non-decreasing bounds, so that it can be
    /// loaded.
    pub open spec fn image_ok(&self, id: int) -> bool {
        self.starts()[id] <= self.starts()[id + 1]
    }

    /// A manager for the applications whose image bounds `app_start` lists;
    /// the first application runs first and the unused table entries are 0.
    pub fn new(app_start: &[usize]) -> (am: AppManager)
        requires
            1 <= app_start@.len() <= MAX_APP_NUM + 1,
        ensures
            am.wf(),
            am.app_count() == app_start@.len() - 1,
            am.current() == 0,
            am.starts().len() == MAX_APP_NUM + 1,
            forall|i: int| 0 <= i < app_start@.len() ==> #[trigger] am.starts()[i] == app_start@[i],
            forall|i: int| app_start@.len() <= i <= MAX_APP_NUM ==> #[trigger] am.starts()[i] == 0,
    {
        let num_app = app_start.len() - 1;
        let mut table: [usize; 17] = [0; 17];
        let mut i: usize = 0;
        while i <= num_app
            invariant
                num_app == app_start@.len() - 1,
                num_app <= MAX_APP_NUM,
                i <= num_app + 1,
                table@.len() == MAX_APP_NUM + 1,
                forall|j: int| 0 <= j < i ==> #[trigger] table@[j] == app_start@[j],
                forall|j: int| i <= j <= MAX_APP_NUM ==> #[trigger] table@[j] == 0,
            decreases num_app + 1 - i,
        {
            table[i] = app_start[i];
            i = i + 1;
        }
        AppManager { num_app, current_app: 0, app_start: table }
    }

    /// The image bounds of application `id`, as reported at start-up.
    pub fn app_range(&self, id: usize) -> (range: (usize, usize))
        requires
            self.wf(),
            id < self.app_count(),
        ensures
            range == (self.starts()[id as int], self.starts()[id + 1]),
    {
        (self.app_start[id], self.app_start[id + 1])
    }

    /// Index of the application to run next.
    pub fn current_app(&self) -> (id: usize)
        ensures
            id == self.current(),
    {
        self.current_app
    }

    /// Moves on to the following application.
    pub fn next_app(&mut self)
        requires
            old(self).current() < usize::MAX,
        ensures
            final(self).current() == old(self).current() + 1,
            final(self).app_count() == old(self).app_count(),
            final(self).starts() == old(self).starts(),
            old(self).wf() ==> final(self).wf(),
    {
        self.current_app = self.current_app + 1;
    }

    /// How application `id` is loaded: into the slot at `APP_BASE_ADDRESS`,
    /// or, past the last application, not at all.
    pub fn load_app(&self, id: usize) -> (load: BatchLoad)
        requires
            self.wf(),
            id < self.app_count() ==> self.image_ok(id as int),
        ensures
            id >= self.app_count() ==> load == BatchLoad::AllComplete,
            id < self.app_count() ==> load == BatchLoad::Load(
                AppLoad {
                    base: APP_BASE_ADDRESS,
                    src_start: self.starts()[id as int],
                    len: (self.starts()[id + 1] - self.starts()[id as int]) as usize,
                },
            ),
    {
        if id >= self.num_app {
            return BatchLoad::AllComplete;
        }
        BatchLoad::Load(
            AppLoad {
                base: APP_BASE_ADDRESS,
                src_start: self.app_start[id],
                len: self.app_start[id + 1] - self.app_start[id],
            },
        )
    }
}

/// Starts the next application in batch mode: the current one is loaded
/// (or the batch is over), the manager moves on, and the application is
/// entered at the slot's base on an empty user stack with status `sstatus`,
/// its context lying at the top of the kernel stack.
pub fn run_next_app(
    app: &mut AppManager,
    kernel_stack: &KernelStack,
    user_stack: &UserStack,
    sstatus: usize,
) -> (next: NextApp)
    requires
        old(app).wf(),
        old(app).current() < old(app).app_count() ==> old(app).image_ok(old(app).current() as int),
        old(app).current() < usize::MAX,
        kernel_stack.wf(),
        user_stack.wf(),
        vstd::layout::size_of::<TrapContext>() <= KERNEL_STACK_SIZE,
    ensures
        final(app).wf(),
        final(app).current() == old(app).current() + 1,
        final(app).app_count() == old(app).app_count(),
        final(app).starts() == old(app).starts(),
        old(app).current() >= old(app).app_count() ==> next.load == BatchLoad::AllComplete,
        old(app).current() < old(app).app_count() ==> next.load == BatchLoad::Load(
            AppLoad {
                base: APP_BASE_ADDRESS,
                src_start: old(app).starts()[old(app).current() as int],
                len: (old(app).starts()[old(app).current() + 1] - old(app).starts()[old(
                    app,
                ).current() as int]) as usize,
            },
        ),
        next.cx_addr + vstd::layout::size_of::<TrapContext>() == kernel_stack.data_addr
            + KERNEL_STACK_SIZE,
        next.cx.sepc == APP_BASE_ADDRESS,
        next.cx.sstatus == sstatus,
        forall|i: int|
            0 <= i < 32 ==> #[trigger] next.cx.x@[i] == if i == 2 {
                user_stack.data_addr + USER_STACK_SIZE
            } else {
                0
            },
{
    let current = app.current_app();
    let load = app.load_app(current);
    app.next_app();
    let cx = TrapContext::app_init_context(APP_BASE_ADDRESS, user_stack.get_sp(), sstatus);
    NextApp { load, cx_addr: kernel_stack.push_context(), cx }
}

} // verus!
