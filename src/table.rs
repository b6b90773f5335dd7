use vstd::prelude::*;

verus! {

/// One optional callback of the capability table: either the kernel offers
/// it or it does not. Absence is no error; it says that this kernel build
/// does not offer the service.
#[derive(Clone, Copy, Debug, PartialEq, Eq, Structural)]
pub enum Capability {
    Present,
    Absent,
}

impl Capability {
    /// Whether the kernel offers this callback.
    pub open spec fn present(self) -> bool {
        self is Present
    }

    /// Tests presence. The test reads the capability and changes nothing.
    pub fn is_present(&self) -> (r: bool)
        ensures
            r == self.present(),
    {
        match self {
            Capability::Present => true,
            Capability::Absent => false,
        }
    }
}

/// The loaded module's own image: where it starts and how large it is.
/// Filled in by the loader before entry and never changed afterwards.
#[derive(Clone, Copy, Debug, PartialEq, Eq, Structural)]
pub struct ModuleInfo {
    pub module_base: usize,
    pub module_size: usize,
}

impl ModuleInfo {
    pub fn new(module_base: usize, module_size: usize) -> (r: ModuleInfo)
        ensures
            r.module_base == module_base,
            r.module_size == module_size,
    {
        ModuleInfo { module_base, module_size }
    }

    /// The address at which the module's image starts.
    pub fn module_base(&self) -> (r: usize)
        ensures
            r == self.module_base,
    {
        self.module_base
    }

    /// The size of the module's image in bytes.
    pub fn module_size(&self) -> (r: usize)
        ensures
            r == self.module_size,
    {
        self.module_size
    }
}

/// Services of the kernel itself: registering a new cooperative task.
#[derive(Clone, Copy, Debug, PartialEq, Eq, Structural)]
pub struct KernelApi {
    pub add_task: Capability,
}

/// Services of the console device: reading into a buffer and writing one.
#[derive(Clone, Copy, Debug, PartialEq, Eq, Structural)]
pub struct DeviceApi {
    pub uart_read: Capability,
    pub uart_write: Capability,
}

/// Services on the calling task: sleeping for some milliseconds, and
/// giving up the rest of the time slice.
#[derive(Clone, Copy, Debug, PartialEq, Eq, Structural)]
pub struct ThisTaskApi {
    pub sleep: Capability,
    pub yield_: Capability,
}

/// The capability table, in the order in which the kernel lays it out:
/// the module descriptor, reserved memory slots, kernel, device and task
/// services, and reserved slots for the floating-point unit's state.
/// The reserved slots are carried as they are and never interpreted.
#[derive(Clone, Copy, Debug)]
pub struct AikaApi {
    pub module: ModuleInfo,
    pub memory: [usize; 3],
    pub kernel: KernelApi,
    pub device: DeviceApi,
    pub this_task: ThisTaskApi,
    pub fpu: [usize; 2],
}

impl AikaApi {
    /// Whether no callback at all is offered.
    pub open spec fn all_absent(self) -> bool {
        &&& !self.kernel.add_task.present()
        &&& !self.device.uart_read.present()
        &&& !self.device.uart_write.present()
        &&& !self.this_task.sleep.present()
        &&& !self.this_task.yield_.present()
    }

    /// The module descriptor, as the loader filled it in.
    pub fn module_info(&self) -> (r: ModuleInfo)
        ensures
            r == self.module,
    {
        self.module
    }
}

} // verus!
