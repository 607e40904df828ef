//! Process and thread spawn records carried across the call gate.
use vstd::prelude::*;

use crate::ffi::num::ShouldNotBeZero;
use crate::ffi::option::COption;
use crate::ffi::option::OptZero;
use crate::ffi::option::coption_of;
use crate::ffi::ptr::FFINonNull;
use crate::ffi::slice::Slice;
use crate::ffi::str::Str;

verus! {

/// The record a parent hands to a freshly spawned process: for now only the
/// stdio resources, the parent's PID, and the number of available CPUs.
#[derive(Debug, Clone, Copy)]
pub struct AbiStructures {
    pub stdio: ProcessStdio,
    /// The PID of the parent process of this thread.
    pub parent_process_pid: u32,
    /// The number of CPUs available to this process.
    pub available_cpus: u32,
}

impl AbiStructures {
    pub fn new(stdio: ProcessStdio, parent_pid: u32, available_cpus: u32) -> (r: Self)
        ensures
            r.stdio == stdio,
            r.parent_process_pid == parent_pid,
            r.available_cpus == available_cpus,
    {
        Self { available_cpus, stdio, parent_process_pid: parent_pid }
    }
}

/// The stdio resources handed to a process, each optional and carried in the
/// tagged encoding because resource ID zero is a legitimate value.
#[derive(Debug, Clone, Copy)]
pub struct ProcessStdio {
    pub stdout: COption<usize>,
    pub stdin: COption<usize>,
    pub stderr: COption<usize>,
}

impl ProcessStdio {
    /// Builds the record from optional resource IDs, widening each to the
    /// machine word the wire format carries.
    pub fn new(stdout: Option<u32>, stdin: Option<u32>, stderr: Option<u32>) -> (r: Self)
        ensures
            r.stdout == coption_of(
                match stdout {
                    Option::Some(v) => Option::Some(v as usize),
                    Option::None => Option::<usize>::None,
                },
            ),
            r.stdin == coption_of(
                match stdin {
                    Option::Some(v) => Option::Some(v as usize),
                    Option::None => Option::<usize>::None,
                },
            ),
            r.stderr == coption_of(
                match stderr {
                    Option::Some(v) => Option::Some(v as usize),
                    Option::None => Option::<usize>::None,
                },
            ),
    {
        Self {
            stdout: COption::from_option(
                match stdout {
                    Some(v) => Some(v as usize),
                    None => None,
                },
            ),
            stdin: COption::from_option(
                match stdin {
                    Some(v) => Some(v as usize),
                    None => None,
                },
            ),
            stderr: COption::from_option(
                match stderr {
                    Some(v) => Some(v as usize),
                    None => None,
                },
            ),
        }
    }

    /// Converts the record into a tuple of optional resource IDs — (stdout,
    /// stdin, stderr) — narrowing each stored word to 32 bits.
    pub fn into_rust(self) -> (r: (Option<u32>, Option<u32>, Option<u32>))
        ensures
            r.0 == (match self.stdout {
                COption::Present(v) => Option::Some(v as u32),
                COption::Absent => Option::<u32>::None,
            }),
            r.1 == (match self.stdin {
                COption::Present(v) => Option::Some(v as u32),
                COption::Absent => Option::<u32>::None,
            }),
            r.2 == (match self.stderr {
                COption::Present(v) => Option::Some(v as u32),
                COption::Absent => Option::<u32>::None,
            }),
    {
        (
            match self.stdout {
                COption::Present(stdout) => Some(#[verifier::truncate] (stdout as u32)),
                COption::Absent => None,
            },
            match self.stdin {
                COption::Present(stdin) => Some(#[verifier::truncate] (stdin as u32)),
                COption::Absent => None,
            },
            match self.stderr {
                COption::Present(stderr) => Some(#[verifier::truncate] (stderr as u32)),
                COption::Absent => None,
            },
        )
    }
}

impl Default for ProcessStdio {
    /// The default record hands over no stdio resources.
    fn default() -> (r: Self)
        ensures
            r.stdout == COption::<usize>::Absent,
            r.stdin == COption::<usize>::Absent,
            r.stderr == COption::<usize>::Absent,
    {
        ProcessStdio { stdout: COption::Absent, stdin: COption::Absent, stderr: COption::Absent }
    }
}

/// Flags for the process-spawn call, as a bit set.
#[derive(Debug, Clone, Copy)]
pub struct SpawnFlags(u8);

impl SpawnFlags {
    pub const CLONE_RESOURCES: u8 = 1;

    pub const CLONE_CWD: u8 = 2;

    pub const EMPTY: u8 = 0;

    /// The raw bits of this flag set.
    pub closed spec fn spec_bits(self) -> u8 {
        self.0
    }

    /// Builds a flag set from raw bits.
    pub fn from_bits(bits: u8) -> (r: Self)
        ensures
            r.spec_bits() == bits,
    {
        Self(bits)
    }

    pub fn or(self, rhs: Self) -> (r: Self)
        ensures
            r.spec_bits() == (self.spec_bits() | rhs.spec_bits()),
    {
        Self(self.0 | rhs.0)
    }
}

/// The scheduling priority requested for a spawned process or thread.
#[derive(Debug, Clone, Copy, PartialEq, Eq, Structural)]
pub enum RawContextPriority {
    /// Default priority, used when no custom priority is specified; for a
    /// process spawn the kernel currently falls back to medium, and a thread
    /// spawn inherits the parent's priority.
    Default,
    Low,
    Medium,
    High,
}

/// Configuration for the process-spawn call.
///
/// The `revision` field versions this record for compatibility: revision 1
/// added the environment, revision 2 the priority, revision 3 the custom
/// stack size.
#[derive(Debug, Clone, Copy)]
pub struct RawPSpawnConfig {
    /// Record revision; see the type documentation.
    pub revision: u8,
    pub _reserved: [u8; 7],
    pub name: OptZero<Str>,
    pub argv: OptZero<Slice<Str>>,
    pub flags: SpawnFlags,
    pub _reserved1: [u8; 7],
    pub stdio: OptZero<FFINonNull<ProcessStdio>>,
    /// Revision 1 and above.
    pub env: OptZero<Slice<Slice<u8>>>,
    /// Revision 2 and above.
    pub priority: RawContextPriority,
    pub _reserved2: [u8; 7],
    /// Revision 3 and above.
    pub custom_stack_size: OptZero<ShouldNotBeZero<usize>>,
}

impl RawPSpawnConfig {
    /// Creates a process spawn configuration with the latest revision from
    /// raw wire values.
    pub fn new_from_raw(
        name: OptZero<Str>,
        argv: OptZero<Slice<Str>>,
        env: OptZero<Slice<Slice<u8>>>,
        flags: SpawnFlags,
        stdio: OptZero<FFINonNull<ProcessStdio>>,
        priority: RawContextPriority,
        custom_stack_size: OptZero<ShouldNotBeZero<usize>>,
    ) -> (r: Self)
        ensures
            r.revision == 3,
            r.name == name,
            r.argv == argv,
            r.env == env,
            r.flags == flags,
            r.stdio == stdio,
            r.priority == priority,
            r.custom_stack_size == custom_stack_size,
    {
        Self {
            revision: 3,
            name,
            argv,
            env,
            flags,
            stdio,
            priority,
            custom_stack_size,
            _reserved2: [0; 7],
            _reserved1: [0; 7],
            _reserved: [0; 7],
        }
    }
}

/// Configuration for the thread-spawn call: a single optional argument
/// pointer that is passed to the thread as its second argument.
///
/// The `revision` field versions this record: revision 1 added the custom
/// stack size.
#[derive(Debug, Clone, Copy)]
pub struct RawTSpawnConfig {
    /// Record revision; see the type documentation.
    pub revision: u32,
    pub _reserved: u32,
    pub argument_ptr: usize,
    pub priority: RawContextPriority,
    /// The index of the CPU to append to; if absent the kernel chooses one.
    /// Zero means the boot CPU.
    pub cpu: COption<u8>,
    pub _reserved1: [u8; 5],
    /// Revision 1 and above.
    pub custom_stack_size: OptZero<ShouldNotBeZero<usize>>,
}

impl RawTSpawnConfig {
    /// Creates a thread spawn configuration with the latest revision from
    /// raw wire values.
    pub fn new_from_raw(
        argument_ptr: usize,
        priority: RawContextPriority,
        cpu: COption<u8>,
        custom_stack_size: OptZero<ShouldNotBeZero<usize>>,
    ) -> (r: Self)
        ensures
            r.revision == 1,
            r.argument_ptr == argument_ptr,
            r.priority == priority,
            r.cpu == cpu,
            r.custom_stack_size == custom_stack_size,
    {
        Self {
            revision: 1,
            _reserved1: [0; 5],
            _reserved: 0,
            argument_ptr,
            priority,
            cpu,
            custom_stack_size,
        }
    }
}

} // verus!
