//! The table of call numbers used at the call gate.
use vstd::prelude::*;

verus! {

/// When a new call is added, its number is the old value of this constant,
/// and the constant moves up by one.
pub const NEXT_SYSCALL_NUM: u16 = 48;

/// The calls the call gate accepts, each with a fixed number on the wire (given
/// by [`SyscallTable::spec_number`]). Numbers are dense in
/// `0..NEXT_SYSCALL_NUM` but were assigned in the order the calls were
/// introduced, so they do not follow the declaration order.
#[derive(Debug, Clone, Copy, PartialEq, Eq, Structural)]
pub enum SyscallTable {
    /// Exits the current process.
    SysPExit,
    /// Yields execution to the next thread in the current CPU.
    SysTYield,
    /// Opens a file or directory with all permissions.
    SysFSOpenAll,
    /// Performs a write operation on a given resource.
    SysIOWrite,
    /// Performs a read operation on a given resource.
    SysIORead,
    /// Destroys (closes) an open resource of any kind.
    SysRDestroy,
    /// Creates a new file.
    SysFSCreate,
    /// Creates a new directory.
    SysFSCreateDir,
    /// Given a directory resource, opens a directory iterator.
    SysFDirIterOpen,
    /// Legacy call to close a directory iterator; use `SysRDestroy` instead.
    SysDirIterClose,
    /// Given a directory iterator resource, returns the next entry.
    SysDirIterNext,
    /// Waits for a child process with a given PID to exit, cleans it up and returns the exit code.
    SysPWait,
    /// Sends a device-specific command to a resource that is a device.
    SysIOCommand,
    /// Changes the current working directory to the given path.
    SysPCHDir,
    /// Gets the current working directory; always returns its length, even when the buffer is too small.
    SysPGetCWD,
    /// Performs a sync operation on a given resource.
    SysIOSync,
    /// Truncates a file to a given size.
    SysIOTruncate,
    /// Extends or shrinks the current process's address space; returns the new data break.
    SysPSbrk,
    /// Spawns a new process.
    SysPSpawn,
    /// Shuts the system down.
    SysShutdown,
    /// Reboots the system.
    SysReboot,
    /// Returns a file's size.
    SysFSize,
    /// Returns the directory entry of an open resource.
    SysFGetDirEntry,
    /// Returns the attributes of an open resource.
    SysFAttrs,
    /// Opens a file or directory with a given mode.
    SysFSOpen,
    /// Duplicates a resource; returns a new resource ID pointing to the same resource.
    SysRClone,
    /// Returns the uptime of the system in milliseconds.
    SysUptime,
    /// Deletes a path.
    SysFSRemovePath,
    /// Spawns a thread inside the current process with the given entry point.
    SysTSpawn,
    /// Exits the current thread; acts as `SysPExit` if it is the last thread.
    SysTExit,
    /// Sleeps the current thread for the given amount of milliseconds.
    SysTSleep,
    /// Waits for a child thread with a given TID to exit.
    SysTWait,
    /// Like `SysPWait` without the waiting: cleans up an already exited process.
    SysPTryCleanUp,
    /// Performs a futex wait on the current thread, with a timeout.
    SysTFutWait,
    /// Performs a futex wake, waking up to n threads waiting on the address.
    SysTFutWake,
    /// Maps pages after a given address hint, optionally backed by a resource.
    SysMemMap,
    /// Creates a socket descriptor resource.
    SysSockCreate,
    /// Binds a socket to an address, upgrading it to a server socket.
    SysSockBind,
    /// Configures a bound server socket's listening queue.
    SysSockListen,
    /// Accepts a pending connection from the listening queue.
    SysSockAccept,
    /// Connects a socket descriptor to a bound server socket.
    SysSockConnect,
    /// Creates a shared memory descriptor, returning a key that points to it.
    SysMemShmCreate,
    /// Opens a shared memory key as a mappable resource.
    SysMemShmOpen,
    /// Allocates a new pair of mother and child VTTY interfaces.
    SysVTTYAlloc,
    /// Waits for any of a set of resources to become ready for I/O.
    SysIOPoll,
    /// Sends data on a socket, to a given address or to the connected peer.
    SysSockSendTo,
    /// Receives data from a socket, reporting the sender's address when possible.
    SysSockRecvFrom,
}

impl SyscallTable {
    /// The number of this call on the wire.
    pub open spec fn spec_number(self) -> u16 {
        match self {
            SyscallTable::SysPExit => 0,
            SyscallTable::SysTYield => 1,
            SyscallTable::SysFSOpenAll => 2,
            SyscallTable::SysIOWrite => 3,
            SyscallTable::SysIORead => 4,
            SyscallTable::SysRDestroy => 5,
            SyscallTable::SysFSCreate => 6,
            SyscallTable::SysFSCreateDir => 7,
            SyscallTable::SysFDirIterOpen => 8,
            SyscallTable::SysDirIterClose => 9,
            SyscallTable::SysDirIterNext => 10,
            SyscallTable::SysPWait => 11,
            SyscallTable::SysIOCommand => 12,
            SyscallTable::SysPCHDir => 14,
            SyscallTable::SysPGetCWD => 15,
            SyscallTable::SysIOSync => 16,
            SyscallTable::SysIOTruncate => 17,
            SyscallTable::SysPSbrk => 18,
            SyscallTable::SysPSpawn => 19,
            SyscallTable::SysShutdown => 20,
            SyscallTable::SysReboot => 21,
            SyscallTable::SysFSize => 22,
            SyscallTable::SysFGetDirEntry => 23,
            SyscallTable::SysFAttrs => 24,
            SyscallTable::SysFSOpen => 25,
            SyscallTable::SysRClone => 26,
            SyscallTable::SysUptime => 27,
            SyscallTable::SysFSRemovePath => 28,
            SyscallTable::SysTSpawn => 29,
            SyscallTable::SysTExit => 30,
            SyscallTable::SysTSleep => 31,
            SyscallTable::SysTWait => 32,
            SyscallTable::SysPTryCleanUp => 33,
            SyscallTable::SysTFutWait => 34,
            SyscallTable::SysTFutWake => 35,
            SyscallTable::SysMemMap => 36,
            SyscallTable::SysSockCreate => 37,
            SyscallTable::SysSockBind => 38,
            SyscallTable::SysSockListen => 39,
            SyscallTable::SysSockAccept => 40,
            SyscallTable::SysSockConnect => 41,
            SyscallTable::SysMemShmCreate => 42,
            SyscallTable::SysMemShmOpen => 43,
            SyscallTable::SysVTTYAlloc => 44,
            SyscallTable::SysIOPoll => 45,
            SyscallTable::SysSockSendTo => 46,
            SyscallTable::SysSockRecvFrom => 47,
        }
    }

    /// The number of this call on the wire.
    pub fn number(self) -> (r: u16)
        ensures
            r == self.spec_number(),
    {
        match self {
            SyscallTable::SysPExit => 0,
            SyscallTable::SysTYield => 1,
            SyscallTable::SysFSOpenAll => 2,
            SyscallTable::SysIOWrite => 3,
            SyscallTable::SysIORead => 4,
            SyscallTable::SysRDestroy => 5,
            SyscallTable::SysFSCreate => 6,
            SyscallTable::SysFSCreateDir => 7,
            SyscallTable::SysFDirIterOpen => 8,
            SyscallTable::SysDirIterClose => 9,
            SyscallTable::SysDirIterNext => 10,
            SyscallTable::SysPWait => 11,
            SyscallTable::SysIOCommand => 12,
            SyscallTable::SysPCHDir => 14,
            SyscallTable::SysPGetCWD => 15,
            SyscallTable::SysIOSync => 16,
            SyscallTable::SysIOTruncate => 17,
            SyscallTable::SysPSbrk => 18,
            SyscallTable::SysPSpawn => 19,
            SyscallTable::SysShutdown => 20,
            SyscallTable::SysReboot => 21,
            SyscallTable::SysFSize => 22,
            SyscallTable::SysFGetDirEntry => 23,
            SyscallTable::SysFAttrs => 24,
            SyscallTable::SysFSOpen => 25,
            SyscallTable::SysRClone => 26,
            SyscallTable::SysUptime => 27,
            SyscallTable::SysFSRemovePath => 28,
            SyscallTable::SysTSpawn => 29,
            SyscallTable::SysTExit => 30,
            SyscallTable::SysTSleep => 31,
            SyscallTable::SysTWait => 32,
            SyscallTable::SysPTryCleanUp => 33,
            SyscallTable::SysTFutWait => 34,
            SyscallTable::SysTFutWake => 35,
            SyscallTable::SysMemMap => 36,
            SyscallTable::SysSockCreate => 37,
            SyscallTable::SysSockBind => 38,
            SyscallTable::SysSockListen => 39,
            SyscallTable::SysSockAccept => 40,
            SyscallTable::SysSockConnect => 41,
            SyscallTable::SysMemShmCreate => 42,
            SyscallTable::SysMemShmOpen => 43,
            SyscallTable::SysVTTYAlloc => 44,
            SyscallTable::SysIOPoll => 45,
            SyscallTable::SysSockSendTo => 46,
            SyscallTable::SysSockRecvFrom => 47,
        }
    }

    /// Decodes a call number: succeeds exactly on the numbers below
    /// [`NEXT_SYSCALL_NUM`] that a call uses (number 13 was never
    /// assigned), and the decoded call carries that number.
    pub fn try_from_u16(value: u16) -> (r: Result<Self, ()>)
        ensures
            (value < NEXT_SYSCALL_NUM && value != 13) <==> r is Ok,
            r matches Ok(s) ==> s.spec_number() == value,
    {
        match value {
            0 => Ok(SyscallTable::SysPExit),
            1 => Ok(SyscallTable::SysTYield),
            2 => Ok(SyscallTable::SysFSOpenAll),
            3 => Ok(SyscallTable::SysIOWrite),
            4 => Ok(SyscallTable::SysIORead),
            5 => Ok(SyscallTable::SysRDestroy),
            6 => Ok(SyscallTable::SysFSCreate),
            7 => Ok(SyscallTable::SysFSCreateDir),
            8 => Ok(SyscallTable::SysFDirIterOpen),
            9 => Ok(SyscallTable::SysDirIterClose),
            10 => Ok(SyscallTable::SysDirIterNext),
            11 => Ok(SyscallTable::SysPWait),
            12 => Ok(SyscallTable::SysIOCommand),
            14 => Ok(SyscallTable::SysPCHDir),
            15 => Ok(SyscallTable::SysPGetCWD),
            16 => Ok(SyscallTable::SysIOSync),
            17 => Ok(SyscallTable::SysIOTruncate),
            18 => Ok(SyscallTable::SysPSbrk),
            19 => Ok(SyscallTable::SysPSpawn),
            20 => Ok(SyscallTable::SysShutdown),
            21 => Ok(SyscallTable::SysReboot),
            22 => Ok(SyscallTable::SysFSize),
            23 => Ok(SyscallTable::SysFGetDirEntry),
            24 => Ok(SyscallTable::SysFAttrs),
            25 => Ok(SyscallTable::SysFSOpen),
            26 => Ok(SyscallTable::SysRClone),
            27 => Ok(SyscallTable::SysUptime),
            28 => Ok(SyscallTable::SysFSRemovePath),
            29 => Ok(SyscallTable::SysTSpawn),
            30 => Ok(SyscallTable::SysTExit),
            31 => Ok(SyscallTable::SysTSleep),
            32 => Ok(SyscallTable::SysTWait),
            33 => Ok(SyscallTable::SysPTryCleanUp),
            34 => Ok(SyscallTable::SysTFutWait),
            35 => Ok(SyscallTable::SysTFutWake),
            36 => Ok(SyscallTable::SysMemMap),
            37 => Ok(SyscallTable::SysSockCreate),
            38 => Ok(SyscallTable::SysSockBind),
            39 => Ok(SyscallTable::SysSockListen),
            40 => Ok(SyscallTable::SysSockAccept),
            41 => Ok(SyscallTable::SysSockConnect),
            42 => Ok(SyscallTable::SysMemShmCreate),
            43 => Ok(SyscallTable::SysMemShmOpen),
            44 => Ok(SyscallTable::SysVTTYAlloc),
            45 => Ok(SyscallTable::SysIOPoll),
            46 => Ok(SyscallTable::SysSockSendTo),
            47 => Ok(SyscallTable::SysSockRecvFrom),
            _ => Err(()),
        }
    }
}

/// Every defined call has a number below [`NEXT_SYSCALL_NUM`], and no two
/// calls share a number: together with the contract of
/// [`SyscallTable::try_from_u16`], decoding a call's own number gives back
/// exactly that call.
pub proof fn lemma_number_roundtrip(a: SyscallTable, b: SyscallTable)
    ensures
        a.spec_number() < NEXT_SYSCALL_NUM,
        a.spec_number() == b.spec_number() ==> a == b,
{
}

} // verus!
