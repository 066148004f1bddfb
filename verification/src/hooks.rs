//! Decisions of the library that the broker injects into sandboxed
//! processes: how it reacts to being loaded, and how its replacement of
//! `CreateProcessW` makes every grandchild sandboxed too (the new process
//! is created suspended, the library injects itself into it, and the
//! process is then resumed whatever happened).

use crate::managed::ProcessInfo;
use crate::wide::{decode_u16, decode_utf16_lossy, text_end};
use vstd::prelude::*;

verus! {

/// `CREATE_SUSPENDED` creation flag of `CreateProcessW`.
pub const CREATE_SUSPENDED: u32 = 0x0000_0004;

/// Units of the buffer that receives the library's own file name.
pub const MODULE_PATH_UNITS: usize = 256;

/// What the library does on a call of its entry point.
#[derive(Clone, Copy, Debug, PartialEq, Eq, Structural)]
pub enum DllAction {
    /// Loaded into a process: remember the module, set up logging and
    /// install the hooks on a thread of its own
    Attach,
    /// Unloaded: free the library and end the thread
    Detach,
    /// Any other notification: nothing to do
    Ignore,
}

/// What the library does when its entry point is called for `reason`
/// (`DLL_PROCESS_ATTACH` is 1, `DLL_PROCESS_DETACH` is 0).
pub fn dll_entry_action(reason: u32) -> (a: DllAction)
    ensures
        a == (if reason == 1 {
            DllAction::Attach
        } else if reason == 0 {
            DllAction::Detach
        } else {
            DllAction::Ignore
        }),
{
    match reason {
        1 => DllAction::Attach,
        0 => DllAction::Detach,
        _ => DllAction::Ignore,
    }
}

/// The creation flags the hook passes on: the caller's flags with the
/// process created suspended.
pub fn suspended_flags(flags: u32) -> (f: u32)
    ensures
        f == flags | CREATE_SUSPENDED,
{
    flags | CREATE_SUSPENDED
}

/// Where a hooked process creation stands.
#[derive(Clone, Copy, Debug, PartialEq, Eq, Structural)]
pub enum SpawnHookStage {
    /// The system's `CreateProcessW` is being called
    Creating,
    /// The library's own file name is being looked up
    LocatingLibrary,
    /// The library is being injected into the new process
    Injecting,
    /// The hook is over
    Finished,
}

/// The result of the step the caller was asked to take.
#[derive(Clone, Debug)]
pub enum SpawnHookEvent {
    /// The system's `CreateProcessW` returned `status`, having reported `info`
    Created { status: i32, info: ProcessInfo },
    /// `GetModuleFileNameW` returned `count` and filled `buffer`
    LibraryLocated { count: u32, buffer: Vec<u16> },
    /// The library was injected into the new process, or not
    Injected(bool),
}

/// The step the caller takes next.
#[derive(Clone, Debug)]
pub enum SpawnHookAction {
    /// Look up the library's own file name
    LocateLibrary,
    /// Inject the library at `path` into the process `h_process`
    Inject { h_process: isize, path: String },
    /// Resume the new process's main thread, then return
    ResumeAndReturn { h_thread: isize },
    /// Return at once
    Return,
}

/// The event a hooked creation at `stage` waits for.
pub open spec fn expects(stage: SpawnHookStage, event: SpawnHookEvent) -> bool {
    match stage {
        SpawnHookStage::Creating => event is Created,
        SpawnHookStage::LocatingLibrary => event is LibraryLocated,
        SpawnHookStage::Injecting => event is Injected,
        SpawnHookStage::Finished => false,
    }
}

/// A hooked process creation in progress. Whatever happens, the hook
/// returns the status of the system call and hands on what it reported.
#[derive(Debug)]
pub struct SpawnHook {
    pub stage: SpawnHookStage,
    /// The status the system call returned
    pub status: i32,
    /// What the system call reported
    pub info: ProcessInfo,
}

impl SpawnHook {
    /// A hooked creation about to call the system's function.
    pub fn new() -> (h: Self)
        ensures
            h.stage == SpawnHookStage::Creating,
            h.status == 0,
            h.info == (ProcessInfo { pid: 0, h_process: 0, h_thread: 0 }),
    {
        SpawnHook { stage: SpawnHookStage::Creating, status: 0, info: ProcessInfo { pid: 0, h_process: 0, h_thread: 0 } }
    }

    /// Takes the result of the last step and gives the next step.
    pub fn step(&mut self, event: SpawnHookEvent) -> (action: SpawnHookAction)
        requires
            expects(old(self).stage, event),
        ensures
            final(self).stage != SpawnHookStage::Creating,
            match event {
                SpawnHookEvent::Created { status, info } => {
                    &&& final(self).status == status
                    &&& final(self).info == info
                    &&& if status == 0 {
                        action is Return && final(self).stage == SpawnHookStage::Finished
                    } else {
                        action is LocateLibrary && final(self).stage == SpawnHookStage::LocatingLibrary
                    }
                },
                SpawnHookEvent::LibraryLocated { count, buffer } => {
                    &&& final(self).status == old(self).status
                    &&& final(self).info == old(self).info
                    &&& if count == 0 {
                        action == SpawnHookAction::ResumeAndReturn { h_thread: old(self).info.h_thread }
                            && final(self).stage == SpawnHookStage::Finished
                    } else {
                        &&& action matches SpawnHookAction::Inject { h_process, path }
                        &&& h_process == old(self).info.h_process
                        &&& exists|k: int| text_end(buffer@, k) && path@ == decode_utf16_lossy(buffer@.take(k))
                        &&& final(self).stage == SpawnHookStage::Injecting
                    }
                },
                SpawnHookEvent::Injected(_) => {
                    &&& final(self).status == old(self).status
                    &&& final(self).info == old(self).info
                    &&& action == SpawnHookAction::ResumeAndReturn { h_thread: old(self).info.h_thread }
                    &&& final(self).stage == SpawnHookStage::Finished
                },
            },
    {
        match event {
            SpawnHookEvent::Created { status, info } => {
                self.status = status;
                self.info = info;
                if status == 0 {
                    self.stage = SpawnHookStage::Finished;
                    SpawnHookAction::Return
                } else {
                    self.stage = SpawnHookStage::LocatingLibrary;
                    SpawnHookAction::LocateLibrary
                }
            },
            SpawnHookEvent::LibraryLocated { count, buffer } => {
                if count == 0 {
                    self.stage = SpawnHookStage::Finished;
                    SpawnHookAction::ResumeAndReturn { h_thread: self.info.h_thread }
                } else {
                    let path = decode_u16(buffer.as_slice());
                    self.stage = SpawnHookStage::Injecting;
                    SpawnHookAction::Inject { h_process: self.info.h_process, path }
                }
            },
            SpawnHookEvent::Injected(_) => {
                self.stage = SpawnHookStage::Finished;
                SpawnHookAction::ResumeAndReturn { h_thread: self.info.h_thread }
            },
        }
    }
}

} // verus!
