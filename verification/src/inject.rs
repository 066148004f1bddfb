//! Injecting a library into another process: its resolved path is written
//! into memory allocated in the target, and a thread of the target loads it
//! with `LoadLibraryA`. The system calls are left to the caller, which
//! reports their results as events; this module decides what comes next
//! and what is written.

use vstd::prelude::*;

verus! {

/// Bytes reserved in the target for the library path
/// (`MAX_PATH * size_of::<u16>()`).
pub const PATH_BUFFER_BYTES: usize = 520;

/// Why an injection failed.
#[derive(Clone, Copy, Debug, PartialEq, Eq, Structural)]
pub enum InjectError {
    /// The library path could not be resolved to a file
    ResolveError,
    /// No memory could be allocated in the target
    MemoryAllocError,
    /// The path could not be written into the target
    MemoryWriteError,
    /// No thread could be started in the target
    SpawnThreadError,
}

/// Where an injection stands.
#[derive(Clone, Copy, Debug, PartialEq, Eq, Structural)]
pub enum InjectStage {
    Resolving,
    Allocating,
    Writing,
    StartingThread,
    Finished,
}

/// The result of the step the caller was asked to take.
#[derive(Clone, Debug)]
pub enum InjectEvent {
    /// The library path, resolved to a file, or `None` when it could not be
    Resolved(Option<Vec<u8>>),
    /// Memory was allocated in the target (`false`: the allocation gave a
    /// null pointer)
    Allocated(bool),
    /// The path was written (`false`: `WriteProcessMemory` returned 0)
    Written(bool),
    /// The loading thread was started (`false`: the handle was -1)
    ThreadStarted(bool),
}

/// The step the caller takes next.
#[derive(Clone, Debug)]
pub enum InjectAction {
    /// Reserve and commit this many read-write bytes in the target
    Allocate(usize),
    /// Write these bytes at the start of the allocated memory
    Write(Vec<u8>),
    /// Start a thread of the target at `LoadLibraryA` on the written path
    StartThread,
    /// Wait for the thread, close it and free the memory: the injection
    /// succeeded
    Finish,
    /// The injection failed
    Fail(InjectError),
}

/// The bytes written into the target for a resolved path: the path as a
/// NUL-terminated string, in a zero-filled buffer of [`PATH_BUFFER_BYTES`]
/// bytes (a longer path is cut at the end of the buffer).
pub open spec fn payload_spec(path: Seq<u8>) -> Seq<u8> {
    Seq::new(PATH_BUFFER_BYTES as nat, |i: int| if i < path.len() { path[i] } else { 0u8 })
}

/// The bytes written into the target for a resolved path.
pub fn path_payload(path: &Vec<u8>) -> (p: Vec<u8>)
    ensures
        p@ == payload_spec(path@),
{
    let mut p: Vec<u8> = Vec::new();
    let mut i: usize = 0;
    while i < PATH_BUFFER_BYTES
        invariant
            i <= PATH_BUFFER_BYTES,
            p@.len() == i,
            forall|j: int| 0 <= j < i ==> p@[j] == payload_spec(path@)[j],
        decreases PATH_BUFFER_BYTES - i,
    {
        if i < path.len() {
            p.push(path[i]);
        } else {
            p.push(0u8);
        }
        i = i + 1;
    }
    assert(p@ =~= payload_spec(path@));
    p
}

/// The event an injection at `stage` waits for.
pub open spec fn expects(stage: InjectStage, event: InjectEvent) -> bool {
    match stage {
        InjectStage::Resolving => event is Resolved,
        InjectStage::Allocating => event is Allocated,
        InjectStage::Writing => event is Written,
        InjectStage::StartingThread => event is ThreadStarted,
        InjectStage::Finished => false,
    }
}

/// An injection in progress.
#[derive(Debug)]
pub struct Injection {
    pub stage: InjectStage,
    /// The resolved path, once known
    pub path: Option<Vec<u8>>,
}

impl Injection {
    /// An injection about to resolve the library path.
    pub fn new() -> (j: Self)
        ensures
            j.stage == InjectStage::Resolving,
            j.path is None,
    {
        Injection { stage: InjectStage::Resolving, path: None }
    }

    /// Takes the result of the last step and gives the next step.
    pub fn step(&mut self, event: InjectEvent) -> (action: InjectAction)
        requires
            expects(old(self).stage, event),
            old(self).stage != InjectStage::Resolving ==> old(self).path is Some,
        ensures
            final(self).stage != InjectStage::Resolving,
            final(self).stage != InjectStage::Finished ==> final(self).path is Some,
            match event {
                InjectEvent::Resolved(None) => action == InjectAction::Fail(InjectError::ResolveError)
                    && final(self).stage == InjectStage::Finished,
                InjectEvent::Resolved(Some(path)) => action == InjectAction::Allocate(PATH_BUFFER_BYTES)
                    && final(self).stage == InjectStage::Allocating && final(self).path == Some(path),
                InjectEvent::Allocated(false) => action == InjectAction::Fail(InjectError::MemoryAllocError)
                    && final(self).stage == InjectStage::Finished,
                InjectEvent::Allocated(true) => (action matches InjectAction::Write(bytes)
                    && bytes@ == payload_spec(old(self).path->0@))
                    && final(self).stage == InjectStage::Writing && final(self).path == old(self).path,
                InjectEvent::Written(false) => action == InjectAction::Fail(InjectError::MemoryWriteError)
                    && final(self).stage == InjectStage::Finished,
                InjectEvent::Written(true) => action == InjectAction::StartThread
                    && final(self).stage == InjectStage::StartingThread && final(self).path == old(self).path,
                InjectEvent::ThreadStarted(false) => action == InjectAction::Fail(InjectError::SpawnThreadError)
                    && final(self).stage == InjectStage::Finished,
                InjectEvent::ThreadStarted(true) => action == InjectAction::Finish
                    && final(self).stage == InjectStage::Finished,
            },
    {
        match event {
            InjectEvent::Resolved(None) => {
                self.stage = InjectStage::Finished;
                InjectAction::Fail(InjectError::ResolveError)
            },
            InjectEvent::Resolved(Some(path)) => {
                self.path = Some(path);
                self.stage = InjectStage::Allocating;
                InjectAction::Allocate(PATH_BUFFER_BYTES)
            },
            InjectEvent::Allocated(ok) => {
                if !ok {
                    self.stage = InjectStage::Finished;
                    InjectAction::Fail(InjectError::MemoryAllocError)
                } else {
                    let bytes = match &self.path {
                        Some(p) => path_payload(p),
                        None => Vec::new(),
                    };
                    self.stage = InjectStage::Writing;
                    InjectAction::Write(bytes)
                }
            },
            InjectEvent::Written(ok) => {
                if !ok {
                    self.stage = InjectStage::Finished;
                    InjectAction::Fail(InjectError::MemoryWriteError)
                } else {
                    self.stage = InjectStage::StartingThread;
                    InjectAction::StartThread
                }
            },
            InjectEvent::ThreadStarted(ok) => {
                self.stage = InjectStage::Finished;
                if !ok {
                    InjectAction::Fail(InjectError::SpawnThreadError)
                } else {
                    InjectAction::Finish
                }
            },
        }
    }
}

/// The payload holds the path's bytes, all of them as they are, at its
/// start (as far as the buffer reaches), and zeros after them; its length is
/// the buffer size whatever the path.
pub proof fn lemma_payload_holds_path(path: Seq<u8>)
    ensures
        payload_spec(path).len() == PATH_BUFFER_BYTES,
        forall|i: int| 0 <= i < path.len() && i < PATH_BUFFER_BYTES ==> #[trigger] payload_spec(path)[i] == path[i],
        forall|i: int| path.len() <= i < PATH_BUFFER_BYTES ==> #[trigger] payload_spec(path)[i] == 0u8,
{
}

} // verus!
