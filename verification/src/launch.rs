//! Starting the process of a profile. The broker creates the process
//! suspended, injects the hooking library into it, (in release builds)
//! hands its PID to the driver, and only then lets it run; a child that
//! fails any of these steps is terminated. The plain service simply runs
//! the trimmed command. The system calls themselves are left to the
//! caller, which reports their results as events.

use crate::managed::{launched, launched_spec, Managed, ProcessInfo};
use crate::profile::Profile;
use crate::text::{chars_of, string_of};
use crate::wide::{encode_utf16, to_wide_nul};
use vstd::prelude::*;

verus! {

/// Where a launch stands.
#[derive(Clone, Copy, Debug, PartialEq, Eq, Structural)]
pub enum LaunchStage {
    /// The process is being created (suspended)
    Creating,
    /// The hooking library is being injected into the child
    Injecting,
    /// The child is being added to the driver's watch list
    Registering,
    /// The child's main thread is being resumed
    Resuming,
    /// The launch is over
    Finished,
}

/// The result of the step the caller was asked to take.
#[derive(Clone, Copy, Debug, PartialEq, Eq, Structural)]
pub enum LaunchEvent {
    /// The process was created (with what the system reported), or not
    Created(Option<ProcessInfo>),
    /// The hooking library was injected, or not
    Injected(bool),
    /// The driver accepted the child's PID, or not
    Registered(bool),
    /// The child's main thread was resumed, or not
    Resumed(bool),
}

/// The step the caller takes next.
#[derive(Debug)]
pub enum LaunchAction {
    /// Inject the hooking library into the child
    Inject { h_process: isize },
    /// Add the child's PID to the driver's watch list
    Register { pid: u32 },
    /// Resume the child's main thread
    Resume { h_thread: isize },
    /// Terminate the child: the launch failed
    Abort { h_process: isize },
    /// The process could not be created: the launch failed
    Failed,
    /// The child runs: record it
    Launched(Managed),
}

/// A launch of a profile's command by the broker.
#[derive(Debug)]
pub struct Launch {
    /// The profile being launched
    pub conf: Profile,
    /// Whether the child must be handed to the driver (release builds)
    pub register_with_driver: bool,
    pub stage: LaunchStage,
    /// The created child, once there is one
    pub info: Option<ProcessInfo>,
}

/// The event a launch at `stage` waits for.
pub open spec fn expects(stage: LaunchStage, event: LaunchEvent) -> bool {
    match stage {
        LaunchStage::Creating => event is Created,
        LaunchStage::Injecting => event is Injected,
        LaunchStage::Registering => event is Registered,
        LaunchStage::Resuming => event is Resumed,
        LaunchStage::Finished => false,
    }
}

impl Launch {
    /// A launch of `conf` that is about to create the process.
    pub fn new(conf: Profile, register_with_driver: bool) -> (l: Self)
        ensures
            l.conf == conf,
            l.register_with_driver == register_with_driver,
            l.stage == LaunchStage::Creating,
            l.info is None,
    {
        Launch { conf, register_with_driver, stage: LaunchStage::Creating, info: None }
    }

    /// The command line to create the process with: the command as a
    /// NUL-terminated wide string.
    pub fn command_line(&self) -> (cmd: Vec<u16>)
        ensures
            cmd@ == encode_utf16(self.conf.command@).push(0),
    {
        to_wide_nul(self.conf.command.as_str())
    }

    /// Takes the result of the last step and gives the next step.
    pub fn step(&mut self, event: LaunchEvent) -> (action: LaunchAction)
        requires
            expects(old(self).stage, event),
            old(self).stage != LaunchStage::Creating ==> old(self).info is Some,
        ensures
            final(self).conf == old(self).conf,
            final(self).register_with_driver == old(self).register_with_driver,
            final(self).stage != LaunchStage::Creating,
            final(self).stage != LaunchStage::Finished ==> final(self).info is Some,
            match event {
                LaunchEvent::Created(None) => {
                    &&& action is Failed
                    &&& final(self).stage == LaunchStage::Finished
                    &&& final(self).info is None
                },
                LaunchEvent::Created(Some(info)) => {
                    &&& action == LaunchAction::Inject { h_process: info.h_process }
                    &&& final(self).stage == LaunchStage::Injecting
                    &&& final(self).info == Some(info)
                },
                _ => {
                    let info = old(self).info->0;
                    &&& final(self).info == old(self).info
                    &&& match event {
                        LaunchEvent::Injected(true) => if old(self).register_with_driver {
                            action == LaunchAction::Register { pid: info.pid }
                                && final(self).stage == LaunchStage::Registering
                        } else {
                            action == LaunchAction::Resume { h_thread: info.h_thread }
                                && final(self).stage == LaunchStage::Resuming
                        },
                        LaunchEvent::Registered(true) => action == LaunchAction::Resume {
                            h_thread: info.h_thread,
                        } && final(self).stage == LaunchStage::Resuming,
                        LaunchEvent::Resumed(true) => action == LaunchAction::Launched(
                            launched_spec(old(self).conf, info),
                        ) && final(self).stage == LaunchStage::Finished,
                        _ => action == LaunchAction::Abort { h_process: info.h_process }
                            && final(self).stage == LaunchStage::Finished,
                    }
                },
            },
    {
        match event {
            LaunchEvent::Created(None) => {
                self.info = None;
                self.stage = LaunchStage::Finished;
                LaunchAction::Failed
            },
            LaunchEvent::Created(Some(info)) => {
                self.info = Some(info);
                self.stage = LaunchStage::Injecting;
                LaunchAction::Inject { h_process: info.h_process }
            },
            LaunchEvent::Injected(ok) => {
                let info = self.info.unwrap();
                if !ok {
                    self.stage = LaunchStage::Finished;
                    LaunchAction::Abort { h_process: info.h_process }
                } else if self.register_with_driver {
                    self.stage = LaunchStage::Registering;
                    LaunchAction::Register { pid: info.pid }
                } else {
                    self.stage = LaunchStage::Resuming;
                    LaunchAction::Resume { h_thread: info.h_thread }
                }
            },
            LaunchEvent::Registered(ok) => {
                let info = self.info.unwrap();
                if !ok {
                    self.stage = LaunchStage::Finished;
                    LaunchAction::Abort { h_process: info.h_process }
                } else {
                    self.stage = LaunchStage::Resuming;
                    LaunchAction::Resume { h_thread: info.h_thread }
                }
            },
            LaunchEvent::Resumed(ok) => {
                let info = self.info.unwrap();
                self.stage = LaunchStage::Finished;
                if !ok {
                    LaunchAction::Abort { h_process: info.h_process }
                } else {
                    LaunchAction::Launched(launched(self.conf.duplicate(), info))
                }
            },
        }
    }
}

/// Whether `c` is white space: the Unicode `White_Space` property, which
/// `char::is_whitespace` and `str::trim` go by.
pub open spec fn white_space(c: char) -> bool {
    let v = c as u32;
    ||| 0x09 <= v <= 0x0D
    ||| v == 0x20
    ||| v == 0x85
    ||| v == 0xA0
    ||| v == 0x1680
    ||| 0x2000 <= v <= 0x200A
    ||| v == 0x2028
    ||| v == 0x2029
    ||| v == 0x202F
    ||| v == 0x205F
    ||| v == 0x3000
}

/// Tells whether `c` is white space (see [`white_space`]).
pub fn is_white_space(c: char) -> (r: bool)
    ensures
        r == white_space(c),
{
    let v = c as u32;
    (0x09 <= v && v <= 0x0D) || v == 0x20 || v == 0x85 || v == 0xA0 || v == 0x1680
        || (0x2000 <= v && v <= 0x200A) || v == 0x2028 || v == 0x2029 || v == 0x202F || v == 0x205F
        || v == 0x3000
}

/// `s` without its leading white space.
pub open spec fn trim_start(s: Seq<char>) -> Seq<char>
    decreases s.len(),
{
    if s.len() > 0 && white_space(s[0]) {
        trim_start(s.drop_first())
    } else {
        s
    }
}

/// `s` without its trailing white space.
pub open spec fn trim_end(s: Seq<char>) -> Seq<char>
    decreases s.len(),
{
    if s.len() > 0 && white_space(s.last()) {
        trim_end(s.drop_last())
    } else {
        s
    }
}

/// `s` without its leading and trailing white space, as `str::trim` gives it.
pub open spec fn trim_spec(s: Seq<char>) -> Seq<char> {
    trim_end(trim_start(s))
}

/// Removes the leading and trailing white space of `s`.
pub fn trim(s: &str) -> (r: String)
    ensures
        r@ == trim_spec(s@),
{
    let v = chars_of(s);
    let n = v.len();
    let mut start: usize = 0;
    assert(v@.skip(0) =~= v@);
    while start < n && is_white_space(v[start])
        invariant
            start <= n,
            n == v@.len(),
            trim_start(v@) == trim_start(v@.skip(start as int)),
        decreases n - start,
    {
        assert(v@.skip(start as int).drop_first() =~= v@.skip(start + 1));
        start = start + 1;
    }
    let ghost rest = v@.skip(start as int);
    assert(trim_start(rest) == rest);
    let mut end: usize = n;
    assert(v@.subrange(start as int, n as int) =~= rest);
    while end > start && is_white_space(v[end - 1])
        invariant
            start <= end <= n,
            n == v@.len(),
            trim_end(rest) == trim_end(v@.subrange(start as int, end as int)),
            rest == v@.skip(start as int),
        decreases end,
    {
        assert(v@.subrange(start as int, end as int).drop_last() =~= v@.subrange(start as int, end - 1));
        end = end - 1;
    }
    assert(trim_end(v@.subrange(start as int, end as int)) == v@.subrange(start as int, end as int));
    let mut kept: Vec<char> = Vec::new();
    let mut i: usize = start;
    while i < end
        invariant
            start <= i <= end,
            end <= n,
            n == v@.len(),
            kept@ == v@.subrange(start as int, i as int),
        decreases end - i,
    {
        kept.push(v[i]);
        assert(v@.subrange(start as int, i + 1) =~= v@.subrange(start as int, i as int).push(v@[i as int]));
        i = i + 1;
    }
    string_of(kept.as_slice())
}

/// The command line the plain service runs for `command`: the command
/// without surrounding white space, as NUL-terminated bytes.
pub fn launch_command(command: &str) -> (cmd: Vec<u8>)
    ensures
        cmd@ == vstd::utf8::encode_utf8(trim_spec(command@)).push(0u8),
{
    let t = trim(command);
    let mut cmd = vstd::slice::slice_to_vec(t.as_str().as_bytes());
    cmd.push(0u8);
    cmd
}

proof fn lemma_trim_start_removes_white_space(s: Seq<char>) -> (a: int)
    ensures
        0 <= a <= s.len(),
        trim_start(s) == s.skip(a),
        forall|i: int| 0 <= i < a ==> white_space(#[trigger] s[i]),
        a < s.len() ==> !white_space(s[a]),
    decreases s.len(),
{
    if s.len() > 0 && white_space(s[0]) {
        let a1 = lemma_trim_start_removes_white_space(s.drop_first());
        assert(s.drop_first().skip(a1) =~= s.skip(a1 + 1));
        assert forall|i: int| 0 <= i < a1 + 1 implies white_space(#[trigger] s[i]) by {
            if i > 0 {
                assert(s[i] == s.drop_first()[i - 1]);
            }
        }
        if a1 + 1 < s.len() {
            assert(s[a1 + 1] == s.drop_first()[a1]);
        }
        a1 + 1
    } else {
        assert(s.skip(0) =~= s);
        0
    }
}

proof fn lemma_trim_end_removes_white_space(s: Seq<char>) -> (b: int)
    ensures
        0 <= b <= s.len(),
        trim_end(s) == s.take(b),
        forall|i: int| b <= i < s.len() ==> white_space(#[trigger] s[i]),
        b > 0 ==> !white_space(s[b - 1]),
    decreases s.len(),
{
    if s.len() > 0 && white_space(s.last()) {
        let b1 = lemma_trim_end_removes_white_space(s.drop_last());
        assert(s.drop_last().take(b1) =~= s.take(b1));
        assert forall|i: int| b1 <= i < s.len() implies white_space(#[trigger] s[i]) by {
            if i < s.len() - 1 {
                assert(s[i] == s.drop_last()[i]);
            }
        }
        if b1 > 0 {
            assert(s[b1 - 1] == s.drop_last()[b1 - 1]);
        }
        b1
    } else {
        assert(s.take(s.len() as int) =~= s);
        s.len() as int
    }
}

/// Trimming removes white space only: the result is a contiguous part
/// `s[a..b]` of the input that neither begins nor ends with white space,
/// and every character removed before `a` or after `b` is white space.
pub proof fn lemma_trim_removes_only_white_space(s: Seq<char>)
    ensures
        exists|a: int, b: int| {
            &&& 0 <= a <= b <= s.len()
            &&& trim_spec(s) == s.subrange(a, b)
            &&& forall|i: int| 0 <= i < a ==> white_space(#[trigger] s[i])
            &&& forall|i: int| b <= i < s.len() ==> white_space(#[trigger] s[i])
            &&& a < b ==> !white_space(s[a]) && !white_space(s[b - 1])
        },
{
    let a = lemma_trim_start_removes_white_space(s);
    let t = s.skip(a);
    let b = lemma_trim_end_removes_white_space(t);
    assert(t.take(b) =~= s.subrange(a, a + b));
    assert forall|i: int| a + b <= i < s.len() implies white_space(#[trigger] s[i]) by {
        assert(s[i] == t[i - a]);
    }
    if b > 0 {
        assert(s[a] == t[0]);
        assert(s[a + b - 1] == t[b - 1]);
        if a < s.len() {
        }
    }
    assert(trim_spec(s) == s.subrange(a, a + b));
}

} // verus!
