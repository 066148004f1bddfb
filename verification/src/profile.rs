//! Application profiles: what the user asks the sandbox to run, and the
//! rules a profile must meet before it is saved.

use crate::text::{chars_of, owned, string_of};
use rand::Rng;
use vstd::prelude::*;

verus! {

/// Most characters a profile name keeps.
pub const NAME_MAX_CHARS: usize = 512;

/// Most characters a profile description keeps.
pub const DESCRIPTION_MAX_CHARS: usize = 2048;

/// Fewest characters a profile name must have.
pub const NAME_MIN_CHARS: usize = 3;

/// Fewest characters a command must have (the shortest useful commands
/// are of the form `b.exe`, `c.bat` or `d.ps1`).
pub const COMMAND_MIN_CHARS: usize = 5;

/// An application profile.
#[derive(Debug, Clone)]
pub struct Profile {
    /// Internal ID
    pub id: u32,
    /// Profile name
    pub name: String,
    /// Profile description
    pub description: String,
    /// The command or path to the application with its arguments
    pub command: String,
    /// Is the command actively running?
    pub is_running: bool,
    /// Last recorded process ID
    pub pid: u32,
}

/// A reason why a profile cannot be saved.
#[derive(Clone, Copy, Debug, PartialEq, Eq, Structural)]
pub enum ValidationError {
    NameTooShort,
    CommandTooShort,
}

/// The first `n` characters of `s`, or all of `s` when it is shorter.
pub open spec fn truncated(s: Seq<char>, n: nat) -> Seq<char> {
    if s.len() <= n {
        s
    } else {
        s.take(n as int)
    }
}

/// The errors of a profile with the given (already truncated) name and
/// command, in the order they are reported.
pub open spec fn validation_errors(name: Seq<char>, command: Seq<char>) -> Seq<ValidationError> {
    let name_errors = if name.len() < NAME_MIN_CHARS {
        seq![ValidationError::NameTooShort]
    } else {
        Seq::empty()
    };
    let command_errors = if command.len() < COMMAND_MIN_CHARS {
        seq![ValidationError::CommandTooShort]
    } else {
        Seq::empty()
    };
    name_errors + command_errors
}

/// A profile whose name, description and command already meet the limits.
pub open spec fn is_valid(p: Profile) -> bool {
    &&& p.name@.len() <= NAME_MAX_CHARS
    &&& p.description@.len() <= DESCRIPTION_MAX_CHARS
    &&& validation_errors(p.name@, p.command@).len() == 0
}

/// The first `n` characters of `s`.
pub fn truncate_chars(s: &str, n: usize) -> (r: String)
    ensures
        r@ == truncated(s@, n as nat),
{
    let v = chars_of(s);
    if v.len() <= n {
        string_of(v.as_slice())
    } else {
        let mut kept: Vec<char> = Vec::new();
        let mut i: usize = 0;
        while i < n
            invariant
                i <= n,
                n < v.len(),
                kept@ == v@.take(i as int),
            decreases n - i,
        {
            kept.push(v[i]);
            assert(v@.take(i as int).push(v@[i as int]) =~= v@.take(i + 1));
            i = i + 1;
        }
        string_of(kept.as_slice())
    }
}

/// Draws an identifier at random (`rand::thread_rng().gen::<u32>()`).
///
/// Trusted: the value comes from the thread-local generator of `rand`, so
/// nothing is said of it; `thread_rng` panics only when the operating
/// system cannot seed it.
#[verifier::external_body]
fn random_id() -> u32 {
    rand::thread_rng().gen::<u32>()
}

impl Profile {
    /// A profile that is not running, with the given identity and texts.
    pub fn new(id: u32, name: &str, description: &str, command: &str) -> (p: Self)
        ensures
            p.id == id,
            p.name@ == name@,
            p.description@ == description@,
            p.command@ == command@,
            !p.is_running,
            p.pid == 0,
    {
        Profile {
            id,
            name: owned(name),
            description: owned(description),
            command: owned(command),
            is_running: false,
            pid: 0,
        }
    }

    /// A copy of this profile with the same field values.
    pub fn duplicate(&self) -> (p: Self)
        ensures
            p == *self,
    {
        Profile {
            id: self.id,
            name: self.name.clone(),
            description: self.description.clone(),
            command: self.command.clone(),
            is_running: self.is_running,
            pid: self.pid,
        }
    }

    /// Validates (and truncates when necessary) the fields.
    ///
    /// - Name: at least 3 characters, at most 512 characters, truncated
    ///   automatically
    /// - Description: at most 2048 characters, truncated automatically
    /// - Command: at least 5 characters
    pub fn validate(&mut self) -> (errors: Vec<ValidationError>)
        ensures
            final(self).id == old(self).id,
            final(self).name@ == truncated(old(self).name@, NAME_MAX_CHARS as nat),
            final(self).description@ == truncated(old(self).description@, DESCRIPTION_MAX_CHARS as nat),
            final(self).command == old(self).command,
            final(self).is_running == old(self).is_running,
            final(self).pid == old(self).pid,
            errors@ == validation_errors(final(self).name@, final(self).command@),
    {
        let mut errors: Vec<ValidationError> = Vec::new();

        self.name = truncate_chars(self.name.as_str(), NAME_MAX_CHARS);
        self.description = truncate_chars(self.description.as_str(), DESCRIPTION_MAX_CHARS);

        if chars_of(self.name.as_str()).len() < NAME_MIN_CHARS {
            errors.push(ValidationError::NameTooShort);
        }

        if chars_of(self.command.as_str()).len() < COMMAND_MIN_CHARS {
            errors.push(ValidationError::CommandTooShort);
        }

        assert(errors@ =~= validation_errors(self.name@, self.command@));
        errors
    }
}

impl Default for Profile {
    /// A fresh profile with a random identifier and placeholder texts.
    fn default() -> (p: Self)
        ensures
            p.name@ == "New Profile"@,
            p.description@ == "<No description>"@,
            p.command@ == "cmd.exe"@,
            !p.is_running,
            p.pid == 0,
    {
        let id = random_id();
        Profile::new(id, "New Profile", "<No description>", "cmd.exe")
    }
}

impl ValidationError {
    /// The text shown to the user for this error.
    pub fn message(&self) -> (s: String)
        ensures
            s@ == match *self {
                ValidationError::NameTooShort => "Profile name is too short (at least 3 characters)"@,
                ValidationError::CommandTooShort =>
                    "Command is invalid (minimum viable example would be \"b.exe\")"@,
            },
    {
        match *self {
            ValidationError::NameTooShort => owned("Profile name is too short (at least 3 characters)"),
            ValidationError::CommandTooShort =>
                owned("Command is invalid (minimum viable example would be \"b.exe\")"),
        }
    }
}


/// Truncating a second time to the same length changes nothing.
pub proof fn lemma_truncated_idempotent(s: Seq<char>, n: nat)
    ensures
        truncated(truncated(s, n), n) == truncated(s, n),
        truncated(s, n).len() <= n,
{
}

/// Validation settles a profile: validating the fields that a first
/// validation left gives the same fields and the same errors, and a
/// profile that passed with no error meets every limit.
pub proof fn lemma_validate_settles(name: Seq<char>, description: Seq<char>, command: Seq<char>)
    ensures
        ({
            let n1 = truncated(name, NAME_MAX_CHARS as nat);
            let d1 = truncated(description, DESCRIPTION_MAX_CHARS as nat);
            &&& truncated(n1, NAME_MAX_CHARS as nat) == n1
            &&& truncated(d1, DESCRIPTION_MAX_CHARS as nat) == d1
            &&& validation_errors(truncated(n1, NAME_MAX_CHARS as nat), command) == validation_errors(n1, command)
            &&& n1.len() <= NAME_MAX_CHARS
            &&& d1.len() <= DESCRIPTION_MAX_CHARS
            &&& (validation_errors(n1, command).len() == 0 <==> (n1.len() >= NAME_MIN_CHARS && command.len() >= COMMAND_MIN_CHARS))
        }),
{
    lemma_truncated_idempotent(name, NAME_MAX_CHARS as nat);
    lemma_truncated_idempotent(description, DESCRIPTION_MAX_CHARS as nat);
}

} // verus!
