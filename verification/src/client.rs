//! The state of the sandbox's user interface and how it reacts to the
//! user's actions and to the answers of the broker. Drawing the interface
//! and talking to the broker are left to the caller.

use crate::ipc::{spawn_message_spec, CallOutcome, QueueMsg};
use crate::managed::{launched_spec, ProcessInfo};
use crate::server::spawn_answer;
use crate::profile::{
    is_valid, lemma_truncated_idempotent, truncated, validation_errors, Profile, ValidationError,
    DESCRIPTION_MAX_CHARS, NAME_MAX_CHARS,
};
use crate::status::Status;
use crate::text::{decimal, decimal_spec, owned};
use std::collections::HashMap;
use vstd::prelude::*;

verus! {

broadcast use vstd::std_specs::hash::group_hash_axioms;

/// State list holding profile data (client side): the profiles the user
/// has defined, keyed by the position at which they were added.
#[derive(Debug)]
pub struct ProfileList {
    entries: HashMap<u32, Profile>,
}

impl View for ProfileList {
    type V = Map<u32, Profile>;

    closed spec fn view(&self) -> Map<u32, Profile> {
        self.entries@
    }
}

/// The key under which the next profile is added to a list of `len`
/// entries: one more than the number of entries.
pub open spec fn next_key(len: nat) -> u32 {
    (len + 1) as u32
}

impl ProfileList {
    /// An empty list.
    pub fn new() -> (l: Self)
        ensures
            l@ == Map::<u32, Profile>::empty(),
    {
        ProfileList { entries: HashMap::new() }
    }

    /// Adds `profile` under the key one above the number of entries (which
    /// replaces the entry already there, if any).
    pub fn add_profile(&mut self, profile: Profile)
        requires
            old(self)@.len() < usize::MAX,
        ensures
            final(self)@ == old(self)@.insert(next_key(old(self)@.len()), profile),
    {
        let index = self.entries.len() + 1;
        self.entries.insert(index as u32, profile);
    }

    /// The profile under `id`, if any.
    pub fn get(&self, id: u32) -> (p: Option<&Profile>)
        ensures
            p == (if self@.contains_key(id) { Some(&self@[id]) } else { None }),
    {
        self.entries.get(&id)
    }

    /// Puts `profile` under `id`.
    pub fn set(&mut self, id: u32, profile: Profile)
        ensures
            final(self)@ == old(self)@.insert(id, profile),
    {
        self.entries.insert(id, profile);
    }

    /// Removes the profile under `id`, if any.
    pub fn remove(&mut self, id: u32) -> (p: Option<Profile>)
        ensures
            final(self)@ == old(self)@.remove(id),
            p == (if old(self)@.contains_key(id) { Some(old(self)@[id]) } else { None }),
    {
        self.entries.remove(&id)
    }

    /// Number of profiles.
    pub fn len(&self) -> (n: usize)
        ensures
            n == self@.len(),
    {
        self.entries.len()
    }

    /// The profiles, for display.
    pub fn entries(&self) -> (m: &HashMap<u32, Profile>)
        ensures
            m@ == self@,
    {
        &self.entries
    }
}

/// A profile freshly made for the user to fill in: a random identifier
/// and placeholder texts (see `Profile::default`).
pub open spec fn is_fresh(p: Profile) -> bool {
    &&& p.name@ == "New Profile"@
    &&& p.description@ == "<No description>"@
    &&& p.command@ == "cmd.exe"@
    &&& !p.is_running
    &&& p.pid == 0
}

/// `b` is what validation makes of the buffer `p`: name and description
/// truncated, the other fields kept.
pub open spec fn validated_from(b: Profile, p: Profile) -> bool {
    &&& b.id == p.id
    &&& b.name@ == truncated(p.name@, NAME_MAX_CHARS as nat)
    &&& b.description@ == truncated(p.description@, DESCRIPTION_MAX_CHARS as nat)
    &&& b.command == p.command
    &&& b.is_running == p.is_running
    &&& b.pid == p.pid
}

/// `p` once its process has started as `pid`.
pub open spec fn started(p: Profile, pid: u32) -> Profile {
    Profile { pid, is_running: true, ..p }
}

/// `p` once its process has stopped.
pub open spec fn stopped(p: Profile) -> Profile {
    Profile { pid: 0, is_running: false, ..p }
}

/// The button a profile card offers to run or stop the profile.
#[derive(Clone, Copy, Debug, PartialEq, Eq, Structural)]
pub enum CardAction {
    /// "Start": ask the broker to run the profile
    Start,
    /// "Kill": ask the broker to stop the profile
    Kill,
}

/// The button the card of `p` offers: "Kill" while it runs, "Start" otherwise.
pub fn card_action(p: &Profile) -> (a: CardAction)
    ensures
        a == (if p.is_running { CardAction::Kill } else { CardAction::Start }),
{
    if p.is_running {
        CardAction::Kill
    } else {
        CardAction::Start
    }
}

/// The user interface state.
#[derive(Debug)]
pub struct Frontend {
    /// Counter of the server test (debug builds)
    pub cycle: u32,
    /// Last echo received from the server (debug builds)
    pub message: Option<String>,
    /// Last error message
    pub error: Option<Status>,
    /// List of loaded profiles
    pub profiles: ProfileList,
    /// Show the error dialogue
    pub show_error: bool,
    /// Show the settings dialogue
    pub show_settings: bool,
    /// Show the profile creation or modification section
    pub show_profile: bool,
    /// Currently selected profile for modifying
    pub editing_profile: Option<u32>,
    /// Buffer for new/modified profile data
    pub profile_buffer: Profile,
    /// Currently selected profile for deletion
    pub deleting_profile: Option<u32>,
    /// Delete the marked profile
    pub do_delete: Option<u32>,
}

/// The user interface state, with the profile list seen as a map.
pub struct FrontendView {
    pub cycle: u32,
    pub message: Option<String>,
    pub error: Option<Status>,
    pub profiles: Map<u32, Profile>,
    pub show_error: bool,
    pub show_settings: bool,
    pub show_profile: bool,
    pub editing_profile: Option<u32>,
    pub profile_buffer: Profile,
    pub deleting_profile: Option<u32>,
    pub do_delete: Option<u32>,
}

impl View for Frontend {
    type V = FrontendView;

    open spec fn view(&self) -> FrontendView {
        FrontendView {
            cycle: self.cycle,
            message: self.message,
            error: self.error,
            profiles: self.profiles@,
            show_error: self.show_error,
            show_settings: self.show_settings,
            show_profile: self.show_profile,
            editing_profile: self.editing_profile,
            profile_buffer: self.profile_buffer,
            deleting_profile: self.deleting_profile,
            do_delete: self.do_delete,
        }
    }
}

/// How the state changes on a message from the queue, and what message,
/// if any, is put back on the queue in answer.
pub open spec fn poll_view(v: FrontendView, msg: QueueMsg) -> (FrontendView, Option<QueueMsg>) {
    match msg {
        QueueMsg::Echo(data) => (FrontendView { message: Some(data), ..v }, None),
        QueueMsg::Fail(e) => (FrontendView { error: Some(e), show_error: true, ..v }, None),
        QueueMsg::Spawn { error, id, pid } => if !v.profiles.contains_key(id) {
            (v, Some(QueueMsg::Fail(Status::NoSuchProfile(id))))
        } else if error {
            (v, Some(QueueMsg::Fail(Status::ProcessSpawnFailed(v.profiles[id].name))))
        } else {
            (FrontendView { profiles: v.profiles.insert(id, started(v.profiles[id], pid)), ..v }, None)
        },
        QueueMsg::Stop { error, id } => if !v.profiles.contains_key(id) {
            (v, Some(QueueMsg::Fail(Status::NoSuchProfile(id))))
        } else if error {
            (v, Some(QueueMsg::Fail(Status::ProcessStopFailed(v.profiles[id].name))))
        } else {
            (FrontendView { profiles: v.profiles.insert(id, stopped(v.profiles[id])), ..v }, None)
        },
    }
}

/// The state after the pending deletion, if any, is carried out.
pub open spec fn deletion_view(v: FrontendView) -> FrontendView {
    match v.do_delete {
        Some(id) => FrontendView {
            profiles: v.profiles.remove(id),
            deleting_profile: None,
            do_delete: None,
            ..v
        },
        None => v,
    }
}

/// The state after the buffer is saved, given the fresh buffer that
/// replaces it: the buffer (under the identifier of the edited profile,
/// when one is edited) is added to the list.
pub open spec fn save_view(v: FrontendView, fresh: Profile) -> FrontendView {
    let saved = match v.editing_profile {
        Some(id) => Profile { id, ..v.profile_buffer },
        None => v.profile_buffer,
    };
    FrontendView {
        profiles: v.profiles.insert(next_key(v.profiles.len()), saved),
        show_profile: false,
        editing_profile: None,
        profile_buffer: fresh,
        ..v
    }
}

impl Frontend {
    /// The state at start-up: no profile, nothing shown, a fresh buffer.
    pub fn new() -> (f: Self)
        ensures
            f@.profiles == Map::<u32, Profile>::empty(),
            f.cycle == 0,
            f.message is None,
            f.error is None,
            !f.show_error,
            !f.show_settings,
            !f.show_profile,
            f.editing_profile is None,
            is_fresh(f.profile_buffer),
            f.deleting_profile is None,
            f.do_delete is None,
    {
        Frontend {
            cycle: 0,
            message: None,
            error: None,
            profiles: ProfileList::new(),
            show_error: false,
            show_settings: false,
            show_profile: false,
            editing_profile: None,
            profile_buffer: Profile::default(),
            deleting_profile: None,
            do_delete: None,
        }
    }

    /// Takes in a message from the queue and changes the state; gives back
    /// the message to put on the queue in answer, if any.
    pub fn poll_data(&mut self, msg: QueueMsg) -> (reply: Option<QueueMsg>)
        ensures
            (final(self)@, reply) == poll_view(old(self)@, msg),
    {
        match msg {
            QueueMsg::Echo(data) => {
                self.message = Some(data);
                None
            },
            QueueMsg::Fail(error) => {
                self.error = Some(error);
                self.show_error = true;
                None
            },
            QueueMsg::Spawn { error, id, pid } => {
                match self.profiles.get(id) {
                    Some(profile) => {
                        if error {
                            Some(QueueMsg::Fail(Status::ProcessSpawnFailed(profile.name.clone())))
                        } else {
                            let mut updated = profile.duplicate();
                            updated.pid = pid;
                            updated.is_running = true;
                            self.profiles.set(id, updated);
                            None
                        }
                    },
                    None => Some(QueueMsg::Fail(Status::NoSuchProfile(id))),
                }
            },
            QueueMsg::Stop { error, id } => {
                match self.profiles.get(id) {
                    Some(profile) => {
                        if error {
                            Some(QueueMsg::Fail(Status::ProcessStopFailed(profile.name.clone())))
                        } else {
                            let mut updated = profile.duplicate();
                            updated.pid = 0;
                            updated.is_running = false;
                            self.profiles.set(id, updated);
                            None
                        }
                    },
                    None => Some(QueueMsg::Fail(Status::NoSuchProfile(id))),
                }
            },
        }
    }

    /// Validates (and truncates) the profile being edited; the save button
    /// is enabled only when no error is returned.
    pub fn validate_buffer(&mut self) -> (errors: Vec<ValidationError>)
        ensures
            final(self)@ == (FrontendView { profile_buffer: final(self).profile_buffer, ..old(self)@ }),
            final(self).profile_buffer.id == old(self).profile_buffer.id,
            final(self).profile_buffer.name@ == truncated(old(self).profile_buffer.name@, NAME_MAX_CHARS as nat),
            final(self).profile_buffer.description@
                == truncated(old(self).profile_buffer.description@, DESCRIPTION_MAX_CHARS as nat),
            final(self).profile_buffer.command == old(self).profile_buffer.command,
            final(self).profile_buffer.is_running == old(self).profile_buffer.is_running,
            final(self).profile_buffer.pid == old(self).profile_buffer.pid,
            errors@ == validation_errors(final(self).profile_buffer.name@, final(self).profile_buffer.command@),
    {
        self.profile_buffer.validate()
    }

    /// "Go back": leaves the profile section and drops the buffer.
    pub fn go_back(&mut self)
        ensures
            final(self)@ == (FrontendView {
                show_profile: false,
                editing_profile: None,
                profile_buffer: final(self).profile_buffer,
                ..old(self)@
            }),
            is_fresh(final(self).profile_buffer),
    {
        self.show_profile = false;
        self.profile_buffer = Profile::default();
        if self.editing_profile.is_some() {
            self.editing_profile = None;
        }
    }

    /// "Add profile" / "Save profile": validates (and truncates) the buffer
    /// and, only when no error remains, adds it to the list (under the
    /// identifier of the edited profile, when one is edited), leaves the
    /// profile section and starts a fresh buffer. Gives the validation
    /// errors; while there are some, only the buffer's truncation happens.
    pub fn save_profile(&mut self) -> (errors: Vec<ValidationError>)
        requires
            old(self)@.profiles.len() < usize::MAX,
        ensures
            exists|b: Profile| {
                &&& validated_from(b, old(self).profile_buffer)
                &&& errors@ == validation_errors(b.name@, b.command@)
                &&& if errors@.len() == 0 {
                    &&& final(self)@ == save_view(
                        FrontendView { profile_buffer: b, ..old(self)@ },
                        final(self).profile_buffer,
                    )
                    &&& is_fresh(final(self).profile_buffer)
                } else {
                    final(self)@ == (FrontendView { profile_buffer: b, ..old(self)@ })
                }
            },
            errors@.len() == 0 ==> is_valid(final(self)@.profiles[next_key(old(self)@.profiles.len())]),
    {
        let errors = self.profile_buffer.validate();
        let ghost b = self.profile_buffer;
        let ghost before = self@;
        if errors.len() == 0 {
            if let Some(id) = self.editing_profile {
                self.profile_buffer.id = id;
            }
            let mut saved = Profile::default();
            std::mem::swap(&mut saved, &mut self.profile_buffer);
            self.profiles.add_profile(saved);
            self.show_profile = false;
            self.editing_profile = None;
            assert(self@ == save_view(before, self.profile_buffer));
            proof {
                lemma_truncated_idempotent(old(self).profile_buffer.name@, NAME_MAX_CHARS as nat);
                lemma_truncated_idempotent(old(self).profile_buffer.description@, DESCRIPTION_MAX_CHARS as nat);
            }
            assert(is_valid(self@.profiles[next_key(before.profiles.len())]));
        }
        assert(validated_from(b, old(self).profile_buffer));
        errors
    }

    /// "Edit" on the card of profile `id`: opens the profile section on a
    /// copy of it.
    pub fn edit_profile(&mut self, id: u32, profile: Profile)
        ensures
            final(self)@ == (FrontendView {
                editing_profile: Some(id),
                profile_buffer: profile,
                show_profile: true,
                ..old(self)@
            }),
    {
        self.editing_profile = Some(id);
        self.profile_buffer = profile;
        self.show_profile = true;
    }

    /// "Delete" on the card of profile `id`: asks for confirmation.
    pub fn ask_delete(&mut self, id: u32)
        ensures
            final(self)@ == (FrontendView { deleting_profile: Some(id), ..old(self)@ }),
    {
        self.deleting_profile = Some(id);
    }

    /// "Yes, delete the profile": marks profile `id` for deletion.
    pub fn confirm_delete(&mut self, id: u32)
        ensures
            final(self)@ == (FrontendView { do_delete: Some(id), ..old(self)@ }),
    {
        self.do_delete = Some(id);
    }

    /// "No, go back": gives up the deletion.
    pub fn cancel_delete(&mut self)
        ensures
            final(self)@ == (FrontendView { deleting_profile: None, ..old(self)@ }),
    {
        self.deleting_profile = None;
    }

    /// Whether the entry `id` of the list is shown as a deletion prompt
    /// rather than as a card.
    pub fn pending_deletion(&self, id: u32) -> (r: bool)
        ensures
            r == (self.deleting_profile == Some(id)),
    {
        match self.deleting_profile {
            Some(d) => d == id,
            None => false,
        }
    }

    /// "Settings": shows the settings dialogue.
    pub fn open_settings(&mut self)
        ensures
            final(self)@ == (FrontendView { show_settings: true, ..old(self)@ }),
    {
        self.show_settings = true;
    }

    /// "+ New Profile": opens the profile section on a fresh buffer.
    pub fn new_profile(&mut self)
        ensures
            final(self)@ == (FrontendView {
                profile_buffer: final(self).profile_buffer,
                editing_profile: None,
                show_profile: true,
                ..old(self)@
            }),
            is_fresh(final(self).profile_buffer),
    {
        self.profile_buffer = Profile::default();
        self.editing_profile = None;
        self.show_profile = true;
    }

    /// Carries out the deletion marked during the frame, if any.
    pub fn apply_deletion(&mut self)
        ensures
            final(self)@ == deletion_view(old(self)@),
    {
        if let Some(id) = self.do_delete {
            self.profiles.remove(id);
            self.deleting_profile = None;
            self.do_delete = None;
        }
    }

    /// "Test server": the payload of the echo request to send; the counter
    /// then goes up by two.
    pub fn test_server(&mut self) -> (payload: String)
        requires
            old(self).cycle <= u32::MAX - 2,
        ensures
            payload@ == "Useless number: "@ + decimal_spec(old(self).cycle as nat),
            final(self)@ == (FrontendView { cycle: (old(self).cycle + 2) as u32, ..old(self)@ }),
    {
        let mut payload = owned("Useless number: ");
        let digits = decimal(self.cycle);
        payload.append(digits.as_str());
        self.cycle = self.cycle + 2;
        payload
    }

    /// "Clear fields": resets the server test.
    pub fn clear_fields(&mut self)
        ensures
            final(self)@ == (FrontendView { cycle: 0, message: None, ..old(self)@ }),
    {
        self.cycle = 0;
        self.message = None;
    }
}


/// Starting and then stopping a known profile, both acknowledged by the
/// broker, brings it back to an idle state with its other fields kept;
/// no other profile changes and nothing is put back on the queue.
pub proof fn lemma_start_then_stop_idles(v: FrontendView, id: u32, pid: u32)
    requires
        v.profiles.contains_key(id),
    ensures
        ({
            let (v1, r1) = poll_view(v, QueueMsg::Spawn { error: false, id, pid });
            let (v2, r2) = poll_view(v1, QueueMsg::Stop { error: false, id });
            &&& r1 is None
            &&& r2 is None
            &&& v1.profiles[id].is_running
            &&& v1.profiles[id].pid == pid
            &&& v2.profiles == v.profiles.insert(id, stopped(v.profiles[id]))
            &&& !v2.profiles[id].is_running
            &&& v2.profiles[id].pid == 0
            &&& v2.profiles[id].name == v.profiles[id].name
            &&& v2.profiles[id].command == v.profiles[id].command
        }),
{
    let (v1, r1) = poll_view(v, QueueMsg::Spawn { error: false, id, pid });
    assert(v1.profiles[id] == started(v.profiles[id], pid));
    let (v2, r2) = poll_view(v1, QueueMsg::Stop { error: false, id });
    assert(stopped(started(v.profiles[id], pid)) == stopped(v.profiles[id]));
    assert(v1.profiles.insert(id, stopped(v1.profiles[id])) =~= v.profiles.insert(id, stopped(v.profiles[id])));
}

/// An acknowledgement about a profile that is not in the list changes
/// nothing and is answered with a `NoSuchProfile` failure.
pub proof fn lemma_unknown_profile_reported(v: FrontendView, msg: QueueMsg)
    requires
        match msg {
            QueueMsg::Spawn { id, .. } => !v.profiles.contains_key(id),
            QueueMsg::Stop { id, .. } => !v.profiles.contains_key(id),
            _ => false,
        },
    ensures
        poll_view(v, msg).0 == v,
        poll_view(v, msg).1 == Some(QueueMsg::Fail(Status::NoSuchProfile(match msg {
            QueueMsg::Spawn { id, .. } => id,
            QueueMsg::Stop { id, .. } => id,
            _ => 0,
        }))),
{
}

/// Asking to delete profile `id`, confirming it, and carrying the
/// deletion out removes exactly that profile and clears both marks.
pub proof fn lemma_delete_protocol(v: FrontendView, id: u32)
    ensures
        ({
            let asked = FrontendView { deleting_profile: Some(id), ..v };
            let confirmed = FrontendView { do_delete: Some(id), ..asked };
            let done = deletion_view(confirmed);
            &&& done.profiles == v.profiles.remove(id)
            &&& !done.profiles.contains_key(id)
            &&& done.deleting_profile is None
            &&& done.do_delete is None
        }),
{
}

/// Saving the buffer adds one profile and keeps all the others, provided
/// the key it is added under is not in use yet.
pub proof fn lemma_save_adds_one(v: FrontendView, fresh: Profile)
    requires
        v.profiles.dom().finite(),
        v.profiles.len() < u32::MAX,
        !v.profiles.contains_key(next_key(v.profiles.len())),
    ensures
        save_view(v, fresh).profiles.len() == v.profiles.len() + 1,
        forall|k: u32| v.profiles.contains_key(k) ==> #[trigger] save_view(v, fresh).profiles.contains_key(k)
            && save_view(v, fresh).profiles[k] == v.profiles[k],
{
}


/// A profile that the broker started is shown as running under the PID of
/// the started process, once the broker's answer is taken from the queue;
/// this needs the profile's `id` field to be its key in the list.
pub proof fn lemma_started_profile_shown_running(v: FrontendView, key: u32, info: ProcessInfo)
    requires
        v.profiles.contains_key(key),
        v.profiles[key].id == key,
    ensures
        ({
            let entry = launched_spec(v.profiles[key], info);
            let msg = spawn_message_spec(CallOutcome::Replied(spawn_answer(key, Some(entry))));
            let (v1, reply) = poll_view(v, msg);
            &&& reply is None
            &&& v1.profiles == v.profiles.insert(key, started(v.profiles[key], info.pid))
        }),
{
}

/// Nothing is deleted before the user confirms: while no deletion is
/// confirmed, carrying out the pending deletion changes nothing, the prompt
/// included; a confirmed deletion removes exactly the confirmed profile and
/// keeps all others.
pub proof fn lemma_deletion_needs_confirmation(v: FrontendView)
    ensures
        v.do_delete is None ==> deletion_view(v) == v,
        v.do_delete matches Some(id) ==> {
            &&& !deletion_view(v).profiles.contains_key(id)
            &&& forall|k: u32| k != id ==> (#[trigger] deletion_view(v).profiles.contains_key(k) <==> v.profiles.contains_key(k))
            &&& forall|k: u32| k != id && v.profiles.contains_key(k) ==> #[trigger] deletion_view(v).profiles[k] == v.profiles[k]
            &&& deletion_view(v).deleting_profile is None
            &&& deletion_view(v).do_delete is None
        },
{
}

} // verus!
