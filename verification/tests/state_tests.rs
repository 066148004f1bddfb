use sandbox_research::broker;
use sandbox_research::client::{card_action, CardAction, Frontend, ProfileList};
use sandbox_research::ipc::{
    echo_message, echo_result, sample_echo_reply, spawn_message, stop_message, CallOutcome, QueueMsg, RpcError,
    SpawnResponse, StopResponse,
};
use sandbox_research::managed::{launched, Managed, ManagedList, ProcessInfo};
use sandbox_research::server::{self, spawn_request, Service};
use sandbox_research::status::FailStatus;
use sandbox_research::profile::ValidationError;
use sandbox_research::{sample, Profile, Status};

fn profile(id: u32, name: &str) -> Profile {
    Profile::new(id, name, "description", "app.exe")
}

#[test]
fn profile_list_keys_by_count() {
    let mut list = ProfileList::new();
    list.add_profile(profile(10, "one"));
    list.add_profile(profile(20, "two"));
    assert_eq!(list.len(), 2);
    assert_eq!(list.get(1).unwrap().name, "one");
    assert_eq!(list.get(2).unwrap().name, "two");
}

#[test]
fn profile_list_add_after_delete_overwrites() {
    let mut list = ProfileList::new();
    list.add_profile(profile(0, "one"));
    list.add_profile(profile(0, "two"));
    list.remove(1);
    list.add_profile(profile(0, "three"));
    assert_eq!(list.len(), 1);
    assert_eq!(list.get(2).unwrap().name, "three");
}

#[test]
fn poll_spawn_and_stop_acknowledgements() {
    let mut f = Frontend::new();
    f.profiles.add_profile(profile(0, "calc"));
    assert!(f.poll_data(QueueMsg::Spawn { error: false, id: 1, pid: 4242 }).is_none());
    let p = f.profiles.get(1).unwrap();
    assert!(p.is_running);
    assert_eq!(p.pid, 4242);
    assert!(f.poll_data(QueueMsg::Stop { error: false, id: 1 }).is_none());
    let p = f.profiles.get(1).unwrap();
    assert!(!p.is_running);
    assert_eq!(p.pid, 0);
    assert_eq!(p.name, "calc");
}

#[test]
fn poll_failures_are_reported() {
    let mut f = Frontend::new();
    f.profiles.add_profile(profile(0, "calc"));
    match f.poll_data(QueueMsg::Spawn { error: true, id: 1, pid: 0 }) {
        Some(QueueMsg::Fail(Status::ProcessSpawnFailed(name))) => assert_eq!(name, "calc"),
        other => panic!("unexpected {:?}", other),
    }
    match f.poll_data(QueueMsg::Stop { error: true, id: 1 }) {
        Some(QueueMsg::Fail(Status::ProcessStopFailed(name))) => assert_eq!(name, "calc"),
        other => panic!("unexpected {:?}", other),
    }
    match f.poll_data(QueueMsg::Stop { error: false, id: 9 }) {
        Some(QueueMsg::Fail(Status::NoSuchProfile(9))) => {},
        other => panic!("unexpected {:?}", other),
    }
    assert!(!f.profiles.get(1).unwrap().is_running);
}

#[test]
fn poll_fail_opens_error_dialogue() {
    let mut f = Frontend::new();
    assert!(f.poll_data(QueueMsg::Fail(Status::ConnectionFailed)).is_none());
    assert!(f.show_error);
    assert!(matches!(f.error, Some(Status::ConnectionFailed)));
    assert!(f.poll_data(QueueMsg::Echo("pong".to_string())).is_none());
    assert_eq!(f.message.as_deref(), Some("pong"));
}

#[test]
fn delete_protocol_removes_profile() {
    let mut f = Frontend::new();
    f.profiles.add_profile(profile(0, "a"));
    f.profiles.add_profile(profile(0, "b"));
    assert!(!f.pending_deletion(0));
    assert!(!f.pending_deletion(1));
    f.ask_delete(2);
    assert!(f.pending_deletion(2));
    assert!(!f.pending_deletion(1));
    f.confirm_delete(2);
    f.apply_deletion();
    assert!(f.profiles.get(2).is_none());
    assert!(f.profiles.get(1).is_some());
    assert!(f.deleting_profile.is_none());
    assert!(f.do_delete.is_none());
    f.ask_delete(1);
    f.cancel_delete();
    f.apply_deletion();
    assert!(f.profiles.get(1).is_some());
}

#[test]
fn new_profile_then_save() {
    let mut f = Frontend::new();
    f.new_profile();
    assert!(f.show_profile);
    f.profile_buffer.name = "Notepad".to_string();
    f.profile_buffer.command = "notepad.exe".to_string();
    assert!(f.validate_buffer().is_empty());
    f.save_profile();
    assert!(!f.show_profile);
    assert_eq!(f.profiles.get(1).unwrap().name, "Notepad");
    assert_eq!(f.profile_buffer.name, "New Profile");
}

#[test]
fn editing_saves_under_edited_id() {
    let mut f = Frontend::new();
    f.profiles.add_profile(profile(0, "a"));
    let copy = f.profiles.get(1).unwrap().duplicate();
    f.edit_profile(1, copy);
    assert_eq!(f.editing_profile, Some(1));
    f.profile_buffer.name = "renamed".to_string();
    f.save_profile();
    assert!(f.editing_profile.is_none());
    let saved = f.profiles.get(2).unwrap();
    assert_eq!(saved.name, "renamed");
    assert_eq!(saved.id, 1);
    assert_eq!(f.profiles.get(1).unwrap().name, "a");
}

#[test]
fn go_back_drops_buffer() {
    let mut f = Frontend::new();
    f.edit_profile(3, profile(3, "x"));
    f.go_back();
    assert!(!f.show_profile);
    assert!(f.editing_profile.is_none());
    assert_eq!(f.profile_buffer.name, "New Profile");
}

#[test]
fn test_server_counts_by_two() {
    let mut f = Frontend::new();
    assert_eq!(f.test_server(), "Useless number: 0");
    assert_eq!(f.test_server(), "Useless number: 2");
    assert_eq!(f.cycle, 4);
    f.open_settings();
    assert!(f.show_settings);
    f.clear_fields();
    assert_eq!(f.cycle, 0);
    assert!(f.message.is_none());
}

#[test]
fn call_outcomes_become_messages() {
    assert!(matches!(spawn_message(CallOutcome::NotConnected), QueueMsg::Fail(Status::ConnectionFailed)));
    assert!(matches!(spawn_message(CallOutcome::Failed), QueueMsg::Fail(Status::ResponseError)));
    assert!(matches!(
        spawn_message(CallOutcome::Replied(SpawnResponse { error: false, id: 3, pid: 99 })),
        QueueMsg::Spawn { error: false, id: 3, pid: 99 }
    ));
    assert!(matches!(
        stop_message(CallOutcome::Replied(StopResponse { error: true, id: 3 })),
        QueueMsg::Stop { error: true, id: 3 }
    ));
    assert!(matches!(stop_message(CallOutcome::NotConnected), QueueMsg::Fail(Status::ConnectionFailed)));
    match echo_message(CallOutcome::Replied("hi".to_string())) {
        QueueMsg::Echo(s) => assert_eq!(s, "hi"),
        other => panic!("unexpected {:?}", other),
    }
    assert!(matches!(echo_message(CallOutcome::Failed), QueueMsg::Fail(Status::ResponseError)));
    assert_eq!(echo_result(CallOutcome::NotConnected), Err(FailStatus::ConnectionFailed));
    assert_eq!(echo_result(CallOutcome::Failed), Err(FailStatus::ResponseError));
    assert_eq!(echo_result(CallOutcome::Replied("x".to_string())), Ok("x".to_string()));
    assert_eq!(sample_echo_reply("ping"), "Hello, you sent me: ping");
}

#[test]
fn rpc_error_messages() {
    assert_eq!(RpcError::InvalidProfileData.message(), "Invalid profile data");
    assert_eq!(RpcError::InvalidId.message(), "Invalid id");
}

fn started(id: u32, pid: u32, h: isize) -> Managed {
    launched(profile(id, "app"), ProcessInfo { pid, h_process: h, h_thread: h + 1 })
}

#[test]
fn launched_records_pid() {
    let m = started(5, 77, 100);
    assert_eq!(m.conf.id, 5);
    assert_eq!(m.conf.pid, 77);
    assert_eq!(m.h_process, 100);
    assert_eq!(m.h_thread, 101);
}

#[test]
fn service_spawn_and_stop() {
    assert!(matches!(spawn_request(None), Err(RpcError::InvalidProfileData)));
    assert!(spawn_request(Some(profile(1, "a"))).is_ok());
    let mut s = Service::new();
    let (answer, replaced) = s.spawn(5, Some(started(5, 77, 100)));
    assert_eq!(answer, SpawnResponse { error: false, id: 5, pid: 77 });
    assert!(replaced.is_none());
    assert_eq!(s.stop_target(5), Ok(100));
    assert_eq!(s.stop_target(6), Err(RpcError::InvalidId));
    let (answer, removed) = s.stop(5, false);
    assert_eq!(answer, StopResponse { error: true, id: 0 });
    assert!(removed.is_none());
    assert_eq!(s.managed.len(), 1);
    let (answer, removed) = s.stop(5, true);
    assert_eq!(answer, StopResponse { error: false, id: 5 });
    assert_eq!(removed.unwrap().h_process, 100);
    assert_eq!(s.stop_target(5), Err(RpcError::InvalidId));
}

#[test]
fn service_failed_spawn() {
    let mut s = Service::new();
    let (answer, replaced) = s.spawn(8, None);
    assert_eq!(answer, SpawnResponse { error: true, id: 8, pid: 0 });
    assert!(replaced.is_none());
    assert_eq!(s.managed.len(), 0);
}

#[test]
fn respawn_replaces_entry() {
    let mut list = ManagedList::new();
    let (_, first) = server::record_spawn(&mut list, 5, Some(started(5, 1, 10)));
    assert!(first.is_none());
    let (_, replaced) = server::record_spawn(&mut list, 5, Some(started(5, 2, 20)));
    assert_eq!(replaced.unwrap().h_process, 10);
    assert_eq!(list.get(5).unwrap().conf.pid, 2);
}

#[test]
fn broker_stop_always_forgets() {
    let mut b = broker::Service::new();
    b.spawn(5, Some(started(5, 77, 100)));
    let (answer, removed) = b.stop(5, false);
    assert_eq!(answer, StopResponse { error: true, id: 5 });
    assert!(removed.is_some());
    assert_eq!(b.stop_target(5), Err(RpcError::InvalidId));
    b.spawn(6, Some(started(6, 78, 200)));
    let (answer, _) = b.stop(6, true);
    assert_eq!(answer, StopResponse { error: false, id: 6 });
}

#[test]
fn sample_frontend_flow() {
    let mut f = sample::Frontend::new();
    assert_eq!(f.request_stuff(), "2");
    assert!(f.show_busy);
    assert_eq!(f.request_stuff(), "4");
    f.receive(Ok("Hello, you sent me: 4".to_string()));
    assert!(!f.show_busy);
    assert_eq!(f.message.as_deref(), Some("Hello, you sent me: 4"));
    f.receive(Err(FailStatus::ConnectionFailed));
    assert!(f.show_error);
    assert_eq!(f.error, Some(FailStatus::ConnectionFailed));
    f.dismiss_error();
    assert!(!f.show_error);
    assert!(f.error.is_none());
    f.clear_stuff();
    assert_eq!(f.cycle, 0);
    assert!(f.message.is_none());
}

#[test]
fn answer_is_matched_by_profile_id() {
    let mut f = Frontend::new();
    f.profiles.add_profile(profile(1, "keyed"));
    f.profiles.add_profile(profile(999, "random id"));
    let mut s = Service::new();
    let (answer, _) = s.spawn(1, Some(started(1, 10, 5)));
    assert!(f.poll_data(spawn_message(CallOutcome::Replied(answer))).is_none());
    assert!(f.profiles.get(1).unwrap().is_running);
    let (answer, _) = s.spawn(999, Some(started(999, 11, 6)));
    match f.poll_data(spawn_message(CallOutcome::Replied(answer))) {
        Some(QueueMsg::Fail(Status::NoSuchProfile(999))) => {},
        other => panic!("unexpected {:?}", other),
    }
    assert!(!f.profiles.get(2).unwrap().is_running);
}

#[test]
fn key_zero_is_not_pending_deletion() {
    let mut f = Frontend::new();
    f.profiles.set(0, profile(0, "zero"));
    assert!(!f.pending_deletion(0));
    f.ask_delete(0);
    assert!(f.pending_deletion(0));
}

#[test]
fn invalid_buffer_is_not_saved() {
    let mut f = Frontend::new();
    f.new_profile();
    f.profile_buffer.name = "ab".to_string();
    f.profile_buffer.command = "x".to_string();
    let errors = f.save_profile();
    assert_eq!(errors, vec![ValidationError::NameTooShort, ValidationError::CommandTooShort]);
    assert_eq!(f.profiles.len(), 0);
    assert!(f.show_profile);
    assert_eq!(f.profile_buffer.name, "ab");
}

#[test]
fn saving_truncates_before_adding() {
    let mut f = Frontend::new();
    f.new_profile();
    f.profile_buffer.name = "n".repeat(600);
    assert!(f.save_profile().is_empty());
    assert_eq!(f.profiles.get(1).unwrap().name.chars().count(), 512);
}

#[test]
fn card_offers_kill_only_while_running() {
    let mut p = profile(1, "calc");
    assert_eq!(card_action(&p), CardAction::Start);
    p.is_running = true;
    p.pid = 7;
    assert_eq!(card_action(&p), CardAction::Kill);
}

#[test]
fn saved_profile_meets_limits() {
    let mut f = Frontend::new();
    f.new_profile();
    f.profile_buffer.description = "d".repeat(3000);
    assert!(f.save_profile().is_empty());
    let saved = f.profiles.get(1).unwrap();
    assert_eq!(saved.description.chars().count(), 2048);
    assert!(saved.name.chars().count() >= 3 && saved.command.chars().count() >= 5);
}
