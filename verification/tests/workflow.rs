use blot::descriptor::Difficulty;
use blot::error::ProvisionError;
use blot::fetcher::{FetchAction, FetchEvent};
use blot::request::{ModpackSource, ProvisionRequest, ServerRecord, Settings};
use blot::workflow::{Action, Event, Provisioning, Stage, URL_TIMEOUT};
use serde_yml::Value;

/// The collaborators of a provisioning, played in memory.
struct Sim {
    store: Vec<(i64, ServerRecord)>,
    versions: String,
    answers: Vec<(u16, Vec<u8>)>,
    tokens: Vec<String>,
    url: Option<String>,
    dirs: Vec<String>,
    files: Vec<(String, Vec<u8>)>,
    notices: Vec<String>,
    sleeps: Vec<u64>,
    polls: usize,
    deleted_replies: usize,
    log: Vec<String>,
}

fn sim() -> Sim {
    Sim {
        store: Vec::new(),
        versions: "[\"1.19.4\", \"1.20.1\"]".to_string(),
        answers: Vec::new(),
        tokens: vec!["tok-1".to_string(), "tok-2".to_string()],
        url: None,
        dirs: Vec::new(),
        files: Vec::new(),
        notices: Vec::new(),
        sleeps: Vec::new(),
        polls: 0,
        deleted_replies: 0,
        log: Vec::new(),
    }
}

fn settings(min_port: i64, max_port: i64) -> Settings {
    Settings {
        min_port,
        max_port,
        admin_player: "Steve".to_string(),
        max_memory: "4G".to_string(),
        cf_api_key: "key".to_string(),
        storage_root: "worlds".to_string(),
    }
}

fn request(name: &str) -> ProvisionRequest {
    ProvisionRequest {
        name: name.to_string(),
        version: None,
        difficulty: None,
        include_world: false,
        modpack: None,
    }
}

fn occupy(sim: &mut Sim, name: &str, port: i64) {
    let id = sim.store.len() as i64 + 1;
    sim.store.push((
        id,
        ServerRecord {
            name: name.to_string(),
            version: "latest".to_string(),
            difficulty: Difficulty::Easy,
            port,
            started: false,
        },
    ));
}

fn answer(sim: &mut Sim, action: &Action) -> Option<Event> {
    Some(match action {
        Action::CheckName { name } => {
            sim.log.push("check".to_string());
            Event::NameChecked { exists: sim.store.iter().any(|(_, r)| &r.name == name) }
        }
        Action::ListPorts => {
            sim.log.push("ports".to_string());
            let mut ports: Vec<i64> = sim.store.iter().map(|(_, r)| r.port).collect();
            ports.sort();
            Event::PortsListed { ports }
        }
        Action::NotifyStarted => {
            sim.notices.push("started".to_string());
            Event::Notified
        }
        Action::LoadVersions => Event::VersionsLoaded { text: sim.versions.clone() },
        Action::InsertRecord { record } => {
            sim.log.push("insert".to_string());
            let id = sim.store.len() as i64 + 1;
            sim.store.push((id, record.clone()));
            Event::RecordInserted { id }
        }
        Action::CreateDirectories { paths } => {
            sim.dirs.extend(paths.iter().cloned());
            Event::DirectoriesCreated
        }
        Action::Fetch(fetch) => Event::Fetch(match fetch {
            FetchAction::Generate => {
                FetchEvent::Generated { status: 200, token: sim.tokens.remove(0) }
            }
            FetchAction::Announce { token } => {
                sim.notices.push(format!("upload {token}"));
                FetchEvent::Announced
            }
            FetchAction::Poll { .. } => {
                sim.polls += 1;
                let (status, bytes) = sim.answers.remove(0);
                FetchEvent::Polled { status, bytes }
            }
            FetchAction::Sleep { seconds } => {
                sim.sleeps.push(*seconds);
                FetchEvent::Slept
            }
            FetchAction::Write { path, bytes } => {
                sim.files.push((path.clone(), bytes.clone()));
                FetchEvent::Written
            }
            other => panic!("the fetch handed out {other:?}"),
        }),
        Action::AskForUrl { seconds } => {
            assert_eq!(*seconds, 60);
            sim.notices.push("url?".to_string());
            match sim.url.take() {
                Some(url) => Event::UrlReceived { url },
                None => Event::UrlTimedOut,
            }
        }
        Action::DeleteReply => {
            sim.deleted_replies += 1;
            Event::ReplyDeleted
        }
        Action::WriteDescriptor { path, text } => {
            sim.files.push((path.clone(), text.clone().into_bytes()));
            Event::DescriptorWritten
        }
        Action::NotifyCreated { name } => {
            sim.notices.push(format!("created {name}"));
            Event::Notified
        }
        Action::Finish | Action::Fail { .. } | Action::Idle => return None,
    })
}

fn provision(sim: &mut Sim, request: ProvisionRequest, settings: Settings) -> (Provisioning, Action) {
    let (mut state, mut action) = Provisioning::begin(request, settings);
    while let Some(event) = answer(sim, &action) {
        action = state.step(event);
    }
    (state, action)
}

fn environment(sim: &Sim, path: &str) -> Vec<(String, String)> {
    let (_, bytes) = sim.files.iter().find(|(p, _)| p == path).unwrap();
    let doc: Value = serde_yml::from_str(std::str::from_utf8(bytes).unwrap()).unwrap();
    let env = doc.get("services").unwrap().get("mc").unwrap().get("environment").unwrap();
    env.as_mapping()
        .unwrap()
        .iter()
        .map(|(k, v)| (k.as_str().unwrap().to_string(), v.as_str().unwrap().to_string()))
        .collect()
}

fn pair(k: &str, v: &str) -> (String, String) {
    (k.to_string(), v.to_string())
}

#[test]
fn plain_request_against_empty_store() {
    let mut sim = sim();
    let mut req = request("test");
    req.version = Some("1.20.1".to_string());
    req.difficulty = Some(Difficulty::Hard);
    let (state, last) = provision(&mut sim, req, settings(25565, 25568));
    assert_eq!(last, Action::Finish);
    assert_eq!(state.stage, Stage::Done);
    assert_eq!(sim.store.len(), 1);
    assert_eq!(
        sim.store[0].1,
        ServerRecord {
            name: "test".to_string(),
            version: "1.20.1".to_string(),
            difficulty: Difficulty::Hard,
            port: 25565,
            started: false,
        }
    );
    let env = environment(&sim, "worlds/1/docker-compose.yml");
    assert!(env.contains(&pair("VERSION", "1.20.1")));
    assert!(env.contains(&pair("DIFFICULTY", "hard")));
    for key in ["WORLD", "MODPACK_PLATFORM", "CF_API_KEY", "CF_PAGE_URL", "CF_SLUG", "CF_MODPACK_ZIP"] {
        assert!(env.iter().all(|(k, _)| k != key));
    }
    assert_eq!(sim.dirs, vec!["worlds/1/data".to_string(), "worlds/1/world".to_string()]);
    assert_eq!(sim.notices, vec!["started".to_string(), "created test".to_string()]);
    assert_eq!(sim.polls, 0);
}

#[test]
fn full_range_fails_without_a_record() {
    let mut sim = sim();
    occupy(&mut sim, "a", 25565);
    occupy(&mut sim, "b", 25566);
    occupy(&mut sim, "c", 25567);
    let mut req = request("test");
    req.version = Some("1.20.1".to_string());
    req.difficulty = Some(Difficulty::Hard);
    let (state, last) = provision(&mut sim, req, settings(25565, 25568));
    assert_eq!(last, Action::Fail { error: ProvisionError::NoPortAvailable });
    assert_eq!(state.stage, Stage::Failed(ProvisionError::NoPortAvailable));
    assert_eq!(sim.store.len(), 3);
    assert!(sim.files.is_empty());
    assert!(sim.dirs.is_empty());
    assert!(sim.notices.is_empty());
}

#[test]
fn uploaded_modpack_pending_once() {
    let mut sim = sim();
    sim.answers = vec![(202, Vec::new()), (200, b"zipdata".to_vec())];
    let mut req = request("packed");
    req.modpack = Some(ModpackSource::Archive);
    let (state, last) = provision(&mut sim, req, settings(25565, 25568));
    assert_eq!(last, Action::Finish);
    assert_eq!(state.stage, Stage::Done);
    assert_eq!(sim.polls, 2);
    assert_eq!(sim.sleeps, vec![10]);
    let env = environment(&sim, "worlds/1/docker-compose.yml");
    assert!(env.contains(&pair("CF_SLUG", "custom")));
    assert!(env.contains(&pair("CF_MODPACK_ZIP", "/world/tok-1")));
    assert!(env.contains(&pair("MODPACK_PLATFORM", "AUTO_CURSEFORGE")));
    assert!(env.contains(&pair("CF_API_KEY", "key")));
    let (_, bytes) = sim.files.iter().find(|(p, _)| p == "worlds/1/tok-1").unwrap();
    assert_eq!(bytes.as_slice(), b"zipdata");
    assert_eq!(
        sim.notices,
        vec!["started".to_string(), "upload tok-1".to_string(), "created packed".to_string()]
    );
}

#[test]
fn duplicate_name_gives_one_record_and_one_refusal() {
    for (first, second) in [("survival", "survival"), ("Survival", "SURVIVAL")] {
        let mut sim = sim();
        let (_, a) = provision(&mut sim, request(first), settings(25565, 25568));
        let (state, b) = provision(&mut sim, request(second), settings(25565, 25568));
        assert_eq!(a, Action::Finish);
        assert_eq!(b, Action::Fail { error: ProvisionError::DuplicateName });
        assert_eq!(state.stage, Stage::Failed(ProvisionError::DuplicateName));
        assert_eq!(sim.store.len(), 1);
        assert_eq!(sim.store[0].1.name, "survival");
        assert_eq!(sim.notices, vec!["started".to_string(), "created survival".to_string()]);
    }
}

#[test]
fn duplicate_name_is_found_before_anything_else_is_asked() {
    let mut sim = sim();
    occupy(&mut sim, "taken", 25565);
    let log_before = sim.log.len();
    let (_, last) = provision(&mut sim, request("Taken"), settings(25565, 25566));
    assert_eq!(last, Action::Fail { error: ProvisionError::DuplicateName });
    assert_eq!(sim.log[log_before..].to_vec(), vec!["check".to_string()]);
}

#[test]
fn name_taken_at_insertion_is_a_duplicate() {
    let (mut state, _) = Provisioning::begin(request("race"), settings(25565, 25568));
    assert_eq!(state.step(Event::NameChecked { exists: false }), Action::ListPorts);
    assert_eq!(state.step(Event::PortsListed { ports: vec![] }), Action::NotifyStarted);
    assert!(matches!(state.step(Event::Notified), Action::InsertRecord { .. }));
    assert_eq!(
        state.step(Event::NameTaken),
        Action::Fail { error: ProvisionError::DuplicateName }
    );
    assert_eq!(state.stage, Stage::Failed(ProvisionError::DuplicateName));
}

#[test]
fn name_is_put_in_lowercase() {
    let (state, first) = Provisioning::begin(request("MyServer"), settings(1, 2));
    assert_eq!(first, Action::CheckName { name: "myserver".to_string() });
    assert_eq!(state.name, "myserver");
    assert_eq!(state.request.name, "MyServer");
    assert_eq!(state.stage, Stage::CheckingName);
}

#[test]
fn second_server_gets_the_next_port_and_directory() {
    let mut sim = sim();
    provision(&mut sim, request("one"), settings(25565, 25568));
    let (_, last) = provision(&mut sim, request("two"), settings(25565, 25568));
    assert_eq!(last, Action::Finish);
    assert_eq!(sim.store[1].1.port, 25566);
    assert_eq!(sim.store[1].1.version, "latest");
    assert_eq!(sim.store[1].1.difficulty, Difficulty::Easy);
    assert!(sim.files.iter().any(|(p, _)| p == "worlds/2/docker-compose.yml"));
}

#[test]
fn unknown_version_fails_before_the_record() {
    let mut sim = sim();
    let mut req = request("test");
    req.version = Some("0.0.1".to_string());
    let (_, last) = provision(&mut sim, req, settings(25565, 25568));
    assert_eq!(last, Action::Fail { error: ProvisionError::InvalidVersion });
    assert!(sim.store.is_empty());
    assert_eq!(sim.notices, vec!["started".to_string()]);
}

#[test]
fn unreadable_version_list_is_internal() {
    let mut sim = sim();
    sim.versions = "not json".to_string();
    let mut req = request("test");
    req.version = Some("1.20.1".to_string());
    let (_, last) = provision(&mut sim, req, settings(25565, 25568));
    assert_eq!(last, Action::Fail { error: ProvisionError::Internal });
    assert!(sim.store.is_empty());
}

#[test]
fn version_list_is_not_read_without_a_version() {
    let mut sim = sim();
    sim.versions = "not json".to_string();
    let (_, last) = provision(&mut sim, request("test"), settings(25565, 25568));
    assert_eq!(last, Action::Finish);
}

#[test]
fn world_and_uploaded_modpack_are_fetched_in_turn() {
    let mut sim = sim();
    sim.answers = vec![
        (202, Vec::new()),
        (202, Vec::new()),
        (202, Vec::new()),
        (200, b"world".to_vec()),
        (200, b"pack".to_vec()),
    ];
    let mut req = request("both");
    req.include_world = true;
    req.modpack = Some(ModpackSource::Archive);
    let (_, last) = provision(&mut sim, req, settings(25565, 25568));
    assert_eq!(last, Action::Finish);
    assert_eq!(sim.polls, 5);
    assert_eq!(sim.sleeps, vec![10, 10, 30]);
    assert!(sim.files.contains(&("worlds/1/tok-1".to_string(), b"world".to_vec())));
    assert!(sim.files.contains(&("worlds/1/tok-2".to_string(), b"pack".to_vec())));
    let env = environment(&sim, "worlds/1/docker-compose.yml");
    assert!(env.contains(&pair("WORLD", "/world/tok-1")));
    assert!(env.contains(&pair("CF_MODPACK_ZIP", "/world/tok-2")));
}

#[test]
fn modpack_page_is_asked_for_and_the_reply_deleted() {
    let mut sim = sim();
    sim.url = Some("https://example.org/pack".to_string());
    let mut req = request("paged");
    req.modpack = Some(ModpackSource::Page);
    let (_, last) = provision(&mut sim, req, settings(25565, 25568));
    assert_eq!(last, Action::Finish);
    assert_eq!(sim.deleted_replies, 1);
    assert_eq!(sim.polls, 0);
    let env = environment(&sim, "worlds/1/docker-compose.yml");
    assert!(env.contains(&pair("CF_PAGE_URL", "https://example.org/pack")));
    assert!(env.contains(&pair("MODPACK_PLATFORM", "AUTO_CURSEFORGE")));
    assert!(env.iter().all(|(k, _)| k != "CF_SLUG"));
}

#[test]
fn missing_url_is_no_input_provided() {
    let mut sim = sim();
    let mut req = request("paged");
    req.modpack = Some(ModpackSource::Page);
    let (state, last) = provision(&mut sim, req, settings(25565, 25568));
    assert_eq!(last, Action::Fail { error: ProvisionError::NoInputProvided });
    assert_eq!(state.stage, Stage::Failed(ProvisionError::NoInputProvided));
    assert_eq!(sim.store.len(), 1);
    assert!(sim.files.is_empty());
    assert!(sim.notices.iter().all(|n| !n.starts_with("created")));
    assert_eq!(URL_TIMEOUT, 60);
}

#[test]
fn broker_failure_leaves_the_record_and_tells_no_success() {
    let mut sim = sim();
    sim.answers = vec![(202, Vec::new()), (503, Vec::new())];
    let mut req = request("w");
    req.include_world = true;
    let (state, last) = provision(&mut sim, req, settings(25565, 25568));
    assert_eq!(last, Action::Fail { error: ProvisionError::BrokerUnavailable });
    assert_eq!(state.stage, Stage::Failed(ProvisionError::BrokerUnavailable));
    assert_eq!(sim.polls, 2);
    assert_eq!(sim.store.len(), 1);
    assert!(sim.files.is_empty());
    assert!(sim.notices.iter().all(|n| !n.starts_with("created")));
}

#[test]
fn storage_failures_are_reported() {
    let (mut state, _) = Provisioning::begin(request("s"), settings(1, 5));
    state.step(Event::NameChecked { exists: false });
    state.step(Event::PortsListed { ports: vec![] });
    state.step(Event::Notified);
    state.step(Event::RecordInserted { id: 9 });
    assert_eq!(
        state.step(Event::StorageFailed),
        Action::Fail { error: ProvisionError::StorageFailure }
    );

    let (mut state, _) = Provisioning::begin(request("s"), settings(1, 5));
    state.step(Event::NameChecked { exists: false });
    state.step(Event::PortsListed { ports: vec![] });
    state.step(Event::Notified);
    state.step(Event::RecordInserted { id: 9 });
    let write = state.step(Event::DirectoriesCreated);
    assert!(matches!(&write, Action::WriteDescriptor { path, .. } if path == "worlds/9/docker-compose.yml"));
    assert_eq!(
        state.step(Event::StorageFailed),
        Action::Fail { error: ProvisionError::StorageFailure }
    );
}

#[test]
fn descriptor_without_text_is_internal() {
    let (mut state, _) = Provisioning::begin(request("s"), settings(1, 5));
    state.step(Event::NameChecked { exists: false });
    state.step(Event::PortsListed { ports: vec![] });
    state.step(Event::Notified);
    state.step(Event::RecordInserted { id: 4 });
    let mut other = state.clone();
    assert_eq!(
        state.conclude_with(Err(ProvisionError::Internal)),
        Action::Fail { error: ProvisionError::Internal }
    );
    assert_eq!(state.stage, Stage::Failed(ProvisionError::Internal));
    assert_eq!(
        other.conclude_with(Ok("services: {}\n".to_string())),
        Action::WriteDescriptor {
            path: "worlds/4/docker-compose.yml".to_string(),
            text: "services: {}\n".to_string(),
        }
    );
    assert_eq!(other.stage, Stage::WritingDescriptor);
}

#[test]
fn failed_collaborator_or_event_out_of_turn_is_internal() {
    let (mut state, _) = Provisioning::begin(request("s"), settings(1, 5));
    assert_eq!(
        state.step(Event::CollaboratorFailed),
        Action::Fail { error: ProvisionError::Internal }
    );
    let (mut state, _) = Provisioning::begin(request("s"), settings(1, 5));
    assert_eq!(
        state.step(Event::DescriptorWritten),
        Action::Fail { error: ProvisionError::Internal }
    );
}

#[test]
fn ended_provisioning_ignores_events() {
    let (mut state, _) = Provisioning::begin(request("s"), settings(1, 5));
    state.step(Event::NameChecked { exists: true });
    let before = state.clone();
    for event in [
        Event::NameChecked { exists: false },
        Event::PortsListed { ports: vec![] },
        Event::Notified,
        Event::DescriptorWritten,
        Event::RecordInserted { id: 1 },
    ] {
        assert_eq!(state.step(event), Action::Idle);
        assert_eq!(state, before);
    }
}
