use openai_dive::v1::resources::chat::{ChatMessage, ChatMessageContent};
use shai_http::session::clock::Timestamp;
use shai_http::session::persist::{
    loaded_session, PersistError, ReadOutcome, SaveOutcome, SaveRun, SaveStep, SessionData,
    SessionPersist,
};
use std::collections::HashMap;

type Disk = HashMap<String, String>;

fn user(text: &str) -> ChatMessage {
    ChatMessage::User { content: ChatMessageContent::Text(text.to_string()), name: None }
}

fn number(value: &serde_json::Value, key: &str) -> Option<i64> {
    value.get(key).and_then(|n| n.as_i64())
}

fn encode(record: &SessionData) -> String {
    let mut fields = serde_json::Map::new();
    fields.insert("session_id".to_string(), serde_json::Value::from(record.session_id.clone()));
    fields.insert("created_secs".to_string(), serde_json::Value::from(record.created_at.secs));
    fields.insert("created_nanos".to_string(), serde_json::Value::from(record.created_at.nanos));
    fields.insert("updated_secs".to_string(), serde_json::Value::from(record.updated_at.secs));
    fields.insert("updated_nanos".to_string(), serde_json::Value::from(record.updated_at.nanos));
    fields.insert("trace".to_string(), serde_json::to_value(&record.trace).unwrap());
    serde_json::to_string_pretty(&serde_json::Value::Object(fields)).unwrap()
}

fn decode(text: &str) -> Option<SessionData> {
    let value: serde_json::Value = serde_json::from_str(text).ok()?;
    Some(SessionData {
        session_id: value.get("session_id")?.as_str()?.to_string(),
        created_at: Timestamp {
            secs: number(&value, "created_secs")?,
            nanos: number(&value, "created_nanos")? as u32,
        },
        updated_at: Timestamp {
            secs: number(&value, "updated_secs")?,
            nanos: number(&value, "updated_nanos")? as u32,
        },
        trace: serde_json::from_value(value.get("trace")?.clone()).ok()?,
    })
}

/// Performs the pending step on the disk and reports how it went. `false` once the save has
/// ended.
fn perform(disk: &mut Disk, run: &mut SaveRun) -> bool {
    let outcome = match run.step() {
        SaveStep::EnsureFolder { .. } => SaveOutcome::Done,
        SaveStep::ReadExisting { path } => SaveOutcome::Existing {
            created_at: disk.get(path).and_then(|text| decode(text)).map(|r| r.created_at),
        },
        SaveStep::Serialize => SaveOutcome::Text { text: encode(run.record()) },
        SaveStep::WriteTemp { path, text } => {
            disk.insert(path.clone(), text.clone());
            SaveOutcome::Done
        }
        SaveStep::Rename { from, to } => match disk.remove(from) {
            Some(text) => {
                disk.insert(to.clone(), text);
                SaveOutcome::Done
            }
            None => SaveOutcome::Failed { reason: "no such file".to_string() },
        },
        SaveStep::Finished { .. } => return false,
    };
    run.advance(outcome);
    true
}

fn save(disk: &mut Disk, store: &SessionPersist, id: &str, trace: Vec<ChatMessage>) {
    let mut run = store.save_session(id, trace);
    while perform(disk, &mut run) {}
    assert_eq!(run.result(), Some(Ok(())));
}

fn load(disk: &Disk, store: &SessionPersist, id: &str) -> Result<SessionData, PersistError> {
    let path = store.load_session(id)?;
    let outcome = match disk.get(&path) {
        None => ReadOutcome::Missing,
        Some(text) => match decode(text) {
            Some(record) => ReadOutcome::Record { record },
            None => ReadOutcome::Malformed { reason: "no record".to_string() },
        },
    };
    loaded_session(id, outcome)
}

fn store() -> SessionPersist {
    SessionPersist::new(true, "sessions".to_string())
}

#[test]
fn save_then_load_gives_the_conversation_back() {
    let mut disk = Disk::new();
    let trace = vec![user("hello"), user("again")];
    save(&mut disk, &store(), "s1", trace.clone());
    let record = load(&disk, &store(), "s1").ok().expect("the record is loaded");
    assert_eq!(record.session_id, "s1");
    assert_eq!(record.trace, trace);
    assert_eq!(record.created_at, record.updated_at);
    // nothing is left behind but the record
    assert_eq!(disk.len(), 1);
    assert!(disk.contains_key("sessions/s1.json"));
}

#[test]
fn a_second_save_keeps_the_creation_time() {
    let mut disk = Disk::new();
    save(&mut disk, &store(), "s1", vec![user("one")]);
    let first = load(&disk, &store(), "s1").ok().expect("the record is loaded");
    save(&mut disk, &store(), "s1", vec![user("one"), user("two")]);
    let second = load(&disk, &store(), "s1").ok().expect("the record is loaded");
    assert_eq!(second.created_at, first.created_at);
    assert!(second.updated_at.is_not_before(&first.updated_at));
    assert_eq!(second.trace, vec![user("one"), user("two")]);
    assert_eq!(disk.len(), 1);
}

#[test]
fn a_record_that_is_no_record_is_written_anew() {
    let mut disk = Disk::new();
    disk.insert("sessions/s1.json".to_string(), "not json".to_string());
    assert!(matches!(
        load(&disk, &store(), "s1"),
        Err(PersistError::Failed { .. })
    ));
    save(&mut disk, &store(), "s1", vec![user("one")]);
    let record = load(&disk, &store(), "s1").ok().expect("the record is loaded");
    assert_eq!(record.created_at, record.updated_at);
    assert_eq!(record.trace, vec![user("one")]);
}

#[test]
fn sessions_do_not_share_a_record() {
    let mut disk = Disk::new();
    save(&mut disk, &store(), "s1", vec![user("one")]);
    save(&mut disk, &store(), "s2", vec![user("two")]);
    assert_eq!(load(&disk, &store(), "s1").ok().unwrap().trace, vec![user("one")]);
    assert_eq!(load(&disk, &store(), "s2").ok().unwrap().trace, vec![user("two")]);
    assert!(matches!(load(&disk, &store(), "s3"), Err(PersistError::NotFound { .. })));
}

#[test]
fn a_writer_stopped_before_the_rename_leaves_the_record_as_it_was() {
    let mut disk = Disk::new();
    save(&mut disk, &store(), "s1", vec![user("old")]);
    let before = disk.get("sessions/s1.json").cloned();
    for steps in 0..5 {
        let mut crashed = disk.clone();
        let mut run = store().save_session("s1", vec![user("new")]);
        for _ in 0..steps {
            assert!(perform(&mut crashed, &mut run));
        }
        if steps == 4 {
            // the temporary file is written and the rename is pending
            assert!(matches!(run.step(), SaveStep::Rename { .. }));
            assert_eq!(crashed.len(), 2);
        }
        assert_eq!(crashed.get("sessions/s1.json").cloned(), before);
        assert_eq!(load(&crashed, &store(), "s1").ok().unwrap().trace, vec![user("old")]);
    }
    let mut run = store().save_session("s1", vec![user("new")]);
    while perform(&mut disk, &mut run) {}
    assert_eq!(load(&disk, &store(), "s1").ok().unwrap().trace, vec![user("new")]);
}

#[test]
fn a_half_written_temporary_file_does_not_touch_the_record() {
    let mut disk = Disk::new();
    save(&mut disk, &store(), "s1", vec![user("old")]);
    let before = disk.get("sessions/s1.json").cloned();
    let mut run = store().save_session("s1", vec![user("new")]);
    for _ in 0..3 {
        assert!(perform(&mut disk, &mut run));
    }
    match run.step() {
        SaveStep::WriteTemp { path, text } => {
            let half: String = text.chars().take(text.chars().count() / 2).collect();
            disk.insert(path.clone(), half);
        }
        _ => panic!("the text is not written to a temporary file"),
    }
    run.advance(SaveOutcome::Failed { reason: "stopped".to_string() });
    assert_eq!(run.result(), Some(Err("stopped".to_string())));
    assert_eq!(disk.get("sessions/s1.json").cloned(), before);
}

#[test]
fn two_writers_at_once_leave_one_whole_record() {
    let mut disk = Disk::new();
    save(&mut disk, &store(), "s1", vec![user("old")]);
    let mut first = store().save_session("s1", vec![user("first")]);
    let mut second = store().save_session("s1", vec![user("second")]);
    let schedule = [true, false, false, true, true, false, true, false, false, true];
    for turn in schedule {
        if turn {
            assert!(perform(&mut disk, &mut first));
        } else {
            assert!(perform(&mut disk, &mut second));
        }
        let record = load(&disk, &store(), "s1").ok().expect("the record is whole");
        assert!(
            record.trace == vec![user("old")]
                || record.trace == vec![user("first")]
                || record.trace == vec![user("second")]
        );
    }
    assert_eq!(first.result(), Some(Ok(())));
    assert_eq!(second.result(), Some(Ok(())));
    assert_eq!(load(&disk, &store(), "s1").ok().unwrap().trace, vec![user("first")]);
    assert_eq!(disk.len(), 1);
}

#[test]
fn a_disabled_store_leaves_the_disk_alone() {
    let mut disk = Disk::new();
    let store = SessionPersist::new(false, "sessions".to_string());
    save(&mut disk, &store, "s1", vec![user("one")]);
    assert!(disk.is_empty());
    assert!(matches!(load(&disk, &store, "s1"), Err(PersistError::Disabled)));
}
