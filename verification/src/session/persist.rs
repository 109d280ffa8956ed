//! The session store: one record per session, kept as one file in a storage folder.
//!
//! Nothing here touches the disk. [`SessionPersist`] knows where the records live, and
//! [`SaveRun`] is the protocol by which a record is written: make sure the folder is there,
//! look for the record that is being replaced, turn the new record into text, write the text
//! to a temporary file, and move that file over the record in one step. The caller performs
//! each step and reports how it went.

use crate::session::clock::{now, Timestamp};
use crate::session::ident::{fresh_uuid, is_random_uuid};
use crate::session::paths::{join_path, joined_path};
use crate::text::{joined, setting_or, setting_text, switch, switch_is_on};
use openai_dive::v1::resources::chat::ChatMessage;
use vstd::prelude::*;

verus! {

/// `openai_dive::v1::resources::chat::ChatMessage`: one message of a conversation. The store
/// carries messages through and never looks inside one.
#[verifier::external_type_specification]
#[verifier::external_body]
pub struct ExChatMessage(ChatMessage);

/// The record of one session.
#[derive(Debug)]
pub struct SessionData {
    pub session_id: String,
    /// When the record was first written.
    pub created_at: Timestamp,
    /// When the record was last written.
    pub updated_at: Timestamp,
    /// The conversation, oldest message first.
    pub trace: Vec<ChatMessage>,
}

/// The content of a record.
pub struct RecordView {
    pub session_id: Seq<char>,
    pub created_at: Timestamp,
    pub updated_at: Timestamp,
    pub trace: Seq<ChatMessage>,
}

impl View for SessionData {
    type V = RecordView;

    open spec fn view(&self) -> RecordView {
        RecordView {
            session_id: self.session_id@,
            created_at: self.created_at,
            updated_at: self.updated_at,
            trace: self.trace@,
        }
    }
}

/// The steps of the protocols that can fail.
#[derive(Clone, Copy, Debug, PartialEq, Eq, Structural)]
pub enum Failing {
    /// Creating the storage folder.
    EnsureFolder,
    /// Reading a record file.
    Read,
    /// Making a record of the text of a file.
    Parse,
    /// Making text of a record.
    Serialize,
    /// Writing the temporary file.
    WriteTemp,
    /// Moving the temporary file over the record.
    Rename,
}

/// Why a record could not be saved or loaded.
#[derive(Debug)]
pub enum PersistError {
    /// The store is switched off, so there is nothing to load.
    Disabled,
    /// The session has no record.
    NotFound { session_id: String },
    /// A step failed, for the reason that the caller reported.
    Failed { step: Failing, reason: String },
    /// The caller reported an outcome that does not answer the step that was pending.
    OutOfTurn,
}

/// The content of a [`PersistError`].
pub enum ErrorView {
    Disabled,
    NotFound { session_id: Seq<char> },
    Failed { step: Failing, reason: Seq<char> },
    OutOfTurn,
}

impl View for PersistError {
    type V = ErrorView;

    open spec fn view(&self) -> ErrorView {
        match self {
            PersistError::Disabled => ErrorView::Disabled,
            PersistError::NotFound { session_id } => ErrorView::NotFound {
                session_id: session_id@,
            },
            PersistError::Failed { step, reason } => ErrorView::Failed {
                step: *step,
                reason: reason@,
            },
            PersistError::OutOfTurn => ErrorView::OutOfTurn,
        }
    }
}

impl ErrorView {
    /// The error in words.
    pub open spec fn message_text(self) -> Seq<char> {
        match self {
            ErrorView::Disabled => "Session persistence is not enabled"@,
            ErrorView::NotFound { session_id } => "Session file not found: "@ + session_id,
            ErrorView::Failed { step, reason } => reason,
            ErrorView::OutOfTurn => "Outcome does not answer the pending step"@,
        }
    }
}

impl PersistError {
    /// The error in words.
    pub fn message(&self) -> (text: String)
        ensures
            text@ == self@.message_text(),
    {
        match self {
            PersistError::Disabled => "Session persistence is not enabled".to_owned(),
            PersistError::NotFound { session_id } => joined(
                "Session file not found: ",
                session_id.as_str(),
            ),
            PersistError::Failed { step, reason } => reason.clone(),
            PersistError::OutOfTurn => "Outcome does not answer the pending step".to_owned(),
        }
    }
}

/// What the caller is asked to do next for a save.
#[derive(Debug)]
pub enum SaveStep {
    /// Create `folder` and the folders above it, unless they are there.
    EnsureFolder { folder: String },
    /// Look for a record at `path`: read the file and make a record of it.
    ReadExisting { path: String },
    /// Make text of the record of the run, [`SaveRun::record`].
    Serialize,
    /// Write `text` to a new file at `path`.
    WriteTemp { path: String, text: String },
    /// Move the file at `from` to `to` in one step, replacing what is there.
    Rename { from: String, to: String },
    /// Nothing is left to do: the save has ended with `result`.
    Finished { result: Result<(), PersistError> },
}

/// The content of a [`SaveStep`].
pub enum StepView {
    EnsureFolder { folder: Seq<char> },
    ReadExisting { path: Seq<char> },
    Serialize,
    WriteTemp { path: Seq<char>, text: Seq<char> },
    Rename { from: Seq<char>, to: Seq<char> },
    Finished { result: Result<(), ErrorView> },
}

impl View for SaveStep {
    type V = StepView;

    open spec fn view(&self) -> StepView {
        match self {
            SaveStep::EnsureFolder { folder } => StepView::EnsureFolder { folder: folder@ },
            SaveStep::ReadExisting { path } => StepView::ReadExisting { path: path@ },
            SaveStep::Serialize => StepView::Serialize,
            SaveStep::WriteTemp { path, text } => StepView::WriteTemp { path: path@, text: text@ },
            SaveStep::Rename { from, to } => StepView::Rename { from: from@, to: to@ },
            SaveStep::Finished { result } => StepView::Finished {
                result: match result {
                    Ok(_) => Ok(()),
                    Err(error) => Err(error@),
                },
            },
        }
    }
}

/// How the pending step of a save went.
#[derive(Debug)]
pub enum SaveOutcome {
    /// The folder is there, the file is written, or the file is moved.
    Done,
    /// The step failed.
    Failed { reason: String },
    /// The search for the record that is being replaced has ended: with the time at which
    /// that record was first written, or with `None` where there is no file, or none that
    /// can be read and made a record of.
    Existing { created_at: Option<Timestamp> },
    /// The record was made into `text`.
    Text { text: String },
}

/// The content of a [`SaveOutcome`].
pub enum OutcomeView {
    Done,
    Failed { reason: Seq<char> },
    Existing { created_at: Option<Timestamp> },
    Text { text: Seq<char> },
}

impl View for SaveOutcome {
    type V = OutcomeView;

    open spec fn view(&self) -> OutcomeView {
        match self {
            SaveOutcome::Done => OutcomeView::Done,
            SaveOutcome::Failed { reason } => OutcomeView::Failed { reason: reason@ },
            SaveOutcome::Existing { created_at } => OutcomeView::Existing {
                created_at: *created_at,
            },
            SaveOutcome::Text { text } => OutcomeView::Text { text: text@ },
        }
    }
}

/// The state of one save.
pub struct SaveView {
    /// The storage folder.
    pub folder: Seq<char>,
    /// The path of the record.
    pub file_path: Seq<char>,
    /// The record that is being written.
    pub record: RecordView,
    /// The step that the caller is to perform.
    pub pending: StepView,
}

/// The name of the record file of a session.
pub open spec fn record_name(session_id: Seq<char>) -> Seq<char> {
    session_id + ".json"@
}

/// The name of the temporary file that is drawn with `token`.
pub open spec fn temp_name(token: Seq<char>) -> Seq<char> {
    token + ".tmp"@
}

/// The end of a save with the failure of `step`.
pub open spec fn failed(step: Failing, reason: Seq<char>) -> StepView {
    StepView::Finished { result: Err(ErrorView::Failed { step, reason }) }
}

/// The end of a save with an outcome that does not answer the pending step.
pub open spec fn out_of_turn() -> StepView {
    StepView::Finished { result: Err(ErrorView::OutOfTurn) }
}

impl SaveView {
    /// The state after the pending step went as `outcome` says. `now` is the time at which
    /// the outcome is reported, `token` a fresh random identifier.
    ///
    /// The record keeps the time of first writing of the record that it replaces, and takes
    /// `now` where it replaces none; it is last written `now`. The text goes to a temporary
    /// file named after `token`, and that file is then moved over the record. A failure ends
    /// the save, but for the search for the replaced record: where that fails, no record is
    /// replaced.
    pub open spec fn after(self, outcome: OutcomeView, now: Timestamp, token: Seq<char>)
        -> SaveView {
        match self.pending {
            StepView::EnsureFolder { folder } => match outcome {
                OutcomeView::Done => SaveView {
                    pending: StepView::ReadExisting { path: self.file_path },
                    ..self
                },
                OutcomeView::Failed { reason } => SaveView {
                    pending: failed(Failing::EnsureFolder, reason),
                    ..self
                },
                _ => SaveView { pending: out_of_turn(), ..self },
            },
            StepView::ReadExisting { path } => match outcome {
                OutcomeView::Existing { created_at: Some(created_at) } => SaveView {
                    record: RecordView { created_at, updated_at: now, ..self.record },
                    pending: StepView::Serialize,
                    ..self
                },
                OutcomeView::Existing { created_at: None }
                | OutcomeView::Failed { .. } => SaveView {
                    record: RecordView { created_at: now, updated_at: now, ..self.record },
                    pending: StepView::Serialize,
                    ..self
                },
                _ => SaveView { pending: out_of_turn(), ..self },
            },
            StepView::Serialize => match outcome {
                OutcomeView::Text { text } => SaveView {
                    pending: StepView::WriteTemp {
                        path: joined_path(self.folder, temp_name(token)),
                        text,
                    },
                    ..self
                },
                OutcomeView::Failed { reason } => SaveView {
                    pending: failed(Failing::Serialize, reason),
                    ..self
                },
                _ => SaveView { pending: out_of_turn(), ..self },
            },
            StepView::WriteTemp { path, text } => match outcome {
                OutcomeView::Done => SaveView {
                    pending: StepView::Rename { from: path, to: self.file_path },
                    ..self
                },
                OutcomeView::Failed { reason } => SaveView {
                    pending: failed(Failing::WriteTemp, reason),
                    ..self
                },
                _ => SaveView { pending: out_of_turn(), ..self },
            },
            StepView::Rename { from, to } => match outcome {
                OutcomeView::Done => SaveView {
                    pending: StepView::Finished { result: Ok(()) },
                    ..self
                },
                OutcomeView::Failed { reason } => SaveView {
                    pending: failed(Failing::Rename, reason),
                    ..self
                },
                _ => SaveView { pending: out_of_turn(), ..self },
            },
            StepView::Finished { result } => self,
        }
    }
}

/// Where the records live, and whether any are kept.
pub struct SessionPersist {
    enabled: bool,
    folder: String,
}

/// The content of a [`SessionPersist`].
pub struct StoreView {
    pub enabled: bool,
    pub folder: Seq<char>,
}

impl View for SessionPersist {
    type V = StoreView;

    closed spec fn view(&self) -> StoreView {
        StoreView { enabled: self.enabled, folder: self.folder@ }
    }
}

impl StoreView {
    /// The path of the record of `session_id`.
    pub open spec fn file_path(self, session_id: Seq<char>) -> Seq<char> {
        joined_path(self.folder, record_name(session_id))
    }

    /// The state in which a save of `trace` for `session_id` starts. A store that is switched
    /// off has nothing to do and succeeds at once.
    pub open spec fn begin_save(self, session_id: Seq<char>, trace: Seq<ChatMessage>) -> SaveView {
        SaveView {
            folder: self.folder,
            file_path: self.file_path(session_id),
            record: RecordView {
                session_id,
                created_at: Timestamp { secs: 0, nanos: 0 },
                updated_at: Timestamp { secs: 0, nanos: 0 },
                trace,
            },
            pending: if self.enabled {
                StepView::EnsureFolder { folder: self.folder }
            } else {
                StepView::Finished { result: Ok(()) }
            },
        }
    }
}

/// The storage folder that is used where none is set.
pub open spec fn default_folder() -> Seq<char> {
    ".shai/sessions"@
}

/// How the search for a record to load went.
#[derive(Debug)]
pub enum ReadOutcome {
    /// There is no file.
    Missing,
    /// The file could not be read.
    Unreadable { reason: String },
    /// The text of the file is no record.
    Malformed { reason: String },
    /// The record of the file.
    Record { record: SessionData },
}

impl SessionPersist {
    /// A store in `folder`, switched on or off.
    pub fn new(enabled: bool, folder: String) -> (store: Self)
        ensures
            store@ == (StoreView { enabled, folder: folder@ }),
    {
        SessionPersist { enabled, folder }
    }

    /// A store as two settings describe it. The first switches the store on or off: unset, it
    /// leaves the store on; set, the store is on where its text, put in lower case, is `true`.
    /// The second names the storage folder, which is `.shai/sessions` where it is unset.
    pub fn from_settings(persist_enable: Option<&str>, persist_folder: Option<&str>) -> (store:
        Self)
        ensures
            store@.enabled == switch_is_on(setting_text(persist_enable), true),
            store@.folder == setting_or(persist_folder, default_folder()),
    {
        let enabled = switch(persist_enable, true);
        let folder = match persist_folder {
            Some(folder) => folder.to_owned(),
            None => ".shai/sessions".to_owned(),
        };
        SessionPersist { enabled, folder }
    }

    /// Whether records are kept.
    pub fn is_enabled(&self) -> (enabled: bool)
        ensures
            enabled == self@.enabled,
    {
        self.enabled
    }

    /// The storage folder.
    pub fn folder(&self) -> (folder: String)
        ensures
            folder@ == self@.folder,
    {
        self.folder.clone()
    }

    /// The path of the record of `session_id`: the file `<session_id>.json` in the storage
    /// folder.
    pub fn session_file_path(&self, session_id: &str) -> (path: String)
        ensures
            path@ == self@.file_path(session_id@),
    {
        let name = joined(session_id, ".json");
        join_path(self.folder.as_str(), name.as_str())
    }

    /// Starts a save of `trace` as the conversation of `session_id`.
    pub fn save_session(&self, session_id: &str, trace: Vec<ChatMessage>) -> (run: SaveRun)
        ensures
            run@ == self@.begin_save(session_id@, trace@),
    {
        let pending = if self.enabled {
            SaveStep::EnsureFolder { folder: self.folder.clone() }
        } else {
            SaveStep::Finished { result: Ok(()) }
        };
        SaveRun {
            folder: self.folder.clone(),
            file_path: self.session_file_path(session_id),
            record: SessionData {
                session_id: session_id.to_owned(),
                created_at: Timestamp::epoch(),
                updated_at: Timestamp::epoch(),
                trace,
            },
            pending,
        }
    }

    /// Where the record of `session_id` is to be read from. There is nothing to read where
    /// the store is switched off.
    pub fn load_session(&self, session_id: &str) -> (source: Result<String, PersistError>)
        ensures
            match source {
                Ok(path) => self@.enabled && path@ == self@.file_path(session_id@),
                Err(error) => !self@.enabled && error@ == ErrorView::Disabled,
            },
    {
        if !self.enabled {
            return Err(PersistError::Disabled);
        }
        Ok(self.session_file_path(session_id))
    }

    /// The file to remove so that `session_id` has no record any more; it need not exist.
    /// `None` where the store is switched off.
    pub fn delete_session(&self, session_id: &str) -> (target: Option<String>)
        ensures
            match target {
                Some(path) => self@.enabled && path@ == self@.file_path(session_id@),
                None => !self@.enabled,
            },
    {
        if !self.enabled {
            return None;
        }
        Some(self.session_file_path(session_id))
    }
}

/// What a load of `session_id` gives once the search for its record went as `outcome` says.
pub open spec fn load_result(session_id: Seq<char>, outcome: ReadOutcome) -> Result<
    RecordView,
    ErrorView,
> {
    match outcome {
        ReadOutcome::Missing => Err(ErrorView::NotFound { session_id }),
        ReadOutcome::Unreadable { reason } => Err(
            ErrorView::Failed { step: Failing::Read, reason: reason@ },
        ),
        ReadOutcome::Malformed { reason } => Err(
            ErrorView::Failed { step: Failing::Parse, reason: reason@ },
        ),
        ReadOutcome::Record { record } => Ok(record@),
    }
}

/// Ends a load of `session_id`: the record where one was found, and the error that tells a
/// missing file from one that cannot be read and from one that holds no record.
pub fn loaded_session(session_id: &str, outcome: ReadOutcome) -> (loaded: Result<
    SessionData,
    PersistError,
>)
    ensures
        match loaded {
            Ok(record) => load_result(session_id@, outcome) == Ok::<RecordView, ErrorView>(
                record@,
            ) && outcome == (ReadOutcome::Record { record }),
            Err(error) => load_result(session_id@, outcome) == Err::<RecordView, ErrorView>(
                error@,
            ),
        },
{
    match outcome {
        ReadOutcome::Missing => Err(PersistError::NotFound { session_id: session_id.to_owned() }),
        ReadOutcome::Unreadable { reason } => Err(
            PersistError::Failed { step: Failing::Read, reason },
        ),
        ReadOutcome::Malformed { reason } => Err(
            PersistError::Failed { step: Failing::Parse, reason },
        ),
        ReadOutcome::Record { record } => Ok(record),
    }
}

/// One save in progress.
pub struct SaveRun {
    folder: String,
    file_path: String,
    record: SessionData,
    pending: SaveStep,
}

impl View for SaveRun {
    type V = SaveView;

    closed spec fn view(&self) -> SaveView {
        SaveView {
            folder: self.folder@,
            file_path: self.file_path@,
            record: self.record@,
            pending: self.pending@,
        }
    }
}

impl SaveRun {
    /// The step that the caller is to perform.
    pub fn step(&self) -> (step: &SaveStep)
        ensures
            step@ == self@.pending,
    {
        &self.pending
    }

    /// The record that is being written. Its times are set once the search for the record
    /// that it replaces has ended.
    pub fn record(&self) -> (record: &SessionData)
        ensures
            record@ == self@.record,
    {
        &self.record
    }

    /// How the save has ended, once it has.
    pub fn result(&self) -> (result: Option<Result<(), String>>)
        ensures
            match result {
                None => !(self@.pending is Finished),
                Some(Ok(_)) => self@.pending == (StepView::Finished { result: Ok(()) }),
                Some(Err(message)) => self@.pending matches StepView::Finished {
                    result: Err(error),
                } && message@ == error.message_text(),
            },
    {
        match &self.pending {
            SaveStep::Finished { result: Ok(_) } => Some(Ok(())),
            SaveStep::Finished { result: Err(error) } => Some(Err(error.message())),
            _ => None,
        }
    }

    /// Takes the report of how the pending step went, at the time `now` and with the fresh
    /// identifier `token` at hand, and moves on to the next step.
    pub fn advance_at(&mut self, outcome: SaveOutcome, now: Timestamp, token: &str)
        ensures
            final(self)@ == old(self)@.after(outcome@, now, token@),
    {
        let mut pending = SaveStep::Serialize;
        std::mem::swap(&mut pending, &mut self.pending);
        let next = match pending {
            SaveStep::EnsureFolder { folder } => match outcome {
                SaveOutcome::Done => SaveStep::ReadExisting { path: self.file_path.clone() },
                SaveOutcome::Failed { reason } => SaveStep::Finished {
                    result: Err(PersistError::Failed { step: Failing::EnsureFolder, reason }),
                },
                _ => SaveStep::Finished { result: Err(PersistError::OutOfTurn) },
            },
            SaveStep::ReadExisting { path } => match outcome {
                SaveOutcome::Existing { created_at: Some(created_at) } => {
                    self.record.created_at = created_at;
                    self.record.updated_at = now;
                    SaveStep::Serialize
                },
                SaveOutcome::Existing { created_at: None } | SaveOutcome::Failed { .. } => {
                    self.record.created_at = now;
                    self.record.updated_at = now;
                    SaveStep::Serialize
                },
                _ => SaveStep::Finished { result: Err(PersistError::OutOfTurn) },
            },
            SaveStep::Serialize => match outcome {
                SaveOutcome::Text { text } => {
                    let name = joined(token, ".tmp");
                    SaveStep::WriteTemp {
                        path: join_path(self.folder.as_str(), name.as_str()),
                        text,
                    }
                },
                SaveOutcome::Failed { reason } => SaveStep::Finished {
                    result: Err(PersistError::Failed { step: Failing::Serialize, reason }),
                },
                _ => SaveStep::Finished { result: Err(PersistError::OutOfTurn) },
            },
            SaveStep::WriteTemp { path, text } => match outcome {
                SaveOutcome::Done => SaveStep::Rename { from: path, to: self.file_path.clone() },
                SaveOutcome::Failed { reason } => SaveStep::Finished {
                    result: Err(PersistError::Failed { step: Failing::WriteTemp, reason }),
                },
                _ => SaveStep::Finished { result: Err(PersistError::OutOfTurn) },
            },
            SaveStep::Rename { from, to } => match outcome {
                SaveOutcome::Done => SaveStep::Finished { result: Ok(()) },
                SaveOutcome::Failed { reason } => SaveStep::Finished {
                    result: Err(PersistError::Failed { step: Failing::Rename, reason }),
                },
                _ => SaveStep::Finished { result: Err(PersistError::OutOfTurn) },
            },
            SaveStep::Finished { result } => SaveStep::Finished { result },
        };
        self.pending = next;
    }

    /// Takes the report of how the pending step went and moves on to the next step.
    ///
    /// The clock is read when the search for the replaced record has ended, and a fresh
    /// identifier is drawn when the text of the record is at hand: the next state is that of
    /// [`advance_at`](Self::advance_at) for whatever time and identifier came.
    pub fn advance(&mut self, outcome: SaveOutcome)
        ensures
            exists|now: Timestamp, token: Seq<char>|
                {
                    &&& #[trigger] old(self)@.after(outcome@, now, token) == final(self)@
                    &&& old(self)@.pending is ReadExisting ==> now.secs >= 0 && now.regular()
                    &&& old(self)@.pending is Serialize ==> is_random_uuid(token)
                },
    {
        let ghost before = self@;
        let reads_clock = match &self.pending {
            SaveStep::ReadExisting { .. } => true,
            _ => false,
        };
        let draws_name = match (&self.pending, &outcome) {
            (SaveStep::Serialize, SaveOutcome::Text { .. }) => true,
            _ => false,
        };
        if reads_clock {
            let time = now();
            self.advance_at(outcome, time, "");
            assert(before.after(outcome@, time, ""@) == self@);
        } else if draws_name {
            let token = fresh_uuid();
            self.advance_at(outcome, Timestamp::epoch(), token.as_str());
            assert(before.after(outcome@, Timestamp { secs: 0, nanos: 0 }, token@) == self@);
        } else {
            self.advance_at(outcome, Timestamp::epoch(), "");
            proof {
                let token = Seq::new(
                    36,
                    |i: int|
                        if i == 8 || i == 13 || i == 18 || i == 23 {
                            '-'
                        } else if i == 14 {
                            '4'
                        } else if i == 19 {
                            '8'
                        } else {
                            '0'
                        },
                );
                assert(is_random_uuid(token));
                assert(before.after(outcome@, Timestamp { secs: 0, nanos: 0 }, token) == self@);
            }
        }
    }
}

} // verus!
