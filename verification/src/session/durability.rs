//! What the save protocol guarantees on a disk.
//!
//! The disk is modelled as a map from paths to the text that can be read there. Writing a
//! file changes what is read at its path and nothing else; a writer that is stopped in the
//! middle of it may leave any text there. A rename replaces what is read at its target by what
//! was read at its source, in one step: a writer that is stopped in the middle of it has
//! either done all of it or none. Under this model the record of a session is at every moment
//! either the text that it was before the save or the whole text of the new record.

use crate::session::clock::Timestamp;
use crate::session::paths::joined_path;
use crate::session::persist::{
    temp_name, OutcomeView, RecordView, SaveView, StepView, StoreView,
};
use openai_dive::v1::resources::chat::ChatMessage;
use vstd::prelude::*;

verus! {

/// What can be read at each path.
pub struct Disk {
    pub files: Map<Seq<char>, Seq<char>>,
}

impl Disk {
    /// The disk after `step` was performed to its end.
    pub open spec fn after(self, step: StepView) -> Disk {
        match step {
            StepView::WriteTemp { path, text } => Disk { files: self.files.insert(path, text) },
            StepView::Rename { from, to } => if self.files.contains_key(from) {
                Disk { files: self.files.remove(from).insert(to, self.files[from]) }
            } else {
                self
            },
            _ => self,
        }
    }

    /// Whether `stopped` is a disk that a writer may leave behind who is stopped while it
    /// performs `step` on this disk.
    pub open spec fn may_stop_at(self, step: StepView, stopped: Disk) -> bool {
        match step {
            StepView::WriteTemp { path, text } => stopped == self || exists|partial: Seq<char>|
                stopped == (Disk { files: #[trigger] self.files.insert(path, partial) }),
            _ => stopped == self || stopped == self.after(step),
        }
    }
}

/// How the caller turns a record into text and back.
pub struct Codec {
    pub encode: spec_fn(RecordView) -> Seq<char>,
    pub decode: spec_fn(Seq<char>) -> Option<RecordView>,
}

impl Codec {
    /// Every record is read back from its text as it was written.
    pub open spec fn faithful(self) -> bool {
        forall|record: RecordView| #[trigger] (self.decode)((self.encode)(record)) == Some(record)
    }

    /// The record that is read at `path`, if a record can be made of what is there.
    pub open spec fn read(self, disk: Disk, path: Seq<char>) -> Option<RecordView> {
        if disk.files.contains_key(path) {
            (self.decode)(disk.files[path])
        } else {
            None
        }
    }

    /// What a caller reports of the pending step of `run` who performs it on `disk` and
    /// meets no failure.
    pub open spec fn report(self, disk: Disk, run: SaveView) -> OutcomeView {
        match run.pending {
            StepView::ReadExisting { path } => OutcomeView::Existing {
                created_at: match self.read(disk, path) {
                    Some(record) => Some(record.created_at),
                    None => None,
                },
            },
            StepView::Serialize => OutcomeView::Text { text: (self.encode)(run.record) },
            _ => OutcomeView::Done,
        }
    }

    /// The save and the disk after `steps` further steps were performed without failure,
    /// with the clock at `now` and the fresh identifier `token`.
    pub open spec fn proceed(
        self,
        run: SaveView,
        disk: Disk,
        now: Timestamp,
        token: Seq<char>,
        steps: nat,
    ) -> (SaveView, Disk)
        decreases steps,
    {
        if steps == 0 {
            (run, disk)
        } else {
            self.proceed(
                run.after(self.report(disk, run), now, token),
                disk.after(run.pending),
                now,
                token,
                (steps - 1) as nat,
            )
        }
    }
}

/// The number of steps of a save that meets no failure.
pub open spec fn steps_of_save() -> nat {
    5
}

/// The record that a save of `trace` for `session_id` writes at the time `now`: it keeps the
/// time of first writing of the record that is read at its path, if there is one.
pub open spec fn record_to_write(
    codec: Codec,
    disk: Disk,
    path: Seq<char>,
    session_id: Seq<char>,
    trace: Seq<ChatMessage>,
    now: Timestamp,
) -> RecordView {
    RecordView {
        session_id,
        created_at: match codec.read(disk, path) {
            Some(replaced) => replaced.created_at,
            None => now,
        },
        updated_at: now,
        trace,
    }
}

/// The disk after a save of `trace` for `session_id` that met no failure.
pub open spec fn disk_after_save(
    store: StoreView,
    codec: Codec,
    disk: Disk,
    session_id: Seq<char>,
    trace: Seq<ChatMessage>,
    now: Timestamp,
    token: Seq<char>,
) -> Disk {
    codec.proceed(store.begin_save(session_id, trace), disk, now, token, steps_of_save()).1
}

proof fn lemma_save_unfolds(
    store: StoreView,
    codec: Codec,
    disk: Disk,
    session_id: Seq<char>,
    trace: Seq<ChatMessage>,
    now: Timestamp,
    token: Seq<char>,
)
    requires
        store.enabled,
    ensures
        ({
            let start = store.begin_save(session_id, trace);
            let path = store.file_path(session_id);
            let temp = joined_path(store.folder, temp_name(token));
            let record = record_to_write(codec, disk, path, session_id, trace, now);
            let text = (codec.encode)(record);
            let written = Disk { files: disk.files.insert(temp, text) };
            &&& codec.proceed(start, disk, now, token, 0) == (start, disk)
            &&& codec.proceed(start, disk, now, token, 1) == (
                SaveView { pending: StepView::ReadExisting { path }, ..start },
                disk,
            )
            &&& codec.proceed(start, disk, now, token, 2) == (
                SaveView { record, pending: StepView::Serialize, ..start },
                disk,
            )
            &&& codec.proceed(start, disk, now, token, 3) == (
                SaveView { record, pending: StepView::WriteTemp { path: temp, text }, ..start },
                disk,
            )
            &&& codec.proceed(start, disk, now, token, 4) == (
                SaveView { record, pending: StepView::Rename { from: temp, to: path }, ..start },
                written,
            )
            &&& codec.proceed(start, disk, now, token, 5) == (
                SaveView { record, pending: StepView::Finished { result: Ok(()) }, ..start },
                Disk { files: written.files.remove(temp).insert(path, text) },
            )
        }),
{
    let start = store.begin_save(session_id, trace);
    let path = store.file_path(session_id);
    let temp = joined_path(store.folder, temp_name(token));
    let record = record_to_write(codec, disk, path, session_id, trace, now);
    let text = (codec.encode)(record);
    let written = Disk { files: disk.files.insert(temp, text) };
    let s1 = SaveView { pending: StepView::ReadExisting { path }, ..start };
    let s2 = SaveView { record, pending: StepView::Serialize, ..start };
    let s3 = SaveView { record, pending: StepView::WriteTemp { path: temp, text }, ..start };
    let s4 = SaveView { record, pending: StepView::Rename { from: temp, to: path }, ..start };
    let s5 = SaveView { record, pending: StepView::Finished { result: Ok(()) }, ..start };
    let moved = Disk { files: written.files.remove(temp).insert(path, text) };
    assert(start.after(codec.report(disk, start), now, token) == s1);
    assert(s1.after(codec.report(disk, s1), now, token) == s2);
    assert(s2.after(codec.report(disk, s2), now, token) == s3);
    assert(s3.after(codec.report(disk, s3), now, token) == s4);
    assert(s4.after(codec.report(written, s4), now, token) == s5);
    assert(disk.after(s3.pending) == written);
    assert(written.after(s4.pending) == moved);
    assert(codec.proceed(s5, moved, now, token, 0) == (s5, moved));
    assert(codec.proceed(s4, written, now, token, 1) == (s5, moved));
    assert(codec.proceed(s3, disk, now, token, 2) == (s5, moved));
    assert(codec.proceed(s3, disk, now, token, 1) == (s4, written)) by {
        assert(codec.proceed(s4, written, now, token, 0) == (s4, written));
    }
    assert(codec.proceed(s2, disk, now, token, 3) == (s5, moved));
    assert(codec.proceed(s2, disk, now, token, 2) == (s4, written));
    assert(codec.proceed(s2, disk, now, token, 1) == (s3, disk)) by {
        assert(codec.proceed(s3, disk, now, token, 0) == (s3, disk));
    }
    assert(codec.proceed(s1, disk, now, token, 4) == (s5, moved));
    assert(codec.proceed(s1, disk, now, token, 3) == (s4, written));
    assert(codec.proceed(s1, disk, now, token, 2) == (s3, disk));
    assert(codec.proceed(s1, disk, now, token, 1) == (s2, disk)) by {
        assert(codec.proceed(s2, disk, now, token, 0) == (s2, disk));
    }
    assert(codec.proceed(start, disk, now, token, 5) == (s5, moved));
    assert(codec.proceed(start, disk, now, token, 4) == (s4, written));
    assert(codec.proceed(start, disk, now, token, 3) == (s3, disk));
    assert(codec.proceed(start, disk, now, token, 2) == (s2, disk));
    assert(codec.proceed(start, disk, now, token, 1) == (s1, disk)) by {
        assert(codec.proceed(s1, disk, now, token, 0) == (s1, disk));
    }
}

/// A save that meets no failure ends well after five steps, and then the record that is read
/// at the session's path, which is where a load looks for it, holds the conversation that was
/// saved: with the session's identifier, last written at the time of the save, and first
/// written when the record that it replaces was, or at the time of the save where it replaces
/// none.
pub proof fn law_save_then_load_round_trips(
    store: StoreView,
    codec: Codec,
    disk: Disk,
    session_id: Seq<char>,
    trace: Seq<ChatMessage>,
    now: Timestamp,
    token: Seq<char>,
)
    requires
        store.enabled,
        codec.faithful(),
    ensures
        codec.proceed(
            store.begin_save(session_id, trace),
            disk,
            now,
            token,
            steps_of_save(),
        ).0.pending == (StepView::Finished { result: Ok(()) }),
        codec.read(
            disk_after_save(store, codec, disk, session_id, trace, now, token),
            store.file_path(session_id),
        ) == Some(
            record_to_write(codec, disk, store.file_path(session_id), session_id, trace, now),
        ),
{
    lemma_save_unfolds(store, codec, disk, session_id, trace, now, token);
}

/// Of two saves for one session that meet no failure, the second keeps the time at which the
/// first record was first written, and the record is then last written at the time of the
/// second save: no earlier than before, unless the clock was set back between the two.
pub proof fn law_second_save_keeps_creation_time(
    store: StoreView,
    codec: Codec,
    disk: Disk,
    session_id: Seq<char>,
    first_trace: Seq<ChatMessage>,
    first_now: Timestamp,
    first_token: Seq<char>,
    second_trace: Seq<ChatMessage>,
    second_now: Timestamp,
    second_token: Seq<char>,
)
    requires
        store.enabled,
        codec.faithful(),
    ensures
        ({
            let path = store.file_path(session_id);
            let once = disk_after_save(
                store,
                codec,
                disk,
                session_id,
                first_trace,
                first_now,
                first_token,
            );
            let twice = disk_after_save(
                store,
                codec,
                once,
                session_id,
                second_trace,
                second_now,
                second_token,
            );
            &&& codec.read(once, path) is Some
            &&& codec.read(twice, path) is Some
            &&& codec.read(twice, path)->0.created_at == codec.read(once, path)->0.created_at
            &&& codec.read(twice, path)->0.updated_at == second_now
            &&& codec.read(twice, path)->0.trace == second_trace
            &&& second_now.not_before(first_now) ==> codec.read(
                twice,
                path,
            )->0.updated_at.not_before(codec.read(once, path)->0.updated_at)
        }),
{
    law_save_then_load_round_trips(
        store,
        codec,
        disk,
        session_id,
        first_trace,
        first_now,
        first_token,
    );
    let once = disk_after_save(
        store,
        codec,
        disk,
        session_id,
        first_trace,
        first_now,
        first_token,
    );
    law_save_then_load_round_trips(
        store,
        codec,
        once,
        session_id,
        second_trace,
        second_now,
        second_token,
    );
}

/// A writer that is stopped at any point of a save leaves the record of the session whole:
/// what is read at the session's path is what was read there before the save, up to the
/// rename; a writer that is stopped in the middle of the rename leaves either that or the
/// whole text of the new record; and after the rename it is the whole text of the new record.
/// In particular a writer that is stopped after it wrote the temporary file and before it
/// renamed it leaves the record as it was.
///
/// `done` is the number of steps that the writer has performed to their end when it is
/// stopped, and `stopped` the disk that it leaves behind. The temporary file must not be the
/// record itself.
pub proof fn law_record_is_replaced_in_one_step(
    store: StoreView,
    codec: Codec,
    disk: Disk,
    session_id: Seq<char>,
    trace: Seq<ChatMessage>,
    now: Timestamp,
    token: Seq<char>,
    done: nat,
    stopped: Disk,
)
    requires
        store.enabled,
        joined_path(store.folder, temp_name(token)) != store.file_path(session_id),
        done <= steps_of_save(),
        ({
            let (run, reached) = codec.proceed(
                store.begin_save(session_id, trace),
                disk,
                now,
                token,
                done,
            );
            reached.may_stop_at(run.pending, stopped)
        }),
    ensures
        ({
            let path = store.file_path(session_id);
            let text = (codec.encode)(
                record_to_write(codec, disk, path, session_id, trace, now),
            );
            &&& done < 4 ==> stopped.files.get(path) == disk.files.get(path)
            &&& done == 4 ==> stopped.files.get(path) == disk.files.get(path)
                || stopped.files.get(path) == Some(text)
            &&& done == 5 ==> stopped.files.get(path) == Some(text)
        }),
{
    lemma_save_unfolds(store, codec, disk, session_id, trace, now, token);
}

/// A store that is switched off saves nothing: the save has ended well before its first step,
/// and no step of it changes the disk.
pub proof fn law_disabled_store_writes_nothing(
    store: StoreView,
    codec: Codec,
    disk: Disk,
    session_id: Seq<char>,
    trace: Seq<ChatMessage>,
    now: Timestamp,
    token: Seq<char>,
    steps: nat,
)
    requires
        !store.enabled,
    ensures
        codec.proceed(store.begin_save(session_id, trace), disk, now, token, steps) == (
            store.begin_save(session_id, trace),
            disk,
        ),
        store.begin_save(session_id, trace).pending == (StepView::Finished { result: Ok(()) }),
    decreases steps,
{
    if steps > 0 {
        let start = store.begin_save(session_id, trace);
        assert(start.after(codec.report(disk, start), now, token) == start);
        assert(disk.after(start.pending) == disk);
        law_disabled_store_writes_nothing(
            store,
            codec,
            disk,
            session_id,
            trace,
            now,
            token,
            (steps - 1) as nat,
        );
    }
}

impl Codec {
    /// Two saves at once on one disk: one step of either at a time, the `i`-th by the first
    /// save where `schedule[i]` holds and by the second where it does not. No step meets a
    /// failure.
    pub open spec fn proceed_both(
        self,
        first: SaveView,
        second: SaveView,
        disk: Disk,
        first_now: Timestamp,
        first_token: Seq<char>,
        second_now: Timestamp,
        second_token: Seq<char>,
        schedule: Seq<bool>,
    ) -> (SaveView, SaveView, Disk)
        decreases schedule.len(),
    {
        if schedule.len() == 0 {
            (first, second, disk)
        } else {
            let (one, other, reached) = self.proceed_both(
                first,
                second,
                disk,
                first_now,
                first_token,
                second_now,
                second_token,
                schedule.drop_last(),
            );
            if schedule.last() {
                (
                    one.after(self.report(reached, one), first_now, first_token),
                    other,
                    reached.after(one.pending),
                )
            } else {
                (
                    one,
                    other.after(self.report(reached, other), second_now, second_token),
                    reached.after(other.pending),
                )
            }
        }
    }
}

/// Whether `run` is a state of a save for `session_id` that has met no failure, with `token`
/// as its fresh identifier, and `disk` holds what the steps of it that are done have written.
spec fn on_course(
    store: StoreView,
    codec: Codec,
    run: SaveView,
    disk: Disk,
    session_id: Seq<char>,
    trace: Seq<ChatMessage>,
    token: Seq<char>,
) -> bool {
    let path = store.file_path(session_id);
    let temp = joined_path(store.folder, temp_name(token));
    &&& run.folder == store.folder
    &&& run.file_path == path
    &&& run.record.trace == trace
    &&& run.record.session_id == session_id
    &&& match run.pending {
        StepView::EnsureFolder { folder } => true,
        StepView::ReadExisting { path: read } => true,
        StepView::Serialize => true,
        StepView::WriteTemp { path: written, text } => written == temp && text == (codec.encode)(
            run.record,
        ),
        StepView::Rename { from, to } => from == temp && to == path && disk.files.contains_key(
            temp,
        ) && disk.files[temp] == (codec.encode)(run.record),
        StepView::Finished { result } => result is Ok,
    }
}

/// Whether what is read at `path` is what was read there on `before`, or the whole text of
/// the record of one of the two saves, which has then ended.
spec fn whole(
    codec: Codec,
    disk: Disk,
    before: Disk,
    path: Seq<char>,
    first: SaveView,
    second: SaveView,
) -> bool {
    ||| disk.files.get(path) == before.files.get(path)
    ||| first.pending is Finished && disk.files.get(path) == Some((codec.encode)(first.record))
    ||| second.pending is Finished && disk.files.get(path) == Some((codec.encode)(second.record))
}

proof fn lemma_step_stays_on_course(
    store: StoreView,
    codec: Codec,
    moving: SaveView,
    waiting: SaveView,
    disk: Disk,
    before: Disk,
    session_id: Seq<char>,
    moving_trace: Seq<ChatMessage>,
    moving_now: Timestamp,
    moving_token: Seq<char>,
    waiting_trace: Seq<ChatMessage>,
    waiting_token: Seq<char>,
)
    requires
        joined_path(store.folder, temp_name(moving_token)) != store.file_path(session_id),
        joined_path(store.folder, temp_name(waiting_token)) != store.file_path(session_id),
        joined_path(store.folder, temp_name(moving_token)) != joined_path(
            store.folder,
            temp_name(waiting_token),
        ),
        on_course(store, codec, moving, disk, session_id, moving_trace, moving_token),
        on_course(store, codec, waiting, disk, session_id, waiting_trace, waiting_token),
        whole(codec, disk, before, store.file_path(session_id), moving, waiting),
    ensures
        ({
            let moved = moving.after(codec.report(disk, moving), moving_now, moving_token);
            let reached = disk.after(moving.pending);
            &&& on_course(store, codec, moved, reached, session_id, moving_trace, moving_token)
            &&& on_course(store, codec, waiting, reached, session_id, waiting_trace, waiting_token)
            &&& whole(codec, reached, before, store.file_path(session_id), moved, waiting)
            &&& whole(codec, reached, before, store.file_path(session_id), waiting, moved)
        }),
{
}

/// Two saves for one session that run at once, step by step in any order and without
/// failure, never leave a record that is mixed of the two: at every moment, what is read at
/// the session's path is what was read there before the two began, or the whole text of the
/// record of one of them, which has then ended. Each of the two records holds the
/// conversation that its save was given.
///
/// The temporary files of the two saves must differ from each other and from the record.
pub proof fn law_concurrent_saves_leave_a_whole_record(
    store: StoreView,
    codec: Codec,
    disk: Disk,
    session_id: Seq<char>,
    first_trace: Seq<ChatMessage>,
    first_now: Timestamp,
    first_token: Seq<char>,
    second_trace: Seq<ChatMessage>,
    second_now: Timestamp,
    second_token: Seq<char>,
    schedule: Seq<bool>,
)
    requires
        store.enabled,
        joined_path(store.folder, temp_name(first_token)) != store.file_path(session_id),
        joined_path(store.folder, temp_name(second_token)) != store.file_path(session_id),
        joined_path(store.folder, temp_name(first_token)) != joined_path(
            store.folder,
            temp_name(second_token),
        ),
    ensures
        ({
            let path = store.file_path(session_id);
            let (first, second, reached) = codec.proceed_both(
                store.begin_save(session_id, first_trace),
                store.begin_save(session_id, second_trace),
                disk,
                first_now,
                first_token,
                second_now,
                second_token,
                schedule,
            );
            &&& first.record.trace == first_trace
            &&& second.record.trace == second_trace
            &&& {
                ||| reached.files.get(path) == disk.files.get(path)
                ||| first.pending is Finished && reached.files.get(path) == Some(
                    (codec.encode)(first.record),
                )
                ||| second.pending is Finished && reached.files.get(path) == Some(
                    (codec.encode)(second.record),
                )
            }
        }),
{
    lemma_both_stay_on_course(
        store,
        codec,
        disk,
        session_id,
        first_trace,
        first_now,
        first_token,
        second_trace,
        second_now,
        second_token,
        schedule,
    );
}

proof fn lemma_both_stay_on_course(
    store: StoreView,
    codec: Codec,
    disk: Disk,
    session_id: Seq<char>,
    first_trace: Seq<ChatMessage>,
    first_now: Timestamp,
    first_token: Seq<char>,
    second_trace: Seq<ChatMessage>,
    second_now: Timestamp,
    second_token: Seq<char>,
    schedule: Seq<bool>,
)
    requires
        store.enabled,
        joined_path(store.folder, temp_name(first_token)) != store.file_path(session_id),
        joined_path(store.folder, temp_name(second_token)) != store.file_path(session_id),
        joined_path(store.folder, temp_name(first_token)) != joined_path(
            store.folder,
            temp_name(second_token),
        ),
    ensures
        ({
            let (first, second, reached) = codec.proceed_both(
                store.begin_save(session_id, first_trace),
                store.begin_save(session_id, second_trace),
                disk,
                first_now,
                first_token,
                second_now,
                second_token,
                schedule,
            );
            &&& on_course(store, codec, first, reached, session_id, first_trace, first_token)
            &&& on_course(store, codec, second, reached, session_id, second_trace, second_token)
            &&& whole(codec, reached, disk, store.file_path(session_id), first, second)
        }),
    decreases schedule.len(),
{
    if schedule.len() > 0 {
        lemma_both_stay_on_course(
            store,
            codec,
            disk,
            session_id,
            first_trace,
            first_now,
            first_token,
            second_trace,
            second_now,
            second_token,
            schedule.drop_last(),
        );
        let (one, other, reached) = codec.proceed_both(
            store.begin_save(session_id, first_trace),
            store.begin_save(session_id, second_trace),
            disk,
            first_now,
            first_token,
            second_now,
            second_token,
            schedule.drop_last(),
        );
        if schedule.last() {
            lemma_step_stays_on_course(
                store,
                codec,
                one,
                other,
                reached,
                disk,
                session_id,
                first_trace,
                first_now,
                first_token,
                second_trace,
                second_token,
            );
        } else {
            assert(whole(codec, reached, disk, store.file_path(session_id), other, one));
            lemma_step_stays_on_course(
                store,
                codec,
                other,
                one,
                reached,
                disk,
                session_id,
                second_trace,
                second_now,
                second_token,
                first_trace,
                first_token,
            );
        }
    }
}

} // verus!
