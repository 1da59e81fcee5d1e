//! What holds of the alarm list, of the rule that picks the alarm to fire,
//! and of playback.

use crate::controllermod::{
    check_outcome, choose_station, deletion_of, due_flags, first_due, id_flags, ids_dense,
    list_after_add, list_after_delete, list_after_load, list_after_toggle, position_of,
    renumbered, start_playback, stop_all, DeletedView, PlaybackModel,
};
use crate::modelmod::{station_url, AlarmView, Horaire};
use crate::musicmod::{start_steps, stop_steps, ActionView, CommandView, PlaybackKind};
use crate::scan::{lemma_first_true_from, lemma_first_true_is, lemma_first_true_none};
use vstd::prelude::*;

verus! {

/// A change to the list of alarms.
pub ghost enum StoreOp {
    /// Add this alarm.
    Add(AlarmView),
    /// Delete the alarm with this identifier.
    Delete(nat),
    /// Switch the alarm with this identifier over.
    Toggle(nat),
}

/// The list after one change.
pub open spec fn list_after(alarms: Seq<AlarmView>, op: StoreOp) -> Seq<AlarmView> {
    match op {
        StoreOp::Add(alarm) => list_after_add(alarms, alarm),
        StoreOp::Delete(a_id) => list_after_delete(alarms, a_id),
        StoreOp::Toggle(a_id) => list_after_toggle(alarms, a_id),
    }
}

/// The list after the changes of `ops`, made in order.
pub open spec fn list_after_all(alarms: Seq<AlarmView>, ops: Seq<StoreOp>) -> Seq<AlarmView>
    decreases ops.len(),
{
    if ops.len() == 0 {
        alarms
    } else {
        list_after_all(list_after(alarms, ops[0]), ops.drop_first())
    }
}

/// Renumbering keeps the alarms and their order, changes nothing but the
/// identifiers, and makes the identifiers the positions.
pub proof fn lemma_renumbered(alarms: Seq<AlarmView>)
    ensures
        renumbered(alarms).len() == alarms.len(),
        forall|i: int|
            0 <= i < alarms.len() ==> (#[trigger] renumbered(alarms)[i]) == alarms[i].with_id(
                i as nat,
            ),
        ids_dense(renumbered(alarms)),
{
}

/// A list whose identifiers are the positions is not changed by
/// renumbering.
pub proof fn lemma_renumbered_dense(alarms: Seq<AlarmView>)
    requires
        ids_dense(alarms),
    ensures
        renumbered(alarms) == alarms,
{
    assert(renumbered(alarms) =~= alarms);
}

/// Each change keeps the identifiers equal to the positions.
pub proof fn lemma_ids_dense_after(alarms: Seq<AlarmView>, op: StoreOp)
    requires
        ids_dense(alarms),
    ensures
        ids_dense(list_after(alarms, op)),
{
}

/// After any sequence of additions, deletions and switches on a list
/// whose identifiers are the positions, as an empty list and every loaded
/// list are, the identifiers are again the positions: `0, 1, ...` in list
/// order.
pub proof fn lemma_ids_dense_after_all(alarms: Seq<AlarmView>, ops: Seq<StoreOp>)
    requires
        ids_dense(alarms),
    ensures
        ids_dense(list_after_all(alarms, ops)),
    decreases ops.len(),
{
    if ops.len() > 0 {
        lemma_ids_dense_after(alarms, ops[0]);
        lemma_ids_dense_after_all(list_after(alarms, ops[0]), ops.drop_first());
    }
}

/// An addition makes the list one longer, puts the new alarm last under
/// the identifier of its position, and leaves the alarms before it in
/// place.
pub proof fn lemma_add_appends(alarms: Seq<AlarmView>, alarm: AlarmView)
    ensures
        list_after_add(alarms, alarm).len() == alarms.len() + 1,
        list_after_add(alarms, alarm)[alarms.len() as int] == alarm.with_id(alarms.len()),
        forall|i: int|
            0 <= i < alarms.len() ==> (#[trigger] list_after_add(alarms, alarm)[i])
                == alarms[i].with_id(i as nat),
{
}

/// In a list whose identifiers are the positions, the alarm with
/// identifier `a_id` is the one at position `a_id`, and no alarm has an
/// identifier from the length on.
pub proof fn lemma_position_in_dense(alarms: Seq<AlarmView>, a_id: nat)
    requires
        ids_dense(alarms),
    ensures
        position_of(alarms, a_id) == if a_id < alarms.len() {
            Some(a_id as int)
        } else {
            None::<int>
        },
{
    let flags = id_flags(alarms, a_id);
    if a_id < alarms.len() {
        lemma_first_true_is(flags, a_id as int);
    } else {
        lemma_first_true_none(flags);
    }
}

/// A deletion that finds its alarm takes exactly that alarm out: the list
/// is one shorter, the alarms before it stay, and those after it move up
/// by one, each unchanged but for its identifier.
pub proof fn lemma_delete_removes(alarms: Seq<AlarmView>, a_id: nat, k: int)
    requires
        position_of(alarms, a_id) == Some(k),
    ensures
        0 <= k < alarms.len(),
        alarms[k].a_id == a_id,
        list_after_delete(alarms, a_id).len() == alarms.len() - 1,
        forall|i: int|
            0 <= i < k ==> (#[trigger] list_after_delete(alarms, a_id)[i]) == alarms[i].with_id(
                i as nat,
            ),
        forall|i: int|
            k <= i < alarms.len() - 1 ==> (#[trigger] list_after_delete(alarms, a_id)[i])
                == alarms[i + 1].with_id(i as nat),
{
    lemma_first_true_from(id_flags(alarms, a_id), 0);
}

/// Deleting a file alarm names its audio file for removal; deleting a
/// radio alarm, or nothing, names no file.
pub proof fn lemma_delete_names_file(alarms: Seq<AlarmView>, a_id: nat)
    ensures
        match position_of(alarms, a_id) {
            Some(k) => 0 <= k < alarms.len() && alarms[k].a_id == a_id && if alarms[k].is_radio {
                deletion_of(alarms, a_id) == DeletedView::RadioAlarm
            } else {
                deletion_of(alarms, a_id) == DeletedView::FileAlarm(alarms[k].song_path)
            },
            None => deletion_of(alarms, a_id) == DeletedView::Nothing && forall|i: int|
                0 <= i < alarms.len() ==> (#[trigger] alarms[i]).a_id != a_id,
        },
{
    let flags = id_flags(alarms, a_id);
    lemma_first_true_from(flags, 0);
    if position_of(alarms, a_id) is None {
        assert forall|i: int| 0 <= i < alarms.len() implies (#[trigger] alarms[i]).a_id
            != a_id by {
            assert(!flags[i]);
        }
    }
}

/// The alarm that fires is the first in list order that is due: it is
/// due, and no alarm before it is.
pub proof fn lemma_first_due(alarms: Seq<AlarmView>, now: Horaire, day: int)
    ensures
        match first_due(alarms, now, day) {
            Some(k) => 0 <= k < alarms.len() && alarms[k].is_due(now, day) && forall|j: int|
                0 <= j < k ==> !(#[trigger] alarms[j]).is_due(now, day),
            None => forall|j: int|
                0 <= j < alarms.len() ==> !(#[trigger] alarms[j]).is_due(now, day),
        },
{
    let flags = due_flags(alarms, now, day);
    lemma_first_true_from(flags, 0);
    match first_due(alarms, now, day) {
        Some(k) => {
            assert forall|j: int| 0 <= j < k implies !(#[trigger] alarms[j]).is_due(now, day) by {
                assert(!flags[j]);
            }
        },
        None => {
            assert forall|j: int| 0 <= j < alarms.len() implies !(#[trigger] alarms[j]).is_due(
                now,
                day,
            ) by {
                assert(!flags[j]);
            }
        },
    }
}

/// Of two alarms that are due at the same instant, the later in list
/// order never fires: what fires stands no later than the earlier of the
/// two. The choice depends on the list, the time and the weekday alone, so
/// that every check of the same list at the same instant picks the same
/// alarm.
pub proof fn lemma_earlier_alarm_wins(
    alarms: Seq<AlarmView>,
    now: Horaire,
    day: int,
    i: int,
    j: int,
)
    requires
        0 <= i < j < alarms.len(),
        alarms[i].is_due(now, day),
        alarms[j].is_due(now, day),
    ensures
        first_due(alarms, now, day) is Some,
        first_due(alarms, now, day)->0 <= i,
        first_due(alarms, now, day) != Some(j),
{
    lemma_first_due(alarms, now, day);
}

/// An alarm alone in the list fires exactly when it is switched on, its
/// hour, minute and second are those of the clock, and it is set for the
/// weekday. If any one of the five differs, nothing fires.
pub proof fn lemma_match_is_exact(alarm: AlarmView, now: Horaire, day: int)
    ensures
        first_due(seq![alarm], now, day) == if alarm.active && alarm.horaire.hour == now.hour
            && alarm.horaire.minute == now.minute && alarm.horaire.second == now.second && 0
            <= day < alarm.days.len() && alarm.days[day] {
            Some(0int)
        } else {
            None::<int>
        },
{
    let alarms = seq![alarm];
    lemma_first_due(alarms, now, day);
    if alarm.is_due(now, day) {
        assert(alarms[0].is_due(now, day));
    }
}

/// Loading what was saved gives the saved alarms back, in their order and
/// unchanged but for their identifiers, which become the positions; saved
/// alarms whose identifiers were the positions come back identical. This
/// holds where the store's text is not empty and parses to the alarms that
/// were written.
pub proof fn lemma_load_restores_saved(
    before: Seq<AlarmView>,
    saved: Seq<AlarmView>,
    contents: Seq<char>,
)
    requires
        contents.len() > 0,
    ensures
        list_after_load(before, contents, Some(saved)) == renumbered(saved),
        list_after_load(before, contents, Some(saved)).len() == saved.len(),
        forall|i: int|
            0 <= i < saved.len() ==> (#[trigger] list_after_load(before, contents, Some(saved))[i])
                == saved[i].with_id(i as nat),
        ids_dense(saved) ==> list_after_load(before, contents, Some(saved)) == saved,
{
    if ids_dense(saved) {
        lemma_renumbered_dense(saved);
    }
}

/// After a start exactly one kind counts as playing: the kind that was
/// asked for.
pub proof fn lemma_start_leaves_one_kind(p: PlaybackModel, is_radio: bool, file_path: Seq<char>)
    ensures
        start_playback(p, is_radio, file_path).0.playing == Some(
            if is_radio {
                PlaybackKind::Radio
            } else {
                PlaybackKind::LocalFile
            },
        ),
        start_playback(p, is_radio, file_path).0.selected == p.selected,
{
}

/// A start while something plays stops it first: its steps begin with the
/// steps of a stop.
pub proof fn lemma_start_stops_what_plays(p: PlaybackModel, is_radio: bool, file_path: Seq<char>)
    requires
        p.playing is Some,
    ensures
        stop_all(p).1.is_prefix_of(start_playback(p, is_radio, file_path).1),
{
    let stops = stop_all(p).1;
    let steps = start_playback(p, is_radio, file_path).1;
    assert(steps.subrange(0, stops.len() as int) =~= stops);
}

/// Starting the radio and then at once a file leaves the file, and only
/// the file, playing: the second start first signals the radio session to
/// stop and ends by launching the file.
pub proof fn lemma_second_start_stops_first(p: PlaybackModel, file_path: Seq<char>)
    requires
        p.selected is Some,
    ensures
        ({
            let first = start_playback(p, true, Seq::empty());
            let second = start_playback(first.0, false, file_path);
            &&& first.0.playing == Some(PlaybackKind::Radio)
            &&& first.1.last() == ActionView::Launch(
                PlaybackKind::Radio,
                CommandView::PlayUrl(station_url(p.selected->0)),
            )
            &&& second.0.playing == Some(PlaybackKind::LocalFile)
            &&& second.1[0] == ActionView::SendStop(PlaybackKind::Radio)
            &&& second.1.last() == ActionView::Launch(
                PlaybackKind::LocalFile,
                CommandView::PlayFile(file_path),
            )
            &&& forall|i: int|
                0 <= i < second.1.len() - 1 ==> (#[trigger] second.1[i]) is SendStop
        }),
{
}

/// A stop leaves nothing playing and launches nothing.
pub proof fn lemma_stop_leaves_nothing(p: PlaybackModel)
    ensures
        stop_all(p).0.playing is None,
        forall|i: int| 0 <= i < stop_all(p).1.len() ==> (#[trigger] stop_all(p).1[i]) is SendStop,
{
}

/// The sessions that were launched and have not been signalled to stop
/// since.
pub ghost struct Live {
    pub radio: bool,
    pub file: bool,
}

/// The live sessions after one step was carried out.
pub open spec fn live_after(live: Live, step: ActionView) -> Live {
    match step {
        ActionView::SendStop(PlaybackKind::Radio) => Live { radio: false, ..live },
        ActionView::SendStop(PlaybackKind::LocalFile) => Live { file: false, ..live },
        ActionView::Launch(PlaybackKind::Radio, _) => Live { radio: true, ..live },
        ActionView::Launch(PlaybackKind::LocalFile, _) => Live { file: true, ..live },
        ActionView::Pause(_) => live,
    }
}

/// The live sessions after the steps of `steps` were carried out in order.
pub open spec fn live_after_all(live: Live, steps: Seq<ActionView>) -> Live
    decreases steps.len(),
{
    if steps.len() == 0 {
        live
    } else {
        live_after_all(live_after(live, steps[0]), steps.drop_first())
    }
}

/// Carried out in order from `live`, the steps never launch a session
/// while a session of either kind is live.
pub open spec fn launches_alone(live: Live, steps: Seq<ActionView>) -> bool
    decreases steps.len(),
{
    if steps.len() == 0 {
        true
    } else {
        &&& steps[0] is Launch ==> !live.radio && !live.file
        &&& launches_alone(live_after(live, steps[0]), steps.drop_first())
    }
}

/// What the controller knows agrees with the live sessions: at most one
/// session is live, and a live session is one whose sender its player
/// holds while something counts as playing.
pub open spec fn agrees(p: PlaybackModel, live: Live) -> bool {
    &&& !(live.radio && live.file)
    &&& live.radio ==> p.radio_sender && p.playing is Some
    &&& live.file ==> p.wav_sender && p.playing is Some
}

/// One operation on playback.
pub ghost enum PlaybackOp {
    /// Start the radio, or the file at the path.
    Start(bool, Seq<char>),
    /// Stop.
    Stop,
    /// Press a station button.
    Choose(u8),
    /// Check these alarms at a time on a weekday.
    Check(Seq<AlarmView>, Horaire, int),
}

/// What one operation does to playback: the state after it and its steps.
pub open spec fn playback_after(p: PlaybackModel, op: PlaybackOp) -> (
    PlaybackModel,
    Seq<ActionView>,
) {
    match op {
        PlaybackOp::Start(is_radio, file_path) => start_playback(p, is_radio, file_path),
        PlaybackOp::Stop => stop_all(p),
        PlaybackOp::Choose(button) => choose_station(p, button),
        PlaybackOp::Check(alarms, now, day) => check_outcome(alarms, now, day, p),
    }
}

/// What a sequence of operations does to playback: the state after the
/// last and the steps of all, in order.
pub open spec fn playback_after_all(p: PlaybackModel, ops: Seq<PlaybackOp>) -> (
    PlaybackModel,
    Seq<ActionView>,
)
    decreases ops.len(),
{
    if ops.len() == 0 {
        (p, Seq::empty())
    } else {
        let first = playback_after(p, ops[0]);
        let rest = playback_after_all(first.0, ops.drop_first());
        (rest.0, first.1 + rest.1)
    }
}

/// Steps carried out one sequence after another launch alone where each
/// sequence does, the second from where the first ends.
pub proof fn lemma_launches_alone_concat(live: Live, a: Seq<ActionView>, b: Seq<ActionView>)
    ensures
        live_after_all(live, a + b) == live_after_all(live_after_all(live, a), b),
        launches_alone(live, a + b) == (launches_alone(live, a) && launches_alone(
            live_after_all(live, a),
            b,
        )),
    decreases a.len(),
{
    if a.len() == 0 {
        assert(a + b =~= b);
    } else {
        assert((a + b)[0] == a[0]);
        assert((a + b).drop_first() =~= a.drop_first() + b);
        lemma_launches_alone_concat(live_after(live, a[0]), a.drop_first(), b);
    }
}

/// The steps of a stop launch nothing and leave no session of the kind
/// live whose sender the player holds.
proof fn lemma_stop_steps(live: Live, kind: PlaybackKind, holds_sender: bool)
    ensures
        launches_alone(live, stop_steps(kind, holds_sender)),
        live_after_all(live, stop_steps(kind, holds_sender)) == if holds_sender {
            live_after(live, ActionView::SendStop(kind))
        } else {
            live
        },
{
    let steps = stop_steps(kind, holds_sender);
    if holds_sender {
        assert(steps.drop_first() =~= Seq::<ActionView>::empty());
        assert(launches_alone(live_after(live, steps[0]), steps.drop_first()));
        assert(live_after_all(live_after(live, steps[0]), steps.drop_first()) == live_after(
            live,
            steps[0],
        ));
    }
}

/// The steps of a start on one player, carried out while no session of
/// the other kind is live, launch alone and leave the new session, and no
/// other, live.
proof fn lemma_start_steps(live: Live, kind: PlaybackKind, holds_sender: bool, command: CommandView)
    requires
        kind == PlaybackKind::Radio ==> !live.file && (live.radio ==> holds_sender),
        kind == PlaybackKind::LocalFile ==> !live.radio && (live.file ==> holds_sender),
    ensures
        launches_alone(live, start_steps(kind, holds_sender, command)),
        live_after_all(live, start_steps(kind, holds_sender, command)) == (Live {
            radio: kind == PlaybackKind::Radio,
            file: kind == PlaybackKind::LocalFile,
        }),
{
    let stops = stop_steps(kind, holds_sender);
    let launch = seq![ActionView::Launch(kind, command)];
    assert(start_steps(kind, holds_sender, command) =~= stops + launch);
    lemma_stop_steps(live, kind, holds_sender);
    lemma_launches_alone_concat(live, stops, launch);
    let quiet = live_after_all(live, stops);
    assert(launch.drop_first() =~= Seq::<ActionView>::empty());
    assert(launches_alone(live_after(quiet, launch[0]), launch.drop_first()));
    assert(live_after_all(live_after(quiet, launch[0]), launch.drop_first()) == live_after(
        quiet,
        launch[0],
    ));
}

/// A stop, carried out where the controller agrees with the live
/// sessions, launches nothing and leaves no session live.
pub proof fn lemma_stop_retires_all(p: PlaybackModel, live: Live)
    requires
        agrees(p, live),
    ensures
        launches_alone(live, stop_all(p).1),
        live_after_all(live, stop_all(p).1) == (Live { radio: false, file: false }),
        agrees(stop_all(p).0, live_after_all(live, stop_all(p).1)),
{
    let radio = stop_steps(PlaybackKind::Radio, p.radio_sender);
    let file = stop_steps(PlaybackKind::LocalFile, p.wav_sender);
    lemma_stop_steps(live, PlaybackKind::Radio, p.radio_sender);
    lemma_stop_steps(live_after_all(live, radio), PlaybackKind::LocalFile, p.wav_sender);
    lemma_launches_alone_concat(live, radio, file);
}

/// A start, carried out where the controller agrees with the live
/// sessions, never launches a session while another is live: every
/// session before it has been signalled to stop by then. Afterwards the
/// controller agrees with the live sessions again, and at most the new
/// session is live.
pub proof fn lemma_start_launches_alone(
    p: PlaybackModel,
    live: Live,
    is_radio: bool,
    file_path: Seq<char>,
)
    requires
        agrees(p, live),
    ensures
        launches_alone(live, start_playback(p, is_radio, file_path).1),
        agrees(
            start_playback(p, is_radio, file_path).0,
            live_after_all(live, start_playback(p, is_radio, file_path).1),
        ),
        !live_after_all(live, start_playback(p, is_radio, file_path).1).radio || is_radio,
        !live_after_all(live, start_playback(p, is_radio, file_path).1).file || !is_radio,
{
    let (q, stops) = if p.playing is Some {
        stop_all(p)
    } else {
        (p, Seq::<ActionView>::empty())
    };
    if p.playing is Some {
        lemma_stop_retires_all(p, live);
    }
    let quiet = live_after_all(live, stops);
    assert(quiet == Live { radio: false, file: false });
    if is_radio {
        match q.selected {
            Some(station) => {
                let starts = start_steps(
                    PlaybackKind::Radio,
                    q.radio_sender,
                    CommandView::PlayUrl(station_url(station)),
                );
                lemma_start_steps(
                    quiet,
                    PlaybackKind::Radio,
                    q.radio_sender,
                    CommandView::PlayUrl(station_url(station)),
                );
                lemma_launches_alone_concat(live, stops, starts);
            },
            None => {},
        }
    } else {
        let starts = start_steps(
            PlaybackKind::LocalFile,
            q.wav_sender,
            CommandView::PlayFile(file_path),
        );
        lemma_start_steps(
            quiet,
            PlaybackKind::LocalFile,
            q.wav_sender,
            CommandView::PlayFile(file_path),
        );
        lemma_launches_alone_concat(live, stops, starts);
    }
}

/// Every operation on playback, carried out where the controller agrees
/// with the live sessions, launches alone and ends where the controller
/// agrees with the live sessions again.
pub proof fn lemma_operation_launches_alone(p: PlaybackModel, live: Live, op: PlaybackOp)
    requires
        agrees(p, live),
    ensures
        launches_alone(live, playback_after(p, op).1),
        agrees(playback_after(p, op).0, live_after_all(live, playback_after(p, op).1)),
{
    match op {
        PlaybackOp::Start(is_radio, file_path) => {
            lemma_start_launches_alone(p, live, is_radio, file_path);
        },
        PlaybackOp::Stop => {
            lemma_stop_retires_all(p, live);
        },
        PlaybackOp::Choose(button) => {
            let q = PlaybackModel {
                selected: match crate::modelmod::station_of_button(button) {
                    Some(station) => Some(station),
                    None => p.selected,
                },
                ..p
            };
            if q.playing is Some {
                let (r, stops) = stop_all(q);
                let pause = seq![ActionView::Pause(10)];
                let (s, starts) = start_playback(r, true, Seq::empty());
                lemma_stop_retires_all(q, live);
                let quiet = live_after_all(live, stops);
                assert(pause.drop_first() =~= Seq::<ActionView>::empty());
                assert(launches_alone(live_after(quiet, pause[0]), pause.drop_first()));
                assert(live_after_all(live_after(quiet, pause[0]), pause.drop_first()) == quiet);
                lemma_launches_alone_concat(live, stops, pause);
                lemma_start_launches_alone(r, quiet, true, Seq::empty());
                lemma_launches_alone_concat(live, stops + pause, starts);
            }
        },
        PlaybackOp::Check(alarms, now, day) => {
            match first_due(alarms, now, day) {
                Some(k) => {
                    if alarms[k].is_radio {
                        lemma_start_launches_alone(
                            PlaybackModel { selected: alarms[k].a_radio, ..p },
                            live,
                            true,
                            Seq::empty(),
                        );
                    } else {
                        lemma_start_launches_alone(p, live, false, alarms[k].song_path);
                    }
                },
                None => {},
            }
        },
    }
}

/// At most one stream at a time: through any sequence of starts, stops,
/// station buttons and alarm checks, begun where the controller agrees
/// with the live sessions, as it does when nothing has been started, no
/// session is ever launched while a session of either kind is live.
pub proof fn lemma_one_stream_at_a_time(p: PlaybackModel, live: Live, ops: Seq<PlaybackOp>)
    requires
        agrees(p, live),
    ensures
        launches_alone(live, playback_after_all(p, ops).1),
        agrees(
            playback_after_all(p, ops).0,
            live_after_all(live, playback_after_all(p, ops).1),
        ),
    decreases ops.len(),
{
    if ops.len() > 0 {
        let first = playback_after(p, ops[0]);
        let rest = playback_after_all(first.0, ops.drop_first());
        lemma_operation_launches_alone(p, live, ops[0]);
        lemma_one_stream_at_a_time(first.0, live_after_all(live, first.1), ops.drop_first());
        lemma_launches_alone_concat(live, first.1, rest.1);
    }
}

} // verus!
