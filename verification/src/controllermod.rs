//! The controller: the list of alarms, the rule that decides which alarm
//! fires, and the control of playback.

use crate::clock::read_local_clock;
use crate::modelmod::{
    song_path_of, station_of_button, station_url, AlarmClock, AlarmView, Horaire, Radio,
    RadioStation,
};
use crate::musicmod::{
    action_views, start_steps, stop_steps, ActionView, CommandView, Music, PlaybackKind,
    PlayerAction, RadioPlayer, WavPlayer,
};
use crate::scan::{first_true, first_true_from};
use crate::text::first_line;
use vstd::prelude::*;
use vstd::string::*;

verus! {

/// The alarms of `alarms`, in order, as mathematical values.
pub open spec fn alarm_views(alarms: Seq<AlarmClock>) -> Seq<AlarmView> {
    alarms.map_values(|alarm: AlarmClock| alarm@)
}

/// The identifiers are the positions: the alarm at position `i` has
/// identifier `i`.
pub open spec fn ids_dense(alarms: Seq<AlarmView>) -> bool {
    forall|i: int| 0 <= i < alarms.len() ==> (#[trigger] alarms[i]).a_id == i
}

/// The same alarms in the same order, each with its position as its
/// identifier.
pub open spec fn renumbered(alarms: Seq<AlarmView>) -> Seq<AlarmView> {
    Seq::new(alarms.len(), |i: int| alarms[i].with_id(i as nat))
}

/// For each alarm, whether its identifier is `a_id`.
pub open spec fn id_flags(alarms: Seq<AlarmView>, a_id: nat) -> Seq<bool> {
    alarms.map_values(|alarm: AlarmView| alarm.a_id == a_id)
}

/// The position of the first alarm whose identifier is `a_id`.
pub open spec fn position_of(alarms: Seq<AlarmView>, a_id: nat) -> Option<int> {
    first_true(id_flags(alarms, a_id))
}

/// For each alarm, whether it fires at `now` on weekday `day`.
pub open spec fn due_flags(alarms: Seq<AlarmView>, now: Horaire, day: int) -> Seq<bool> {
    alarms.map_values(|alarm: AlarmView| alarm.is_due(now, day))
}

/// The position of the alarm that fires at `now` on weekday `day`: the
/// first in list order that is due, none if no alarm is due.
pub open spec fn first_due(alarms: Seq<AlarmView>, now: Horaire, day: int) -> Option<int> {
    first_true(due_flags(alarms, now, day))
}

/// The list after `alarm` was added: it stands last, and the identifiers
/// are the positions.
pub open spec fn list_after_add(alarms: Seq<AlarmView>, alarm: AlarmView) -> Seq<AlarmView> {
    renumbered(alarms.push(alarm))
}

/// The list after the alarm with identifier `a_id` was deleted: the first
/// such alarm is gone and the identifiers are the positions; a list that
/// holds no such alarm stays as it is.
pub open spec fn list_after_delete(alarms: Seq<AlarmView>, a_id: nat) -> Seq<AlarmView> {
    match position_of(alarms, a_id) {
        Some(k) => renumbered(alarms.remove(k)),
        None => alarms,
    }
}

/// The list after the alarms with identifier `a_id` were switched over.
pub open spec fn list_after_toggle(alarms: Seq<AlarmView>, a_id: nat) -> Seq<AlarmView> {
    alarms.map_values(
        |alarm: AlarmView|
            if alarm.a_id == a_id {
                alarm.toggled()
            } else {
                alarm
            },
    )
}

/// The alarm that fires at `now` on weekday `day_of_week` (0 = Monday):
/// the position of the first alarm in list order that is switched on, is
/// set for that weekday and whose time of day is `now` to the second.
/// Nothing is changed.
pub fn find_due_alarm(alarms: &Vec<AlarmClock>, now: &Horaire, day_of_week: usize) -> (found:
    Option<usize>)
    requires
        day_of_week < 7,
    ensures
        match found {
            Some(k) => k < alarms.len() && first_due(alarm_views(alarms@), *now, day_of_week as int)
                == Some(k as int),
            None => first_due(alarm_views(alarms@), *now, day_of_week as int) is None,
        },
{
    let ghost flags = due_flags(alarm_views(alarms@), *now, day_of_week as int);
    let mut i: usize = 0;
    while i < alarms.len()
        invariant
            day_of_week < 7,
            i <= alarms.len(),
            flags == due_flags(alarm_views(alarms@), *now, day_of_week as int),
            first_true(flags) == first_true_from(flags, i as int),
        decreases alarms.len() - i,
    {
        if alarms[i].is_due(now, day_of_week) {
            return Some(i);
        }
        i = i + 1;
    }
    None
}

/// The position of the first alarm whose identifier is `a_id`.
pub fn find_alarm(alarms: &Vec<AlarmClock>, a_id: usize) -> (found: Option<usize>)
    ensures
        match found {
            Some(k) => k < alarms.len() && position_of(alarm_views(alarms@), a_id as nat) == Some(
                k as int,
            ),
            None => position_of(alarm_views(alarms@), a_id as nat) is None,
        },
{
    let ghost flags = id_flags(alarm_views(alarms@), a_id as nat);
    let mut i: usize = 0;
    while i < alarms.len()
        invariant
            i <= alarms.len(),
            flags == id_flags(alarm_views(alarms@), a_id as nat),
            first_true(flags) == first_true_from(flags, i as int),
        decreases alarms.len() - i,
    {
        if alarms[i].a_id == a_id {
            return Some(i);
        }
        i = i + 1;
    }
    None
}

/// Gives each alarm its position as its identifier.
pub fn renumber(alarms: &mut Vec<AlarmClock>)
    ensures
        alarm_views(final(alarms)@) == renumbered(alarm_views(old(alarms)@)),
{
    let mut i: usize = 0;
    while i < alarms.len()
        invariant
            i <= alarms.len(),
            alarms.len() == old(alarms).len(),
            forall|j: int| 0 <= j < i ==> (#[trigger] alarms@[j])@ == old(alarms)@[j]@.with_id(j as nat),
            forall|j: int| i <= j < alarms.len() ==> (#[trigger] alarms@[j])@ == old(alarms)@[j]@,
        decreases alarms.len() - i,
    {
        alarms[i].a_id = i;
        i = i + 1;
    }
    assert(alarm_views(alarms@) =~= renumbered(alarm_views(old(alarms)@)));
}

/// Why the stored alarms could not be loaded.
#[derive(Clone, Copy, Debug, PartialEq, Eq, Structural)]
pub enum StoreError {
    /// The store holds text that is not a list of alarms.
    CorruptStore,
}

/// What a deletion took away, and with it what is left to do on disk.
#[derive(Debug, PartialEq, Eq)]
pub enum Deleted {
    /// No alarm has the identifier: nothing was deleted.
    Nothing,
    /// A radio alarm was deleted. No file belongs to it.
    RadioAlarm,
    /// A file alarm was deleted. Its audio file, at this path, is to be
    /// removed.
    FileAlarm(String),
}

/// The outcome of a deletion, as mathematical values.
pub ghost enum DeletedView {
    Nothing,
    RadioAlarm,
    FileAlarm(Seq<char>),
}

impl View for Deleted {
    type V = DeletedView;

    open spec fn view(&self) -> DeletedView {
        match self {
            Deleted::Nothing => DeletedView::Nothing,
            Deleted::RadioAlarm => DeletedView::RadioAlarm,
            Deleted::FileAlarm(path) => DeletedView::FileAlarm(path@),
        }
    }
}

/// What deleting the alarm with identifier `a_id` takes away: the first
/// alarm with that identifier, and the audio file of a file alarm.
pub open spec fn deletion_of(alarms: Seq<AlarmView>, a_id: nat) -> DeletedView {
    match position_of(alarms, a_id) {
        Some(k) => if alarms[k].is_radio {
            DeletedView::RadioAlarm
        } else {
            DeletedView::FileAlarm(alarms[k].song_path)
        },
        None => DeletedView::Nothing,
    }
}

/// The alarm that a request to add one describes.
///
/// With a song link it is a file alarm, whose audio is kept under the path
/// of its identifier and whose title is the first line of `title_output`;
/// without one it is a radio alarm on the selected station.
pub open spec fn requested_alarm(
    a_id: nat,
    name: Seq<char>,
    time: Horaire,
    song: Seq<char>,
    title_output: Seq<char>,
    selected: Option<RadioStation>,
    days: Seq<bool>,
) -> AlarmView {
    if song.len() > 0 {
        AlarmView {
            horaire: time,
            active: true,
            is_radio: false,
            song_path: song_path_of(a_id),
            song_title: first_line(title_output),
            a_radio: None,
            a_id,
            name,
            days,
        }
    } else {
        AlarmView {
            horaire: time,
            active: true,
            is_radio: true,
            song_path: Seq::empty(),
            song_title: Seq::empty(),
            a_radio: selected,
            a_id,
            name,
            days,
        }
    }
}

/// What a parser made of the store's text, as mathematical values.
pub open spec fn parsed_views(parsed: Option<Vec<AlarmClock>>) -> Option<Seq<AlarmView>> {
    match parsed {
        Some(alarms) => Some(alarm_views(alarms@)),
        None => None,
    }
}

/// The list after a load. An empty store gives an empty list. A store
/// with text gives the alarms parsed from it, renumbered; where the text
/// could not be parsed the list stays as it was.
pub open spec fn list_after_load(
    alarms: Seq<AlarmView>,
    contents: Seq<char>,
    parsed: Option<Seq<AlarmView>>,
) -> Seq<AlarmView> {
    if contents.len() == 0 {
        Seq::empty()
    } else {
        match parsed {
            Some(list) => renumbered(list),
            None => alarms,
        }
    }
}

/// What the controller knows of playback.
pub ghost struct PlaybackModel {
    /// The station selected for the radio.
    pub selected: Option<RadioStation>,
    /// The kind of playback that is on, from the caller's side.
    pub playing: Option<PlaybackKind>,
    /// Whether the radio player holds the sender of a session.
    pub radio_sender: bool,
    /// Whether the file player holds the sender of a session.
    pub wav_sender: bool,
}

/// Stopping: both players signal their session, the radio first, and
/// nothing counts as playing any more.
pub open spec fn stop_all(p: PlaybackModel) -> (PlaybackModel, Seq<ActionView>) {
    (
        PlaybackModel { playing: None, ..p },
        stop_steps(PlaybackKind::Radio, p.radio_sender) + stop_steps(
            PlaybackKind::LocalFile,
            p.wav_sender,
        ),
    )
}

/// Starting playback of one kind.
///
/// If anything plays, of either kind, it is stopped first. Then the player
/// of the kind starts a session: the radio on the address of the selected
/// station, the file player on `file_path`. With no station selected the
/// radio launches nothing. Afterwards the kind asked for, and no other,
/// counts as playing.
pub open spec fn start_playback(p: PlaybackModel, is_radio: bool, file_path: Seq<char>) -> (
    PlaybackModel,
    Seq<ActionView>,
) {
    let (q, stops) = if p.playing is Some {
        stop_all(p)
    } else {
        (p, Seq::empty())
    };
    if is_radio {
        match q.selected {
            Some(station) => (
                PlaybackModel { playing: Some(PlaybackKind::Radio), radio_sender: true, ..q },
                stops + start_steps(
                    PlaybackKind::Radio,
                    q.radio_sender,
                    CommandView::PlayUrl(station_url(station)),
                ),
            ),
            None => (PlaybackModel { playing: Some(PlaybackKind::Radio), ..q }, stops),
        }
    } else {
        (
            PlaybackModel { playing: Some(PlaybackKind::LocalFile), wav_sender: true, ..q },
            stops + start_steps(
                PlaybackKind::LocalFile,
                q.wav_sender,
                CommandView::PlayFile(file_path),
            ),
        )
    }
}

/// Choosing a station with selector button `button`.
///
/// Buttons 1 to 5 select their station; any other leaves the selection.
/// If anything plays, it is stopped, ten milliseconds pass, and the radio
/// starts on the selection.
pub open spec fn choose_station(p: PlaybackModel, button: u8) -> (PlaybackModel, Seq<ActionView>) {
    let q = PlaybackModel {
        selected: match station_of_button(button) {
            Some(station) => Some(station),
            None => p.selected,
        },
        ..p
    };
    if q.playing is Some {
        let (r, stops) = stop_all(q);
        let (s, starts) = start_playback(r, true, Seq::empty());
        (s, stops + seq![ActionView::Pause(10)] + starts)
    } else {
        (q, Seq::empty())
    }
}

/// What a check of the alarms does to playback at `now` on weekday `day`.
///
/// The first alarm that is due, if there is one, starts: a radio alarm
/// selects its station and starts the radio, a file alarm starts its file.
/// With no alarm due nothing happens.
pub open spec fn check_outcome(alarms: Seq<AlarmView>, now: Horaire, day: int, p: PlaybackModel) -> (
    PlaybackModel,
    Seq<ActionView>,
) {
    match first_due(alarms, now, day) {
        Some(k) => if alarms[k].is_radio {
            start_playback(PlaybackModel { selected: alarms[k].a_radio, ..p }, true, Seq::empty())
        } else {
            start_playback(p, false, alarms[k].song_path)
        },
        None => (p, Seq::empty()),
    }
}

/// Appends the steps of `more` to `actions`.
fn append_actions(actions: &mut Vec<PlayerAction>, more: Vec<PlayerAction>)
    ensures
        action_views(final(actions)@) == action_views(old(actions)@) + action_views(more@),
{
    let mut more = more;
    let ghost added = more@;
    actions.append(&mut more);
    assert(action_views(actions@) =~= action_views(old(actions)@) + action_views(added));
}

/// The alarm clock's controller.
///
/// It owns the list of alarms, the clock reading against which alarms are
/// checked, the selected radio station and the two players.
#[derive(Debug)]
pub struct Controller {
    /// The alarms, in the order in which they are checked.
    pub alarms: Vec<AlarmClock>,
    /// The station selected for the radio.
    pub current_radio: Radio,
    /// The clock reading against which alarms are checked.
    pub horaire: Horaire,
    /// The player of radio streams.
    pub radio_player: RadioPlayer,
    /// The player of local audio files.
    pub wav_player: WavPlayer,
    /// The kind of playback that is on, if any.
    pub now_playing: Option<PlaybackKind>,
}

impl Controller {
    /// The alarms held, in order, as mathematical values.
    pub open spec fn model(&self) -> Seq<AlarmView> {
        alarm_views(self.alarms@)
    }

    /// What the controller knows of playback.
    pub open spec fn playback(&self) -> PlaybackModel {
        PlaybackModel {
            selected: self.current_radio.selected_radio,
            playing: self.now_playing,
            radio_sender: self.radio_player.holds_sender(),
            wav_sender: self.wav_player.holds_sender(),
        }
    }

    /// A controller with no alarms, no station selected and nothing
    /// playing, whose clock shows the local time of day.
    pub fn new() -> (controller: Self)
        ensures
            controller.alarms@.len() == 0,
            controller.horaire.wf(),
            controller.playback() == (PlaybackModel {
                selected: None,
                playing: None,
                radio_sender: false,
                wav_sender: false,
            }),
    {
        Controller::with_time(Horaire::new())
    }

    /// A controller with no alarms, no station selected and nothing
    /// playing, whose clock shows `horaire`.
    pub fn with_time(horaire: Horaire) -> (controller: Self)
        ensures
            controller.alarms@.len() == 0,
            controller.horaire == horaire,
            controller.playback() == (PlaybackModel {
                selected: None,
                playing: None,
                radio_sender: false,
                wav_sender: false,
            }),
    {
        Controller {
            alarms: Vec::new(),
            current_radio: Radio::new(),
            horaire,
            radio_player: RadioPlayer::new(),
            wav_player: WavPlayer::new(),
            now_playing: None,
        }
    }

    /// Gives each alarm its position in the list as its identifier.
    pub fn update_alarm_id(&mut self)
        ensures
            final(self).model() == renumbered(old(self).model()),
            ids_dense(final(self).model()),
            final(self).horaire == old(self).horaire,
            final(self).playback() == old(self).playback(),
    {
        renumber(&mut self.alarms);
    }

    /// Adds an alarm at the end of the list and renumbers the list.
    ///
    /// `song` is the link of a song, empty for a radio alarm, and
    /// `title_output` what the acquisition of that song printed as its
    /// title. With a link the alarm plays the file kept for its identifier;
    /// without one it plays the selected station. With neither a link nor a
    /// selected station nothing is added and the result is `false`.
    /// After `true` the list is to be saved.
    pub fn add_alarm(
        &mut self,
        name: String,
        hour: u8,
        minute: u8,
        second: u8,
        song: String,
        title_output: String,
        days: [bool; 7],
    ) -> (added: bool)
        ensures
            added <==> song@.len() > 0 || old(self).playback().selected is Some,
            added ==> final(self).model() == list_after_add(
                old(self).model(),
                requested_alarm(
                    old(self).alarms@.len(),
                    name@,
                    Horaire { hour, minute, second },
                    song@,
                    title_output@,
                    old(self).playback().selected,
                    days@,
                ),
            ),
            added ==> ids_dense(final(self).model()),
            !added ==> final(self).alarms@ == old(self).alarms@,
            final(self).horaire == old(self).horaire,
            final(self).playback() == old(self).playback(),
    {
        let selected = self.current_radio.selected_radio;
        let has_song = !song.as_str().is_empty();
        if !has_song && selected.is_none() {
            return false;
        }
        let a_id = self.alarms.len();
        let alarm = if has_song {
            AlarmClock::new(a_id, name, hour, minute, second, title_output, false, None, days)
        } else {
            AlarmClock::new(a_id, name, hour, minute, second, String::new(), true, selected, days)
        };
        self.alarms.push(alarm);
        assert(alarm_views(self.alarms@) =~= old(self).model().push(alarm@));
        renumber(&mut self.alarms);
        true
    }

    /// The alarms to write to the store: a copy of the list as it stands.
    pub fn save_alarms(&self) -> (saved: Vec<AlarmClock>)
        ensures
            alarm_views(saved@) == self.model(),
    {
        let mut saved: Vec<AlarmClock> = Vec::new();
        let mut i: usize = 0;
        while i < self.alarms.len()
            invariant
                i <= self.alarms.len(),
                saved@.len() == i,
                forall|j: int| 0 <= j < i ==> (#[trigger] saved@[j])@ == self.alarms@[j]@,
            decreases self.alarms.len() - i,
        {
            saved.push(self.alarms[i].clone());
            i = i + 1;
        }
        assert(alarm_views(saved@) =~= self.model());
        saved
    }

    /// Takes over what was read from the store.
    ///
    /// `contents` is the text of the store and `parsed` the alarms that a
    /// parser made of it, `None` where it could not; `parsed` counts only
    /// where `contents` is not empty. An empty store gives an empty list.
    /// Parsed alarms replace the list and are renumbered. Text that could
    /// not be parsed is an error, and the list stays as it was.
    pub fn load_alarms(&mut self, contents: &str, parsed: Option<Vec<AlarmClock>>) -> (loaded:
        Result<(), StoreError>)
        ensures
            loaded is Err <==> contents@.len() > 0 && parsed is None,
            loaded is Err ==> loaded == Err::<(), StoreError>(StoreError::CorruptStore)
                && final(self).alarms@ == old(self).alarms@,
            final(self).model() == list_after_load(
                old(self).model(),
                contents@,
                parsed_views(parsed),
            ),
            loaded is Ok ==> ids_dense(final(self).model()),
            final(self).horaire == old(self).horaire,
            final(self).playback() == old(self).playback(),
    {
        if !contents.is_empty() {
            match parsed {
                Some(alarms) => {
                    self.alarms = alarms;
                },
                None => {
                    return Err(StoreError::CorruptStore);
                },
            }
        } else {
            self.alarms = Vec::new();
        }
        renumber(&mut self.alarms);
        assert(final(self).model() =~= list_after_load(
            old(self).model(),
            contents@,
            parsed_views(parsed),
        ));
        Ok(())
    }

    /// Deletes the first alarm whose identifier is `alarm_id` and renumbers
    /// the list. The alarm is looked up by its identifier, not by position.
    ///
    /// The result says what was deleted. For a file alarm it holds the path
    /// of the audio file, which is to be removed; for a radio alarm there
    /// is no file to remove. After a deletion the list is to be saved.
    pub fn delete_alarm(&mut self, alarm_id: usize) -> (deleted: Deleted)
        ensures
            deleted@ == deletion_of(old(self).model(), alarm_id as nat),
            final(self).model() == list_after_delete(old(self).model(), alarm_id as nat),
            deleted is Nothing ==> final(self).alarms@ == old(self).alarms@,
            !(deleted is Nothing) ==> ids_dense(final(self).model()),
            final(self).horaire == old(self).horaire,
            final(self).playback() == old(self).playback(),
    {
        match find_alarm(&self.alarms, alarm_id) {
            Some(index) => {
                let alarm = self.alarms.remove(index);
                assert(alarm_views(self.alarms@) =~= old(self).model().remove(index as int));
                renumber(&mut self.alarms);
                if alarm.is_radio {
                    Deleted::RadioAlarm
                } else {
                    Deleted::FileAlarm(alarm.song_path)
                }
            },
            None => Deleted::Nothing,
        }
    }

    /// Switches over every alarm whose identifier is `alarm_id`: on becomes
    /// off, off becomes on. Afterwards the list is to be saved.
    pub fn alarm_status(&mut self, alarm_id: usize)
        ensures
            final(self).model() == list_after_toggle(old(self).model(), alarm_id as nat),
            final(self).horaire == old(self).horaire,
            final(self).playback() == old(self).playback(),
    {
        let mut i: usize = 0;
        while i < self.alarms.len()
            invariant
                i <= self.alarms.len(),
                self.alarms.len() == old(self).alarms.len(),
                forall|j: int|
                    0 <= j < i ==> (#[trigger] self.alarms@[j])@ == if old(self).alarms@[j].a_id
                        == alarm_id {
                        old(self).alarms@[j]@.toggled()
                    } else {
                        old(self).alarms@[j]@
                    },
                forall|j: int|
                    i <= j < self.alarms.len() ==> (#[trigger] self.alarms@[j])@ == old(
                        self,
                    ).alarms@[j]@,
                self.horaire == old(self).horaire,
                self.playback() == old(self).playback(),
            decreases self.alarms.len() - i,
        {
            if self.alarms[i].a_id == alarm_id {
                let active = self.alarms[i].active;
                self.alarms[i].active = !active;
            }
            i = i + 1;
        }
        assert(self.model() =~= list_after_toggle(old(self).model(), alarm_id as nat));
    }

    /// Stops playback: both players signal their session to stop, and
    /// nothing counts as playing any more.
    pub fn stop_player(&mut self) -> (actions: Vec<PlayerAction>)
        ensures
            final(self).playback() == stop_all(old(self).playback()).0,
            action_views(actions@) == stop_all(old(self).playback()).1,
            final(self).alarms@ == old(self).alarms@,
            final(self).horaire == old(self).horaire,
    {
        let mut actions = self.radio_player.stop();
        let more = self.wav_player.stop();
        append_actions(&mut actions, more);
        self.now_playing = None;
        actions
    }

    /// Starts playback: the radio on the selected station if `is_radio`,
    /// else the file at `file_path`. Whatever plays is stopped first, so
    /// that one kind at most counts as playing.
    pub fn start_player(&mut self, is_radio: bool, file_path: String) -> (actions: Vec<
        PlayerAction,
    >)
        ensures
            final(self).playback() == start_playback(old(self).playback(), is_radio, file_path@).0,
            action_views(actions@) == start_playback(old(self).playback(), is_radio, file_path@).1,
            final(self).alarms@ == old(self).alarms@,
            final(self).horaire == old(self).horaire,
    {
        let mut actions = if self.now_playing.is_some() {
            self.stop_player()
        } else {
            Vec::new()
        };
        if is_radio {
            match self.current_radio.get_url() {
                Some(url) => {
                    let more = self.radio_player.play(String::from_str(url));
                    append_actions(&mut actions, more);
                },
                None => {},
            }
            self.now_playing = Some(PlaybackKind::Radio);
        } else {
            let more = self.wav_player.play(file_path);
            append_actions(&mut actions, more);
            self.now_playing = Some(PlaybackKind::LocalFile);
        }
        assert(action_views(actions@) =~= start_playback(
            old(self).playback(),
            is_radio,
            file_path@,
        ).1);
        actions
    }

    /// The on button: starts the radio on the selected station, stopping
    /// first whatever plays.
    pub fn on_marche_clicked(&mut self) -> (actions: Vec<PlayerAction>)
        ensures
            final(self).playback() == start_playback(
                old(self).playback(),
                true,
                Seq::<char>::empty(),
            ).0,
            action_views(actions@) == start_playback(
                old(self).playback(),
                true,
                Seq::<char>::empty(),
            ).1,
            final(self).alarms@ == old(self).alarms@,
            final(self).horaire == old(self).horaire,
    {
        self.start_player(true, String::new())
    }

    /// The off button: stops playback.
    pub fn on_arret_clicked(&mut self) -> (actions: Vec<PlayerAction>)
        ensures
            final(self).playback() == stop_all(old(self).playback()).0,
            action_views(actions@) == stop_all(old(self).playback()).1,
            final(self).alarms@ == old(self).alarms@,
            final(self).horaire == old(self).horaire,
    {
        self.stop_player()
    }

    /// The save button of the form for a new alarm: adds the alarm.
    pub fn on_save_clicked(
        &mut self,
        name: String,
        hour: u8,
        minute: u8,
        second: u8,
        song: String,
        title_output: String,
        days: [bool; 7],
    ) -> (added: bool)
        ensures
            added <==> song@.len() > 0 || old(self).playback().selected is Some,
            added ==> final(self).model() == list_after_add(
                old(self).model(),
                requested_alarm(
                    old(self).alarms@.len(),
                    name@,
                    Horaire { hour, minute, second },
                    song@,
                    title_output@,
                    old(self).playback().selected,
                    days@,
                ),
            ),
            added ==> ids_dense(final(self).model()),
            !added ==> final(self).alarms@ == old(self).alarms@,
            final(self).horaire == old(self).horaire,
            final(self).playback() == old(self).playback(),
    {
        self.add_alarm(name, hour, minute, second, song, title_output, days)
    }

    /// A station button: selects the station of buttons 1 to 5 and, if
    /// anything plays, restarts playback as radio on the selection.
    pub fn on_radio_clicked(&mut self, id_radio: u8) -> (actions: Vec<PlayerAction>)
        ensures
            final(self).playback() == choose_station(old(self).playback(), id_radio).0,
            action_views(actions@) == choose_station(old(self).playback(), id_radio).1,
            final(self).alarms@ == old(self).alarms@,
            final(self).horaire == old(self).horaire,
    {
        match RadioStation::from_button(id_radio) {
            Some(station) => {
                self.current_radio.selected_radio = Some(station);
            },
            None => {},
        }
        if self.now_playing.is_some() {
            let mut actions = self.on_arret_clicked();
            actions.push(PlayerAction::Pause(10));
            let more = self.on_marche_clicked();
            let ghost before = actions@;
            append_actions(&mut actions, more);
            assert(action_views(before) =~= stop_all(
                PlaybackModel {
                    selected: match station_of_button(id_radio) {
                        Some(station) => Some(station),
                        None => old(self).playback().selected,
                    },
                    ..old(self).playback()
                },
            ).1 + seq![ActionView::Pause(10)]);
            actions
        } else {
            Vec::new()
        }
    }

    /// The clock reading against which alarms are checked.
    pub fn get_horaire(&self) -> (time: Horaire)
        ensures
            time == self.horaire,
    {
        self.horaire
    }

    /// Sets the clock reading to the local time of day.
    pub fn update_time(&mut self)
        ensures
            final(self).horaire.wf(),
            final(self).alarms@ == old(self).alarms@,
            final(self).playback() == old(self).playback(),
    {
        self.horaire.update_time();
    }

    /// Checks the alarms against the clock reading held, on weekday
    /// `day_of_week` (0 = Monday, 6 = Sunday), and starts the one that is
    /// due: the first in list order. The alarms are not changed.
    pub fn check_alarms_on(&mut self, day_of_week: usize) -> (actions: Vec<PlayerAction>)
        requires
            day_of_week < 7,
        ensures
            final(self).playback() == check_outcome(
                old(self).model(),
                old(self).horaire,
                day_of_week as int,
                old(self).playback(),
            ).0,
            action_views(actions@) == check_outcome(
                old(self).model(),
                old(self).horaire,
                day_of_week as int,
                old(self).playback(),
            ).1,
            final(self).alarms@ == old(self).alarms@,
            final(self).horaire == old(self).horaire,
    {
        let now = self.horaire;
        match find_due_alarm(&self.alarms, &now, day_of_week) {
            Some(k) => {
                if self.alarms[k].is_radio {
                    self.current_radio.selected_radio = self.alarms[k].a_radio;
                    self.start_player(true, String::new())
                } else {
                    let path = self.alarms[k].song_path.clone();
                    self.start_player(false, path)
                }
            },
            None => Vec::new(),
        }
    }

    /// One tick of the alarm clock at time `now` on weekday `day_of_week`
    /// (0 = Monday, 6 = Sunday).
    ///
    /// The clock reading becomes `now`. The list is loaded from what was
    /// read from the store, `contents` and `parsed` as for `load_alarms`;
    /// after text that could not be parsed the tick goes on with the list
    /// as it was. Then the alarms are checked and the first that is due
    /// starts.
    pub fn tick_at(
        &mut self,
        now: Horaire,
        day_of_week: usize,
        contents: &str,
        parsed: Option<Vec<AlarmClock>>,
    ) -> (actions: Vec<PlayerAction>)
        requires
            day_of_week < 7,
        ensures
            final(self).horaire == now,
            final(self).model() == list_after_load(
                old(self).model(),
                contents@,
                parsed_views(parsed),
            ),
            final(self).playback() == check_outcome(
                final(self).model(),
                now,
                day_of_week as int,
                old(self).playback(),
            ).0,
            action_views(actions@) == check_outcome(
                final(self).model(),
                now,
                day_of_week as int,
                old(self).playback(),
            ).1,
    {
        self.horaire = now;
        let _ = self.load_alarms(contents, parsed);
        self.check_alarms_on(day_of_week)
    }

    /// One tick of the alarm clock at the local time and weekday of the
    /// moment of the call, both taken from one reading of the clock:
    /// refreshes the clock reading held, loads the list from what was read
    /// from the store, and starts the first alarm that is due.
    pub fn on_tick(&mut self, contents: &str, parsed: Option<Vec<AlarmClock>>) -> (actions: Vec<
        PlayerAction,
    >)
        ensures
            final(self).horaire.wf(),
            final(self).model() == list_after_load(
                old(self).model(),
                contents@,
                parsed_views(parsed),
            ),
            exists|day: int|
                0 <= day < 7 && final(self).playback() == (#[trigger] check_outcome(
                    final(self).model(),
                    final(self).horaire,
                    day,
                    old(self).playback(),
                )).0 && action_views(actions@) == check_outcome(
                    final(self).model(),
                    final(self).horaire,
                    day,
                    old(self).playback(),
                ).1,
    {
        let reading = read_local_clock();
        let now = Horaire::from_reading(reading.hour, reading.minute, reading.second);
        let day = reading.weekday;
        let actions = self.tick_at(now, day as usize, contents, parsed);
        assert(final(self).playback() == check_outcome(
            final(self).model(),
            final(self).horaire,
            day as int,
            old(self).playback(),
        ).0);
        actions
    }

    /// Checks the alarms against the clock reading held, on the local day
    /// of the week at the moment of the call, and starts the one that is
    /// due.
    pub fn check_alarms(&mut self) -> (actions: Vec<PlayerAction>)
        ensures
            exists|day: int|
                0 <= day < 7 && final(self).playback() == (#[trigger] check_outcome(
                    old(self).model(),
                    old(self).horaire,
                    day,
                    old(self).playback(),
                )).0 && action_views(actions@) == check_outcome(
                    old(self).model(),
                    old(self).horaire,
                    day,
                    old(self).playback(),
                ).1,
            final(self).alarms@ == old(self).alarms@,
            final(self).horaire == old(self).horaire,
    {
        let day = read_local_clock().weekday;
        let actions = self.check_alarms_on(day as usize);
        assert(final(self).playback() == check_outcome(
            old(self).model(),
            old(self).horaire,
            day as int,
            old(self).playback(),
        ).0);
        actions
    }
}

} // verus!
