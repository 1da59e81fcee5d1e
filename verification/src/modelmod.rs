//! The alarm clock's data: radio stations, clock readings and alarms.

use crate::clock::read_local_clock;
use crate::text::{decimal, first_line, push_decimal, take_first_line};
use vstd::prelude::*;
use vstd::string::*;

verus! {

/// The radio stations that an alarm can tune to.
#[derive(Clone, Copy, Debug, PartialEq, Eq, Structural)]
pub enum RadioStation {
    FranceInfo,
    FranceInter,
    RTL,
    RireChanson,
    Skyrock,
}

/// The stream address of each station.
pub open spec fn station_url(station: RadioStation) -> Seq<char> {
    match station {
        RadioStation::FranceInfo => "http://direct.franceinfo.fr/live/franceinfo-midfi.mp3"@,
        RadioStation::FranceInter => "http://direct.franceinter.fr/live/franceinter-midfi.mp3"@,
        RadioStation::RTL => "http://streaming.radio.rtl.fr/rtl-1-44-128"@,
        RadioStation::RireChanson => "http://cdn.nrjaudio.fm/audio1/fr/30401/mp3_128.mp3"@,
        RadioStation::Skyrock => "http://icecast.skyrock.net/s/natio_mp3_128k"@,
    }
}

/// The station that the selector button numbered `button` stands for:
/// buttons 1 to 5 in the order of the enumeration, no station otherwise.
pub open spec fn station_of_button(button: u8) -> Option<RadioStation> {
    if button == 1 {
        Some(RadioStation::FranceInfo)
    } else if button == 2 {
        Some(RadioStation::FranceInter)
    } else if button == 3 {
        Some(RadioStation::RTL)
    } else if button == 4 {
        Some(RadioStation::RireChanson)
    } else if button == 5 {
        Some(RadioStation::Skyrock)
    } else {
        None
    }
}

impl RadioStation {
    /// The stream address of this station. Every station has one.
    pub fn url(&self) -> (url: &'static str)
        ensures
            url@ == station_url(*self),
    {
        match self {
            RadioStation::FranceInfo => "http://direct.franceinfo.fr/live/franceinfo-midfi.mp3",
            RadioStation::FranceInter => "http://direct.franceinter.fr/live/franceinter-midfi.mp3",
            RadioStation::RTL => "http://streaming.radio.rtl.fr/rtl-1-44-128",
            RadioStation::RireChanson => "http://cdn.nrjaudio.fm/audio1/fr/30401/mp3_128.mp3",
            RadioStation::Skyrock => "http://icecast.skyrock.net/s/natio_mp3_128k",
        }
    }

    /// The station behind selector button `button`, if it is one of 1 to 5.
    pub fn from_button(button: u8) -> (station: Option<RadioStation>)
        ensures
            station == station_of_button(button),
    {
        if button == 1 {
            Some(RadioStation::FranceInfo)
        } else if button == 2 {
            Some(RadioStation::FranceInter)
        } else if button == 3 {
            Some(RadioStation::RTL)
        } else if button == 4 {
            Some(RadioStation::RireChanson)
        } else if button == 5 {
            Some(RadioStation::Skyrock)
        } else {
            None
        }
    }
}

/// No two stations share a stream address.
pub proof fn lemma_station_urls_distinct(a: RadioStation, b: RadioStation)
    requires
        a != b,
    ensures
        station_url(a) != station_url(b),
{
    reveal_strlit("http://direct.franceinfo.fr/live/franceinfo-midfi.mp3");
    reveal_strlit("http://direct.franceinter.fr/live/franceinter-midfi.mp3");
    reveal_strlit("http://streaming.radio.rtl.fr/rtl-1-44-128");
    reveal_strlit("http://cdn.nrjaudio.fm/audio1/fr/30401/mp3_128.mp3");
    reveal_strlit("http://icecast.skyrock.net/s/natio_mp3_128k");
    let ua = station_url(a);
    let ub = station_url(b);
    if ua.len() == ub.len() {
        assert(ua[7] != ub[7]);
    }
}

/// The station that the listener has selected, if any.
#[derive(Clone, Copy, Debug)]
pub struct Radio {
    pub selected_radio: Option<RadioStation>,
}

impl Radio {
    /// A radio with no station selected.
    pub fn new() -> (radio: Self)
        ensures
            radio.selected_radio is None,
    {
        Radio { selected_radio: None }
    }

    /// The stream address of the selected station; `None` if no station is
    /// selected.
    pub fn get_url(&self) -> (url: Option<&'static str>)
        ensures
            match self.selected_radio {
                Some(station) => url is Some && url->0@ == station_url(station),
                None => url is None,
            },
    {
        match self.selected_radio {
            Some(station) => Some(station.url()),
            None => None,
        }
    }
}

/// A time of day.
#[derive(Clone, Copy, Debug, PartialEq, Eq, Structural)]
pub struct Horaire {
    pub hour: u8,
    pub minute: u8,
    pub second: u8,
}

impl Horaire {
    /// The fields name a time of day: hour 0 to 23, minute and second 0 to 59.
    pub open spec fn wf(&self) -> bool {
        self.hour < 24 && self.minute < 60 && self.second < 60
    }

    /// The time of day made of a clock reading whose parts are in range.
    pub fn from_reading(hour: u32, minute: u32, second: u32) -> (time: Self)
        requires
            hour < 24,
            minute < 60,
            second < 60,
        ensures
            time.hour == hour,
            time.minute == minute,
            time.second == second,
            time.wf(),
    {
        Horaire { hour: hour as u8, minute: minute as u8, second: second as u8 }
    }

    /// The local time of day at the moment of the call.
    pub fn new() -> (time: Self)
        ensures
            time.wf(),
    {
        let reading = read_local_clock();
        Horaire::from_reading(reading.hour, reading.minute, reading.second)
    }

    /// Replaces the time held with the local time of day at the moment of
    /// the call.
    pub fn update_time(&mut self)
        ensures
            final(self).wf(),
    {
        let reading = read_local_clock();
        *self = Horaire::from_reading(reading.hour, reading.minute, reading.second);
    }

    /// The hour.
    pub fn get_hour(&self) -> (hour: u8)
        ensures
            hour == self.hour,
    {
        self.hour
    }

    /// The minute.
    pub fn get_min(&self) -> (minute: u8)
        ensures
            minute == self.minute,
    {
        self.minute
    }

    /// The second.
    pub fn get_sec(&self) -> (second: u8)
        ensures
            second == self.second,
    {
        self.second
    }
}

/// A step in getting the song of a file alarm from its link.
#[derive(Clone, Copy, Debug, PartialEq, Eq, Structural)]
pub enum SongStep {
    /// Download the audio to the path of the alarm.
    Download,
    /// See that the audio file is there.
    FindFile,
    /// Ask for the title of the song.
    AskTitle,
    /// Nothing more to do.
    Done,
}

/// The step that follows `step`: the next in order after a success,
/// `Done` after a failure. `Done` has no successor but itself.
pub open spec fn step_after(step: SongStep, succeeded: bool) -> SongStep {
    if !succeeded {
        SongStep::Done
    } else {
        match step {
            SongStep::Download => SongStep::FindFile,
            SongStep::FindFile => SongStep::AskTitle,
            SongStep::AskTitle => SongStep::Done,
            SongStep::Done => SongStep::Done,
        }
    }
}

impl SongStep {
    /// The step with which getting a song begins.
    pub fn first() -> (step: SongStep)
        ensures
            step == SongStep::Download,
    {
        SongStep::Download
    }

    /// The step to take after this one succeeded or failed. A failure
    /// ends the acquisition: the title is asked for only once the audio
    /// was downloaded and found.
    pub fn next(self, succeeded: bool) -> (step: SongStep)
        ensures
            step == step_after(self, succeeded),
    {
        if !succeeded {
            SongStep::Done
        } else {
            match self {
                SongStep::Download => SongStep::FindFile,
                SongStep::FindFile => SongStep::AskTitle,
                SongStep::AskTitle => SongStep::Done,
                SongStep::Done => SongStep::Done,
            }
        }
    }
}

/// Where the audio file of a file alarm is kept: `song/Alarm_<id>.wav`,
/// the identifier written in decimal.
pub open spec fn song_path_of(a_id: nat) -> Seq<char> {
    "song/Alarm_"@ + decimal(a_id) + ".wav"@
}

/// An alarm: a time of day, the weekdays on which it fires, whether it is
/// switched on, and what it plays.
///
/// `days[0]` is Monday and `days[6]` is Sunday. An alarm plays either a
/// radio station (`is_radio`, with the station in `a_radio`) or a local
/// audio file (`song_path`, with its title in `song_title`).
#[derive(Debug, PartialEq, Eq)]
pub struct AlarmClock {
    pub horaire: Horaire,
    pub active: bool,
    pub is_radio: bool,
    pub song_path: String,
    pub song_title: String,
    pub a_radio: Option<RadioStation>,
    pub a_id: usize,
    pub name: String,
    pub days: [bool; 7],
}

/// What an alarm holds, as mathematical values.
pub ghost struct AlarmView {
    pub horaire: Horaire,
    pub active: bool,
    pub is_radio: bool,
    pub song_path: Seq<char>,
    pub song_title: Seq<char>,
    pub a_radio: Option<RadioStation>,
    pub a_id: nat,
    pub name: Seq<char>,
    pub days: Seq<bool>,
}

impl AlarmView {
    /// The alarm's time of day is `now`, to the second, and it is set for
    /// weekday `day`.
    pub open spec fn matches_instant(self, now: Horaire, day: int) -> bool {
        &&& self.horaire.hour == now.hour
        &&& self.horaire.minute == now.minute
        &&& self.horaire.second == now.second
        &&& 0 <= day < self.days.len()
        &&& self.days[day]
    }

    /// The alarm fires at `now` on weekday `day`: it is switched on and
    /// matches the instant.
    pub open spec fn is_due(self, now: Horaire, day: int) -> bool {
        self.active && self.matches_instant(now, day)
    }

    /// The same alarm under the identifier `a_id`.
    pub open spec fn with_id(self, a_id: nat) -> AlarmView {
        AlarmView { a_id, ..self }
    }

    /// The same alarm switched on if it was off, and off if it was on.
    pub open spec fn toggled(self) -> AlarmView {
        AlarmView { active: !self.active, ..self }
    }

    /// The time is a time of day, there are seven weekdays, and exactly one
    /// source is filled in: a radio alarm names no file, a file alarm no
    /// station.
    pub open spec fn wf(self) -> bool {
        &&& self.horaire.wf()
        &&& self.days.len() == 7
        &&& self.is_radio ==> self.song_path.len() == 0 && self.song_title.len() == 0
        &&& !self.is_radio ==> self.a_radio is None
    }
}

impl View for AlarmClock {
    type V = AlarmView;

    open spec fn view(&self) -> AlarmView {
        AlarmView {
            horaire: self.horaire,
            active: self.active,
            is_radio: self.is_radio,
            song_path: self.song_path@,
            song_title: self.song_title@,
            a_radio: self.a_radio,
            a_id: self.a_id as nat,
            name: self.name@,
            days: self.days@,
        }
    }
}

impl Clone for AlarmClock {
    fn clone(&self) -> (copy: Self)
        ensures
            copy@ == self@,
    {
        AlarmClock {
            horaire: self.horaire,
            active: self.active,
            is_radio: self.is_radio,
            song_path: self.song_path.clone(),
            song_title: self.song_title.clone(),
            a_radio: self.a_radio,
            a_id: self.a_id,
            name: self.name.clone(),
            days: self.days,
        }
    }
}

impl AlarmClock {
    /// A new alarm, switched on.
    ///
    /// The alarm has exactly one source. A radio alarm holds the station
    /// `a_radio` and no file: its path and title are empty. A file alarm
    /// keeps its audio under `song/Alarm_<a_id>.wav`, takes its title from
    /// `title_output`, the text that the acquisition of the song printed, of
    /// which the first line counts, and holds no station: `a_radio` is not
    /// taken over.
    pub fn new(
        a_id: usize,
        name: String,
        hour: u8,
        minute: u8,
        second: u8,
        title_output: String,
        is_radio: bool,
        a_radio: Option<RadioStation>,
        days: [bool; 7],
    ) -> (alarm: Self)
        ensures
            alarm@ == (AlarmView {
                horaire: Horaire { hour, minute, second },
                active: true,
                is_radio,
                song_path: if is_radio {
                    Seq::<char>::empty()
                } else {
                    song_path_of(a_id as nat)
                },
                song_title: if is_radio {
                    Seq::<char>::empty()
                } else {
                    first_line(title_output@)
                },
                a_radio: if is_radio {
                    a_radio
                } else {
                    None
                },
                a_id: a_id as nat,
                name: name@,
                days: days@,
            }),
            alarm@.wf() <==> hour < 24 && minute < 60 && second < 60,
    {
        let (song_title, song_path) = if !is_radio {
            Self::get_song(a_id, title_output.as_str())
        } else {
            (String::new(), String::new())
        };
        Self {
            a_id,
            name,
            horaire: Horaire { hour, minute, second },
            active: true,
            is_radio,
            song_path,
            song_title,
            a_radio: if is_radio {
                a_radio
            } else {
                None
            },
            days,
        }
    }

    /// The path under which the song of alarm `a_id` is kept.
    pub fn song_path(a_id: usize) -> (path: String)
        ensures
            path@ == song_path_of(a_id as nat),
    {
        let mut path = String::from_str("song/Alarm_");
        push_decimal(&mut path, a_id);
        path.append(".wav");
        path
    }

    /// The title and the path of the song of alarm `a_id`, in that order.
    ///
    /// `title_output` is what the acquisition of the song printed as its
    /// title, empty where it failed; the title is its first line.
    pub fn get_song(a_id: usize, title_output: &str) -> (song: (String, String))
        ensures
            song.0@ == first_line(title_output@),
            song.1@ == song_path_of(a_id as nat),
    {
        let song_path = Self::song_path(a_id);
        let song_title = take_first_line(title_output);
        (song_title, song_path)
    }

    /// Whether the alarm's time of day is `other`, to the second, and the
    /// alarm is set for weekday `day_of_week` (0 = Monday, 6 = Sunday).
    /// Whether the alarm is switched on plays no part.
    pub fn to_compare(&self, other: &Horaire, day_of_week: usize) -> (same: bool)
        requires
            day_of_week < 7,
        ensures
            same == self@.matches_instant(*other, day_of_week as int),
    {
        self.horaire.hour == other.hour && self.horaire.minute == other.minute
            && self.horaire.second == other.second && self.days[day_of_week]
    }

    /// Whether the alarm fires at `now` on weekday `day_of_week`.
    pub fn is_due(&self, now: &Horaire, day_of_week: usize) -> (due: bool)
        requires
            day_of_week < 7,
        ensures
            due == self@.is_due(*now, day_of_week as int),
    {
        self.active && self.to_compare(now, day_of_week)
    }

    /// Whether the alarm is well formed: a time of day, and exactly one
    /// source filled in.
    pub fn is_valid(&self) -> (valid: bool)
        ensures
            valid == self@.wf(),
    {
        let time_ok = self.horaire.hour < 24 && self.horaire.minute < 60 && self.horaire.second
            < 60;
        let source_ok = if self.is_radio {
            self.song_path.as_str().is_empty() && self.song_title.as_str().is_empty()
        } else {
            self.a_radio.is_none()
        };
        time_ok && source_ok
    }
}

} // verus!
