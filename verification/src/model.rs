//! The plain alarm: a time of day and one source, for every day alike.
//!
//! A plain alarm plays either the stream at `link` or a song kept under
//! `music/`. It knows no weekdays and no stations; the alarms of
//! `modelmod` do.

use crate::text::{decimal, push_decimal};
use vstd::prelude::*;
use vstd::string::*;

verus! {

pub use crate::modelmod::Horaire;

/// Where the song of a plain alarm is kept: `music/Alarm_<id>.mp3`, the
/// identifier written in decimal.
pub open spec fn music_path_of(id: nat) -> Seq<char> {
    "music/Alarm_"@ + decimal(id) + ".mp3"@
}

/// A plain alarm.
#[derive(Debug, PartialEq, Eq)]
pub struct AlarmClock {
    pub horaire: Horaire,
    pub status: bool,
    pub is_radio: bool,
    pub song: String,
    pub link: String,
    pub id: usize,
}

/// What a plain alarm holds, as mathematical values.
pub ghost struct PlainAlarmView {
    pub horaire: Horaire,
    pub status: bool,
    pub is_radio: bool,
    pub song: Seq<char>,
    pub link: Seq<char>,
    pub id: nat,
}

impl View for AlarmClock {
    type V = PlainAlarmView;

    open spec fn view(&self) -> PlainAlarmView {
        PlainAlarmView {
            horaire: self.horaire,
            status: self.status,
            is_radio: self.is_radio,
            song: self.song@,
            link: self.link@,
            id: self.id as nat,
        }
    }
}

impl Clone for AlarmClock {
    fn clone(&self) -> (copy: Self)
        ensures
            copy@ == self@,
    {
        AlarmClock {
            horaire: self.horaire,
            status: self.status,
            is_radio: self.is_radio,
            song: self.song.clone(),
            link: self.link.clone(),
            id: self.id,
        }
    }
}

impl AlarmClock {
    /// A new plain alarm, switched on. One that is no radio alarm keeps
    /// its song under `music/Alarm_<id>.mp3`; a radio alarm has no song.
    pub fn new(hour: u8, minute: u8, second: u8, link: String, is_radio: bool, id: usize) -> (alarm:
        Self)
        ensures
            alarm@ == (PlainAlarmView {
                horaire: Horaire { hour, minute, second },
                status: true,
                is_radio,
                song: if is_radio {
                    Seq::<char>::empty()
                } else {
                    music_path_of(id as nat)
                },
                link: link@,
                id: id as nat,
            }),
    {
        let song = if !is_radio {
            let mut path = String::from_str("music/Alarm_");
            push_decimal(&mut path, id);
            path.append(".mp3");
            path
        } else {
            String::new()
        };
        Self { horaire: Horaire { hour, minute, second }, status: true, is_radio, song, link, id }
    }

    /// Whether the alarm's time of day is `other`, to the second. Whether
    /// the alarm is switched on plays no part.
    pub fn to_compare(&self, other: &Horaire) -> (same: bool)
        ensures
            same == (self.horaire.hour == other.hour && self.horaire.minute == other.minute
                && self.horaire.second == other.second),
    {
        self.horaire.hour == other.hour && self.horaire.minute == other.minute
            && self.horaire.second == other.second
    }
}

} // verus!
