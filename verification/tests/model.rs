use alarm_clock::modelmod::{AlarmClock, Horaire, Radio, RadioStation, SongStep};

const WEEKDAYS: [bool; 7] = [true, true, true, true, true, false, false];
const WEDNESDAY: [bool; 7] = [false, false, true, false, false, false, false];

fn radio_alarm(hour: u8, minute: u8, second: u8, days: [bool; 7]) -> AlarmClock {
    AlarmClock::new(
        0,
        String::from("Wake"),
        hour,
        minute,
        second,
        String::new(),
        true,
        Some(RadioStation::FranceInter),
        days,
    )
}

#[test]
fn radio_starts_without_station() {
    let radio = Radio::new();
    assert!(radio.selected_radio.is_none());
    assert_eq!(radio.get_url(), None);
}

#[test]
fn radio_url_of_each_station() {
    let mut radio = Radio::new();
    radio.selected_radio = Some(RadioStation::FranceInfo);
    assert_eq!(radio.get_url(), Some("http://direct.franceinfo.fr/live/franceinfo-midfi.mp3"));
    radio.selected_radio = Some(RadioStation::FranceInter);
    assert_eq!(radio.get_url(), Some("http://direct.franceinter.fr/live/franceinter-midfi.mp3"));
    radio.selected_radio = Some(RadioStation::RTL);
    assert_eq!(radio.get_url(), Some("http://streaming.radio.rtl.fr/rtl-1-44-128"));
    radio.selected_radio = Some(RadioStation::RireChanson);
    assert_eq!(radio.get_url(), Some("http://cdn.nrjaudio.fm/audio1/fr/30401/mp3_128.mp3"));
    radio.selected_radio = Some(RadioStation::Skyrock);
    assert_eq!(radio.get_url(), Some("http://icecast.skyrock.net/s/natio_mp3_128k"));
}

#[test]
fn station_urls_are_distinct() {
    let stations = [
        RadioStation::FranceInfo,
        RadioStation::FranceInter,
        RadioStation::RTL,
        RadioStation::RireChanson,
        RadioStation::Skyrock,
    ];
    for (i, a) in stations.iter().enumerate() {
        for (j, b) in stations.iter().enumerate() {
            assert_eq!(a.url() == b.url(), i == j);
        }
    }
}

#[test]
fn station_of_each_button() {
    assert_eq!(RadioStation::from_button(0), None);
    assert_eq!(RadioStation::from_button(1), Some(RadioStation::FranceInfo));
    assert_eq!(RadioStation::from_button(2), Some(RadioStation::FranceInter));
    assert_eq!(RadioStation::from_button(3), Some(RadioStation::RTL));
    assert_eq!(RadioStation::from_button(4), Some(RadioStation::RireChanson));
    assert_eq!(RadioStation::from_button(5), Some(RadioStation::Skyrock));
    assert_eq!(RadioStation::from_button(6), None);
    assert_eq!(RadioStation::from_button(255), None);
}

#[test]
fn song_path_is_decimal_id() {
    assert_eq!(AlarmClock::song_path(0), "song/Alarm_0.wav");
    assert_eq!(AlarmClock::song_path(7), "song/Alarm_7.wav");
    assert_eq!(AlarmClock::song_path(10), "song/Alarm_10.wav");
    assert_eq!(AlarmClock::song_path(1203), "song/Alarm_1203.wav");
    assert_eq!(AlarmClock::song_path(usize::MAX), format!("song/Alarm_{}.wav", usize::MAX));
}

#[test]
fn get_song_takes_first_line_of_title() {
    let (title, path) = AlarmClock::get_song(3, "Morning Song\n");
    assert_eq!(title, "Morning Song");
    assert_eq!(path, "song/Alarm_3.wav");
    let (title, path) = AlarmClock::get_song(12, "");
    assert_eq!(title, "");
    assert_eq!(path, "song/Alarm_12.wav");
    let (title, _) = AlarmClock::get_song(0, "one\ntwo\nthree");
    assert_eq!(title, "one");
}

#[test]
fn clock_reading_is_a_time_of_day() {
    let now = Horaire::new();
    assert!(now.get_hour() < 24);
    assert!(now.get_min() < 60);
    assert!(now.get_sec() < 60);
    let mut later = Horaire { hour: 99, minute: 99, second: 99 };
    later.update_time();
    assert!(later.hour < 24);
    assert!(later.minute < 60);
    assert!(later.second < 60);
}

#[test]
fn horaire_from_reading_and_getters() {
    let time = Horaire::from_reading(23, 59, 58);
    assert_eq!(time, Horaire { hour: 23, minute: 59, second: 58 });
    assert_eq!(time.get_hour(), 23);
    assert_eq!(time.get_min(), 59);
    assert_eq!(time.get_sec(), 58);
    let midnight = Horaire::from_reading(0, 0, 0);
    assert_eq!(midnight, Horaire { hour: 0, minute: 0, second: 0 });
}

#[test]
fn new_radio_alarm_holds_no_file() {
    let alarm = AlarmClock::new(
        4,
        String::from("News"),
        6,
        45,
        30,
        String::from("ignored title\n"),
        true,
        Some(RadioStation::RTL),
        WEEKDAYS,
    );
    assert_eq!(alarm.a_id, 4);
    assert_eq!(alarm.name, "News");
    assert_eq!(alarm.horaire, Horaire { hour: 6, minute: 45, second: 30 });
    assert!(alarm.active);
    assert!(alarm.is_radio);
    assert_eq!(alarm.song_path, "");
    assert_eq!(alarm.song_title, "");
    assert_eq!(alarm.a_radio, Some(RadioStation::RTL));
    assert_eq!(alarm.days, WEEKDAYS);
    assert!(alarm.is_valid());
}

#[test]
fn new_file_alarm_keeps_path_and_title() {
    let alarm = AlarmClock::new(
        21,
        String::from("Song"),
        7,
        5,
        0,
        String::from("A Title\nsecond line\n"),
        false,
        None,
        WEDNESDAY,
    );
    assert_eq!(alarm.a_id, 21);
    assert!(alarm.active);
    assert!(!alarm.is_radio);
    assert_eq!(alarm.song_path, "song/Alarm_21.wav");
    assert_eq!(alarm.song_title, "A Title");
    assert_eq!(alarm.a_radio, None);
    assert_eq!(alarm.days, WEDNESDAY);
    assert!(alarm.is_valid());
}

#[test]
fn alarm_validity() {
    assert!(radio_alarm(23, 59, 59, WEEKDAYS).is_valid());
    assert!(!radio_alarm(24, 0, 0, WEEKDAYS).is_valid());
    assert!(!radio_alarm(0, 60, 0, WEEKDAYS).is_valid());
    assert!(!radio_alarm(0, 0, 60, WEEKDAYS).is_valid());
    let mut both = AlarmClock::new(
        0,
        String::new(),
        1,
        2,
        3,
        String::new(),
        false,
        None,
        WEEKDAYS,
    );
    assert!(both.is_valid());
    both.a_radio = Some(RadioStation::Skyrock);
    assert!(!both.is_valid());
    let mut radio_with_file = radio_alarm(1, 2, 3, WEEKDAYS);
    radio_with_file.song_path = String::from("song/Alarm_0.wav");
    assert!(!radio_with_file.is_valid());
    let mut radio_with_title = radio_alarm(1, 2, 3, WEEKDAYS);
    radio_with_title.song_title = String::from("Title");
    assert!(!radio_with_title.is_valid());
}

#[test]
fn new_file_alarm_takes_no_station() {
    let alarm = AlarmClock::new(
        1,
        String::from("Song"),
        7,
        5,
        0,
        String::from("A Title\n"),
        false,
        Some(RadioStation::RTL),
        WEDNESDAY,
    );
    assert!(!alarm.is_radio);
    assert_eq!(alarm.a_radio, None);
    assert_eq!(alarm.song_path, "song/Alarm_1.wav");
    assert_eq!(alarm.song_title, "A Title");
    assert!(alarm.is_valid());
}

#[test]
fn new_alarm_has_exactly_one_source() {
    for station in [None, Some(RadioStation::FranceInfo), Some(RadioStation::Skyrock)] {
        let file = AlarmClock::new(
            3,
            String::new(),
            0,
            0,
            0,
            String::from("T"),
            false,
            station,
            WEEKDAYS,
        );
        assert!(file.a_radio.is_none());
        assert!(!file.song_path.is_empty());
        let radio = AlarmClock::new(
            3,
            String::new(),
            0,
            0,
            0,
            String::from("T"),
            true,
            station,
            WEEKDAYS,
        );
        assert_eq!(radio.a_radio, station);
        assert!(radio.song_path.is_empty());
        assert!(radio.song_title.is_empty());
    }
}

#[test]
fn clone_keeps_every_field() {
    let alarm = AlarmClock::new(
        2,
        String::from("Song"),
        7,
        5,
        9,
        String::from("Title"),
        false,
        None,
        WEDNESDAY,
    );
    let copy = alarm.clone();
    assert_eq!(copy, alarm);
}

#[test]
fn to_compare_needs_time_and_day() {
    let alarm = radio_alarm(8, 30, 0, WEDNESDAY);
    let now = Horaire { hour: 8, minute: 30, second: 0 };
    assert!(alarm.to_compare(&now, 2));
    assert!(!alarm.to_compare(&now, 0));
    assert!(!alarm.to_compare(&now, 1));
    assert!(!alarm.to_compare(&now, 3));
    assert!(!alarm.to_compare(&now, 6));
    assert!(!alarm.to_compare(&Horaire { hour: 9, minute: 30, second: 0 }, 2));
    assert!(!alarm.to_compare(&Horaire { hour: 8, minute: 31, second: 0 }, 2));
    assert!(!alarm.to_compare(&Horaire { hour: 8, minute: 30, second: 1 }, 2));
}

#[test]
fn to_compare_ignores_the_switch() {
    let mut alarm = radio_alarm(8, 30, 0, WEDNESDAY);
    alarm.active = false;
    let now = Horaire { hour: 8, minute: 30, second: 0 };
    assert!(alarm.to_compare(&now, 2));
    assert!(!alarm.is_due(&now, 2));
    alarm.active = true;
    assert!(alarm.is_due(&now, 2));
    assert!(!alarm.is_due(&now, 3));
}

#[test]
fn song_steps_in_order() {
    let step = SongStep::first();
    assert_eq!(step, SongStep::Download);
    let step = step.next(true);
    assert_eq!(step, SongStep::FindFile);
    let step = step.next(true);
    assert_eq!(step, SongStep::AskTitle);
    let step = step.next(true);
    assert_eq!(step, SongStep::Done);
    assert_eq!(step.next(true), SongStep::Done);
}

#[test]
fn song_steps_end_at_a_failure() {
    for step in [SongStep::Download, SongStep::FindFile, SongStep::AskTitle, SongStep::Done] {
        assert_eq!(step.next(false), SongStep::Done);
    }
}
