use alarm_clock::controllermod::Controller;
use alarm_clock::modelmod::RadioStation;
use alarm_clock::musicmod::{Music, MusicCommand, PlaybackKind, PlayerAction, RadioPlayer, WavPlayer};

const FRANCE_INFO: &str = "http://direct.franceinfo.fr/live/franceinfo-midfi.mp3";
const FRANCE_INTER: &str = "http://direct.franceinter.fr/live/franceinter-midfi.mp3";

fn launch_radio(url: &str) -> PlayerAction {
    PlayerAction::Launch(PlaybackKind::Radio, MusicCommand::PlayUrl(String::from(url)))
}

fn launch_file(path: &str) -> PlayerAction {
    PlayerAction::Launch(PlaybackKind::LocalFile, MusicCommand::PlayFile(String::from(path)))
}

fn stop_radio() -> PlayerAction {
    PlayerAction::SendStop(PlaybackKind::Radio)
}

fn stop_file() -> PlayerAction {
    PlayerAction::SendStop(PlaybackKind::LocalFile)
}

#[test]
fn radio_player_first_play_only_launches() {
    let mut player = RadioPlayer::new();
    assert_eq!(player.play(String::from("http://a")), vec![launch_radio("http://a")]);
}

#[test]
fn radio_player_replay_retires_the_session_before() {
    let mut player = RadioPlayer::new();
    player.play(String::from("http://a"));
    assert_eq!(
        player.play(String::from("http://b")),
        vec![stop_radio(), launch_radio("http://b")]
    );
}

#[test]
fn radio_player_stop_signals_and_keeps_the_sender() {
    let mut player = RadioPlayer::new();
    assert!(player.stop().is_empty());
    player.play(String::from("http://a"));
    assert_eq!(player.stop(), vec![stop_radio()]);
    assert_eq!(player.stop(), vec![stop_radio()]);
    assert_eq!(
        player.play(String::from("http://b")),
        vec![stop_radio(), launch_radio("http://b")]
    );
}

#[test]
fn radio_player_start_takes_any_command() {
    let mut player = RadioPlayer::new();
    assert_eq!(
        player.start(MusicCommand::Stop),
        vec![PlayerAction::Launch(PlaybackKind::Radio, MusicCommand::Stop)]
    );
    assert_eq!(
        player.start(MusicCommand::PlayFile(String::from("x.wav"))),
        vec![
            stop_radio(),
            PlayerAction::Launch(PlaybackKind::Radio, MusicCommand::PlayFile(String::from("x.wav"))),
        ]
    );
}

#[test]
fn wav_player_plays_files() {
    let mut player = WavPlayer::new();
    assert!(player.stop().is_empty());
    assert_eq!(player.play(String::from("song/Alarm_0.wav")), vec![launch_file("song/Alarm_0.wav")]);
    assert_eq!(player.stop(), vec![stop_file()]);
    assert_eq!(
        player.play(String::from("song/Alarm_1.wav")),
        vec![stop_file(), launch_file("song/Alarm_1.wav")]
    );
    assert_eq!(
        player.start(MusicCommand::PlayUrl(String::from("http://a"))),
        vec![
            stop_file(),
            PlayerAction::Launch(PlaybackKind::LocalFile, MusicCommand::PlayUrl(String::from("http://a"))),
        ]
    );
}

#[test]
fn start_radio_then_file_leaves_the_file_playing() {
    let mut controller = Controller::new();
    controller.on_radio_clicked(1);
    let first = controller.start_player(true, String::new());
    assert_eq!(first, vec![launch_radio(FRANCE_INFO)]);
    assert_eq!(controller.now_playing, Some(PlaybackKind::Radio));
    let second = controller.start_player(false, String::from("x.wav"));
    assert_eq!(second, vec![stop_radio(), launch_file("x.wav")]);
    assert_eq!(controller.now_playing, Some(PlaybackKind::LocalFile));
}

#[test]
fn start_file_then_radio_leaves_the_radio_playing() {
    let mut controller = Controller::new();
    controller.on_radio_clicked(2);
    let first = controller.start_player(false, String::from("x.wav"));
    assert_eq!(first, vec![launch_file("x.wav")]);
    let second = controller.start_player(true, String::from("ignored"));
    assert_eq!(second, vec![stop_file(), launch_radio(FRANCE_INTER)]);
    assert_eq!(controller.now_playing, Some(PlaybackKind::Radio));
}

#[test]
fn restart_of_the_same_kind_signals_the_old_session() {
    let mut controller = Controller::new();
    controller.start_player(false, String::from("a.wav"));
    let again = controller.start_player(false, String::from("b.wav"));
    assert_eq!(again, vec![stop_file(), stop_file(), launch_file("b.wav")]);
    assert_eq!(controller.now_playing, Some(PlaybackKind::LocalFile));
}

#[test]
fn start_after_a_stop_does_not_stop_again() {
    let mut controller = Controller::new();
    controller.on_radio_clicked(1);
    controller.start_player(true, String::new());
    assert_eq!(controller.stop_player(), vec![stop_radio()]);
    assert_eq!(controller.now_playing, None);
    let actions = controller.start_player(false, String::from("x.wav"));
    assert_eq!(actions, vec![launch_file("x.wav")]);
}

#[test]
fn stop_signals_both_players() {
    let mut controller = Controller::new();
    assert!(controller.stop_player().is_empty());
    controller.on_radio_clicked(1);
    controller.start_player(true, String::new());
    controller.start_player(false, String::from("x.wav"));
    assert_eq!(controller.stop_player(), vec![stop_radio(), stop_file()]);
    assert_eq!(controller.now_playing, None);
    assert_eq!(controller.on_arret_clicked(), vec![stop_radio(), stop_file()]);
    assert_eq!(controller.now_playing, None);
}

#[test]
fn radio_without_station_launches_nothing() {
    let mut controller = Controller::new();
    let actions = controller.start_player(true, String::new());
    assert!(actions.is_empty());
    assert_eq!(controller.now_playing, Some(PlaybackKind::Radio));
    let actions = controller.on_marche_clicked();
    assert!(actions.is_empty());
    assert_eq!(controller.now_playing, Some(PlaybackKind::Radio));
}

#[test]
fn on_button_starts_the_selected_station() {
    let mut controller = Controller::new();
    controller.on_radio_clicked(2);
    assert_eq!(controller.on_marche_clicked(), vec![launch_radio(FRANCE_INTER)]);
    assert_eq!(controller.now_playing, Some(PlaybackKind::Radio));
    assert_eq!(
        controller.on_marche_clicked(),
        vec![stop_radio(), stop_radio(), launch_radio(FRANCE_INTER)]
    );
}

#[test]
fn station_button_selects_without_playing() {
    let mut controller = Controller::new();
    for (button, station) in [
        (1u8, RadioStation::FranceInfo),
        (2, RadioStation::FranceInter),
        (3, RadioStation::RTL),
        (4, RadioStation::RireChanson),
        (5, RadioStation::Skyrock),
    ] {
        assert!(controller.on_radio_clicked(button).is_empty());
        assert_eq!(controller.current_radio.selected_radio, Some(station));
        assert_eq!(controller.now_playing, None);
    }
    assert!(controller.on_radio_clicked(0).is_empty());
    assert!(controller.on_radio_clicked(6).is_empty());
    assert_eq!(controller.current_radio.selected_radio, Some(RadioStation::Skyrock));
}

#[test]
fn station_button_restarts_what_plays() {
    let mut controller = Controller::new();
    controller.on_radio_clicked(1);
    controller.on_marche_clicked();
    let actions = controller.on_radio_clicked(2);
    assert_eq!(
        actions,
        vec![stop_radio(), PlayerAction::Pause(10), stop_radio(), launch_radio(FRANCE_INTER)]
    );
    assert_eq!(controller.now_playing, Some(PlaybackKind::Radio));
    assert_eq!(controller.current_radio.selected_radio, Some(RadioStation::FranceInter));
}

#[test]
fn station_button_turns_a_playing_file_into_radio() {
    let mut controller = Controller::new();
    controller.start_player(false, String::from("x.wav"));
    let actions = controller.on_radio_clicked(1);
    assert_eq!(
        actions,
        vec![stop_file(), PlayerAction::Pause(10), launch_radio(FRANCE_INFO)]
    );
    assert_eq!(controller.now_playing, Some(PlaybackKind::Radio));
}

#[test]
fn unknown_station_button_restarts_on_the_old_selection() {
    let mut controller = Controller::new();
    controller.on_radio_clicked(1);
    controller.on_marche_clicked();
    let actions = controller.on_radio_clicked(9);
    assert_eq!(
        actions,
        vec![stop_radio(), PlayerAction::Pause(10), stop_radio(), launch_radio(FRANCE_INFO)]
    );
    assert_eq!(controller.current_radio.selected_radio, Some(RadioStation::FranceInfo));
}

#[test]
fn playback_leaves_the_alarms() {
    let mut controller = Controller::new();
    controller.on_radio_clicked(1);
    assert!(controller.add_alarm(
        String::from("a"),
        1,
        2,
        3,
        String::new(),
        String::new(),
        [true; 7],
    ));
    let before = controller.save_alarms();
    controller.on_marche_clicked();
    controller.start_player(false, String::from("x.wav"));
    controller.on_radio_clicked(3);
    controller.on_arret_clicked();
    assert_eq!(controller.alarms, before);
}
