//! Playback control: the two players and the life of a playback worker.
//!
//! A player never touches audio itself. Each operation returns, in order,
//! the steps that its caller has to carry out on the command channels and
//! worker threads, and records what the player holds afterwards.

use vstd::prelude::*;

verus! {

/// What a player tells a playback worker.
#[derive(Debug, PartialEq, Eq)]
pub enum MusicCommand {
    Stop,
    PlayUrl(String),
    PlayFile(String),
}

/// A command, as mathematical values.
pub ghost enum CommandView {
    Stop,
    PlayUrl(Seq<char>),
    PlayFile(Seq<char>),
}

impl View for MusicCommand {
    type V = CommandView;

    open spec fn view(&self) -> CommandView {
        match self {
            MusicCommand::Stop => CommandView::Stop,
            MusicCommand::PlayUrl(url) => CommandView::PlayUrl(url@),
            MusicCommand::PlayFile(path) => CommandView::PlayFile(path@),
        }
    }
}

/// The two kinds of playback, each with a player and workers of its own.
#[derive(Clone, Copy, Debug, PartialEq, Eq, Structural)]
pub enum PlaybackKind {
    Radio,
    LocalFile,
}

/// One step for the caller of a player to carry out.
#[derive(Debug, PartialEq, Eq)]
pub enum PlayerAction {
    /// Send `Stop` on the command channel whose sender is held for this
    /// kind, ignoring a failure to send, and do not wait for the worker.
    SendStop(PlaybackKind),
    /// Open a fresh command channel, keep its sender for this kind in place
    /// of any earlier one, and start a worker of this kind that owns the
    /// receiver and begins with the command.
    Launch(PlaybackKind, MusicCommand),
    /// Let this many milliseconds pass.
    Pause(u64),
}

/// A step, as mathematical values.
pub ghost enum ActionView {
    SendStop(PlaybackKind),
    Launch(PlaybackKind, CommandView),
    Pause(u64),
}

impl View for PlayerAction {
    type V = ActionView;

    open spec fn view(&self) -> ActionView {
        match self {
            PlayerAction::SendStop(kind) => ActionView::SendStop(*kind),
            PlayerAction::Launch(kind, command) => ActionView::Launch(*kind, command@),
            PlayerAction::Pause(millis) => ActionView::Pause(*millis),
        }
    }
}

/// The steps of `actions`, in order, as mathematical values.
pub open spec fn action_views(actions: Seq<PlayerAction>) -> Seq<ActionView> {
    actions.map_values(|action: PlayerAction| action@)
}

/// The steps that stop a player: one stop signal if it holds a sender,
/// nothing otherwise.
pub open spec fn stop_steps(kind: PlaybackKind, holds_sender: bool) -> Seq<ActionView> {
    if holds_sender {
        seq![ActionView::SendStop(kind)]
    } else {
        Seq::empty()
    }
}

/// The steps that start a session: the earlier session, if the player
/// holds its sender, is signalled to stop, then the new worker is launched.
pub open spec fn start_steps(kind: PlaybackKind, holds_sender: bool, command: CommandView) -> Seq<
    ActionView,
> {
    stop_steps(kind, holds_sender).push(ActionView::Launch(kind, command))
}

/// A source of music that can be played and stopped.
pub trait Music {
    /// The kind of playback that this player drives.
    spec fn kind(&self) -> PlaybackKind;

    /// Whether the player holds the sender of a command channel, that is,
    /// whether a session was started on it.
    spec fn holds_sender(&self) -> bool;

    /// The command with which this player plays `source`.
    spec fn play_command(&self, source: Seq<char>) -> CommandView;

    /// Starts a session that plays `source`, retiring the session before it.
    fn play(&mut self, source: String) -> (actions: Vec<PlayerAction>)
        ensures
            final(self).kind() == old(self).kind(),
            final(self).holds_sender(),
            action_views(actions@) == start_steps(
                old(self).kind(),
                old(self).holds_sender(),
                old(self).play_command(source@),
            ),
    ;

    /// Signals the current session, if there is one, to stop. The player
    /// keeps the sender: stopping again signals again.
    fn stop(&mut self) -> (actions: Vec<PlayerAction>)
        ensures
            final(self).kind() == old(self).kind(),
            final(self).holds_sender() == old(self).holds_sender(),
            action_views(actions@) == stop_steps(old(self).kind(), old(self).holds_sender()),
    ;
}

/// The player of radio streams.
#[derive(Debug)]
pub struct RadioPlayer {
    sender: bool,
}

/// The player of local audio files.
#[derive(Debug)]
pub struct WavPlayer {
    sender: bool,
}

/// The steps of a start on a player of `kind`.
fn start_session(kind: PlaybackKind, holds_sender: bool, command: MusicCommand) -> (actions: Vec<
    PlayerAction,
>)
    ensures
        action_views(actions@) == start_steps(kind, holds_sender, command@),
{
    let mut actions: Vec<PlayerAction> = Vec::new();
    if holds_sender {
        actions.push(PlayerAction::SendStop(kind));
    }
    actions.push(PlayerAction::Launch(kind, command));
    assert(action_views(actions@) =~= start_steps(kind, holds_sender, command@));
    actions
}

/// The steps of a stop on a player of `kind`.
fn stop_session(kind: PlaybackKind, holds_sender: bool) -> (actions: Vec<PlayerAction>)
    ensures
        action_views(actions@) == stop_steps(kind, holds_sender),
{
    let mut actions: Vec<PlayerAction> = Vec::new();
    if holds_sender {
        actions.push(PlayerAction::SendStop(kind));
    }
    assert(action_views(actions@) =~= stop_steps(kind, holds_sender));
    actions
}

impl RadioPlayer {
    /// A player that holds no sender.
    pub fn new() -> (player: Self)
        ensures
            !player.holds_sender(),
    {
        RadioPlayer { sender: false }
    }

    /// Starts a session with `command`: signals the session before it, if
    /// the player holds its sender, and launches a new radio worker.
    pub fn start(&mut self, command: MusicCommand) -> (actions: Vec<PlayerAction>)
        ensures
            final(self).holds_sender(),
            action_views(actions@) == start_steps(
                PlaybackKind::Radio,
                old(self).holds_sender(),
                command@,
            ),
    {
        let actions = start_session(PlaybackKind::Radio, self.sender, command);
        self.sender = true;
        actions
    }
}

impl WavPlayer {
    /// A player that holds no sender.
    pub fn new() -> (player: Self)
        ensures
            !player.holds_sender(),
    {
        WavPlayer { sender: false }
    }

    /// Starts a session with `command`: signals the session before it, if
    /// the player holds its sender, and launches a new file worker.
    pub fn start(&mut self, command: MusicCommand) -> (actions: Vec<PlayerAction>)
        ensures
            final(self).holds_sender(),
            action_views(actions@) == start_steps(
                PlaybackKind::LocalFile,
                old(self).holds_sender(),
                command@,
            ),
    {
        let actions = start_session(PlaybackKind::LocalFile, self.sender, command);
        self.sender = true;
        actions
    }
}

impl Music for RadioPlayer {
    open spec fn kind(&self) -> PlaybackKind {
        PlaybackKind::Radio
    }

    closed spec fn holds_sender(&self) -> bool {
        self.sender
    }

    open spec fn play_command(&self, source: Seq<char>) -> CommandView {
        CommandView::PlayUrl(source)
    }

    fn play(&mut self, url: String) -> (actions: Vec<PlayerAction>) {
        self.start(MusicCommand::PlayUrl(url))
    }

    fn stop(&mut self) -> (actions: Vec<PlayerAction>) {
        stop_session(PlaybackKind::Radio, self.sender)
    }
}

impl Music for WavPlayer {
    open spec fn kind(&self) -> PlaybackKind {
        PlaybackKind::LocalFile
    }

    closed spec fn holds_sender(&self) -> bool {
        self.sender
    }

    open spec fn play_command(&self, source: Seq<char>) -> CommandView {
        CommandView::PlayFile(source)
    }

    fn play(&mut self, file_path: String) -> (actions: Vec<PlayerAction>) {
        self.start(MusicCommand::PlayFile(file_path))
    }

    fn stop(&mut self) -> (actions: Vec<PlayerAction>) {
        stop_session(PlaybackKind::LocalFile, self.sender)
    }
}

/// Where a playback worker stands.
#[derive(Clone, Copy, Debug, PartialEq, Eq, Structural)]
pub enum WorkerState {
    /// No audio and no loop: the worker has not begun, or it has left.
    Idle,
    /// The worker is opening what its command names.
    Starting,
    /// The worker is in its loop: it streams and polls its command channel.
    Playing,
}

/// What a playback worker observes.
#[derive(Debug, PartialEq, Eq)]
pub enum WorkerEvent {
    /// What the command names was opened.
    Opened,
    /// What the command names could not be opened.
    OpenFailed,
    /// A poll of the command channel returned this command.
    Command(MusicCommand),
    /// A poll of the command channel found it empty.
    NoCommand,
    /// A poll of the command channel found that its sender is gone.
    Disconnected,
    /// The audio came to its end.
    EndOfStream,
    /// The audio could not be decoded or fetched any further.
    StreamError,
}

/// What a playback worker does next.
#[derive(Clone, Copy, Debug, PartialEq, Eq, Structural)]
pub enum WorkerAction {
    /// Open what the command names.
    Open,
    /// Start the audio, then poll the command channel.
    Stream,
    /// Go on, and poll the command channel again.
    Poll,
    /// Halt the audio and leave.
    Halt,
    /// Report the failure to the log, halt the audio and leave.
    Fail,
    /// Nothing.
    Rest,
}

/// Whether `command` is one that a worker of `kind` can open: an address
/// for a radio worker, a path for a file worker.
pub open spec fn opens(kind: PlaybackKind, command: CommandView) -> bool {
    match kind {
        PlaybackKind::Radio => command is PlayUrl,
        PlaybackKind::LocalFile => command is PlayFile,
    }
}

/// Whether `event` tells the worker to stop: a `Stop` command, or the loss
/// of the sender. The two count alike.
pub open spec fn is_stop_signal(event: WorkerEvent) -> bool {
    event matches WorkerEvent::Command(MusicCommand::Stop) || event is Disconnected
}

/// The state after `event` and what the worker then does.
///
/// A worker that is starting waits for its source: once opened it streams,
/// and if that fails it reports and leaves without ever playing. A worker
/// that is playing leaves on a stop signal and at the end of its stream,
/// reports and leaves on a stream error, and otherwise polls again. A worker
/// that has left stays so.
pub open spec fn worker_transition(state: WorkerState, event: WorkerEvent) -> (
    WorkerState,
    WorkerAction,
) {
    match state {
        WorkerState::Idle => (WorkerState::Idle, WorkerAction::Rest),
        WorkerState::Starting => {
            if event is Opened {
                (WorkerState::Playing, WorkerAction::Stream)
            } else if event is OpenFailed {
                (WorkerState::Idle, WorkerAction::Fail)
            } else {
                (WorkerState::Starting, WorkerAction::Rest)
            }
        },
        WorkerState::Playing => {
            if is_stop_signal(event) || event is EndOfStream {
                (WorkerState::Idle, WorkerAction::Halt)
            } else if event is StreamError {
                (WorkerState::Idle, WorkerAction::Fail)
            } else {
                (WorkerState::Playing, WorkerAction::Poll)
            }
        },
    }
}

/// How a worker of `kind` begins with `command`.
///
/// With a command that it can open it starts by opening it. With any other
/// command it has nothing to open: it goes straight to its loop, silent,
/// and waits there for its stop signal.
pub fn worker_begin(kind: PlaybackKind, command: &MusicCommand) -> (begin: (
    WorkerState,
    WorkerAction,
))
    ensures
        begin == if opens(kind, command@) {
            (WorkerState::Starting, WorkerAction::Open)
        } else {
            (WorkerState::Playing, WorkerAction::Poll)
        },
{
    let can_open = match kind {
        PlaybackKind::Radio => match command {
            MusicCommand::PlayUrl(_) => true,
            _ => false,
        },
        PlaybackKind::LocalFile => match command {
            MusicCommand::PlayFile(_) => true,
            _ => false,
        },
    };
    if can_open {
        (WorkerState::Starting, WorkerAction::Open)
    } else {
        (WorkerState::Playing, WorkerAction::Poll)
    }
}

/// One step of a worker: the state after `event` and what to do next.
pub fn worker_step(state: WorkerState, event: &WorkerEvent) -> (step: (WorkerState, WorkerAction))
    ensures
        step == worker_transition(state, *event),
{
    match state {
        WorkerState::Idle => (WorkerState::Idle, WorkerAction::Rest),
        WorkerState::Starting => match event {
            WorkerEvent::Opened => (WorkerState::Playing, WorkerAction::Stream),
            WorkerEvent::OpenFailed => (WorkerState::Idle, WorkerAction::Fail),
            _ => (WorkerState::Starting, WorkerAction::Rest),
        },
        WorkerState::Playing => match event {
            WorkerEvent::Command(MusicCommand::Stop) => (WorkerState::Idle, WorkerAction::Halt),
            WorkerEvent::Disconnected => (WorkerState::Idle, WorkerAction::Halt),
            WorkerEvent::EndOfStream => (WorkerState::Idle, WorkerAction::Halt),
            WorkerEvent::StreamError => (WorkerState::Idle, WorkerAction::Fail),
            _ => (WorkerState::Playing, WorkerAction::Poll),
        },
    }
}

/// A `Stop` command and the loss of the sender have the same effect in
/// every state.
pub proof fn lemma_stop_and_disconnect_alike(state: WorkerState)
    ensures
        worker_transition(state, WorkerEvent::Command(MusicCommand::Stop)) == worker_transition(
            state,
            WorkerEvent::Disconnected,
        ),
{
}

/// A worker starts to play only when its source was opened: no other event
/// takes a worker that is not playing into `Playing`, so a source that
/// cannot be opened is never played.
pub proof fn lemma_playing_only_once_opened(state: WorkerState, event: WorkerEvent)
    requires
        state != WorkerState::Playing,
        worker_transition(state, event).0 == WorkerState::Playing,
    ensures
        state == WorkerState::Starting,
        event is Opened,
{
}

/// A worker that is playing leaves on every stop signal, halting its audio.
pub proof fn lemma_stop_signal_halts(event: WorkerEvent)
    requires
        is_stop_signal(event),
    ensures
        worker_transition(WorkerState::Playing, event) == (
            WorkerState::Idle,
            WorkerAction::Halt,
        ),
{
}

/// A worker that has left does nothing more, whatever it is told.
pub proof fn lemma_idle_is_final(event: WorkerEvent)
    ensures
        worker_transition(WorkerState::Idle, event) == (WorkerState::Idle, WorkerAction::Rest),
{
}

} // verus!
