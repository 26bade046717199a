use vstd::prelude::*;

use crate::error::PlayerError;

verus! {

/// The lifecycle state of the one decode/output graph a session may own.
/// A graph exists exactly while the state is `Playing` or `Paused`;
/// `Stopped` and `Faulted` own none.
#[derive(Debug)]
pub enum PlaybackState {
    Stopped,
    Playing,
    Paused,
    /// The engine reported a fault; the payload keeps its message for display.
    Faulted(String),
}

/// A user-level request against the controller.
#[derive(Debug)]
pub enum Command {
    Play,
    PlayPause,
    Stop,
}

/// The engine call the caller must perform for a command. The controller
/// decides; the caller owns the actual engine and reports back the outcome.
#[derive(Debug)]
pub enum EngineAction {
    /// Build a fresh graph (source, decode, fan-out to output and analysis
    /// branches, with the analysis tap installed) and set it flowing.
    BuildAndStart,
    /// Set the existing, paused graph flowing again.
    Resume,
    /// Halt the existing, flowing graph without tearing it down.
    Pause,
    /// Tear the graph down, whatever state it is in.
    Teardown,
    /// No engine call is needed.
    Nothing,
}

/// The engine's answer to a performed action.
#[derive(Debug)]
pub enum EngineReply {
    Accepted,
    Rejected(PlayerError),
}

/// Whether a decode/output graph is owned in state `s`.
pub open spec fn owns_graph(s: PlaybackState) -> bool {
    s is Playing || s is Paused
}

/// The engine action a command calls for in a given state. A play request
/// with no graph builds one and starts it; a toggle while no graph exists
/// behaves as a plain play request.
pub open spec fn planned_action(s: PlaybackState, c: Command) -> EngineAction {
    match c {
        Command::Stop => EngineAction::Teardown,
        Command::Play => match s {
            PlaybackState::Playing => EngineAction::Nothing,
            PlaybackState::Paused => EngineAction::Resume,
            _ => EngineAction::BuildAndStart,
        },
        Command::PlayPause => match s {
            PlaybackState::Playing => EngineAction::Pause,
            PlaybackState::Paused => EngineAction::Resume,
            _ => EngineAction::BuildAndStart,
        },
    }
}

/// The state after a command, given the engine's reply to the planned action.
/// Teardown lands in `Stopped` unconditionally; a rejected start, resume or
/// pause releases the graph and falls back to `Stopped`.
pub open spec fn next_state(s: PlaybackState, c: Command, r: EngineReply) -> PlaybackState {
    match planned_action(s, c) {
        EngineAction::Teardown => PlaybackState::Stopped,
        EngineAction::Nothing => s,
        EngineAction::Pause => if r is Accepted {
            PlaybackState::Paused
        } else {
            PlaybackState::Stopped
        },
        _ => if r is Accepted {
            PlaybackState::Playing
        } else {
            PlaybackState::Stopped
        },
    }
}

/// What a command reports to its caller: the engine's rejection, if any
/// engine call was planned at all.
pub open spec fn command_outcome(s: PlaybackState, c: Command, r: EngineReply) -> Result<
    (),
    PlayerError,
> {
    if planned_action(s, c) is Nothing {
        Ok(())
    } else {
        match r {
            EngineReply::Accepted => Ok(()),
            EngineReply::Rejected(e) => Err(e),
        }
    }
}

/// Owns the playback lifecycle: the sole source of truth for whether audio
/// is flowing. The decode/output engine itself lives with the caller, which
/// performs each planned action and settles the controller with the reply.
pub struct Controller {
    state: PlaybackState,
}

impl View for Controller {
    type V = PlaybackState;

    closed spec fn view(&self) -> PlaybackState {
        self.state
    }
}

impl Controller {
    /// A fresh controller owns no graph and reports `Stopped`.
    pub fn new() -> (c: Controller)
        ensures
            c@ is Stopped,
    {
        Controller { state: PlaybackState::Stopped }
    }

    /// Non-blocking state query for the display side.
    pub fn current_state(&self) -> (s: &PlaybackState)
        ensures
            *s == self@,
    {
        &self.state
    }

    /// The engine call the caller must perform for `cmd` right now.
    pub fn plan(&self, cmd: &Command) -> (a: EngineAction)
        ensures
            a == planned_action(self@, *cmd),
    {
        match cmd {
            Command::Stop => EngineAction::Teardown,
            Command::Play => match &self.state {
                PlaybackState::Playing => EngineAction::Nothing,
                PlaybackState::Paused => EngineAction::Resume,
                _ => EngineAction::BuildAndStart,
            },
            Command::PlayPause => match &self.state {
                PlaybackState::Playing => EngineAction::Pause,
                PlaybackState::Paused => EngineAction::Resume,
                _ => EngineAction::BuildAndStart,
            },
        }
    }

    /// Record the engine's reply to the action planned for `cmd`, moving to
    /// the commanded state on acceptance and back to `Stopped` (graph
    /// released) on rejection; a rejection is reported to the caller.
    pub fn settle(&mut self, cmd: &Command, reply: EngineReply) -> (r: Result<(), PlayerError>)
        ensures
            final(self)@ == next_state(old(self)@, *cmd, reply),
            r == command_outcome(old(self)@, *cmd, reply),
    {
        let action = self.plan(cmd);
        match action {
            EngineAction::Nothing => Ok(()),
            EngineAction::Teardown => {
                self.state = PlaybackState::Stopped;
                match reply {
                    EngineReply::Accepted => Ok(()),
                    EngineReply::Rejected(e) => Err(e),
                }
            },
            EngineAction::Pause => match reply {
                EngineReply::Accepted => {
                    self.state = PlaybackState::Paused;
                    Ok(())
                },
                EngineReply::Rejected(e) => {
                    self.state = PlaybackState::Stopped;
                    Err(e)
                },
            },
            _ => match reply {
                EngineReply::Accepted => {
                    self.state = PlaybackState::Playing;
                    Ok(())
                },
                EngineReply::Rejected(e) => {
                    self.state = PlaybackState::Stopped;
                    Err(e)
                },
            },
        }
    }

    /// An asynchronous fault posted by the engine: the graph is released and
    /// the fault's message is retained for display until the next command.
    pub fn fault(&mut self, message: String)
        ensures
            final(self)@ == PlaybackState::Faulted(message),
    {
        self.state = PlaybackState::Faulted(message);
    }
}

/// Stop lands in `Stopped` from every state, whatever the engine replies,
/// and so is idempotent.
pub proof fn lemma_stop_always_stops(s: PlaybackState, r: EngineReply)
    ensures
        next_state(s, Command::Stop, r) is Stopped,
{
}

/// A play request from `Stopped` whose build-and-start the engine accepts
/// lands in `Playing`.
pub proof fn lemma_play_accepted_plays(r: EngineReply)
    requires
        r is Accepted,
    ensures
        next_state(PlaybackState::Stopped, Command::Play, r) is Playing,
{
}

/// A play request from `Stopped` that the engine rejects (a missing element,
/// an unusable source) leaves the controller `Stopped` and reports exactly
/// the engine's error.
pub proof fn lemma_play_rejected_stops(e: PlayerError)
    ensures
        next_state(PlaybackState::Stopped, Command::Play, EngineReply::Rejected(e)) is Stopped,
        command_outcome(PlaybackState::Stopped, Command::Play, EngineReply::Rejected(e)) == Err::<
            (),
            PlayerError,
        >(e),
{
}

/// No command lands in `Faulted`: only a fault posted by the engine itself
/// enters that state, and any command leaves it again.
pub proof fn lemma_commands_never_fault(s: PlaybackState, c: Command, r: EngineReply)
    ensures
        !(next_state(s, c, r) is Faulted),
{
}

/// Whenever the engine rejects a planned action, the controller owns no
/// graph afterwards: construction and transition errors always fall back to
/// `Stopped`, never leaving a half-built graph behind.
pub proof fn lemma_rejection_releases_graph(s: PlaybackState, c: Command, e: PlayerError)
    requires
        !(planned_action(s, c) is Nothing),
    ensures
        !owns_graph(next_state(s, c, EngineReply::Rejected(e))),
        next_state(s, c, EngineReply::Rejected(e)) is Stopped,
{
}

} // verus!
