//! A command typed by a player: what its outcome makes the connection do, in order.
//!
//! An action that hands something to the simulation waits for its admission; where
//! that fails, the session ends and the rest is not performed.

use crate::chunk_stream::PositionSync;
use crate::command::{parse_gamemode, selected_mode, GameMode, GAMEMODE_COMMAND, SPAWN_COMMAND};
use crate::math::{Rotation, Vec3};
use crate::sim_command::{SimCommand, GAME_EVENT_CHANGE_GAMEMODE};
use crate::text::{first_token, same_text, token};
use vstd::prelude::*;

verus! {

/// What the dispatch of a command gave.
#[derive(Clone, Copy, Debug, PartialEq, Eq, Structural)]
pub enum DispatchOutcome {
    /// The command did not run.
    Error,
    /// The command ran and was not carried out.
    Failure {
        /// Whether it says something.
        has_feedback: bool,
    },
    /// The command ran and is to be carried out.
    Success {
        /// Whether it says something.
        has_feedback: bool,
    },
}

/// One thing a command makes the connection do.
#[derive(Clone, Copy, Debug, PartialEq, Eq, Structural)]
pub enum CommandAction {
    /// Show the issuer, in red, why the command did not run.
    ErrorLine,
    /// Show the issuer what the command says.
    Feedback,
    /// Send a command to the driver and wait for its admission.
    AdmitDriverCommand(usize),
    /// Send a command to the driver.
    SendDriverCommand(usize),
    /// Move the player to spawn in the simulation; waits for admission.
    AdmitSpawnMove {
        /// Where to.
        position: Vec3,
    },
    /// Mirror the teleport on the connection.
    MirrorTeleport(PositionSync),
    /// Send the teleport to the client; mandatory.
    SendTeleport(PositionSync),
    /// Change the player's mode in the simulation; waits for admission.
    AdmitGameMode(GameMode),
    /// Switch the client's mode.
    SendGameMode {
        /// The reason of the game event.
        reason: u8,
        /// The value it carries.
        value: u8,
    },
    /// Mirror the mode on the connection.
    MirrorGameMode(GameMode),
    /// Send the packets of a presentation command.
    PresentationPackets,
    /// Send the packets of a scoreboard command.
    ScoreboardPackets,
}

impl CommandAction {
    /// Whether the action waits for the simulation's admission.
    pub open spec fn awaits_admission(self) -> bool {
        self is AdmitDriverCommand || self is AdmitSpawnMove || self is AdmitGameMode
    }

    /// Whether the issuer sees the action's effect.
    pub open spec fn visible(self) -> bool {
        self is Feedback || self is SendTeleport || self is SendGameMode
            || self is PresentationPackets || self is ScoreboardPackets
    }
}

/// The actions for the commands that go to the driver: those that a caller can wait
/// for are waited for.
pub open spec fn driver_actions(commands: Seq<SimCommand>) -> Seq<CommandAction> {
    Seq::new(
        commands.len(),
        |i: int|
            if commands[i].takes_acceptance() {
                CommandAction::AdmitDriverCommand(i as usize)
            } else {
                CommandAction::SendDriverCommand(i as usize)
            },
    )
}

/// The actions of `/spawn` and `/gamemode`; none for another command.
pub open spec fn own_actions(command: Seq<char>, spawn: Vec3, look: Rotation) -> Seq<CommandAction> {
    let sync = PositionSync { position: spawn, rotation: look, flags: 0 };
    if token(command, 0) == SPAWN_COMMAND@ {
        seq![
            CommandAction::AdmitSpawnMove { position: spawn },
            CommandAction::MirrorTeleport(sync),
            CommandAction::SendTeleport(sync),
        ]
    } else if token(command, 0) == GAMEMODE_COMMAND@ {
        match selected_mode(command) {
            Some(mode) => seq![
                CommandAction::AdmitGameMode(mode),
                CommandAction::SendGameMode {
                    reason: GAME_EVENT_CHANGE_GAMEMODE,
                    value: mode.number() as u8,
                },
                CommandAction::MirrorGameMode(mode),
            ],
            None => Seq::empty(),
        }
    } else {
        Seq::empty()
    }
}

/// Some feedback, where there is any.
pub open spec fn feedback_actions(has_feedback: bool) -> Seq<CommandAction> {
    if has_feedback {
        seq![CommandAction::Feedback]
    } else {
        Seq::empty()
    }
}

/// What a command makes the connection do.
pub open spec fn command_actions(
    outcome: DispatchOutcome,
    command: Seq<char>,
    commands: Seq<SimCommand>,
    spawn: Vec3,
    look: Rotation,
) -> Seq<CommandAction> {
    match outcome {
        DispatchOutcome::Error => seq![CommandAction::ErrorLine],
        DispatchOutcome::Failure { has_feedback } => feedback_actions(has_feedback),
        DispatchOutcome::Success { has_feedback } => driver_actions(commands) + own_actions(
            command,
            spawn,
            look,
        ) + feedback_actions(has_feedback) + seq![
            CommandAction::PresentationPackets,
            CommandAction::ScoreboardPackets,
        ],
    }
}

/// Handles a dispatched command.
///
/// `commands` are the requests that the command makes of the driver. Everything that
/// changes the simulation is admitted before the issuer sees any success. `/spawn`
/// keeps the player's look.
pub fn handle_command(
    outcome: DispatchOutcome,
    command: &str,
    commands: &Vec<SimCommand>,
    spawn: Vec3,
    look: Rotation,
) -> (r: Vec<CommandAction>)
    ensures
        r@ == command_actions(outcome, command@, commands@, spawn, look),
{
    let mut out: Vec<CommandAction> = Vec::new();
    let has_feedback = match outcome {
        DispatchOutcome::Error => {
            out.push(CommandAction::ErrorLine);
            assert(out@ =~= seq![CommandAction::ErrorLine]);
            return out;
        },
        DispatchOutcome::Failure { has_feedback } => {
            if has_feedback {
                out.push(CommandAction::Feedback);
            }
            assert(out@ =~= feedback_actions(has_feedback));
            return out;
        },
        DispatchOutcome::Success { has_feedback } => has_feedback,
    };
    let mut i: usize = 0;
    while i < commands.len()
        invariant
            i <= commands@.len(),
            out@ == driver_actions(commands@).take(i as int),
        decreases commands@.len() - i,
    {
        if commands[i].supports_delivery_acceptance() {
            out.push(CommandAction::AdmitDriverCommand(i));
        } else {
            out.push(CommandAction::SendDriverCommand(i));
        }
        assert(out@ =~= driver_actions(commands@).take(i + 1));
        i = i + 1;
    }
    let ghost driver = driver_actions(commands@);
    assert(out@ =~= driver);
    let sync = PositionSync { position: spawn, rotation: look, flags: 0 };
    let name = first_token(command);
    if same_text(name, SPAWN_COMMAND) {
        out.push(CommandAction::AdmitSpawnMove { position: spawn });
        out.push(CommandAction::MirrorTeleport(sync));
        out.push(CommandAction::SendTeleport(sync));
    } else if same_text(name, GAMEMODE_COMMAND) {
        if let Some(mode) = parse_gamemode(command) {
            out.push(CommandAction::AdmitGameMode(mode));
            out.push(
                CommandAction::SendGameMode { reason: GAME_EVENT_CHANGE_GAMEMODE, value: mode.id() },
            );
            out.push(CommandAction::MirrorGameMode(mode));
        }
    }
    assert(out@ =~= driver + own_actions(command@, spawn, look));
    if has_feedback {
        out.push(CommandAction::Feedback);
    }
    assert(out@ =~= driver + own_actions(command@, spawn, look) + feedback_actions(has_feedback));
    out.push(CommandAction::PresentationPackets);
    out.push(CommandAction::ScoreboardPackets);
    assert(out@ =~= command_actions(outcome, command@, commands@, spawn, look));
    out
}

/// Whatever a command does, the issuer sees nothing of its success before the
/// simulation has admitted everything that the command changes there.
pub proof fn admission_precedes_visible_success(
    outcome: DispatchOutcome,
    command: Seq<char>,
    commands: Seq<SimCommand>,
    spawn: Vec3,
    look: Rotation,
    visible: int,
    admission: int,
)
    requires
        ({
            let actions = command_actions(outcome, command, commands, spawn, look);
            &&& 0 <= visible < actions.len() && actions[visible].visible()
            &&& 0 <= admission < actions.len() && actions[admission].awaits_admission()
        }),
    ensures
        admission < visible,
{
    let actions = command_actions(outcome, command, commands, spawn, look);
    let driver = driver_actions(commands);
    let own = own_actions(command, spawn, look);
    if outcome is Success {
        let has_feedback = outcome->Success_has_feedback;
        let feedback = feedback_actions(has_feedback);
        let n = driver.len();
        if visible < n {
            assert(actions[visible] == driver[visible]);
        }
        if admission < n {
            assert(actions[admission] == driver[admission]);
        } else if admission < n + own.len() {
            assert(actions[admission] == own[admission - n]);
            assert(admission == n);
        } else if admission < n + own.len() + feedback.len() {
            assert(actions[admission] == feedback[admission - n - own.len()]);
        }
        if n <= visible < n + own.len() {
            assert(actions[visible] == own[visible - n]);
        }
    }
}

/// `/spawn` moves the player to the spawn and keeps their look: the simulation, the
/// connection's own mirror and the client are given the same place, absolutely, and in this
/// order. `/gamemode` gives all three the same mode, by its number, in the same order.
/// Another command does neither.
pub proof fn own_effects_agree(command: Seq<char>, spawn: Vec3, look: Rotation)
    ensures
        ({
            let actions = own_actions(command, spawn, look);
            let name = token(command, 0);
            &&& name == SPAWN_COMMAND@ ==> {
                &&& actions.len() == 3
                &&& actions[0] == (CommandAction::AdmitSpawnMove { position: spawn })
                &&& actions[1] matches CommandAction::MirrorTeleport(mirrored)
                &&& actions[2] == CommandAction::SendTeleport(mirrored)
                &&& mirrored.position == spawn && mirrored.rotation == look && mirrored.flags == 0
            }
            &&& name == GAMEMODE_COMMAND@ ==> match selected_mode(command) {
                Some(mode) => {
                    &&& actions.len() == 3
                    &&& actions[0] == CommandAction::AdmitGameMode(mode)
                    &&& actions[1] matches CommandAction::SendGameMode { reason, value }
                    &&& reason == 3 && GameMode::numbered(value as int) == Some(mode)
                    &&& actions[2] == CommandAction::MirrorGameMode(mode)
                },
                None => actions.len() == 0,
            }
            &&& name != SPAWN_COMMAND@ && name != GAMEMODE_COMMAND@ ==> actions.len() == 0
        }),
{
    reveal_strlit("spawn");
    reveal_strlit("gamemode");
    assert(SPAWN_COMMAND@.len() == 5 && GAMEMODE_COMMAND@.len() == 8);
}

/// Every request that a successful command makes of the driver is made, once and in its
/// order, and waited for exactly where it can be. A command that did not run, or was not
/// carried out, changes nothing: it only says why, where there is something to say.
pub proof fn requests_are_made_once_and_in_order(
    outcome: DispatchOutcome,
    command: Seq<char>,
    commands: Seq<SimCommand>,
    spawn: Vec3,
    look: Rotation,
    i: int,
)
    requires
        commands.len() <= usize::MAX,
        0 <= i < commands.len(),
    ensures
        ({
            let actions = command_actions(outcome, command, commands, spawn, look);
            &&& outcome is Success ==> i < actions.len() && actions[i] == if commands[i].takes_acceptance() {
                CommandAction::AdmitDriverCommand(i as usize)
            } else {
                CommandAction::SendDriverCommand(i as usize)
            }
            &&& outcome is Success ==> forall|k: int|
                #![trigger actions[k]]
                commands.len() <= k < actions.len() ==> !(actions[k] is AdmitDriverCommand)
                    && !(actions[k] is SendDriverCommand)
            &&& outcome matches DispatchOutcome::Success { has_feedback } ==> {
                &&& actions[actions.len() - 2] is PresentationPackets
                &&& actions[actions.len() - 1] is ScoreboardPackets
                &&& has_feedback == actions[actions.len() - 3] is Feedback
            }
            &&& outcome is Error ==> actions.len() == 1 && actions[0] is ErrorLine
            &&& outcome matches DispatchOutcome::Failure { has_feedback } ==> if has_feedback {
                actions.len() == 1 && actions[0] is Feedback
            } else {
                actions.len() == 0
            }
        }),
{
    let actions = command_actions(outcome, command, commands, spawn, look);
    let driver = driver_actions(commands);
    let own = own_actions(command, spawn, look);
    if outcome is Success {
        let has_feedback = outcome->Success_has_feedback;
        let feedback = feedback_actions(has_feedback);
        let n = driver.len() as int;
        assert(actions[i] == driver[i]);
        assert forall|k: int| n <= k < actions.len() implies !(#[trigger] actions[k] is AdmitDriverCommand)
            && !(actions[k] is SendDriverCommand) by {
            if k < n + own.len() {
                assert(actions[k] == own[k - n]);
            } else if k < n + own.len() + feedback.len() {
                assert(actions[k] == feedback[k - n - own.len()]);
            }
        }
        let third = actions.len() - 3;
        if has_feedback {
            assert(actions[third] == feedback[0]);
        } else if own.len() > 0 {
            assert(actions[third] == own[own.len() - 1]);
        } else {
            assert(actions[third] == driver[n - 1]);
        }
    }
}

} // verus!
