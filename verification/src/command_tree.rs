//! The command set: the table of commands, their permission levels and arguments,
//! and what running one reports.

use crate::command::{
    bossbar_form, parse_bossbar, parse_scoreboard, parse_team, scoreboard_form, selected_mode,
    team_form, two_parts, viewed, GameMode, ACTIONBAR_COMMAND, BOSSBAR_COMMAND, GAMEMODE_COMMAND,
    GAMEMODE_LEVEL, PARTICLE_COMMAND, PLAYSOUND_COMMAND, PRESENTATION_LEVEL, SCOREBOARD_COMMAND,
    SCOREBOARD_LEVEL, SPAWN_COMMAND, SUBTITLE_COMMAND, TEAM_COMMAND, TITLE_COMMAND,
};
use crate::command_packets::{
    parse_particle, parse_playsound, particle_form, playsound_form, presentation_forms,
    scoreboard_forms,
};
use crate::ieee754::{Double, Single};
use crate::math::Vec3;
use crate::text::{
    argument_tail, command_args, first_token, integer_in, parse_integer, same_text,
    split_whitespace, texts, token, tokens,
};
use vstd::prelude::*;
use vstd::string::StringExecFns;

verus! {

/// Usage shown when `/scoreboard` arguments do not parse.
pub const SCOREBOARD_USAGE: &'static str = "usage: /scoreboard objective add|remove <name> | objective setdisplay <list|sidebar|below_name> <name> | score set <player> <objective> <value>";

/// Usage shown when `/team` arguments do not parse.
pub const TEAM_USAGE: &'static str = "usage: /team add <name> [display] | remove <name> | join <team> [player] | color <team> <color>";

/// Usage shown when `/bossbar` arguments do not parse.
pub const BOSSBAR_USAGE: &'static str = "usage: /bossbar add <id> [title] | remove <id> | title <id> <title> | progress <id> <0.0..=1.0> | color <id> <color>";

/// Usage shown when `/playsound` arguments do not parse.
pub const PLAYSOUND_USAGE: &'static str = "usage: /playsound <sound> [x y z] — unknown sound or bad coordinates";

/// Usage shown when `/particle` arguments do not parse.
pub const PARTICLE_USAGE: &'static str = "usage: /particle <type> [x y z] — unknown particle or bad coordinates";

/// What follows the name of a command.
#[derive(Clone, Copy, Debug, PartialEq, Eq, Structural)]
pub enum ArgumentKind {
    /// Nothing.
    Nothing,
    /// One integer within bounds.
    Integer {
        /// The least.
        low: i64,
        /// The greatest.
        high: i64,
    },
    /// Any text to the end of the line.
    GreedyString,
}

/// What running a command does.
#[derive(Clone, Copy, Debug, PartialEq, Eq, Structural)]
pub enum Executor {
    /// Reports the teleport to spawn.
    Spawn,
    /// Reports the selected game mode.
    GameMode,
    /// Reports a title.
    Title,
    /// Reports a subtitle.
    Subtitle,
    /// Reports a line above the hotbar.
    ActionBar,
    /// Checks and reports a sound.
    PlaySound,
    /// Checks and reports particles.
    Particle,
    /// Checks and reports a scoreboard action.
    Scoreboard,
    /// Checks and reports a team action.
    Team,
    /// Checks and reports a boss-bar action.
    BossBar,
}

/// One command.
#[derive(Clone, Copy, Debug)]
pub struct CommandNode {
    /// The name.
    pub name: &'static str,
    /// The permission level that running it takes.
    pub level: u8,
    /// The name of its argument; empty where there is none.
    pub argument: &'static str,
    /// What follows the name.
    pub kind: ArgumentKind,
    /// What running it does.
    pub executor: Executor,
}

/// The model of a [`CommandNode`]: name, level, argument name, argument and effect.
pub struct NodeForm {
    /// The name.
    pub name: Seq<char>,
    /// The permission level that running it takes.
    pub level: int,
    /// The name of its argument.
    pub argument: Seq<char>,
    /// What follows the name.
    pub kind: ArgumentKind,
    /// What running it does.
    pub executor: Executor,
}

impl View for CommandNode {
    type V = NodeForm;

    open spec fn view(&self) -> NodeForm {
        NodeForm {
            name: self.name@,
            level: self.level as int,
            argument: self.argument@,
            kind: self.kind,
            executor: self.executor,
        }
    }
}

/// The commands of the server.
#[derive(Debug)]
pub struct CommandTree {
    /// The commands, in the order of their registration.
    pub nodes: Vec<CommandNode>,
}

impl View for CommandTree {
    type V = Seq<NodeForm>;

    open spec fn view(&self) -> Seq<NodeForm> {
        Seq::new(self.nodes@.len(), |i: int| self.nodes@[i]@)
    }
}

/// A command that takes the rest of the line.
pub open spec fn greedy(name: Seq<char>, level: int, argument: Seq<char>, executor: Executor) -> NodeForm {
    NodeForm { name, level, argument, kind: ArgumentKind::GreedyString, executor }
}

/// The commands: `/spawn` for everyone, and the operator commands.
pub open spec fn command_table() -> Seq<NodeForm> {
    seq![
        NodeForm {
            name: SPAWN_COMMAND@,
            level: 0,
            argument: ""@,
            kind: ArgumentKind::Nothing,
            executor: Executor::Spawn,
        },
        NodeForm {
            name: GAMEMODE_COMMAND@,
            level: GAMEMODE_LEVEL as int,
            argument: "mode"@,
            kind: ArgumentKind::Integer { low: 0, high: 3 },
            executor: Executor::GameMode,
        },
        greedy(TITLE_COMMAND@, PRESENTATION_LEVEL as int, "text"@, Executor::Title),
        greedy(SUBTITLE_COMMAND@, PRESENTATION_LEVEL as int, "text"@, Executor::Subtitle),
        greedy(ACTIONBAR_COMMAND@, PRESENTATION_LEVEL as int, "text"@, Executor::ActionBar),
        greedy(PLAYSOUND_COMMAND@, PRESENTATION_LEVEL as int, "args"@, Executor::PlaySound),
        greedy(PARTICLE_COMMAND@, PRESENTATION_LEVEL as int, "args"@, Executor::Particle),
        greedy(SCOREBOARD_COMMAND@, SCOREBOARD_LEVEL as int, "args"@, Executor::Scoreboard),
        greedy(TEAM_COMMAND@, SCOREBOARD_LEVEL as int, "args"@, Executor::Team),
        greedy(BOSSBAR_COMMAND@, SCOREBOARD_LEVEL as int, "args"@, Executor::BossBar),
    ]
}

fn greedy_command(
    name: &'static str,
    level: u8,
    argument: &'static str,
    executor: Executor,
) -> (r: CommandNode)
    ensures
        r@ == greedy(name@, level as int, argument@, executor),
{
    CommandNode { name, level, argument, kind: ArgumentKind::GreedyString, executor }
}

/// Builds the server's commands.
///
/// `/spawn` is open to everyone. `/gamemode <mode>` takes an integer in `0..=3` and
/// level [`GAMEMODE_LEVEL`]; the others take the rest of the line and the same level.
pub fn build_command_tree() -> (r: CommandTree)
    ensures
        r@ == command_table(),
{
    let mut nodes: Vec<CommandNode> = Vec::new();
    nodes.push(
        CommandNode {
            name: SPAWN_COMMAND,
            level: 0,
            argument: "",
            kind: ArgumentKind::Nothing,
            executor: Executor::Spawn,
        },
    );
    nodes.push(
        CommandNode {
            name: GAMEMODE_COMMAND,
            level: GAMEMODE_LEVEL,
            argument: "mode",
            kind: ArgumentKind::Integer { low: 0, high: 3 },
            executor: Executor::GameMode,
        },
    );
    nodes.push(greedy_command(TITLE_COMMAND, PRESENTATION_LEVEL, "text", Executor::Title));
    nodes.push(greedy_command(SUBTITLE_COMMAND, PRESENTATION_LEVEL, "text", Executor::Subtitle));
    nodes.push(greedy_command(ACTIONBAR_COMMAND, PRESENTATION_LEVEL, "text", Executor::ActionBar));
    nodes.push(greedy_command(PLAYSOUND_COMMAND, PRESENTATION_LEVEL, "args", Executor::PlaySound));
    nodes.push(greedy_command(PARTICLE_COMMAND, PRESENTATION_LEVEL, "args", Executor::Particle));
    nodes.push(greedy_command(SCOREBOARD_COMMAND, SCOREBOARD_LEVEL, "args", Executor::Scoreboard));
    nodes.push(greedy_command(TEAM_COMMAND, SCOREBOARD_LEVEL, "args", Executor::Team));
    nodes.push(greedy_command(BOSSBAR_COMMAND, SCOREBOARD_LEVEL, "args", Executor::BossBar));
    let tree = CommandTree { nodes };
    assert(tree@ =~= command_table());
    tree
}

/// What the numbers in a command read as.
#[derive(Debug)]
pub struct Readings {
    /// What each coordinate token of `/playsound` or `/particle` reads as.
    pub coordinates: Vec<Option<Double>>,
    /// What the third argument of `/bossbar` reads as.
    pub progress: Option<Single>,
    /// That number as it is shown.
    pub progress_text: String,
}

/// Why a command did not run.
#[derive(Clone, Copy, Debug, PartialEq, Eq, Structural)]
pub enum CommandError {
    /// No command has that name.
    UnknownCommand,
    /// The command takes a higher permission level.
    PermissionDenied,
    /// The command takes an argument.
    MissingArgument,
    /// The argument is not an integer.
    InvalidInteger,
    /// The argument is an integer out of bounds.
    IntegerOutOfRange {
        /// The argument.
        value: i64,
    },
    /// Something follows the command's last argument.
    UnexpectedInput,
}

/// What running a command reports.
#[derive(Debug, PartialEq, Eq)]
pub struct CommandResult {
    /// Whether the command was carried out.
    pub success: bool,
    /// What the issuer is told.
    pub feedback: String,
}

impl CommandResult {
    /// Whether the command was carried out.
    pub fn is_success(&self) -> (r: bool)
        ensures
            r == self.success,
    {
        self.success
    }
}

/// The model of a [`CommandResult`].
pub struct Report {
    /// Whether the command was carried out.
    pub success: bool,
    /// What the issuer is told.
    pub feedback: Seq<char>,
}

impl View for CommandResult {
    type V = Report;

    open spec fn view(&self) -> Report {
        Report { success: self.success, feedback: self.feedback@ }
    }
}

/// A report of success.
pub open spec fn carried_out(feedback: Seq<char>) -> Report {
    Report { success: true, feedback }
}

/// A report of failure.
pub open spec fn refused(feedback: Seq<char>) -> Report {
    Report { success: false, feedback }
}

/// A position that stands for none.
pub open spec fn origin() -> Vec3 {
    Vec3 { x: Double { bits: 0 }, y: Double { bits: 0 }, z: Double { bits: 0 } }
}

/// What running a command reports: the issuer's name, the integer argument, the text
/// argument and the readings of its numbers.
pub open spec fn execution(
    executor: Executor,
    issuer: Seq<char>,
    number: int,
    args: Seq<char>,
    readings: Readings,
) -> Report {
    match executor {
        Executor::Spawn => carried_out(issuer + " teleported to spawn"@),
        Executor::GameMode => match GameMode::numbered(number) {
            Some(mode) => carried_out("Game mode set to "@ + mode.title()),
            None => refused("invalid game mode"@),
        },
        Executor::Title => carried_out("Title shown"@ + ": "@ + args),
        Executor::Subtitle => carried_out("Subtitle shown"@ + ": "@ + args),
        Executor::ActionBar => carried_out("Action bar shown"@ + ": "@ + args),
        Executor::PlaySound => match playsound_form(args, readings.coordinates@, origin()) {
            Some(_) => carried_out("Playing sound "@ + token(args, 0)),
            None => refused(PLAYSOUND_USAGE@),
        },
        Executor::Particle => match particle_form(args, readings.coordinates@, origin()) {
            Some(_) => carried_out("Spawning particle "@ + token(args, 0)),
            None => refused(PARTICLE_USAGE@),
        },
        Executor::Scoreboard => match scoreboard_form(args) {
            Some(action) => carried_out(action.feedback_text()),
            None => refused(SCOREBOARD_USAGE@),
        },
        Executor::Team => match team_form(args, ""@) {
            Some(action) => carried_out(action.feedback_text()),
            None => refused(TEAM_USAGE@),
        },
        Executor::BossBar => match bossbar_form(args, readings.progress) {
            Some(action) => carried_out(action.feedback_text(readings.progress_text@)),
            None => refused(BOSSBAR_USAGE@),
        },
    }
}

fn success(feedback: String) -> (r: CommandResult)
    ensures
        r@ == carried_out(feedback@),
{
    CommandResult { success: true, feedback }
}

fn failure(feedback: &str) -> (r: CommandResult)
    ensures
        r@ == refused(feedback@),
{
    CommandResult { success: false, feedback: feedback.to_owned() }
}

fn shown(label: &str, text: &str) -> (r: CommandResult)
    ensures
        r@ == carried_out(label@ + ": "@ + text@),
{
    let mut m = two_parts(label, ": ");
    m.append(text);
    success(m)
}

/// Runs a command whose argument has been read.
pub fn execute(
    executor: Executor,
    issuer: &str,
    number: i64,
    args: &str,
    readings: &Readings,
) -> (r: CommandResult)
    ensures
        r@ == execution(executor, issuer@, number as int, args@, *readings),
{
    let nowhere = Vec3 { x: Double { bits: 0 }, y: Double { bits: 0 }, z: Double { bits: 0 } };
    match executor {
        Executor::Spawn => success(two_parts(issuer, " teleported to spawn")),
        Executor::GameMode => {
            let mode = if 0 <= number && number <= 255 {
                GameMode::from_id(number as u8)
            } else {
                None
            };
            match mode {
                Some(mode) => success(two_parts("Game mode set to ", mode.name())),
                None => failure("invalid game mode"),
            }
        },
        Executor::Title => shown("Title shown", args),
        Executor::Subtitle => shown("Subtitle shown", args),
        Executor::ActionBar => shown("Action bar shown", args),
        Executor::PlaySound => match parse_playsound(args, &readings.coordinates, nowhere) {
            Some(_) => success(two_parts("Playing sound ", first_token(args))),
            None => failure(PLAYSOUND_USAGE),
        },
        Executor::Particle => match parse_particle(args, &readings.coordinates, nowhere) {
            Some(_) => success(two_parts("Spawning particle ", first_token(args))),
            None => failure(PARTICLE_USAGE),
        },
        Executor::Scoreboard => match parse_scoreboard(args) {
            Some(action) => success(action.feedback()),
            None => failure(SCOREBOARD_USAGE),
        },
        Executor::Team => match parse_team(args, "") {
            Some(action) => success(action.feedback()),
            None => failure(TEAM_USAGE),
        },
        Executor::BossBar => match parse_bossbar(args, readings.progress) {
            Some(action) => success(action.feedback(readings.progress_text.as_str())),
            None => failure(BOSSBAR_USAGE),
        },
    }
}

/// The first command of a name.
pub open spec fn command_named(table: Seq<NodeForm>, name: Seq<char>) -> Option<NodeForm>
    decreases table.len(),
{
    if table.len() == 0 {
        None
    } else if table[0].name == name {
        Some(table[0])
    } else {
        command_named(table.drop_first(), name)
    }
}

/// What dispatching a command line gives.
pub open spec fn dispatched(
    table: Seq<NodeForm>,
    command: Seq<char>,
    issuer: Seq<char>,
    level: int,
    readings: Readings,
) -> Result<Report, CommandError> {
    let t = tokens(command);
    let args = argument_tail(command);
    match command_named(table, token(command, 0)) {
        Some(node) if t.len() > 0 => if level < node.level {
            Err(CommandError::PermissionDenied)
        } else {
            match node.kind {
                ArgumentKind::Nothing => if t.len() > 1 {
                    Err(CommandError::UnexpectedInput)
                } else {
                    Ok(execution(node.executor, issuer, 0, ""@, readings))
                },
                ArgumentKind::Integer { low, high } => if t.len() < 2 {
                    Err(CommandError::MissingArgument)
                } else {
                    match integer_in(t[1], i64::MIN as int, i64::MAX as int) {
                        None => Err(CommandError::InvalidInteger),
                        Some(n) => if !(low <= n <= high) {
                            Err(CommandError::IntegerOutOfRange { value: n as i64 })
                        } else if t.len() > 2 {
                            Err(CommandError::UnexpectedInput)
                        } else {
                            Ok(execution(node.executor, issuer, n, ""@, readings))
                        },
                    }
                },
                ArgumentKind::GreedyString => if args.len() == 0 {
                    Err(CommandError::MissingArgument)
                } else {
                    Ok(execution(node.executor, issuer, 0, args, readings))
                },
            }
        },
        _ => Err(CommandError::UnknownCommand),
    }
}

/// The model of the outcome of a dispatch.
pub open spec fn outcome_form(outcome: Result<CommandResult, CommandError>) -> Result<
    Report,
    CommandError,
> {
    match outcome {
        Ok(result) => Ok(result@),
        Err(error) => Err(error),
    }
}

impl CommandTree {
    fn find(&self, name: &str) -> (r: Option<CommandNode>)
        ensures
            viewed(r) == command_named(self@, name@),
    {
        let mut i: usize = 0;
        assert(self@.skip(0) =~= self@);
        while i < self.nodes.len()
            invariant
                i <= self.nodes@.len(),
                self@.len() == self.nodes@.len(),
                command_named(self@, name@) == command_named(self@.skip(i as int), name@),
            decreases self.nodes@.len() - i,
        {
            assert(self@.skip(i as int)[0] == self.nodes@[i as int]@);
            if same_text(self.nodes[i].name, name) {
                return Some(self.nodes[i]);
            }
            assert(self@.skip(i as int).drop_first() =~= self@.skip(i + 1));
            i = i + 1;
        }
        None
    }

    /// Runs a command line on behalf of an issuer with a permission level.
    ///
    /// `readings` holds what the numbers in the line read as.
    pub fn dispatch(&self, command: &str, issuer: &str, level: u8, readings: &Readings) -> (r:
        Result<CommandResult, CommandError>)
        ensures
            outcome_form(r) == dispatched(self@, command@, issuer@, level as int, *readings),
    {
        let parts = split_whitespace(command);
        assert(tokens(command@).len() == parts@.len());
        assert(forall|i: int| 0 <= i < parts@.len() ==> tokens(command@)[i] == parts@[i]@);
        if parts.len() == 0 {
            return Err(CommandError::UnknownCommand);
        }
        let node = match self.find(parts[0].as_str()) {
            Some(node) => node,
            None => {
                return Err(CommandError::UnknownCommand);
            },
        };
        if level < node.level {
            return Err(CommandError::PermissionDenied);
        }
        match node.kind {
            ArgumentKind::Nothing => {
                if parts.len() > 1 {
                    return Err(CommandError::UnexpectedInput);
                }
                Ok(execute(node.executor, issuer, 0, "", readings))
            },
            ArgumentKind::Integer { low, high } => {
                if parts.len() < 2 {
                    return Err(CommandError::MissingArgument);
                }
                match parse_integer(parts[1].as_str(), i64::MIN, i64::MAX) {
                    None => Err(CommandError::InvalidInteger),
                    Some(n) => {
                        if n < low || n > high {
                            return Err(CommandError::IntegerOutOfRange { value: n });
                        }
                        if parts.len() > 2 {
                            return Err(CommandError::UnexpectedInput);
                        }
                        Ok(execute(node.executor, issuer, n, "", readings))
                    },
                }
            },
            ArgumentKind::GreedyString => {
                let args = command_args(command);
                if args.is_empty() {
                    return Err(CommandError::MissingArgument);
                }
                Ok(execute(node.executor, issuer, 0, args, readings))
            },
        }
    }

    /// The names of the commands and arguments that a permission level may see, each
    /// argument behind its command.
    pub fn visible_names(&self, level: u8) -> (r: Vec<&'static str>)
        ensures
            Seq::new(r@.len(), |i: int| r@[i]@) == visible(self@, level as int),
    {
        let mut out: Vec<&'static str> = Vec::new();
        let mut i: usize = 0;
        let ghost mut names: Seq<Seq<char>> = Seq::empty();
        assert(self@.take(0) =~= Seq::<NodeForm>::empty());
        while i < self.nodes.len()
            invariant
                i <= self.nodes@.len(),
                self@.len() == self.nodes@.len(),
                names == Seq::new(out@.len(), |k: int| out@[k]@),
                names == visible(self@.take(i as int), level as int),
            decreases self.nodes@.len() - i,
        {
            let node = self.nodes[i];
            proof {
                let more = self@.take(i + 1);
                assert(more.drop_last() =~= self@.take(i as int));
                assert(more.last() == node@);
            }
            if node.level <= level {
                out.push(node.name);
                proof {
                    names = names.push(node.name@);
                    assert(names =~= Seq::new(out@.len(), |k: int| out@[k]@));
                }
                if !node.argument.is_empty() {
                    out.push(node.argument);
                    proof {
                        names = names.push(node.argument@);
                        assert(names =~= Seq::new(out@.len(), |k: int| out@[k]@));
                    }
                }
            }
            i = i + 1;
        }
        assert(self@.take(i as int) =~= self@);
        out
    }
}

/// The names that a permission level may see.
pub open spec fn visible(table: Seq<NodeForm>, level: int) -> Seq<Seq<char>>
    decreases table.len(),
{
    if table.len() == 0 {
        Seq::empty()
    } else {
        let before = visible(table.drop_last(), level);
        let node = table.last();
        if node.level > level {
            before
        } else if node.argument.len() == 0 {
            before.push(node.name)
        } else {
            before.push(node.name).push(node.argument)
        }
    }
}

/// The names of the commands are all different.
pub proof fn command_names_are_distinct()
    ensures
        forall|i: int, j: int|
            0 <= i < j < command_table().len() ==> (#[trigger] command_table()[i]).name != (
            #[trigger] command_table()[j]).name,
{
    reveal_strlit("spawn");
    reveal_strlit("gamemode");
    reveal_strlit("title");
    reveal_strlit("subtitle");
    reveal_strlit("actionbar");
    reveal_strlit("playsound");
    reveal_strlit("particle");
    reveal_strlit("scoreboard");
    reveal_strlit("team");
    reveal_strlit("bossbar");
    let t = command_table();
    assert(t[0].name.len() == 5 && t[1].name.len() == 8 && t[2].name.len() == 5);
    assert(t[3].name.len() == 8 && t[4].name.len() == 9 && t[5].name.len() == 9);
    assert(t[6].name.len() == 8 && t[7].name.len() == 10 && t[8].name.len() == 4);
    assert(t[9].name.len() == 7);
    assert(t[0].name[0] == 's' && t[2].name[0] == 't');
    assert(t[1].name[0] == 'g' && t[3].name[0] == 's' && t[6].name[0] == 'p');
    assert(t[4].name[0] == 'a' && t[5].name[0] == 'p');
}

/// A command is found by its name where the names are all different.
pub proof fn lookup_finds(table: Seq<NodeForm>, i: int)
    requires
        0 <= i < table.len(),
        forall|a: int, b: int|
            0 <= a < b < table.len() ==> (#[trigger] table[a]).name != (#[trigger] table[b]).name,
    ensures
        command_named(table, table[i].name) == Some(table[i]),
    decreases i,
{
    if i > 0 {
        let rest = table.drop_first();
        assert(table[0].name != table[i].name);
        assert forall|a: int, b: int| 0 <= a < b < rest.len() implies (#[trigger] rest[a]).name != (
        #[trigger] rest[b]).name by {
            assert(table[a + 1].name != table[b + 1].name);
        }
        lookup_finds(rest, i - 1);
    }
}

proof fn lookup_is_member(table: Seq<NodeForm>, name: Seq<char>)
    ensures
        command_named(table, name) matches Some(node) ==> table.contains(node) && node.name == name,
    decreases table.len(),
{
    if table.len() > 0 {
        if table[0].name == name {
            assert(table.contains(table[0]));
        } else {
            lookup_is_member(table.drop_first(), name);
            if let Some(node) = command_named(table, name) {
                let k = table.drop_first().index_of(node);
                assert(table[k + 1] == node);
            }
        }
    }
}

/// Below the operator level only `/spawn` runs: every other line is refused.
pub proof fn operator_commands_are_gated(
    command: Seq<char>,
    issuer: Seq<char>,
    level: int,
    readings: Readings,
)
    requires
        level < GAMEMODE_LEVEL,
        token(command, 0) != SPAWN_COMMAND@,
    ensures
        ({
            let outcome = dispatched(command_table(), command, issuer, level, readings);
            outcome == Err::<Report, CommandError>(CommandError::PermissionDenied) || outcome
                == Err::<Report, CommandError>(CommandError::UnknownCommand)
        }),
{
    let table = command_table();
    let name = token(command, 0);
    lookup_is_member(table, name);
    if let Some(node) = command_named(table, name) {
        let k = table.index_of(node);
        assert(table[k] == node);
    }
}

/// `/spawn` runs for every player.
pub proof fn spawn_runs_for_everyone(
    command: Seq<char>,
    issuer: Seq<char>,
    level: int,
    readings: Readings,
)
    requires
        tokens(command) == seq![SPAWN_COMMAND@],
        0 <= level,
    ensures
        dispatched(command_table(), command, issuer, level, readings) == Ok::<Report, CommandError>(
            carried_out(issuer + " teleported to spawn"@),
        ),
{
    command_names_are_distinct();
    lookup_finds(command_table(), 0);
}

/// A presentation command that is dispatched has packets exactly when it reports
/// success.
pub proof fn presentation_packets_follow_dispatch(
    command: Seq<char>,
    issuer: Seq<char>,
    level: int,
    readings: Readings,
    default_pos: Vec3,
)
    requires
        ({
            let name = token(command, 0);
            ||| name == TITLE_COMMAND@
            ||| name == SUBTITLE_COMMAND@
            ||| name == ACTIONBAR_COMMAND@
            ||| name == PLAYSOUND_COMMAND@
            ||| name == PARTICLE_COMMAND@
        }),
    ensures
        dispatched(command_table(), command, issuer, level, readings) matches Ok(report)
            ==> report.success == (presentation_forms(
            command,
            readings.coordinates@,
            default_pos,
        ).len() > 0),
{
    let table = command_table();
    let name = token(command, 0);
    command_names_are_distinct();
    assert forall|i: int| 2 <= i <= 6 && name == (#[trigger] table[i]).name implies command_named(
        table,
        name,
    ) == Some(table[i]) by {
        lookup_finds(table, i);
    }
    assert(table[2].name == TITLE_COMMAND@ && table[3].name == SUBTITLE_COMMAND@);
    assert(table[4].name == ACTIONBAR_COMMAND@ && table[5].name == PLAYSOUND_COMMAND@);
    assert(table[6].name == PARTICLE_COMMAND@);
}

/// A `/scoreboard`, `/team` or `/bossbar` command that is dispatched has packets
/// exactly when it reports success.
pub proof fn scoreboard_packets_follow_dispatch(
    command: Seq<char>,
    issuer: Seq<char>,
    level: int,
    readings: Readings,
)
    requires
        ({
            let name = token(command, 0);
            ||| name == SCOREBOARD_COMMAND@
            ||| name == TEAM_COMMAND@
            ||| name == BOSSBAR_COMMAND@
        }),
    ensures
        dispatched(command_table(), command, issuer, level, readings) matches Ok(report)
            ==> report.success == (scoreboard_forms(command, issuer, readings.progress).len() > 0),
{
    let table = command_table();
    let name = token(command, 0);
    command_names_are_distinct();
    assert forall|i: int| 7 <= i <= 9 && name == (#[trigger] table[i]).name implies command_named(
        table,
        name,
    ) == Some(table[i]) by {
        lookup_finds(table, i);
    }
    assert(table[7].name == SCOREBOARD_COMMAND@ && table[8].name == TEAM_COMMAND@);
    assert(table[9].name == BOSSBAR_COMMAND@);
}

/// A `/gamemode` command that reports success selects a game mode.
pub proof fn dispatched_gamemode_selects_a_mode(
    command: Seq<char>,
    issuer: Seq<char>,
    level: int,
    readings: Readings,
)
    requires
        token(command, 0) == GAMEMODE_COMMAND@,
    ensures
        dispatched(command_table(), command, issuer, level, readings) matches Ok(report)
            ==> report.success && (selected_mode(command) matches Some(mode) && report.feedback
            == "Game mode set to "@ + mode.title()),
{
    command_names_are_distinct();
    lookup_finds(command_table(), 1);
}

/// Everything that a level may run is visible to it, with its argument, and nothing else is:
/// what is visible is the name or the argument of a command that the level may run.
pub proof fn visible_names_are_those_permitted(table: Seq<NodeForm>, level: int, k: int, i: int)
    requires
        0 <= k < table.len(),
        0 <= i < visible(table, level).len(),
    ensures
        table[k].level <= level ==> visible(table, level).contains(table[k].name),
        table[k].level <= level && table[k].argument.len() > 0 ==> visible(table, level).contains(
            table[k].argument,
        ),
        exists|j: int|
            0 <= j < table.len() && (#[trigger] table[j]).level <= level && (visible(
                table,
                level,
            )[i] == table[j].name || visible(table, level)[i] == table[j].argument),
    decreases table.len(),
{
    let front = table.drop_last();
    let before = visible(front, level);
    let whole = visible(table, level);
    let last = table.len() - 1;
    assert(before.len() <= whole.len() && whole.take(before.len() as int) =~= before);
    if table[k].level <= level {
        permitted_names_are_visible(table, level, k);
    }
    if i < before.len() {
        assert(whole[i] == before[i]);
        assert(front.len() > 0);
        visible_names_are_those_permitted(front, level, 0, i);
        let j = choose|j: int|
            0 <= j < front.len() && (#[trigger] front[j]).level <= level && (before[i]
                == front[j].name || before[i] == front[j].argument);
        assert(table[j] == front[j]);
    } else {
        assert(table[last].level <= level);
    }
}

proof fn permitted_names_are_visible(table: Seq<NodeForm>, level: int, k: int)
    requires
        0 <= k < table.len(),
        table[k].level <= level,
    ensures
        visible(table, level).contains(table[k].name),
        table[k].argument.len() > 0 ==> visible(table, level).contains(table[k].argument),
    decreases table.len(),
{
    let front = table.drop_last();
    let before = visible(front, level);
    let whole = visible(table, level);
    assert(before.len() <= whole.len() && whole.take(before.len() as int) =~= before);
    if k < table.len() - 1 {
        permitted_names_are_visible(front, level, k);
        assert(front[k] == table[k]);
        let a = before.index_of(table[k].name);
        assert(whole[a] == before[a]);
        if table[k].argument.len() > 0 {
            let b = before.index_of(table[k].argument);
            assert(whole[b] == before[b]);
        }
    } else {
        assert(whole[before.len() as int] == table[k].name);
        if table[k].argument.len() > 0 {
            assert(whole[before.len() as int + 1] == table[k].argument);
        }
    }
}

} // verus!
