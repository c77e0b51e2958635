//! What a command line comes to, word by word: the packets it sends and what it reports.

use crate::command::{
    boss_color_named, rest_or, selected_mode, slot_named, text_color_named, GameMode,
    ACTIONBAR_COMMAND, BOSSBAR_COMMAND, GAMEMODE_COMMAND, PARTICLE_COMMAND, PLAYSOUND_COMMAND,
    SCOREBOARD_COMMAND, SPAWN_COMMAND, SUBTITLE_COMMAND, TEAM_COMMAND, TITLE_COMMAND,
};
use crate::command_packets::{
    bar_identifier, coordinates, forms, particle_named, presentation_forms, scoreboard_forms,
    sound_named, CommandPacket, ParticleChoice,
};
use crate::command_tree::{
    command_names_are_distinct, command_named, command_table, dispatched, lookup_finds, CommandError,
    Readings, Report,
};
use crate::ieee754::{patterns_of_small_integers, Double, Single};
use crate::math::Vec3;
use crate::text::{
    argument_tail, arguments_follow_the_literal, decimal_reads_back, integer_in, joined,
    signed_decimal, token, tokens,
};
use vstd::prelude::*;

verus! {

/// The words from a place on with single spaces between them, or a default where there are
/// none.
pub open spec fn words_from(w: Seq<Seq<char>>, from: int, default: Seq<char>) -> Seq<char> {
    if w.len() == from {
        default
    } else {
        joined(w.skip(from))
    }
}

/// The words of the arguments are the words of the line behind the first.
proof fn argument_words(command: Seq<char>)
    requires
        tokens(command).len() > 0,
    ensures
        token(command, 0) == tokens(command)[0],
        tokens(argument_tail(command)) == tokens(command).skip(1),
        forall|from: int, default: Seq<char>|
            1 <= from < tokens(command).len() ==> #[trigger] rest_or(
                tokens(argument_tail(command)),
                from,
                default,
            ) == words_from(tokens(command), from + 1, default),
        forall|from: int|
            1 <= from < tokens(command).len() ==> #[trigger] tokens(argument_tail(command)).skip(from)
                == tokens(command).skip(from + 1),
{
    let w = tokens(command);
    let t = tokens(argument_tail(command));
    arguments_follow_the_literal(command);
    assert(w.skip(1) =~= t);
    assert forall|from: int| 1 <= from < w.len() implies #[trigger] t.skip(from) == w.skip(
        from + 1,
    ) by {
        assert(t.skip(from) =~= w.skip(from + 1));
    }
    assert forall|from: int, default: Seq<char>| 1 <= from < w.len() implies #[trigger] rest_or(
        t,
        from,
        default,
    ) == words_from(w, from + 1, default) by {
        assert(t.skip(from) =~= w.skip(from + 1));
    }
}

proof fn literals()
    ensures
        "add"@.len() == 3,
        "remove"@.len() == 6,
        "join"@.len() == 4,
        "color"@.len() == 5,
        "title"@.len() == 5,
        "progress"@.len() == 8,
        "objective"@.len() == 9,
        "score"@.len() == 5,
        "set"@.len() == 3,
        "setdisplay"@.len() == 10,
        "color"@ != "title"@,
        TEAM_COMMAND@.len() == 4,
        SCOREBOARD_COMMAND@.len() == 10,
        BOSSBAR_COMMAND@.len() == 7,
        TITLE_COMMAND@ == "title"@,
        SUBTITLE_COMMAND@.len() == 8,
        ACTIONBAR_COMMAND@.len() == 9,
        PLAYSOUND_COMMAND@.len() == 9,
        PARTICLE_COMMAND@.len() == 8,
        ACTIONBAR_COMMAND@ != PLAYSOUND_COMMAND@,
        SUBTITLE_COMMAND@ != PARTICLE_COMMAND@,
{
    reveal_strlit("add");
    reveal_strlit("remove");
    reveal_strlit("join");
    reveal_strlit("color");
    reveal_strlit("title");
    reveal_strlit("progress");
    reveal_strlit("objective");
    reveal_strlit("score");
    reveal_strlit("set");
    reveal_strlit("setdisplay");
    reveal_strlit("team");
    reveal_strlit("scoreboard");
    reveal_strlit("bossbar");
    reveal_strlit("subtitle");
    reveal_strlit("actionbar");
    reveal_strlit("playsound");
    reveal_strlit("particle");
    assert("color"@[0] == 'c' && "title"@[0] == 't');
    assert(ACTIONBAR_COMMAND@[0] == 'a' && PLAYSOUND_COMMAND@[0] == 'p');
    assert(SUBTITLE_COMMAND@[0] == 's' && PARTICLE_COMMAND@[0] == 'p');
}

/// The team that a packet targets.
pub open spec fn team_targeted(packet: CommandPacket) -> Option<Seq<char>> {
    match packet {
        CommandPacket::TeamCreate { name, .. } => Some(name@),
        CommandPacket::TeamRemove { name } => Some(name@),
        CommandPacket::TeamAddEntity { team, .. } => Some(team@),
        CommandPacket::TeamUpdate { team, .. } => Some(team@),
        _ => None,
    }
}

/// The objective that a packet targets.
pub open spec fn objective_targeted(packet: CommandPacket) -> Option<Seq<char>> {
    match packet {
        CommandPacket::ObjectiveCreate { name, .. } => Some(name@),
        CommandPacket::ObjectiveRemove { name } => Some(name@),
        CommandPacket::DisplayObjective { name, .. } => Some(name@),
        CommandPacket::ScoreSet { objective, .. } => Some(objective@),
        _ => None,
    }
}

/// A `/team` line sends at most one packet, and it targets the team that the third word
/// names, whatever the line does to it. `add` creates it, shown as the words behind or under
/// its name; `remove` ends it; `join` adds the player whom the fourth word names, or the
/// issuer where there is none; and `color` gives it the colour of that name.
pub proof fn team_line_sends(
    command: Seq<char>,
    issuer: Seq<char>,
    reading: Option<Single>,
    packets: Seq<CommandPacket>,
)
    requires
        tokens(command).len() > 0,
        tokens(command)[0] == TEAM_COMMAND@,
        forms(packets) == scoreboard_forms(command, issuer, reading),
    ensures
        ({
            let w = tokens(command);
            &&& packets.len() <= 1
            &&& packets.len() == 1 ==> w.len() >= 3 && team_targeted(packets[0]) == Some(w[2])
            &&& w.len() >= 3 && w[1] == "add"@ ==> packets.len() == 1 && (
            packets[0] matches CommandPacket::TeamCreate { display, .. } && display@ == words_from(
                w,
                3,
                w[2],
            ))
            &&& w.len() == 3 && w[1] == "remove"@ ==> packets.len() == 1
                && packets[0] is TeamRemove
            &&& w.len() == 3 && w[1] == "join"@ ==> packets.len() == 1 && (
            packets[0] matches CommandPacket::TeamAddEntity { player, .. } && player@ == issuer)
            &&& w.len() == 4 && w[1] == "join"@ ==> packets.len() == 1 && (
            packets[0] matches CommandPacket::TeamAddEntity { player, .. } && player@ == w[3])
            &&& w.len() == 4 && w[1] == "color"@ ==> (text_color_named(w[3]) matches Some(named)
                ==> packets.len() == 1 && (packets[0] matches CommandPacket::TeamUpdate {
                color,
                ..
            } && color == named && color.title() == w[3]))
            &&& packets.len() == 1 ==> match packets[0] {
                CommandPacket::TeamCreate { .. } => w[1] == "add"@,
                CommandPacket::TeamRemove { .. } => w[1] == "remove"@ && w.len() == 3,
                CommandPacket::TeamAddEntity { .. } => w[1] == "join"@ && w.len() <= 4,
                CommandPacket::TeamUpdate { .. } => w[1] == "color"@ && w.len() == 4,
                _ => false,
            }
        }),
{
    argument_words(command);
    literals();
    assert(packets.len() == forms(packets).len());
    if packets.len() > 0 {
        assert(forms(packets)[0] == packets[0]@);
    }
}

/// A `/scoreboard` line sends at most one packet, about the objective that it names. `add`
/// creates it, shown as the words behind or under its name; `remove` ends it; `setdisplay`
/// shows it in the named slot; and `score set` gives the named player the score that the last
/// word reads as.
pub proof fn scoreboard_line_sends(
    command: Seq<char>,
    issuer: Seq<char>,
    reading: Option<Single>,
    packets: Seq<CommandPacket>,
)
    requires
        tokens(command).len() > 0,
        tokens(command)[0] == SCOREBOARD_COMMAND@,
        forms(packets) == scoreboard_forms(command, issuer, reading),
    ensures
        ({
            let w = tokens(command);
            &&& packets.len() <= 1
            &&& w.len() >= 4 && w[1] == "objective"@ && w[2] == "add"@ ==> packets.len() == 1
                && objective_targeted(packets[0]) == Some(w[3]) && (
            packets[0] matches CommandPacket::ObjectiveCreate { display, .. } && display@
                == words_from(w, 4, w[3]))
            &&& w.len() == 4 && w[1] == "objective"@ && w[2] == "remove"@ ==> packets.len() == 1
                && objective_targeted(packets[0]) == Some(w[3]) && packets[0] is ObjectiveRemove
            &&& w.len() == 5 && w[1] == "objective"@ && w[2] == "setdisplay"@ ==> (slot_named(
                w[3],
            ) matches Some(named) ==> packets.len() == 1 && objective_targeted(packets[0]) == Some(
                w[4],
            ) && (packets[0] matches CommandPacket::DisplayObjective { slot, .. } && slot
                == named))
            &&& w.len() == 6 && w[1] == "score"@ && w[2] == "set"@ ==> forall|n: i32|
                w[5] == #[trigger] signed_decimal(n as int) ==> packets.len() == 1
                    && objective_targeted(packets[0]) == Some(w[4]) && (
                packets[0] matches CommandPacket::ScoreSet { entity, value, .. } && entity@ == w[3]
                    && value == n)
            &&& packets.len() == 1 ==> match packets[0] {
                CommandPacket::ObjectiveCreate { .. } => w[1] == "objective"@ && w[2] == "add"@,
                CommandPacket::ObjectiveRemove { .. } => w[1] == "objective"@ && w[2] == "remove"@
                    && w.len() == 4,
                CommandPacket::DisplayObjective { .. } => w[1] == "objective"@ && w[2]
                    == "setdisplay"@ && w.len() == 5,
                CommandPacket::ScoreSet { .. } => w[1] == "score"@ && w[2] == "set"@ && w.len()
                    == 6,
                _ => false,
            }
        }),
{
    argument_words(command);
    literals();
    let w = tokens(command);
    assert(packets.len() == forms(packets).len());
    if packets.len() > 0 {
        assert(forms(packets)[0] == packets[0]@);
    }
    assert forall|n: i32| w.len() == 6 && w[5] == #[trigger] signed_decimal(
        n as int,
    ) implies integer_in(w[5], i32::MIN as int, i32::MAX as int) == Some(n as int) by {
        decimal_reads_back(n as int, i32::MIN as int, i32::MAX as int);
    }
}

/// A `/bossbar` line sends at most one packet, to the bar that the third word names. `add`
/// creates it full, pink and without flags, under the words behind or its name; `remove` ends
/// it; `title` retitles it with the words behind; `progress` fills it to the number read, which
/// lies between zero and one; and `color` gives it the colour of that name.
pub proof fn bossbar_line_sends(
    command: Seq<char>,
    issuer: Seq<char>,
    reading: Option<Single>,
    packets: Seq<CommandPacket>,
)
    requires
        tokens(command).len() > 0,
        tokens(command)[0] == BOSSBAR_COMMAND@,
        forms(packets) == scoreboard_forms(command, issuer, reading),
    ensures
        ({
            let w = tokens(command);
            let named = bar_identifier(vstd::utf8::encode_utf8(w[2]));
            &&& packets.len() <= 1
            &&& packets.len() == 1 ==> w.len() >= 3 && match packets[0] {
                CommandPacket::BossBarAdd { bar, title, health, color, flags } => {
                    &&& w[1] == "add"@ && bar == named && title@ == words_from(w, 3, w[2])
                    &&& health.denotes(1) && color is Pink && flags == 0
                },
                CommandPacket::BossBarRemove { bar } => w[1] == "remove"@ && bar == named
                    && w.len() == 3,
                CommandPacket::BossBarTitle { bar, title } => w[1] == "title"@ && bar == named
                    && w.len() >= 4 && title@ == joined(w.skip(3)),
                CommandPacket::BossBarHealth { bar, health } => {
                    &&& w[1] == "progress"@ && bar == named && w.len() == 4
                    &&& reading == Some(health) && health.fraction_of_one()
                },
                CommandPacket::BossBarStyle { bar, color } => {
                    &&& w[1] == "color"@ && bar == named && w.len() == 4
                    &&& boss_color_named(w[3]) == Some(color) && color.word() == w[3]
                },
                _ => false,
            }
            &&& w.len() >= 3 && w[1] == "add"@ ==> packets.len() == 1
            &&& w.len() == 3 && w[1] == "remove"@ ==> packets.len() == 1
            &&& w.len() >= 4 && w[1] == "title"@ ==> packets.len() == 1
            &&& w.len() == 4 && w[1] == "progress"@ && reading is Some
                && reading->Some_0.fraction_of_one() ==> packets.len() == 1
            &&& w.len() == 4 && w[1] == "color"@ && boss_color_named(w[3]) is Some
                ==> packets.len() == 1
        }),
{
    argument_words(command);
    literals();
    assert(packets.len() == forms(packets).len());
    if packets.len() > 0 {
        assert(forms(packets)[0] == packets[0]@);
        patterns_of_small_integers(crate::command_packets::one());
    }
}

/// The place that the words behind a sound or particle name: the three numbers in their
/// order, or the default where there are no words.
pub open spec fn is_place(
    words: int,
    numbers: Seq<Option<Double>>,
    default_pos: Vec3,
    position: Vec3,
) -> bool {
    if words == 0 {
        position == default_pos
    } else {
        &&& words == 3 && numbers.len() == 3
        &&& numbers[0] == Some(position.x)
        &&& numbers[1] == Some(position.y)
        &&& numbers[2] == Some(position.z)
    }
}

/// The text commands show the rest of the line as it is: `/title` first sets the times of half
/// a second to appear, three and a half to stay and one to vanish, and then shows the title;
/// `/subtitle` and `/actionbar` show theirs.
pub proof fn text_lines_show_their_text(
    command: Seq<char>,
    numbers: Seq<Option<Double>>,
    default_pos: Vec3,
    packets: Seq<CommandPacket>,
)
    requires
        tokens(command).len() > 0,
        forms(packets) == presentation_forms(command, numbers, default_pos),
    ensures
        ({
            let name = tokens(command)[0];
            let rest = argument_tail(command);
            &&& tokens(rest) == tokens(command).skip(1)
            &&& name == TITLE_COMMAND@ ==> packets.len() == 2 && packets[0] == (
            CommandPacket::TitleAnimationTimes { fade_in: 10, stay: 70, fade_out: 20 }) && (
            packets[1] matches CommandPacket::Title { text } && text@ == rest)
            &&& name == SUBTITLE_COMMAND@ ==> packets.len() == 1 && (
            packets[0] matches CommandPacket::Subtitle { text } && text@ == rest)
            &&& name == ACTIONBAR_COMMAND@ ==> packets.len() == 1 && (
            packets[0] matches CommandPacket::ActionBar { text } && text@ == rest)
        }),
{
    argument_words(command);
    literals();
    assert(packets.len() == forms(packets).len());
    assert forall|i: int| 0 <= i < packets.len() implies #[trigger] forms(packets)[i]
        == packets[i]@ by {}
    if packets.len() > 0 {
        assert(forms(packets)[0] == packets[0]@);
    }
    if packets.len() > 1 {
        assert(forms(packets)[1] == packets[1]@);
    }
}

/// `/playsound` plays the named sound at full volume and plain pitch, and `/particle` shows
/// one particle of the named kind, dust in plain red at plain size; each where the words behind
/// say, or at the default place. A line that names neither sends nothing.
pub proof fn effect_lines_show_their_effect(
    command: Seq<char>,
    numbers: Seq<Option<Double>>,
    default_pos: Vec3,
    packets: Seq<CommandPacket>,
)
    requires
        tokens(command).len() > 0,
        tokens(command)[0] == PLAYSOUND_COMMAND@ || tokens(command)[0] == PARTICLE_COMMAND@,
        forms(packets) == presentation_forms(command, numbers, default_pos),
    ensures
        ({
            let w = tokens(command);
            let sound = w[0] == PLAYSOUND_COMMAND@;
            &&& packets.len() <= 1
            &&& packets.len() == 1 ==> w.len() >= 2 && match packets[0] {
                CommandPacket::Sound { sound: played, position, volume, pitch, seed } => {
                    &&& sound && sound_named(w[1]) == Some(played)
                    &&& is_place(w.len() - 2, numbers, default_pos, position)
                    &&& volume.denotes(1) && pitch.denotes(1) && seed == 0
                },
                CommandPacket::Particle { kind, position, count } => {
                    &&& !sound && particle_named(w[1]) == Some(ParticleChoice::Simple(kind))
                    &&& is_place(w.len() - 2, numbers, default_pos, position) && count == 1
                },
                CommandPacket::Dust { position, red, green, blue, scale, count } => {
                    &&& !sound && particle_named(w[1]) == Some(ParticleChoice::Dust)
                    &&& is_place(w.len() - 2, numbers, default_pos, position) && count == 1
                    &&& red.denotes(1) && green.denotes(0) && blue.denotes(0) && scale.denotes(1)
                },
                _ => false,
            }
            &&& w.len() >= 2 && (if sound {
                sound_named(w[1]) is Some
            } else {
                particle_named(w[1]) is Some
            }) && (exists|position: Vec3| #[trigger]
                is_place(w.len() - 2, numbers, default_pos, position)) ==> packets.len() == 1
        }),
{
    argument_words(command);
    literals();
    let w = tokens(command);
    assert(packets.len() == forms(packets).len());
    patterns_of_small_integers(crate::command_packets::one());
    patterns_of_small_integers(crate::command_packets::zero());
    if packets.len() > 0 {
        assert(forms(packets)[0] == packets[0]@);
    }
    if w.len() >= 2 {
        let t = tokens(argument_tail(command));
        assert(t[0] == w[1] && t.len() - 1 == w.len() - 2);
        if exists|position: Vec3| #[trigger] is_place(w.len() - 2, numbers, default_pos, position) {
            assert(coordinates(w.len() - 2, numbers, default_pos) is Some);
        }
    }
}

/// `/gamemode` with the number of a mode selects that mode and reports it by name, for whoever
/// may run it; another number is out of range.
pub proof fn gamemode_line_selects_by_number(
    command: Seq<char>,
    issuer: Seq<char>,
    level: int,
    readings: Readings,
    n: i64,
)
    requires
        tokens(command) == seq![GAMEMODE_COMMAND@, signed_decimal(n as int)],
        level >= 2,
    ensures
        ({
            let outcome = dispatched(command_table(), command, issuer, level, readings);
            &&& selected_mode(command) is Some == (0 <= n <= 3)
            &&& selected_mode(command) matches Some(mode) ==> mode.number() == n
            &&& 0 <= n <= 3 ==> (outcome matches Ok(report) && report.success && report.feedback
                == "Game mode set to "@ + selected_mode(command)->Some_0.title())
            &&& !(0 <= n <= 3) ==> outcome == Err::<Report, CommandError>(
                CommandError::IntegerOutOfRange { value: n },
            )
        }),
{
    decimal_reads_back(n as int, i64::MIN as int, i64::MAX as int);
    command_names_are_distinct();
    lookup_finds(command_table(), 1);
    assert(command_table()[1].name == GAMEMODE_COMMAND@);
}

/// What a `/team` line reports to an operator: the team that it names, and what was done to
/// it; a player who joins is named too.
pub proof fn team_line_reports(
    command: Seq<char>,
    issuer: Seq<char>,
    level: int,
    readings: Readings,
)
    requires
        tokens(command).len() >= 3,
        tokens(command)[0] == TEAM_COMMAND@,
        level >= 2,
    ensures
        ({
            let w = tokens(command);
            let outcome = dispatched(command_table(), command, issuer, level, readings);
            &&& outcome is Ok
            &&& w[1] == "add"@ ==> outcome->Ok_0.success && outcome->Ok_0.feedback
                == "Created team "@ + w[2]
            &&& w[1] == "remove"@ && w.len() == 3 ==> outcome->Ok_0.success
                && outcome->Ok_0.feedback == "Removed team "@ + w[2]
            &&& w[1] == "join"@ && w.len() == 4 ==> outcome->Ok_0.success && outcome->Ok_0.feedback
                == "Added "@ + w[3] + " to team "@ + w[2]
            &&& w[1] == "color"@ && w.len() == 4 && text_color_named(w[3]) is Some
                ==> outcome->Ok_0.success && outcome->Ok_0.feedback == "Set team "@ + w[2]
                + " color to "@ + text_color_named(w[3])->Some_0.title()
        }),
{
    argument_words(command);
    literals();
    command_names_are_distinct();
    lookup_finds(command_table(), 8);
    assert(command_table()[8].name == TEAM_COMMAND@);
    arguments_are_there(command);
}

/// What a `/scoreboard` line reports to an operator: the objective that it names, and what was
/// done to it; a score is reported with its player and value.
pub proof fn scoreboard_line_reports(
    command: Seq<char>,
    issuer: Seq<char>,
    level: int,
    readings: Readings,
)
    requires
        tokens(command).len() >= 4,
        tokens(command)[0] == SCOREBOARD_COMMAND@,
        level >= 2,
    ensures
        ({
            let w = tokens(command);
            let outcome = dispatched(command_table(), command, issuer, level, readings);
            &&& outcome is Ok
            &&& w[1] == "objective"@ && w[2] == "add"@ ==> outcome->Ok_0.success
                && outcome->Ok_0.feedback == "Created objective "@ + w[3]
            &&& w[1] == "objective"@ && w[2] == "remove"@ && w.len() == 4
                ==> outcome->Ok_0.success && outcome->Ok_0.feedback == "Removed objective "@ + w[3]
            &&& w[1] == "objective"@ && w[2] == "setdisplay"@ && w.len() == 5 && slot_named(
                w[3],
            ) is Some ==> outcome->Ok_0.success && outcome->Ok_0.feedback
                == "Now displaying objective "@ + w[4]
            &&& w.len() == 6 && w[1] == "score"@ && w[2] == "set"@ ==> forall|n: i32|
                w[5] == #[trigger] signed_decimal(n as int) ==> outcome->Ok_0.success
                    && outcome->Ok_0.feedback == "Set "@ + w[3] + "'s "@ + w[4] + " score to "@
                    + w[5]
        }),
{
    argument_words(command);
    literals();
    command_names_are_distinct();
    lookup_finds(command_table(), 7);
    assert(command_table()[7].name == SCOREBOARD_COMMAND@);
    arguments_are_there(command);
    let w = tokens(command);
    assert forall|n: i32| w.len() == 6 && w[5] == #[trigger] signed_decimal(
        n as int,
    ) implies integer_in(w[5], i32::MIN as int, i32::MAX as int) == Some(n as int) by {
        decimal_reads_back(n as int, i32::MIN as int, i32::MAX as int);
    }
}

/// What a `/bossbar` line reports to an operator: the bar that it names, and what was done to
/// it.
pub proof fn bossbar_line_reports(
    command: Seq<char>,
    issuer: Seq<char>,
    level: int,
    readings: Readings,
)
    requires
        tokens(command).len() >= 3,
        tokens(command)[0] == BOSSBAR_COMMAND@,
        level >= 2,
    ensures
        ({
            let w = tokens(command);
            let outcome = dispatched(command_table(), command, issuer, level, readings);
            &&& outcome is Ok
            &&& w[1] == "add"@ ==> outcome->Ok_0.success && outcome->Ok_0.feedback
                == "Created boss bar "@ + w[2]
            &&& w[1] == "remove"@ && w.len() == 3 ==> outcome->Ok_0.success
                && outcome->Ok_0.feedback == "Removed boss bar "@ + w[2]
            &&& w[1] == "title"@ && w.len() >= 4 ==> outcome->Ok_0.success
                && outcome->Ok_0.feedback == "Set boss bar "@ + w[2] + " title"@
            &&& w[1] == "progress"@ && w.len() == 4 && readings.progress is Some
                && readings.progress->Some_0.fraction_of_one() ==> outcome->Ok_0.success
                && outcome->Ok_0.feedback == "Set boss bar "@ + w[2] + " progress to "@
                + readings.progress_text@
            &&& w[1] == "color"@ && w.len() == 4 && boss_color_named(w[3]) is Some
                ==> outcome->Ok_0.success && outcome->Ok_0.feedback == "Set boss bar "@ + w[2]
                + " color to "@ + boss_color_named(w[3])->Some_0.title()
        }),
{
    argument_words(command);
    literals();
    command_names_are_distinct();
    lookup_finds(command_table(), 9);
    assert(command_table()[9].name == BOSSBAR_COMMAND@);
    arguments_are_there(command);
}

/// The text commands report the rest of the line under what they show; `/playsound` and
/// `/particle` report the name that they were given.
pub proof fn presentation_lines_report(
    command: Seq<char>,
    issuer: Seq<char>,
    level: int,
    readings: Readings,
)
    requires
        tokens(command).len() >= 2,
        level >= 2,
    ensures
        ({
            let w = tokens(command);
            let rest = argument_tail(command);
            let outcome = dispatched(command_table(), command, issuer, level, readings);
            &&& w[0] == TITLE_COMMAND@ ==> outcome is Ok && outcome->Ok_0.success
                && outcome->Ok_0.feedback == "Title shown"@ + ": "@ + rest
            &&& w[0] == SUBTITLE_COMMAND@ ==> outcome is Ok && outcome->Ok_0.success
                && outcome->Ok_0.feedback == "Subtitle shown"@ + ": "@ + rest
            &&& w[0] == ACTIONBAR_COMMAND@ ==> outcome is Ok && outcome->Ok_0.success
                && outcome->Ok_0.feedback == "Action bar shown"@ + ": "@ + rest
            &&& w[0] == PLAYSOUND_COMMAND@ ==> outcome is Ok && (outcome->Ok_0.success
                ==> outcome->Ok_0.feedback == "Playing sound "@ + w[1] && sound_named(
                w[1],
            ) is Some)
            &&& w[0] == PARTICLE_COMMAND@ ==> outcome is Ok && (outcome->Ok_0.success
                ==> outcome->Ok_0.feedback == "Spawning particle "@ + w[1] && particle_named(
                w[1],
            ) is Some)
        }),
{
    argument_words(command);
    literals();
    command_names_are_distinct();
    let table = command_table();
    lookup_finds(table, 2);
    lookup_finds(table, 3);
    lookup_finds(table, 4);
    lookup_finds(table, 5);
    lookup_finds(table, 6);
    assert(table[2].name == TITLE_COMMAND@ && table[3].name == SUBTITLE_COMMAND@);
    assert(table[4].name == ACTIONBAR_COMMAND@ && table[5].name == PLAYSOUND_COMMAND@);
    assert(table[6].name == PARTICLE_COMMAND@);
    arguments_are_there(command);
}

proof fn arguments_are_there(command: Seq<char>)
    requires
        tokens(command).len() >= 2,
    ensures
        argument_tail(command).len() > 0,
        token(argument_tail(command), 0) == tokens(command)[1],
{
    argument_words(command);
    if argument_tail(command).len() == 0 {
        assert(tokens(argument_tail(command)).len() == 0);
    }
}

/// A line is refused in one way only: without a command of its first word it is unknown; with
/// too low a level it is denied, whatever follows; and only then are the arguments looked at.
pub proof fn refusals_come_in_order(
    command: Seq<char>,
    issuer: Seq<char>,
    level: int,
    readings: Readings,
)
    ensures
        ({
            let outcome = dispatched(command_table(), command, issuer, level, readings);
            let node = command_named(command_table(), token(command, 0));
            &&& outcome == Err::<Report, CommandError>(CommandError::UnknownCommand) <==> (
            tokens(command).len() == 0 || node is None)
            &&& outcome == Err::<Report, CommandError>(CommandError::PermissionDenied) <==> (
            tokens(command).len() > 0 && (node matches Some(found) && level < found.level))
        }),
{
}

/// Every mode has one number from zero to three, and every number its mode.
pub proof fn modes_are_numbered(mode: GameMode, number: int)
    ensures
        0 <= mode.number() <= 3,
        GameMode::numbered(mode.number()) == Some(mode),
        GameMode::numbered(number) is Some == (0 <= number <= 3),
        GameMode::numbered(number) matches Some(found) ==> found.number() == number,
{
}

/// What is wrong with the arguments of a line is told as it is: `/gamemode` without a mode lacks
/// it, with a word that is no integer is told so, and with a word too many has unexpected
/// input; so has `/spawn` with any word; and a command that takes the rest of the line lacks it
/// where there is none.
pub proof fn bad_arguments_are_told(
    command: Seq<char>,
    issuer: Seq<char>,
    level: int,
    readings: Readings,
)
    requires
        tokens(command).len() > 0,
        level >= 2,
    ensures
        ({
            let w = tokens(command);
            let outcome = dispatched(command_table(), command, issuer, level, readings);
            &&& w[0] == GAMEMODE_COMMAND@ && w.len() == 1 ==> outcome == Err::<Report, CommandError>(
                CommandError::MissingArgument,
            )
            &&& w[0] == GAMEMODE_COMMAND@ && w.len() >= 2 && integer_in(
                w[1],
                i64::MIN as int,
                i64::MAX as int,
            ) is None ==> outcome == Err::<Report, CommandError>(CommandError::InvalidInteger)
            &&& w[0] == GAMEMODE_COMMAND@ && w.len() > 2 ==> forall|n: i64|
                0 <= n <= 3 && w[1] == #[trigger] signed_decimal(n as int) ==> outcome == Err::<
                    Report,
                    CommandError,
                >(CommandError::UnexpectedInput)
            &&& w[0] == SPAWN_COMMAND@ && w.len() > 1 ==> outcome == Err::<Report, CommandError>(
                CommandError::UnexpectedInput,
            )
            &&& (w[0] == TITLE_COMMAND@ || w[0] == TEAM_COMMAND@ || w[0] == PARTICLE_COMMAND@)
                && w.len() == 1 ==> outcome == Err::<Report, CommandError>(
                CommandError::MissingArgument,
            )
        }),
{
    argument_words(command);
    command_names_are_distinct();
    let table = command_table();
    let w = tokens(command);
    lookup_finds(table, 0);
    lookup_finds(table, 1);
    lookup_finds(table, 2);
    lookup_finds(table, 6);
    lookup_finds(table, 8);
    assert(table[0].name == SPAWN_COMMAND@ && table[1].name == GAMEMODE_COMMAND@);
    assert(table[2].name == TITLE_COMMAND@ && table[6].name == PARTICLE_COMMAND@);
    assert(table[8].name == TEAM_COMMAND@);
    arguments_follow_the_literal(command);
    assert forall|n: i64| 0 <= n <= 3 && w.len() > 2 && w[1] == #[trigger] signed_decimal(
        n as int,
    ) implies integer_in(w[1], i64::MIN as int, i64::MAX as int) == Some(n as int) by {
        decimal_reads_back(n as int, i64::MIN as int, i64::MAX as int);
    }
}

} // verus!
