//! Commands: dispatch, parsing, feedback and packets.

use ferrumc_app::command::{
    boss_color_by_name, display_slot_by_name, parse_bossbar, parse_gamemode, parse_scoreboard,
    parse_team, text_color_by_name, BossAction, BossBarColor, DisplaySlot, GameMode,
    ScoreboardAction, TeamAction, TextColor, GAMEMODE_COMMAND, SPAWN_COMMAND,
};
use ferrumc_app::command_packets::{
    bossbar_uuid, coordinate_tokens, fnv1a64, parse_particle, parse_playsound, particle_by_name,
    presentation_packets, scoreboard_packets, sound_by_name, CommandPacket, ParticleChoice,
    ParticleKind, SoundId,
};
use ferrumc_app::command_tree::{
    ArgumentKind, build_command_tree, CommandError, CommandResult, CommandTree, Readings,
};
use ferrumc_app::ieee754::{Double, Single};
use ferrumc_app::math::Vec3;
use ferrumc_app::tab_complete::{handle_tab_complete, tab_complete_reply};
use ferrumc_app::text::{command_args, first_token, join_rest, only, split_whitespace};

const OP_LEVEL: u8 = 4;
const MEMBER_LEVEL: u8 = 0;

fn double(value: f64) -> Double {
    Double { bits: value.to_bits() }
}

fn single(value: f32) -> Single {
    Single { bits: value.to_bits() }
}

fn vec3(x: f64, y: f64, z: f64) -> Vec3 {
    Vec3 { x: double(x), y: double(y), z: double(z) }
}

/// A fixed spawn used as the default position for `/playsound` and `/particle`
/// when the command omits its coordinates.
fn spawn_pos() -> Vec3 {
    vec3(0.5, 64.0, 0.5)
}

/// The issuer name passed to `scoreboard_packets` in tests.
const ISSUER: &str = "Saad";

fn numbers(args: &str) -> Vec<Option<Double>> {
    coordinate_tokens(args)
        .iter()
        .map(|token| token.parse::<f64>().ok().map(double))
        .collect()
}

fn progress(args: &str) -> Option<Single> {
    args.split_whitespace().nth(2).and_then(|token| token.parse::<f32>().ok()).map(single)
}

fn readings(command: &str) -> Readings {
    let args = command_args(command);
    let progress = progress(args);
    Readings {
        coordinates: numbers(args),
        progress,
        progress_text: progress.map_or(String::new(), |value| {
            f32::from_bits(value.bits).to_string()
        }),
    }
}

fn dispatch(tree: &CommandTree, command: &str, level: u8) -> Result<CommandResult, CommandError> {
    tree.dispatch(command, "Op", level, &readings(command))
}

fn presented(command: &str) -> Vec<CommandPacket> {
    presentation_packets(command, &numbers(command_args(command)), spawn_pos())
}

fn scored(command: &str) -> Vec<CommandPacket> {
    scoreboard_packets(command, ISSUER, progress(command_args(command)))
}

#[test]
fn spawn_dispatches_for_any_player() {
    let tree = build_command_tree();
    let result = tree
        .dispatch("spawn", "Joe", 0, &readings("spawn"))
        .expect("spawn dispatches");
    assert!(result.is_success());
    assert_eq!(result.feedback, "Joe teleported to spawn");
}

#[test]
fn gamemode_accepts_valid_mode_for_an_operator() {
    let tree = build_command_tree();
    let result = dispatch(&tree, "gamemode 1", OP_LEVEL).expect("dispatches");
    assert!(result.is_success());
    assert_eq!(result.feedback, "Game mode set to Creative");
}

#[test]
fn gamemode_rejects_out_of_range_mode() {
    let tree = build_command_tree();
    let err = dispatch(&tree, "gamemode 9", OP_LEVEL).expect_err("9 is out of range");
    assert!(matches!(err, CommandError::IntegerOutOfRange { .. }));
}

#[test]
fn parse_gamemode_extracts_a_valid_mode() {
    assert_eq!(parse_gamemode("gamemode 0"), Some(GameMode::Survival));
    assert_eq!(parse_gamemode("gamemode 1"), Some(GameMode::Creative));
    assert_eq!(parse_gamemode("gamemode 3"), Some(GameMode::Spectator));
}

#[test]
fn parse_gamemode_rejects_non_gamemode_or_bad_arg() {
    assert_eq!(parse_gamemode("spawn"), None);
    assert_eq!(parse_gamemode("gamemode"), None);
    assert_eq!(parse_gamemode("gamemode 9"), None);
    assert_eq!(parse_gamemode("gamemode x"), None);
}

#[test]
fn gamemode_requires_operator_level() {
    let tree = build_command_tree();
    let err = dispatch(&tree, "gamemode 1", MEMBER_LEVEL).expect_err("member lacks level 2");
    assert!(matches!(err, CommandError::PermissionDenied));
}

#[test]
fn command_graph_is_permission_filtered() {
    let tree = build_command_tree();

    // An operator sees both commands and the typed `mode` argument.
    let op_names = tree.visible_names(4);
    assert!(op_names.contains(&SPAWN_COMMAND));
    assert!(op_names.contains(&GAMEMODE_COMMAND));
    assert!(op_names.contains(&"mode"));
    let mode = tree.nodes.iter().find(|node| node.argument == "mode").expect("mode node");
    assert!(matches!(mode.kind, ArgumentKind::Integer { .. }));

    // A level-0 player sees only `/spawn`; the gated `/gamemode` subtree is gone.
    let member_names = tree.visible_names(0);
    assert!(member_names.contains(&SPAWN_COMMAND));
    assert!(!member_names.contains(&GAMEMODE_COMMAND));
    assert!(!member_names.contains(&"mode"));

    // What is declared to a client therefore differs by level.
    assert!(op_names.len() > member_names.len());
    assert_eq!(op_names.len(), 19);
    assert_eq!(member_names, vec![SPAWN_COMMAND]);
}

#[test]
fn presentation_commands_require_operator_level() {
    let tree = build_command_tree();
    for cmd in [
        "title hi",
        "subtitle hi",
        "actionbar hi",
        "playsound click",
        "particle flame",
    ] {
        let err = dispatch(&tree, cmd, MEMBER_LEVEL).expect_err("member lacks level");
        assert!(matches!(err, CommandError::PermissionDenied), "{cmd}");
    }
}

#[test]
fn title_dispatches_and_emits_times_then_title() {
    let tree = build_command_tree();
    let result = dispatch(&tree, "title Hello World", OP_LEVEL).expect("title dispatches");
    assert!(result.is_success());
    assert_eq!(result.feedback, "Title shown: Hello World");

    let packets = presented("title Hello World");
    assert!(
        matches!(
            packets.as_slice(),
            [
                CommandPacket::TitleAnimationTimes { fade_in: 10, stay: 70, fade_out: 20 },
                CommandPacket::Title { text },
            ] if text == "Hello World"
        ),
        "/title sends the default animation times then the title text"
    );
}

#[test]
fn subtitle_and_actionbar_build_their_packets() {
    assert!(matches!(
        presented("subtitle hi there").as_slice(),
        [CommandPacket::Subtitle { text }] if text == "hi there"
    ));
    assert!(matches!(
        presented("actionbar hi there").as_slice(),
        [CommandPacket::ActionBar { text }] if text == "hi there"
    ));
}

#[test]
fn playsound_known_sound_builds_a_sound_effect() {
    let tree = build_command_tree();
    assert!(dispatch(&tree, "playsound levelup", OP_LEVEL)
        .expect("dispatches")
        .is_success());
    let packets = presented("playsound levelup");
    let [CommandPacket::Sound { sound, position, volume, pitch, seed }] = packets.as_slice() else {
        panic!("/playsound builds one sound packet");
    };
    assert_eq!(*sound, SoundId::PlayerLevelup);
    assert_eq!(*position, spawn_pos());
    assert_eq!((*volume, *pitch, *seed), (single(1.0), single(1.0), 0));
}

#[test]
fn playsound_unknown_sound_fails_and_emits_nothing() {
    let tree = build_command_tree();
    let result =
        dispatch(&tree, "playsound not_a_sound", OP_LEVEL).expect("dispatch reaches the handler");
    assert!(!result.is_success());
    assert_eq!(
        result.feedback,
        "usage: /playsound <sound> [x y z] — unknown sound or bad coordinates"
    );
    assert!(presented("playsound not_a_sound").is_empty());
}

#[test]
fn playsound_parses_explicit_and_default_coordinates() {
    let parse = |args: &str| parse_playsound(args, &numbers(args), spawn_pos());
    let (_, pos) = parse("click 1 2 3").expect("explicit coords");
    assert_eq!(pos, vec3(1.0, 2.0, 3.0));
    let (_, default) = parse("click").expect("default coords");
    assert_eq!(default, spawn_pos());
    // A partial, unparsable, or over-long coordinate list is rejected.
    assert!(parse("click 1 2").is_none());
    assert!(parse("click 1 2 x").is_none());
    assert!(parse("click 1 2 3 4").is_none());
}

#[test]
fn particle_known_and_dust_build_particles() {
    assert!(matches!(
        presented("particle flame").as_slice(),
        [CommandPacket::Particle { kind: ParticleKind::Flame, count: 1, .. }]
    ));
    let dust = presented("particle dust 1 2 3");
    let [CommandPacket::Dust { position, red, green, blue, scale, count }] = dust.as_slice() else {
        panic!("/particle dust builds one dust packet");
    };
    assert_eq!(*position, vec3(1.0, 2.0, 3.0));
    assert_eq!(
        (*red, *green, *blue, *scale, *count),
        (single(1.0), single(0.0), single(0.0), single(1.0), 1)
    );
}

#[test]
fn particle_unknown_fails_and_emits_nothing() {
    let tree = build_command_tree();
    assert!(!dispatch(&tree, "particle nope", OP_LEVEL)
        .expect("reaches the handler")
        .is_success());
    assert!(presented("particle nope").is_empty());
}

#[test]
fn presentation_packets_ignores_other_commands() {
    assert!(presented("spawn").is_empty());
    assert!(presented("gamemode 1").is_empty());
    assert!(presented("").is_empty());
}

#[test]
fn scoreboard_team_bossbar_require_operator_level() {
    let tree = build_command_tree();
    for cmd in [
        "scoreboard objective add kills Kills",
        "team add red Red",
        "bossbar add boss Boss",
    ] {
        let err = dispatch(&tree, cmd, MEMBER_LEVEL).expect_err("member lacks level");
        assert!(matches!(err, CommandError::PermissionDenied), "{cmd}");
    }
}

#[test]
fn scoreboard_objective_lifecycle_dispatches_and_builds_packets() {
    let tree = build_command_tree();
    for cmd in [
        "scoreboard objective add kills Kills",
        "scoreboard objective setdisplay sidebar kills",
        "scoreboard score set Saad kills 7",
        "scoreboard objective remove kills",
    ] {
        assert!(
            dispatch(&tree, cmd, OP_LEVEL).expect("dispatches").is_success(),
            "{cmd}"
        );
    }

    assert!(matches!(
        scored("scoreboard objective add kills Kills").as_slice(),
        [CommandPacket::ObjectiveCreate { name, display }] if name == "kills" && display == "Kills"
    ));
    assert!(matches!(
        scored("scoreboard objective setdisplay sidebar kills").as_slice(),
        [CommandPacket::DisplayObjective { slot: DisplaySlot::Sidebar, name }] if name == "kills"
    ));
    assert!(matches!(
        scored("scoreboard score set Saad kills 7").as_slice(),
        [CommandPacket::ScoreSet { entity, objective, value: 7 }]
            if entity == "Saad" && objective == "kills"
    ));
    assert!(matches!(
        scored("scoreboard objective remove kills").as_slice(),
        [CommandPacket::ObjectiveRemove { name }] if name == "kills"
    ));
}

#[test]
fn scoreboard_rejects_malformed_forms() {
    let tree = build_command_tree();
    for cmd in [
        "scoreboard objective add",                   // missing name
        "scoreboard objective setdisplay nope kills", // bad slot
        "scoreboard score set Saad kills",            // missing value
        "scoreboard score set Saad kills x",          // non-integer value
        "scoreboard score set Saad kills 7 extra",    // trailing token
        "scoreboard nonsense",
    ] {
        assert!(
            !dispatch(&tree, cmd, OP_LEVEL).expect("reaches handler").is_success(),
            "{cmd}"
        );
        assert!(scored(cmd).is_empty(), "{cmd}");
    }
}

#[test]
fn team_commands_dispatch_and_build_set_player_team() {
    let tree = build_command_tree();
    for cmd in [
        "team add red Red Team",
        "team join red Saad",
        "team color red yellow",
        "team remove red",
    ] {
        assert!(
            dispatch(&tree, cmd, OP_LEVEL).expect("dispatches").is_success(),
            "{cmd}"
        );
        assert!(
            matches!(
                scored(cmd).as_slice(),
                [CommandPacket::TeamCreate { .. }
                    | CommandPacket::TeamAddEntity { .. }
                    | CommandPacket::TeamUpdate { .. }
                    | CommandPacket::TeamRemove { .. }]
            ),
            "{cmd}"
        );
    }
    assert_eq!(
        scored("team add red Red Team"),
        vec![CommandPacket::TeamCreate {
            name: "red".to_string(),
            display: "Red Team".to_string()
        }]
    );
    assert_eq!(
        scored("team color red yellow"),
        vec![CommandPacket::TeamUpdate { team: "red".to_string(), color: TextColor::Yellow }]
    );
}

#[test]
fn team_join_defaults_to_issuer() {
    // No explicit player → the entity list carries the issuer's name.
    let TeamAction::Join { team, player } = parse_team("join red", "Saad").expect("parses") else {
        panic!("expected a join action");
    };
    assert_eq!(team, "red");
    assert_eq!(player, "Saad");
    // Explicit player overrides the issuer.
    let TeamAction::Join { player, .. } = parse_team("join red Op", "Saad").expect("parses") else {
        panic!("expected a join action");
    };
    assert_eq!(player, "Op");
}

#[test]
fn team_rejects_unknown_color() {
    let tree = build_command_tree();
    assert!(!dispatch(&tree, "team color red mauve", OP_LEVEL)
        .expect("reaches handler")
        .is_success());
    assert!(scored("team color red mauve").is_empty());
}

#[test]
fn bossbar_commands_dispatch_and_build_boss_bar() {
    let tree = build_command_tree();
    for cmd in [
        "bossbar add boss The Boss",
        "bossbar title boss A New Title",
        "bossbar progress boss 0.5",
        "bossbar color boss purple",
        "bossbar remove boss",
    ] {
        assert!(
            dispatch(&tree, cmd, OP_LEVEL).expect("dispatches").is_success(),
            "{cmd}"
        );
        assert!(
            matches!(
                scored(cmd).as_slice(),
                [CommandPacket::BossBarAdd { .. }
                    | CommandPacket::BossBarTitle { .. }
                    | CommandPacket::BossBarHealth { .. }
                    | CommandPacket::BossBarStyle { .. }
                    | CommandPacket::BossBarRemove { .. }]
            ),
            "{cmd}"
        );
    }
    assert_eq!(
        scored("bossbar add boss The Boss"),
        vec![CommandPacket::BossBarAdd {
            bar: bossbar_uuid("boss"),
            title: "The Boss".to_string(),
            health: single(1.0),
            color: BossBarColor::Pink,
            flags: 0,
        }]
    );
    assert_eq!(
        scored("bossbar progress boss 0.5"),
        vec![CommandPacket::BossBarHealth { bar: bossbar_uuid("boss"), health: single(0.5) }]
    );
    assert_eq!(
        dispatch(&tree, "bossbar progress boss 0.5", OP_LEVEL).expect("dispatches").feedback,
        "Set boss bar boss progress to 0.5"
    );
}

#[test]
fn bossbar_rejects_bad_progress_and_color() {
    let tree = build_command_tree();
    for cmd in [
        "bossbar progress boss 2.0", // out of 0.0..=1.0
        "bossbar progress boss low", // non-numeric
        "bossbar color boss chartreuse",
        "bossbar title boss", // missing title text
    ] {
        assert!(
            !dispatch(&tree, cmd, OP_LEVEL).expect("reaches handler").is_success(),
            "{cmd}"
        );
        assert!(scored(cmd).is_empty(), "{cmd}");
    }
}

#[test]
fn bossbar_uuid_is_stable_per_id() {
    // The same id always maps to the same bar so updates target the add.
    assert_eq!(bossbar_uuid("boss"), bossbar_uuid("boss"));
    // Different ids map to different bars.
    assert_ne!(bossbar_uuid("boss"), bossbar_uuid("other"));
}

#[test]
fn scoreboard_packets_ignores_other_commands() {
    assert!(scored("spawn").is_empty());
    assert!(scored("title hi").is_empty());
    assert!(scored("").is_empty());
}

#[test]
fn bossbar_uuid_puts_one_hash_above_the_other() {
    let high = fnv1a64(1, b"boss");
    let low = fnv1a64(2, b"boss");
    assert_eq!(bossbar_uuid("boss"), (u128::from(high) << 64) | u128::from(low));
    assert_eq!(
        uuid::Uuid::from_u128(bossbar_uuid("boss")),
        uuid::Uuid::from_u64_pair(high, low)
    );
    // Different salts never hash the same name alike.
    for name in ["", "boss", "other", "\u{00e9}"] {
        for salt in 1..=255u8 {
            assert_ne!(fnv1a64(0, name.as_bytes()), fnv1a64(salt, name.as_bytes()));
        }
        let bar = bossbar_uuid(name);
        assert_ne!(bar >> 64, bar & u128::from(u64::MAX));
    }
}

#[test]
fn hashes_of_known_inputs() {
    // Without a salt this is the published hash of the empty input and of "a".
    assert_eq!(fnv1a64(0, b""), 0xcbf2_9ce4_8422_2325);
    assert_eq!(fnv1a64(0, b"a"), 0xaf63_dc4c_8601_ec8c);
    assert_eq!(fnv1a64(0, b"foobar"), 0x8594_4171_f739_67e8);
    assert_eq!(fnv1a64(1, b""), 0xcbf2_9ce4_8422_2324);
}

#[test]
fn command_errors_come_in_their_order() {
    let tree = build_command_tree();
    let error = |command: &str, level: u8| dispatch(&tree, command, level).expect_err(command);
    assert_eq!(error("", OP_LEVEL), CommandError::UnknownCommand);
    assert_eq!(error("nope", OP_LEVEL), CommandError::UnknownCommand);
    assert_eq!(error("spawn now", OP_LEVEL), CommandError::UnexpectedInput);
    assert_eq!(error("gamemode", OP_LEVEL), CommandError::MissingArgument);
    assert_eq!(error("gamemode x", OP_LEVEL), CommandError::InvalidInteger);
    assert_eq!(error("gamemode 9", OP_LEVEL), CommandError::IntegerOutOfRange { value: 9 });
    assert_eq!(error("gamemode 1 x", OP_LEVEL), CommandError::UnexpectedInput);
    assert_eq!(error("title", OP_LEVEL), CommandError::MissingArgument);
    assert_eq!(error("title", 1), CommandError::PermissionDenied);
}

#[test]
fn feedback_of_every_action() {
    let scoreboard = |args: &str| parse_scoreboard(args).expect(args).feedback();
    assert_eq!(scoreboard("objective add kills"), "Created objective kills");
    assert_eq!(scoreboard("objective remove kills"), "Removed objective kills");
    assert_eq!(scoreboard("objective setdisplay tab kills"), "Now displaying objective kills");
    assert_eq!(scoreboard("score set Saad kills -7"), "Set Saad's kills score to -7");
    let team = |args: &str| parse_team(args, "me").expect(args).feedback();
    assert_eq!(team("add red"), "Created team red");
    assert_eq!(team("remove red"), "Removed team red");
    assert_eq!(team("join red"), "Added me to team red");
    assert_eq!(team("color red light_purple"), "Set team red color to light_purple");
    let boss = |args: &str| parse_bossbar(args, progress(args)).expect(args).feedback("0.25");
    assert_eq!(boss("add b"), "Created boss bar b");
    assert_eq!(boss("remove b"), "Removed boss bar b");
    assert_eq!(boss("title b New"), "Set boss bar b title");
    assert_eq!(boss("progress b 0.25"), "Set boss bar b progress to 0.25");
    assert_eq!(boss("color b purple"), "Set boss bar b color to Purple");
}

#[test]
fn names_and_their_meanings() {
    assert_eq!(display_slot_by_name("list"), Some(DisplaySlot::List));
    assert_eq!(display_slot_by_name("below"), Some(DisplaySlot::BelowName));
    assert_eq!(display_slot_by_name("above"), None);
    assert_eq!(text_color_by_name("dark_aqua"), Some(TextColor::DarkAqua));
    assert_eq!(text_color_by_name("Dark_Aqua"), None);
    assert_eq!(boss_color_by_name("white"), Some(BossBarColor::White));
    assert_eq!(boss_color_by_name("gold"), None);
    assert_eq!(sound_by_name("ui.button.click"), Some(SoundId::UiButtonClick));
    assert_eq!(sound_by_name("xp"), Some(SoundId::ExperienceOrbPickup));
    assert_eq!(sound_by_name("anvil"), Some(SoundId::AnvilLand));
    assert_eq!(sound_by_name("harp"), Some(SoundId::NoteBlockHarp));
    assert_eq!(sound_by_name("bell"), None);
    assert_eq!(particle_by_name("happy"), Some(ParticleChoice::Simple(ParticleKind::HappyVillager)));
    assert_eq!(particle_by_name("dust"), Some(ParticleChoice::Dust));
    assert_eq!(particle_by_name("rain"), None);
    assert_eq!(
        parse_particle("crit", &Vec::new(), spawn_pos()),
        Some((ParticleChoice::Simple(ParticleKind::Crit), spawn_pos()))
    );
}

#[test]
fn displays_default_to_the_name() {
    assert_eq!(
        parse_scoreboard("objective add kills"),
        Some(ScoreboardAction::ObjectiveAdd {
            name: "kills".to_string(),
            display: "kills".to_string()
        })
    );
    assert_eq!(
        parse_scoreboard("objective add kills  Player   Kills "),
        Some(ScoreboardAction::ObjectiveAdd {
            name: "kills".to_string(),
            display: "Player Kills".to_string()
        })
    );
    assert_eq!(
        parse_bossbar("add b", None),
        Some(BossAction::Add { id: "b".to_string(), title: "b".to_string() })
    );
    assert_eq!(parse_bossbar("progress b 1.5", Some(single(1.5))), None);
    assert_eq!(parse_bossbar("progress b nan", Some(single(f32::NAN))), None);
    assert_eq!(
        parse_bossbar("progress b -0", Some(single(-0.0))),
        Some(BossAction::Progress { id: "b".to_string(), health: single(-0.0) })
    );
    assert_eq!(parse_scoreboard("score set a b 2147483648"), None);
}

#[test]
fn tokens_and_tails() {
    assert_eq!(command_args("title  Hello  World "), "Hello  World ");
    assert_eq!(command_args("title"), "");
    assert_eq!(command_args(" title hi"), "hi");
    assert_eq!(command_args("\t title  a b"), "a b");
    assert_eq!(command_args("  title "), "");
    assert_eq!(command_args("  "), "");
    assert_eq!(presented("  title hi"), presented("title hi"));
    assert_eq!(scored(" team add red"), scored("team add red"));
    let feedback = |line: &str| {
        dispatch(&build_command_tree(), line, OP_LEVEL).expect("dispatches").feedback
    };
    assert_eq!(feedback(" title hi"), "Title shown: hi");
    assert_eq!(first_token("  a b"), "a");
    assert_eq!(first_token(" \t\u{3000}"), "");
    let parts = split_whitespace("a\u{2003}b\n c");
    assert_eq!(parts, vec!["a", "b", "c"]);
    assert_eq!(join_rest(&parts, 1), "b c");
    assert_eq!(join_rest(&parts, 3), "");
    assert_eq!(only(7, &parts, 3), Some(7));
    assert_eq!(only(7, &parts, 2), None);
    for code in 0..0x3100u32 {
        if let Some(c) = char::from_u32(code) {
            assert_eq!(ferrumc_app::text::is_whitespace(c), c.is_whitespace(), "{code:x}");
        }
    }
}

#[test]
fn handlers_tab_complete_offers_literal_completion_for_a_prefix() {
    let tree = build_command_tree();
    // "/sp" -> the in-progress token "sp" (char 1..3) completes to "spawn".
    let (start, length, matches) = tab_complete_reply(&tree, OP_LEVEL, "/sp");
    assert_eq!((start, length), (1, 2));
    assert_eq!(matches, vec![SPAWN_COMMAND.to_string()]);
}

#[test]
fn handlers_tab_complete_lists_all_commands_after_the_slash() {
    let tree = build_command_tree();
    let (start, length, matches) = tab_complete_reply(&tree, OP_LEVEL, "/");
    assert_eq!((start, length), (1, 0));
    assert!(matches.contains(&SPAWN_COMMAND.to_string()));
    assert!(matches.contains(&GAMEMODE_COMMAND.to_string()));
}

#[test]
fn handlers_tab_complete_hides_gated_commands_from_low_level_players() {
    let tree = build_command_tree();
    // A level-0 player gets `/spawn` but never `/gamemode`.
    let (_, _, op_matches) = tab_complete_reply(&tree, OP_LEVEL, "/ga");
    assert_eq!(op_matches, vec![GAMEMODE_COMMAND.to_string()]);
    let (_, _, member_matches) = tab_complete_reply(&tree, MEMBER_LEVEL, "/ga");
    assert!(member_matches.is_empty());
}

#[test]
fn handlers_tab_complete_drops_argument_hints() {
    let tree = build_command_tree();
    // After "/gamemode " the only candidate is the `<mode: 0..3>` hint, which is
    // display-only and must not be sent as an insertable match.
    let (start, length, matches) = tab_complete_reply(&tree, OP_LEVEL, "/gamemode ");
    assert_eq!((start, length), (10, 0));
    assert!(matches.is_empty());
}

#[test]
fn handlers_tab_complete_range_is_in_char_units_for_non_ascii() {
    let tree = build_command_tree();
    // "/éa": the accented `é` is two UTF-8 bytes, so the in-progress token "éa"
    // begins at character 1 (right after the slash) and is two characters long.
    let (start, length, _) = tab_complete_reply(&tree, OP_LEVEL, "/\u{e9}a");
    assert_eq!((start, length), (1, 2));
}

#[test]
fn connection_tab_complete_offers_literal_completion_for_a_prefix() {
    let tree = build_command_tree();
    let (start, length, matches) = tab_complete_reply(&tree, OP_LEVEL, "/sp");
    assert_eq!((start, length), (1, 2));
    assert_eq!(matches, vec![SPAWN_COMMAND.to_string()]);
}

#[test]
fn connection_tab_complete_lists_all_commands_after_the_slash() {
    let tree = build_command_tree();
    let (start, length, matches) = tab_complete_reply(&tree, OP_LEVEL, "/");
    assert_eq!((start, length), (1, 0));
    assert!(matches.contains(&SPAWN_COMMAND.to_string()));
    assert!(matches.contains(&GAMEMODE_COMMAND.to_string()));
}

#[test]
fn connection_tab_complete_hides_gated_commands_from_low_level_players() {
    let tree = build_command_tree();
    let (_, _, op_matches) = tab_complete_reply(&tree, OP_LEVEL, "/ga");
    assert_eq!(op_matches, vec![GAMEMODE_COMMAND.to_string()]);
    let (_, _, member_matches) = tab_complete_reply(&tree, MEMBER_LEVEL, "/ga");
    assert!(member_matches.is_empty());
}

#[test]
fn connection_tab_complete_drops_argument_hints() {
    let tree = build_command_tree();
    let (start, length, matches) = tab_complete_reply(&tree, OP_LEVEL, "/gamemode ");
    assert_eq!((start, length), (10, 0));
    assert!(matches.is_empty());
}

#[test]
fn connection_tab_complete_range_is_in_char_units_for_non_ascii() {
    let tree = build_command_tree();
    let (start, length, _) = tab_complete_reply(&tree, OP_LEVEL, "/\u{e9}a");
    assert_eq!((start, length), (1, 2));
}

#[test]
fn a_completion_reply_carries_its_question() {
    let tree = build_command_tree();
    let reply = handle_tab_complete(&tree, OP_LEVEL, 17, "/tea");
    assert_eq!((reply.transaction_id, reply.start, reply.length), (17, 1, 3));
    assert_eq!(reply.matches, vec!["team".to_string()]);
    let reply = handle_tab_complete(&tree, OP_LEVEL, 18, "s");
    assert_eq!((reply.start, reply.length), (0, 1));
    assert_eq!(reply.matches, vec!["spawn", "subtitle", "scoreboard"]);
}
