//! The clientbound packets that a successfully dispatched command produces.
//!
//! A packet is described by what it says; its encoding belongs to the protocol
//! layer. The model of a packet is the packet with each string replaced by its text.

use crate::command::{
    bossbar_form, parse_bossbar, parse_scoreboard, parse_team, scoreboard_form, team_form, viewed,
    BossAction, BossBarColor, BossForm, DisplaySlot, ScoreboardAction, ScoreboardForm, TeamAction,
    TeamForm, TextColor, ACTIONBAR_COMMAND, BOSSBAR_COMMAND, PARTICLE_COMMAND, PLAYSOUND_COMMAND,
    SCOREBOARD_COMMAND, SUBTITLE_COMMAND, TEAM_COMMAND, TITLE_COMMAND,
};
use crate::ieee754::{Double, Single};
use crate::math::Vec3;
use crate::text::{argument_tail, command_args, same_text, split_whitespace, texts, tokens};
use vstd::arithmetic::div_mod::{lemma_fundamental_div_mod_converse, lemma_mul_mod_noop_left};
use vstd::prelude::*;
use vstd::string::StringSliceAdditionalSpecFns;

verus! {

/// Title fade-in time in ticks, sent with every `/title`.
pub const TITLE_FADE_IN_TICKS: i32 = 10;

/// Title hold time in ticks, sent with every `/title`.
pub const TITLE_STAY_TICKS: i32 = 70;

/// Title fade-out time in ticks, sent with every `/title`.
pub const TITLE_FADE_OUT_TICKS: i32 = 20;

/// The bit pattern of the single-precision number one.
pub const SINGLE_ONE: u32 = 0x3f80_0000;

/// Variant seed `/playsound` uses.
pub const PLAYSOUND_SEED: i64 = 0;

/// Particle count `/particle` spawns per invocation.
pub const PARTICLE_COUNT: i32 = 1;

/// No boss-bar flags are set by `/bossbar add`.
pub const BOSSBAR_DEFAULT_FLAGS: u8 = 0;

/// The sounds that `/playsound` knows.
#[derive(Clone, Copy, Debug, PartialEq, Eq, Structural)]
pub enum SoundId {
    /// A harp note.
    NoteBlockHarp,
    /// Gaining a level.
    PlayerLevelup,
    /// A button of the interface.
    UiButtonClick,
    /// Picking up experience.
    ExperienceOrbPickup,
    /// An anvil landing.
    AnvilLand,
}

/// The sound that a friendly name stands for.
pub open spec fn sound_named(name: Seq<char>) -> Option<SoundId> {
    if name == "note_block"@ || name == "harp"@ || name == "note_block.harp"@ {
        Some(SoundId::NoteBlockHarp)
    } else if name == "levelup"@ || name == "level_up"@ {
        Some(SoundId::PlayerLevelup)
    } else if name == "click"@ || name == "button"@ || name == "ui.button.click"@ {
        Some(SoundId::UiButtonClick)
    } else if name == "xp"@ || name == "pickup"@ || name == "experience"@ {
        Some(SoundId::ExperienceOrbPickup)
    } else if name == "anvil"@ {
        Some(SoundId::AnvilLand)
    } else {
        None
    }
}

/// Maps a friendly sound name to its [`SoundId`].
pub fn sound_by_name(name: &str) -> (r: Option<SoundId>)
    ensures
        r == sound_named(name@),
{
    if same_text(name, "note_block") || same_text(name, "harp") || same_text(
        name,
        "note_block.harp",
    ) {
        Some(SoundId::NoteBlockHarp)
    } else if same_text(name, "levelup") || same_text(name, "level_up") {
        Some(SoundId::PlayerLevelup)
    } else if same_text(name, "click") || same_text(name, "button") || same_text(
        name,
        "ui.button.click",
    ) {
        Some(SoundId::UiButtonClick)
    } else if same_text(name, "xp") || same_text(name, "pickup") || same_text(name, "experience") {
        Some(SoundId::ExperienceOrbPickup)
    } else if same_text(name, "anvil") {
        Some(SoundId::AnvilLand)
    } else {
        None
    }
}

/// The particles without data that `/particle` knows.
#[derive(Clone, Copy, Debug, PartialEq, Eq, Structural)]
pub enum ParticleKind {
    /// A flame.
    Flame,
    /// A heart.
    Heart,
    /// A happy villager's sparkle.
    HappyVillager,
    /// A critical hit.
    Crit,
    /// An explosion.
    Explosion,
    /// A cloud.
    Cloud,
    /// Smoke.
    Smoke,
}

/// A `/particle` selection.
#[derive(Clone, Copy, Debug, PartialEq, Eq, Structural)]
pub enum ParticleChoice {
    /// A particle without data.
    Simple(ParticleKind),
    /// The dust particle, which carries a colour and a scale.
    Dust,
}

/// The particle that a name stands for.
pub open spec fn particle_named(name: Seq<char>) -> Option<ParticleChoice> {
    if name == "flame"@ {
        Some(ParticleChoice::Simple(ParticleKind::Flame))
    } else if name == "heart"@ {
        Some(ParticleChoice::Simple(ParticleKind::Heart))
    } else if name == "happy_villager"@ || name == "happy"@ {
        Some(ParticleChoice::Simple(ParticleKind::HappyVillager))
    } else if name == "crit"@ {
        Some(ParticleChoice::Simple(ParticleKind::Crit))
    } else if name == "explosion"@ {
        Some(ParticleChoice::Simple(ParticleKind::Explosion))
    } else if name == "cloud"@ {
        Some(ParticleChoice::Simple(ParticleKind::Cloud))
    } else if name == "smoke"@ {
        Some(ParticleChoice::Simple(ParticleKind::Smoke))
    } else if name == "dust"@ {
        Some(ParticleChoice::Dust)
    } else {
        None
    }
}

/// Maps a particle name to its [`ParticleChoice`].
pub fn particle_by_name(name: &str) -> (r: Option<ParticleChoice>)
    ensures
        r == particle_named(name@),
{
    if same_text(name, "flame") {
        Some(ParticleChoice::Simple(ParticleKind::Flame))
    } else if same_text(name, "heart") {
        Some(ParticleChoice::Simple(ParticleKind::Heart))
    } else if same_text(name, "happy_villager") || same_text(name, "happy") {
        Some(ParticleChoice::Simple(ParticleKind::HappyVillager))
    } else if same_text(name, "crit") {
        Some(ParticleChoice::Simple(ParticleKind::Crit))
    } else if same_text(name, "explosion") {
        Some(ParticleChoice::Simple(ParticleKind::Explosion))
    } else if same_text(name, "cloud") {
        Some(ParticleChoice::Simple(ParticleKind::Cloud))
    } else if same_text(name, "smoke") {
        Some(ParticleChoice::Simple(ParticleKind::Smoke))
    } else if same_text(name, "dust") {
        Some(ParticleChoice::Dust)
    } else {
        None
    }
}

/// The position that `count` coordinate tokens give, each read as the number in
/// `numbers` at its place: none yields the default, exactly three numbers that
/// position, and anything else nothing.
pub open spec fn coordinates(
    count: int,
    numbers: Seq<Option<Double>>,
    default_pos: Vec3,
) -> Option<Vec3> {
    if count == 0 {
        Some(default_pos)
    } else if count == 3 && numbers.len() == 3 && numbers[0] is Some && numbers[1] is Some
        && numbers[2] is Some {
        Some(Vec3 { x: numbers[0]->Some_0, y: numbers[1]->Some_0, z: numbers[2]->Some_0 })
    } else {
        None
    }
}

/// Resolves an optional coordinate triple.
pub fn coords_or_default(
    count: usize,
    numbers: &Vec<Option<Double>>,
    default_pos: Vec3,
) -> (r: Option<Vec3>)
    ensures
        r == coordinates(count as int, numbers@, default_pos),
{
    if count == 0 {
        return Some(default_pos);
    }
    if count == 3 && numbers.len() == 3 {
        if let Some(x) = numbers[0] {
            if let Some(y) = numbers[1] {
                if let Some(z) = numbers[2] {
                    return Some(Vec3 { x, y, z });
                }
            }
        }
    }
    None
}

/// The coordinate tokens of a `/playsound` or `/particle` argument tail: what
/// follows the first token.
pub fn coordinate_tokens(args: &str) -> (r: Vec<String>)
    ensures
        texts(r@) == if tokens(args@).len() == 0 {
            Seq::empty()
        } else {
            tokens(args@).skip(1)
        },
{
    let mut parts = split_whitespace(args);
    let ghost t = tokens(args@);
    assert(t.len() == parts@.len());
    if parts.len() == 0 {
        assert(texts(parts@) =~= Seq::<Seq<char>>::empty());
        return parts;
    }
    let ghost before = parts@;
    let first = parts.remove(0);
    proof {
        assert forall|i: int| 0 <= i < parts@.len() implies #[trigger] texts(parts@)[i] == t.skip(
            1,
        )[i] by {
            assert(parts@[i] == before[i + 1]);
            assert(texts(before)[i + 1] == t[i + 1]);
        }
        assert(texts(parts@) =~= t.skip(1));
    }
    parts
}

/// What a `/playsound` argument tail means, its coordinate tokens read as `numbers`.
pub open spec fn playsound_form(
    args: Seq<char>,
    numbers: Seq<Option<Double>>,
    default_pos: Vec3,
) -> Option<(SoundId, Vec3)> {
    let t = tokens(args);
    if t.len() >= 1 && sound_named(t[0]) is Some && coordinates(
        t.len() - 1,
        numbers,
        default_pos,
    ) is Some {
        Some((sound_named(t[0])->Some_0, coordinates(t.len() - 1, numbers, default_pos)->Some_0))
    } else {
        None
    }
}

/// Parses a `/playsound` argument tail, `<sound> [x y z]`, into its sound and target
/// position.
///
/// `numbers` holds what each coordinate token reads as. `None` on an unknown sound,
/// on coordinates that are not three numbers, or on trailing tokens.
pub fn parse_playsound(args: &str, numbers: &Vec<Option<Double>>, default_pos: Vec3) -> (r: Option<
    (SoundId, Vec3),
>)
    ensures
        r == playsound_form(args@, numbers@, default_pos),
{
    let parts = split_whitespace(args);
    assert(tokens(args@).len() == parts@.len());
    if parts.len() == 0 {
        return None;
    }
    assert(tokens(args@)[0] == parts@[0]@);
    match sound_by_name(parts[0].as_str()) {
        Some(sound) => match coords_or_default(parts.len() - 1, numbers, default_pos) {
            Some(position) => Some((sound, position)),
            None => None,
        },
        None => None,
    }
}

/// What a `/particle` argument tail means, its coordinate tokens read as `numbers`.
pub open spec fn particle_form(
    args: Seq<char>,
    numbers: Seq<Option<Double>>,
    default_pos: Vec3,
) -> Option<(ParticleChoice, Vec3)> {
    let t = tokens(args);
    if t.len() >= 1 && particle_named(t[0]) is Some && coordinates(
        t.len() - 1,
        numbers,
        default_pos,
    ) is Some {
        Some((particle_named(t[0])->Some_0, coordinates(t.len() - 1, numbers, default_pos)->Some_0))
    } else {
        None
    }
}

/// Parses a `/particle` argument tail, `<type> [x y z]`, by the same rules as
/// [`parse_playsound`].
pub fn parse_particle(args: &str, numbers: &Vec<Option<Double>>, default_pos: Vec3) -> (r: Option<
    (ParticleChoice, Vec3),
>)
    ensures
        r == particle_form(args@, numbers@, default_pos),
{
    let parts = split_whitespace(args);
    assert(tokens(args@).len() == parts@.len());
    if parts.len() == 0 {
        return None;
    }
    assert(tokens(args@)[0] == parts@[0]@);
    match particle_by_name(parts[0].as_str()) {
        Some(choice) => match coords_or_default(parts.len() - 1, numbers, default_pos) {
            Some(position) => Some((choice, position)),
            None => None,
        },
        None => None,
    }
}

/// The FNV-1a hash of bytes, its start mixed with a salt.
pub open spec fn fnv1a(salt: u8, data: Seq<u8>) -> u64
    decreases data.len(),
{
    if data.len() == 0 {
        0xcbf2_9ce4_8422_2325u64 ^ (salt as u64)
    } else {
        let mixed = fnv1a(salt, data.drop_last()) ^ (data.last() as u64);
        ((mixed * 0x0000_0100_0000_01b3) % 0x1_0000_0000_0000_0000) as u64
    }
}

/// Multiplication by the prime of the hash can be undone: the prime has an inverse modulo
/// two to the power of 64.
proof fn prime_step_is_undone(mixed: u64)
    ensures
        ((mixed * 0x0000_0100_0000_01b3) % 0x1_0000_0000_0000_0000) * 0xce965057aff6957b
            % 0x1_0000_0000_0000_0000 == mixed,
{
    let modulus = 0x1_0000_0000_0000_0000int;
    let prime = 0x0000_0100_0000_01b3int;
    let inverse = 0xce965057aff6957bint;
    let turns = mixed * 0xce9650590f;
    lemma_mul_mod_noop_left(mixed * prime, inverse, modulus);
    assert(mixed * prime * inverse == turns * modulus + mixed) by (nonlinear_arith)
        requires
            prime * inverse == 0xce9650590f * modulus + 1,
            turns == mixed * 0xce9650590f,
    ;
    lemma_fundamental_div_mod_converse(mixed * prime * inverse, modulus, turns, mixed as int);
}

/// Different salts never hash the same data alike.
pub proof fn salts_separate_hashes(a: u8, b: u8, data: Seq<u8>)
    requires
        a != b,
    ensures
        fnv1a(a, data) != fnv1a(b, data),
    decreases data.len(),
{
    if data.len() == 0 {
        let x = a as u64;
        let y = b as u64;
        assert(x != y ==> 0xcbf2_9ce4_8422_2325u64 ^ x != 0xcbf2_9ce4_8422_2325u64 ^ y)
            by (bit_vector);
    } else {
        let front = data.drop_last();
        salts_separate_hashes(a, b, front);
        let x = fnv1a(a, front);
        let y = fnv1a(b, front);
        let d = data.last() as u64;
        assert(x != y ==> x ^ d != y ^ d) by (bit_vector);
        prime_step_is_undone(x ^ d);
        prime_step_is_undone(y ^ d);
    }
}

/// A salted 64-bit FNV-1a hash.
pub fn fnv1a64(salt: u8, data: &[u8]) -> (r: u64)
    ensures
        r == fnv1a(salt, data@),
{
    let mut hash: u64 = 0xcbf2_9ce4_8422_2325u64 ^ (salt as u64);
    let mut i: usize = 0;
    assert(data@.take(0) =~= Seq::<u8>::empty());
    while i < data.len()
        invariant
            i <= data@.len(),
            hash == fnv1a(salt, data@.take(i as int)),
        decreases data@.len() - i,
    {
        let mixed: u64 = hash ^ (data[i] as u64);
        proof {
            let more = data@.take(i + 1);
            assert(more.drop_last() =~= data@.take(i as int));
            assert(more.last() == data@[i as int]);
        }
        hash = mixed.wrapping_mul(0x0000_0100_0000_01b3);
        i = i + 1;
    }
    assert(data@.take(i as int) =~= data@);
    hash
}

/// `uuid::Uuid::from_u64_pair` puts the first number in the upper half of the
/// identifier and the second in the lower half; `as_u128` gives the identifier as
/// one number.
#[verifier::external_body]
fn uuid_of_halves(high: u64, low: u64) -> (r: u128)
    ensures
        r == high * 0x1_0000_0000_0000_0000 + low,
{
    uuid::Uuid::from_u64_pair(high, low).as_u128()
}

/// The identifier of the boss bar with a friendly name: two salted hashes of the
/// name, one above the other.
pub open spec fn bar_identifier(name: Seq<u8>) -> int {
    fnv1a(1, name) * 0x1_0000_0000_0000_0000 + fnv1a(2, name)
}

/// The two halves of a boss bar's identifier always differ.
pub proof fn halves_of_a_bar_differ(name: Seq<u8>)
    ensures
        bar_identifier(name) / 0x1_0000_0000_0000_0000 == fnv1a(1, name),
        bar_identifier(name) % 0x1_0000_0000_0000_0000 == fnv1a(2, name),
        bar_identifier(name) / 0x1_0000_0000_0000_0000 != bar_identifier(name)
            % 0x1_0000_0000_0000_0000,
{
    salts_separate_hashes(1, 2, name);
    lemma_fundamental_div_mod_converse(
        bar_identifier(name),
        0x1_0000_0000_0000_0000,
        fnv1a(1, name) as int,
        fnv1a(2, name) as int,
    );
}

/// Derives a stable boss-bar identifier from its friendly `id`, so that later
/// commands target the bar that `/bossbar add` created.
pub fn bossbar_uuid(id: &str) -> (r: u128)
    ensures
        r == bar_identifier(id.spec_bytes()),
{
    uuid_of_halves(fnv1a64(1, id.as_bytes()), fnv1a64(2, id.as_bytes()))
}

/// A clientbound packet that a command produces.
#[allow(inconsistent_fields)]
#[derive(Debug, PartialEq, Eq)]
pub enum CommandPacket {
    /// How long a title takes to appear, stays and takes to vanish.
    TitleAnimationTimes {
        /// Ticks to appear.
        fade_in: i32,
        /// Ticks to stay.
        stay: i32,
        /// Ticks to vanish.
        fade_out: i32,
    },
    /// A title.
    Title {
        /// What it says.
        text: String,
    },
    /// A subtitle.
    Subtitle {
        /// What it says.
        text: String,
    },
    /// A line above the hotbar.
    ActionBar {
        /// What it says.
        text: String,
    },
    /// A sound of the master category.
    Sound {
        /// The sound.
        sound: SoundId,
        /// Where it is heard.
        position: Vec3,
        /// How loud.
        volume: Single,
        /// How high.
        pitch: Single,
        /// Which variant.
        seed: i64,
    },
    /// Particles without data.
    Particle {
        /// The kind.
        kind: ParticleKind,
        /// Where they are seen.
        position: Vec3,
        /// How many.
        count: i32,
    },
    /// Dust particles.
    Dust {
        /// Where they are seen.
        position: Vec3,
        /// The red part of their colour.
        red: Single,
        /// The green part of their colour.
        green: Single,
        /// The blue part of their colour.
        blue: Single,
        /// Their size.
        scale: Single,
        /// How many.
        count: i32,
    },
    /// A new objective, shown as integers.
    ObjectiveCreate {
        /// The objective.
        name: String,
        /// How it is shown.
        display: String,
    },
    /// The end of an objective.
    ObjectiveRemove {
        /// The objective.
        name: String,
    },
    /// Where an objective is shown.
    DisplayObjective {
        /// The slot.
        slot: DisplaySlot,
        /// The objective.
        name: String,
    },
    /// A score.
    ScoreSet {
        /// The player.
        entity: String,
        /// The objective.
        objective: String,
        /// The score.
        value: i32,
    },
    /// A new team without a colour.
    TeamCreate {
        /// The team.
        name: String,
        /// How it is shown.
        display: String,
    },
    /// The end of a team.
    TeamRemove {
        /// The team.
        name: String,
    },
    /// A new member of a team.
    TeamAddEntity {
        /// The team.
        team: String,
        /// The member.
        player: String,
    },
    /// A team shown under its own name, with a colour.
    TeamUpdate {
        /// The team.
        team: String,
        /// Its colour.
        color: TextColor,
    },
    /// A new boss bar without divisions.
    BossBarAdd {
        /// The bar.
        bar: u128,
        /// Its title.
        title: String,
        /// How full it is.
        health: Single,
        /// Its colour.
        color: BossBarColor,
        /// Its flags.
        flags: u8,
    },
    /// The end of a boss bar.
    BossBarRemove {
        /// The bar.
        bar: u128,
    },
    /// A boss bar's new title.
    BossBarTitle {
        /// The bar.
        bar: u128,
        /// Its title.
        title: String,
    },
    /// How full a boss bar is.
    BossBarHealth {
        /// The bar.
        bar: u128,
        /// How full it is.
        health: Single,
    },
    /// A boss bar's colour, without divisions.
    BossBarStyle {
        /// The bar.
        bar: u128,
        /// Its colour.
        color: BossBarColor,
    },
}

/// The model of a [`CommandPacket`].
pub enum PacketForm {
    /// The times of a title.
    TitleAnimationTimes(int, int, int),
    /// A title.
    Title(Seq<char>),
    /// A subtitle.
    Subtitle(Seq<char>),
    /// A line above the hotbar.
    ActionBar(Seq<char>),
    /// A sound: which, where, volume, pitch and seed.
    Sound(SoundId, Vec3, Single, Single, int),
    /// Particles: which, where and how many.
    Particle(ParticleKind, Vec3, int),
    /// Dust: where, red, green, blue, scale and how many.
    Dust(Vec3, Single, Single, Single, Single, int),
    /// A new objective and how it is shown.
    ObjectiveCreate(Seq<char>, Seq<char>),
    /// The end of an objective.
    ObjectiveRemove(Seq<char>),
    /// Where an objective is shown.
    DisplayObjective(DisplaySlot, Seq<char>),
    /// The score of a player in an objective.
    ScoreSet(Seq<char>, Seq<char>, int),
    /// A new team and how it is shown.
    TeamCreate(Seq<char>, Seq<char>),
    /// The end of a team.
    TeamRemove(Seq<char>),
    /// A team and a new member.
    TeamAddEntity(Seq<char>, Seq<char>),
    /// A team and its colour.
    TeamUpdate(Seq<char>, TextColor),
    /// A new boss bar: identifier, title, fill, colour and flags.
    BossBarAdd(int, Seq<char>, Single, BossBarColor, int),
    /// The end of a boss bar.
    BossBarRemove(int),
    /// A boss bar's title.
    BossBarTitle(int, Seq<char>),
    /// A boss bar's fill.
    BossBarHealth(int, Single),
    /// A boss bar's colour.
    BossBarStyle(int, BossBarColor),
}

impl View for CommandPacket {
    type V = PacketForm;

    open spec fn view(&self) -> PacketForm {
        match self {
            CommandPacket::TitleAnimationTimes { fade_in, stay, fade_out } =>
                PacketForm::TitleAnimationTimes(*fade_in as int, *stay as int, *fade_out as int),
            CommandPacket::Title { text } => PacketForm::Title(text@),
            CommandPacket::Subtitle { text } => PacketForm::Subtitle(text@),
            CommandPacket::ActionBar { text } => PacketForm::ActionBar(text@),
            CommandPacket::Sound { sound, position, volume, pitch, seed } => PacketForm::Sound(
                *sound,
                *position,
                *volume,
                *pitch,
                *seed as int,
            ),
            CommandPacket::Particle { kind, position, count } => PacketForm::Particle(
                *kind,
                *position,
                *count as int,
            ),
            CommandPacket::Dust { position, red, green, blue, scale, count } => PacketForm::Dust(
                *position,
                *red,
                *green,
                *blue,
                *scale,
                *count as int,
            ),
            CommandPacket::ObjectiveCreate { name, display } => PacketForm::ObjectiveCreate(
                name@,
                display@,
            ),
            CommandPacket::ObjectiveRemove { name } => PacketForm::ObjectiveRemove(name@),
            CommandPacket::DisplayObjective { slot, name } => PacketForm::DisplayObjective(
                *slot,
                name@,
            ),
            CommandPacket::ScoreSet { entity, objective, value } => PacketForm::ScoreSet(
                entity@,
                objective@,
                *value as int,
            ),
            CommandPacket::TeamCreate { name, display } => PacketForm::TeamCreate(name@, display@),
            CommandPacket::TeamRemove { name } => PacketForm::TeamRemove(name@),
            CommandPacket::TeamAddEntity { team, player } => PacketForm::TeamAddEntity(
                team@,
                player@,
            ),
            CommandPacket::TeamUpdate { team, color } => PacketForm::TeamUpdate(team@, *color),
            CommandPacket::BossBarAdd { bar, title, health, color, flags } =>
                PacketForm::BossBarAdd(*bar as int, title@, *health, *color, *flags as int),
            CommandPacket::BossBarRemove { bar } => PacketForm::BossBarRemove(*bar as int),
            CommandPacket::BossBarTitle { bar, title } => PacketForm::BossBarTitle(
                *bar as int,
                title@,
            ),
            CommandPacket::BossBarHealth { bar, health } => PacketForm::BossBarHealth(
                *bar as int,
                *health,
            ),
            CommandPacket::BossBarStyle { bar, color } => PacketForm::BossBarStyle(
                *bar as int,
                *color,
            ),
        }
    }
}

/// The models of a sequence of packets.
pub open spec fn forms(packets: Seq<CommandPacket>) -> Seq<PacketForm> {
    Seq::new(packets.len(), |i: int| packets[i]@)
}

/// The single-precision number one.
pub open spec fn one() -> Single {
    Single { bits: SINGLE_ONE }
}

/// The single-precision number zero.
pub open spec fn zero() -> Single {
    Single { bits: 0 }
}

/// The packets of a presentation command; none for any other command.
pub open spec fn presentation_forms(
    command: Seq<char>,
    numbers: Seq<Option<Double>>,
    default_pos: Vec3,
) -> Seq<PacketForm> {
    let t = tokens(command);
    let args = argument_tail(command);
    if t.len() == 0 {
        Seq::empty()
    } else if t[0] == TITLE_COMMAND@ {
        seq![
            PacketForm::TitleAnimationTimes(
                TITLE_FADE_IN_TICKS as int,
                TITLE_STAY_TICKS as int,
                TITLE_FADE_OUT_TICKS as int,
            ),
            PacketForm::Title(args),
        ]
    } else if t[0] == SUBTITLE_COMMAND@ {
        seq![PacketForm::Subtitle(args)]
    } else if t[0] == ACTIONBAR_COMMAND@ {
        seq![PacketForm::ActionBar(args)]
    } else if t[0] == PLAYSOUND_COMMAND@ {
        match playsound_form(args, numbers, default_pos) {
            Some((sound, position)) => seq![
                PacketForm::Sound(sound, position, one(), one(), PLAYSOUND_SEED as int),
            ],
            None => Seq::empty(),
        }
    } else if t[0] == PARTICLE_COMMAND@ {
        match particle_form(args, numbers, default_pos) {
            Some((ParticleChoice::Simple(kind), position)) => seq![
                PacketForm::Particle(kind, position, PARTICLE_COUNT as int),
            ],
            Some((ParticleChoice::Dust, position)) => seq![
                PacketForm::Dust(position, one(), zero(), zero(), one(), PARTICLE_COUNT as int),
            ],
            None => Seq::empty(),
        }
    } else {
        Seq::empty()
    }
}

/// Builds the packets that a successfully dispatched presentation command (`/title`,
/// `/subtitle`, `/actionbar`, `/playsound`, `/particle`) produces, or none for any
/// other command.
///
/// `default_pos` stands in where `/playsound` or `/particle` gives no coordinates;
/// `numbers` holds what each coordinate token reads as.
pub fn presentation_packets(
    command: &str,
    numbers: &Vec<Option<Double>>,
    default_pos: Vec3,
) -> (r: Vec<CommandPacket>)
    ensures
        forms(r@) == presentation_forms(command@, numbers@, default_pos),
{
    let mut out: Vec<CommandPacket> = Vec::new();
    let parts = split_whitespace(command);
    let ghost expected = presentation_forms(command@, numbers@, default_pos);
    assert(tokens(command@).len() == parts@.len());
    if parts.len() == 0 {
        assert(forms(out@) =~= expected);
        return out;
    }
    assert(tokens(command@)[0] == parts@[0]@);
    let name = parts[0].as_str();
    let args = command_args(command);
    let one = Single { bits: SINGLE_ONE };
    let zero = Single { bits: 0 };
    if same_text(name, TITLE_COMMAND) {
        out.push(
            CommandPacket::TitleAnimationTimes {
                fade_in: TITLE_FADE_IN_TICKS,
                stay: TITLE_STAY_TICKS,
                fade_out: TITLE_FADE_OUT_TICKS,
            },
        );
        out.push(CommandPacket::Title { text: args.to_owned() });
    } else if same_text(name, SUBTITLE_COMMAND) {
        out.push(CommandPacket::Subtitle { text: args.to_owned() });
    } else if same_text(name, ACTIONBAR_COMMAND) {
        out.push(CommandPacket::ActionBar { text: args.to_owned() });
    } else if same_text(name, PLAYSOUND_COMMAND) {
        if let Some((sound, position)) = parse_playsound(args, numbers, default_pos) {
            out.push(
                CommandPacket::Sound {
                    sound,
                    position,
                    volume: one,
                    pitch: one,
                    seed: PLAYSOUND_SEED,
                },
            );
        }
    } else if same_text(name, PARTICLE_COMMAND) {
        match parse_particle(args, numbers, default_pos) {
            Some((ParticleChoice::Simple(kind), position)) => {
                out.push(CommandPacket::Particle { kind, position, count: PARTICLE_COUNT });
            },
            Some((ParticleChoice::Dust, position)) => {
                out.push(
                    CommandPacket::Dust {
                        position,
                        red: one,
                        green: zero,
                        blue: zero,
                        scale: one,
                        count: PARTICLE_COUNT,
                    },
                );
            },
            None => {},
        }
    }
    assert(forms(out@) =~= expected);
    out
}

impl ScoreboardForm {
    /// The packet of the action.
    pub open spec fn packet(self) -> PacketForm {
        match self {
            ScoreboardForm::ObjectiveAdd { name, display } => PacketForm::ObjectiveCreate(
                name,
                display,
            ),
            ScoreboardForm::ObjectiveRemove { name } => PacketForm::ObjectiveRemove(name),
            ScoreboardForm::SetDisplay { slot, name } => PacketForm::DisplayObjective(slot, name),
            ScoreboardForm::ScoreSet { entity, objective, value } => PacketForm::ScoreSet(
                entity,
                objective,
                value as int,
            ),
        }
    }
}

impl ScoreboardAction {
    /// Builds the packets of this action.
    pub fn into_packets(self) -> (r: Vec<CommandPacket>)
        ensures
            forms(r@) == seq![self@.packet()],
    {
        let ghost form = self@;
        let packet = match self {
            ScoreboardAction::ObjectiveAdd { name, display } => CommandPacket::ObjectiveCreate {
                name,
                display,
            },
            ScoreboardAction::ObjectiveRemove { name } => CommandPacket::ObjectiveRemove { name },
            ScoreboardAction::SetDisplay { slot, name } => CommandPacket::DisplayObjective {
                slot,
                name,
            },
            ScoreboardAction::ScoreSet { entity, objective, value } => CommandPacket::ScoreSet {
                entity,
                objective,
                value,
            },
        };
        let mut out: Vec<CommandPacket> = Vec::new();
        out.push(packet);
        assert(forms(out@) =~= seq![form.packet()]);
        out
    }
}

impl TeamForm {
    /// The packet of the action.
    ///
    /// Nothing is remembered of a team, so a colour change shows the team under its
    /// own name again.
    pub open spec fn packet(self) -> PacketForm {
        match self {
            TeamForm::Add { name, display } => PacketForm::TeamCreate(name, display),
            TeamForm::Remove { name } => PacketForm::TeamRemove(name),
            TeamForm::Join { team, player } => PacketForm::TeamAddEntity(team, player),
            TeamForm::Color { team, color } => PacketForm::TeamUpdate(team, color),
        }
    }
}

impl TeamAction {
    /// Builds the packets of this action.
    pub fn into_packets(self) -> (r: Vec<CommandPacket>)
        ensures
            forms(r@) == seq![self@.packet()],
    {
        let ghost form = self@;
        let packet = match self {
            TeamAction::Add { name, display } => CommandPacket::TeamCreate { name, display },
            TeamAction::Remove { name } => CommandPacket::TeamRemove { name },
            TeamAction::Join { team, player } => CommandPacket::TeamAddEntity { team, player },
            TeamAction::Color { team, color } => CommandPacket::TeamUpdate { team, color },
        };
        let mut out: Vec<CommandPacket> = Vec::new();
        out.push(packet);
        assert(forms(out@) =~= seq![form.packet()]);
        out
    }
}

impl BossForm {
    /// The packet of the action.
    pub open spec fn packet(self) -> PacketForm {
        match self {
            BossForm::Add { id, title } => PacketForm::BossBarAdd(
                bar_identifier(vstd::utf8::encode_utf8(id)),
                title,
                one(),
                BossBarColor::Pink,
                BOSSBAR_DEFAULT_FLAGS as int,
            ),
            BossForm::Remove { id } => PacketForm::BossBarRemove(
                bar_identifier(vstd::utf8::encode_utf8(id)),
            ),
            BossForm::Title { id, title } => PacketForm::BossBarTitle(
                bar_identifier(vstd::utf8::encode_utf8(id)),
                title,
            ),
            BossForm::Progress { id, health } => PacketForm::BossBarHealth(
                bar_identifier(vstd::utf8::encode_utf8(id)),
                health,
            ),
            BossForm::Color { id, color } => PacketForm::BossBarStyle(
                bar_identifier(vstd::utf8::encode_utf8(id)),
                color,
            ),
        }
    }
}

impl BossAction {
    /// Builds the packets of this action.
    pub fn into_packets(self) -> (r: Vec<CommandPacket>)
        ensures
            forms(r@) == seq![self@.packet()],
    {
        let ghost form = self@;
        let packet = match self {
            BossAction::Add { id, title } => CommandPacket::BossBarAdd {
                bar: bossbar_uuid(id.as_str()),
                title,
                health: Single { bits: SINGLE_ONE },
                color: BossBarColor::Pink,
                flags: BOSSBAR_DEFAULT_FLAGS,
            },
            BossAction::Remove { id } => CommandPacket::BossBarRemove {
                bar: bossbar_uuid(id.as_str()),
            },
            BossAction::Title { id, title } => CommandPacket::BossBarTitle {
                bar: bossbar_uuid(id.as_str()),
                title,
            },
            BossAction::Progress { id, health } => CommandPacket::BossBarHealth {
                bar: bossbar_uuid(id.as_str()),
                health,
            },
            BossAction::Color { id, color } => CommandPacket::BossBarStyle {
                bar: bossbar_uuid(id.as_str()),
                color,
            },
        };
        let mut out: Vec<CommandPacket> = Vec::new();
        out.push(packet);
        assert(forms(out@) =~= seq![form.packet()]);
        out
    }
}

/// The packets of a `/scoreboard`, `/team` or `/bossbar` command; none for any other
/// command.
pub open spec fn scoreboard_forms(
    command: Seq<char>,
    issuer: Seq<char>,
    reading: Option<Single>,
) -> Seq<PacketForm> {
    let t = tokens(command);
    let args = argument_tail(command);
    if t.len() == 0 {
        Seq::empty()
    } else if t[0] == SCOREBOARD_COMMAND@ {
        match scoreboard_form(args) {
            Some(action) => seq![action.packet()],
            None => Seq::empty(),
        }
    } else if t[0] == TEAM_COMMAND@ {
        match team_form(args, issuer) {
            Some(action) => seq![action.packet()],
            None => Seq::empty(),
        }
    } else if t[0] == BOSSBAR_COMMAND@ {
        match bossbar_form(args, reading) {
            Some(action) => seq![action.packet()],
            None => Seq::empty(),
        }
    } else {
        Seq::empty()
    }
}

/// Builds the packets that a successfully dispatched `/scoreboard`, `/team` or
/// `/bossbar` command produces, or none for any other command.
///
/// `issuer` is the running player's name, the default target of `/team join`;
/// `reading` is the number that the third argument of `/bossbar` reads as, if it is
/// one.
pub fn scoreboard_packets(command: &str, issuer: &str, reading: Option<Single>) -> (r: Vec<
    CommandPacket,
>)
    ensures
        forms(r@) == scoreboard_forms(command@, issuer@, reading),
{
    let mut out: Vec<CommandPacket> = Vec::new();
    let parts = split_whitespace(command);
    let ghost expected = scoreboard_forms(command@, issuer@, reading);
    assert(tokens(command@).len() == parts@.len());
    if parts.len() == 0 {
        assert(forms(out@) =~= expected);
        return out;
    }
    assert(tokens(command@)[0] == parts@[0]@);
    let name = parts[0].as_str();
    let args = command_args(command);
    if same_text(name, SCOREBOARD_COMMAND) {
        if let Some(action) = parse_scoreboard(args) {
            out = action.into_packets();
        }
    } else if same_text(name, TEAM_COMMAND) {
        if let Some(action) = parse_team(args, issuer) {
            out = action.into_packets();
        }
    } else if same_text(name, BOSSBAR_COMMAND) {
        if let Some(action) = parse_bossbar(args, reading) {
            out = action.into_packets();
        }
    }
    assert(forms(out@) =~= expected);
    out
}

/// The boss bar that an action names.
pub open spec fn bar_named(form: BossForm) -> Seq<char> {
    match form {
        BossForm::Add { id, .. } => id,
        BossForm::Remove { id } => id,
        BossForm::Title { id, .. } => id,
        BossForm::Progress { id, .. } => id,
        BossForm::Color { id, .. } => id,
    }
}

/// The boss bar that a packet targets.
pub open spec fn bar_targeted(packet: PacketForm) -> Option<int> {
    match packet {
        PacketForm::BossBarAdd(bar, _, _, _, _) => Some(bar),
        PacketForm::BossBarRemove(bar) => Some(bar),
        PacketForm::BossBarTitle(bar, _) => Some(bar),
        PacketForm::BossBarHealth(bar, _) => Some(bar),
        PacketForm::BossBarStyle(bar, _) => Some(bar),
        _ => None,
    }
}

/// Whatever is done to a boss bar, the same name targets the same bar that the name
/// created.
pub proof fn same_name_targets_the_same_bar(one: BossForm, other: BossForm)
    requires
        bar_named(one) == bar_named(other),
    ensures
        bar_targeted(one.packet()) is Some,
        bar_targeted(one.packet()) == bar_targeted(other.packet()),
{
}

/// The sounds, by the names that a line may give them.
pub proof fn sounds_go_by_their_names(name: Seq<char>)
    ensures
        (sound_named(name) == Some(SoundId::NoteBlockHarp)) == (name == "note_block"@ || name == "harp"@ || name == "note_block.harp"@),
        (sound_named(name) == Some(SoundId::PlayerLevelup)) == (name == "levelup"@ || name == "level_up"@),
        (sound_named(name) == Some(SoundId::UiButtonClick)) == (name == "click"@ || name == "button"@ || name == "ui.button.click"@),
        (sound_named(name) == Some(SoundId::ExperienceOrbPickup)) == (name == "xp"@ || name == "pickup"@ || name == "experience"@),
        (sound_named(name) == Some(SoundId::AnvilLand)) == (name == "anvil"@),
{
    reveal_strlit("note_block");
    reveal_strlit("harp");
    reveal_strlit("note_block.harp");
    reveal_strlit("levelup");
    reveal_strlit("level_up");
    reveal_strlit("click");
    reveal_strlit("button");
    reveal_strlit("ui.button.click");
    reveal_strlit("xp");
    reveal_strlit("pickup");
    reveal_strlit("experience");
    reveal_strlit("anvil");
    assert("note_block"@.len() == 10);
    assert("harp"@.len() == 4);
    assert("note_block.harp"@.len() == 15);
    assert("levelup"@.len() == 7);
    assert("level_up"@.len() == 8);
    assert("click"@.len() == 5);
    assert("button"@.len() == 6);
    assert("ui.button.click"@.len() == 15);
    assert("xp"@.len() == 2);
    assert("pickup"@.len() == 6);
    assert("experience"@.len() == 10);
    assert("anvil"@.len() == 5);
    assert("anvil"@[0] == 'a');
    assert("button"@[0] == 'b');
    assert("click"@[0] == 'c');
    assert("experience"@[0] == 'e');
    assert("note_block"@[0] == 'n');
    assert("note_block.harp"@[0] == 'n');
    assert("pickup"@[0] == 'p');
    assert("ui.button.click"@[0] == 'u');
}

/// The particles, by the names that a line may give them.
pub proof fn particles_go_by_their_names(name: Seq<char>)
    ensures
        (particle_named(name) == Some(ParticleChoice::Simple(ParticleKind::Flame))) == (name == "flame"@),
        (particle_named(name) == Some(ParticleChoice::Simple(ParticleKind::Heart))) == (name == "heart"@),
        (particle_named(name) == Some(ParticleChoice::Simple(ParticleKind::HappyVillager))) == (name == "happy_villager"@ || name == "happy"@),
        (particle_named(name) == Some(ParticleChoice::Simple(ParticleKind::Crit))) == (name == "crit"@),
        (particle_named(name) == Some(ParticleChoice::Simple(ParticleKind::Explosion))) == (name == "explosion"@),
        (particle_named(name) == Some(ParticleChoice::Simple(ParticleKind::Cloud))) == (name == "cloud"@),
        (particle_named(name) == Some(ParticleChoice::Simple(ParticleKind::Smoke))) == (name == "smoke"@),
        (particle_named(name) == Some(ParticleChoice::Dust)) == (name == "dust"@),
{
    reveal_strlit("flame");
    reveal_strlit("heart");
    reveal_strlit("happy_villager");
    reveal_strlit("happy");
    reveal_strlit("crit");
    reveal_strlit("explosion");
    reveal_strlit("cloud");
    reveal_strlit("smoke");
    reveal_strlit("dust");
    assert("flame"@.len() == 5);
    assert("heart"@.len() == 5);
    assert("happy_villager"@.len() == 14);
    assert("happy"@.len() == 5);
    assert("crit"@.len() == 4);
    assert("explosion"@.len() == 9);
    assert("cloud"@.len() == 5);
    assert("smoke"@.len() == 5);
    assert("dust"@.len() == 4);
    assert("cloud"@[0] == 'c');
    assert("crit"@[0] == 'c');
    assert("dust"@[0] == 'd');
    assert("flame"@[0] == 'f');
    assert("happy"@[0] == 'h');
    assert("happy"@[1] == 'a');
    assert("heart"@[0] == 'h');
    assert("heart"@[1] == 'e');
    assert("smoke"@[0] == 's');
}

} // verus!
