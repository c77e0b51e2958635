//! The arguments of the server's commands: what each accepted form means, and the
//! feedback it gives.
//!
//! The model of an action is the action with each string replaced by its text.

use crate::ieee754::Single;
use crate::text::{
    append_signed, integer_in, join_rest, joined, only, parse_integer, same_text, signed_decimal,
    split_whitespace, texts, tokens,
};
use vstd::prelude::*;
use vstd::string::StringExecFns;

verus! {

/// The literal name of the teleport-to-spawn command.
pub const SPAWN_COMMAND: &'static str = "spawn";

/// The literal name of the set-game-mode command.
pub const GAMEMODE_COMMAND: &'static str = "gamemode";

/// Permission level required to run `/gamemode`.
pub const GAMEMODE_LEVEL: u8 = 2;

/// The literal name of the `/title` command.
pub const TITLE_COMMAND: &'static str = "title";

/// The literal name of the `/subtitle` command.
pub const SUBTITLE_COMMAND: &'static str = "subtitle";

/// The literal name of the `/actionbar` command.
pub const ACTIONBAR_COMMAND: &'static str = "actionbar";

/// The literal name of the `/playsound` command.
pub const PLAYSOUND_COMMAND: &'static str = "playsound";

/// The literal name of the `/particle` command.
pub const PARTICLE_COMMAND: &'static str = "particle";

/// Permission level required to run the presentation commands.
pub const PRESENTATION_LEVEL: u8 = 2;

/// The literal name of the `/scoreboard` command.
pub const SCOREBOARD_COMMAND: &'static str = "scoreboard";

/// The literal name of the `/team` command.
pub const TEAM_COMMAND: &'static str = "team";

/// The literal name of the `/bossbar` command.
pub const BOSSBAR_COMMAND: &'static str = "bossbar";

/// Permission level required to run the scoreboard, team and boss-bar commands.
pub const SCOREBOARD_LEVEL: u8 = 2;

/// The model of an optional value.
pub open spec fn viewed<T: View>(value: Option<T>) -> Option<T::V> {
    match value {
        Some(v) => Some(v@),
        None => None,
    }
}

/// A way of playing.
#[derive(Clone, Copy, Debug, PartialEq, Eq, Structural)]
pub enum GameMode {
    /// Survival.
    Survival,
    /// Creative.
    Creative,
    /// Adventure.
    Adventure,
    /// Spectator.
    Spectator,
}

impl GameMode {
    /// The number of the mode on the wire and in commands.
    pub open spec fn number(self) -> int {
        match self {
            GameMode::Survival => 0,
            GameMode::Creative => 1,
            GameMode::Adventure => 2,
            GameMode::Spectator => 3,
        }
    }

    /// The mode with a number.
    pub open spec fn numbered(id: int) -> Option<GameMode> {
        if id == 0 {
            Some(GameMode::Survival)
        } else if id == 1 {
            Some(GameMode::Creative)
        } else if id == 2 {
            Some(GameMode::Adventure)
        } else if id == 3 {
            Some(GameMode::Spectator)
        } else {
            None
        }
    }

    /// The number of the mode.
    pub fn id(self) -> (r: u8)
        ensures
            r == self.number(),
            GameMode::numbered(r as int) == Some(self),
    {
        match self {
            GameMode::Survival => 0,
            GameMode::Creative => 1,
            GameMode::Adventure => 2,
            GameMode::Spectator => 3,
        }
    }

    /// The mode with a number.
    pub fn from_id(id: u8) -> (r: Option<GameMode>)
        ensures
            r == GameMode::numbered(id as int),
    {
        match id {
            0 => Some(GameMode::Survival),
            1 => Some(GameMode::Creative),
            2 => Some(GameMode::Adventure),
            3 => Some(GameMode::Spectator),
            _ => None,
        }
    }

    /// The name of the mode, as shown in feedback.
    pub open spec fn title(self) -> Seq<char> {
        match self {
            GameMode::Survival => "Survival"@,
            GameMode::Creative => "Creative"@,
            GameMode::Adventure => "Adventure"@,
            GameMode::Spectator => "Spectator"@,
        }
    }

    /// The name of the mode, as shown in feedback.
    pub fn name(self) -> (r: &'static str)
        ensures
            r@ == self.title(),
    {
        match self {
            GameMode::Survival => "Survival",
            GameMode::Creative => "Creative",
            GameMode::Adventure => "Adventure",
            GameMode::Spectator => "Spectator",
        }
    }
}

/// The mode that a `/gamemode <id>` command selects.
pub open spec fn selected_mode(command: Seq<char>) -> Option<GameMode> {
    let t = tokens(command);
    if t.len() >= 2 && t[0] == GAMEMODE_COMMAND@ {
        match integer_in(t[1], i64::MIN as int, i64::MAX as int) {
            Some(id) => GameMode::numbered(id),
            None => None,
        }
    } else {
        None
    }
}

/// Parses the [`GameMode`] that a `/gamemode <id>` command selects, or `None` if
/// `command` is not a `/gamemode` invocation or its mode argument is missing or out
/// of range.
pub fn parse_gamemode(command: &str) -> (r: Option<GameMode>)
    ensures
        r == selected_mode(command@),
{
    let parts = split_whitespace(command);
    proof {
        assert(texts(parts@).len() == parts@.len());
    }
    if parts.len() < 2 || !token_is(&parts, 0, GAMEMODE_COMMAND) {
        return None;
    }
    assert(tokens(command@)[1] == parts@[1]@);
    match parse_integer(parts[1].as_str(), i64::MIN, i64::MAX) {
        Some(id) => if 0 <= id && id <= 255 {
            GameMode::from_id(id as u8)
        } else {
            None
        },
        None => None,
    }
}

/// Whether the token at a place is a word; never so past the last token.
pub fn token_is(parts: &Vec<String>, place: usize, word: &str) -> (r: bool)
    ensures
        r == (place < parts.len() && texts(parts@)[place as int] == word@),
{
    place < parts.len() && same_text(parts[place].as_str(), word)
}

/// Where a scoreboard objective is shown.
#[derive(Clone, Copy, Debug, PartialEq, Eq, Structural)]
pub enum DisplaySlot {
    /// In the player list.
    List,
    /// At the side of the screen.
    Sidebar,
    /// Below the player's name.
    BelowName,
}

/// The slot that a name stands for.
pub open spec fn slot_named(name: Seq<char>) -> Option<DisplaySlot> {
    if name == "list"@ || name == "tab"@ {
        Some(DisplaySlot::List)
    } else if name == "sidebar"@ {
        Some(DisplaySlot::Sidebar)
    } else if name == "below_name"@ || name == "belowname"@ || name == "below"@ {
        Some(DisplaySlot::BelowName)
    } else {
        None
    }
}

/// Resolves a `/scoreboard objective setdisplay` slot name.
pub fn display_slot_by_name(name: &str) -> (r: Option<DisplaySlot>)
    ensures
        r == slot_named(name@),
{
    if same_text(name, "list") || same_text(name, "tab") {
        Some(DisplaySlot::List)
    } else if same_text(name, "sidebar") {
        Some(DisplaySlot::Sidebar)
    } else if same_text(name, "below_name") || same_text(name, "belowname") || same_text(
        name,
        "below",
    ) {
        Some(DisplaySlot::BelowName)
    } else {
        None
    }
}

/// The sixteen named text colours.
#[derive(Clone, Copy, Debug, PartialEq, Eq, Structural)]
pub enum TextColor {
    /// `black`.
    Black,
    /// `dark_blue`.
    DarkBlue,
    /// `dark_green`.
    DarkGreen,
    /// `dark_aqua`.
    DarkAqua,
    /// `dark_red`.
    DarkRed,
    /// `dark_purple`.
    DarkPurple,
    /// `gold`.
    Gold,
    /// `gray`.
    Gray,
    /// `dark_gray`.
    DarkGray,
    /// `blue`.
    Blue,
    /// `green`.
    Green,
    /// `aqua`.
    Aqua,
    /// `red`.
    Red,
    /// `light_purple`.
    LightPurple,
    /// `yellow`.
    Yellow,
    /// `white`.
    White,
}

impl TextColor {
    /// The name of the colour.
    pub open spec fn title(self) -> Seq<char> {
        match self {
            TextColor::Black => "black"@,
            TextColor::DarkBlue => "dark_blue"@,
            TextColor::DarkGreen => "dark_green"@,
            TextColor::DarkAqua => "dark_aqua"@,
            TextColor::DarkRed => "dark_red"@,
            TextColor::DarkPurple => "dark_purple"@,
            TextColor::Gold => "gold"@,
            TextColor::Gray => "gray"@,
            TextColor::DarkGray => "dark_gray"@,
            TextColor::Blue => "blue"@,
            TextColor::Green => "green"@,
            TextColor::Aqua => "aqua"@,
            TextColor::Red => "red"@,
            TextColor::LightPurple => "light_purple"@,
            TextColor::Yellow => "yellow"@,
            TextColor::White => "white"@,
        }
    }

    /// The name of the colour.
    pub fn name(self) -> (r: &'static str)
        ensures
            r@ == self.title(),
    {
        match self {
            TextColor::Black => "black",
            TextColor::DarkBlue => "dark_blue",
            TextColor::DarkGreen => "dark_green",
            TextColor::DarkAqua => "dark_aqua",
            TextColor::DarkRed => "dark_red",
            TextColor::DarkPurple => "dark_purple",
            TextColor::Gold => "gold",
            TextColor::Gray => "gray",
            TextColor::DarkGray => "dark_gray",
            TextColor::Blue => "blue",
            TextColor::Green => "green",
            TextColor::Aqua => "aqua",
            TextColor::Red => "red",
            TextColor::LightPurple => "light_purple",
            TextColor::Yellow => "yellow",
            TextColor::White => "white",
        }
    }
}

/// The text colour that a name stands for.
pub open spec fn text_color_named(name: Seq<char>) -> Option<TextColor> {
    if name == "black"@ {
        Some(TextColor::Black)
    } else if name == "dark_blue"@ {
        Some(TextColor::DarkBlue)
    } else if name == "dark_green"@ {
        Some(TextColor::DarkGreen)
    } else if name == "dark_aqua"@ {
        Some(TextColor::DarkAqua)
    } else if name == "dark_red"@ {
        Some(TextColor::DarkRed)
    } else if name == "dark_purple"@ {
        Some(TextColor::DarkPurple)
    } else if name == "gold"@ {
        Some(TextColor::Gold)
    } else if name == "gray"@ {
        Some(TextColor::Gray)
    } else if name == "dark_gray"@ {
        Some(TextColor::DarkGray)
    } else if name == "blue"@ {
        Some(TextColor::Blue)
    } else if name == "green"@ {
        Some(TextColor::Green)
    } else if name == "aqua"@ {
        Some(TextColor::Aqua)
    } else if name == "red"@ {
        Some(TextColor::Red)
    } else if name == "light_purple"@ {
        Some(TextColor::LightPurple)
    } else if name == "yellow"@ {
        Some(TextColor::Yellow)
    } else if name == "white"@ {
        Some(TextColor::White)
    } else {
        None
    }
}

/// Maps a colour name to its [`TextColor`].
pub fn text_color_by_name(name: &str) -> (r: Option<TextColor>)
    ensures
        r == text_color_named(name@),
        r matches Some(color) ==> color.title() == name@,
{
    if same_text(name, "black") {
        Some(TextColor::Black)
    } else if same_text(name, "dark_blue") {
        Some(TextColor::DarkBlue)
    } else if same_text(name, "dark_green") {
        Some(TextColor::DarkGreen)
    } else if same_text(name, "dark_aqua") {
        Some(TextColor::DarkAqua)
    } else if same_text(name, "dark_red") {
        Some(TextColor::DarkRed)
    } else if same_text(name, "dark_purple") {
        Some(TextColor::DarkPurple)
    } else if same_text(name, "gold") {
        Some(TextColor::Gold)
    } else if same_text(name, "gray") {
        Some(TextColor::Gray)
    } else if same_text(name, "dark_gray") {
        Some(TextColor::DarkGray)
    } else if same_text(name, "blue") {
        Some(TextColor::Blue)
    } else if same_text(name, "green") {
        Some(TextColor::Green)
    } else if same_text(name, "aqua") {
        Some(TextColor::Aqua)
    } else if same_text(name, "red") {
        Some(TextColor::Red)
    } else if same_text(name, "light_purple") {
        Some(TextColor::LightPurple)
    } else if same_text(name, "yellow") {
        Some(TextColor::Yellow)
    } else if same_text(name, "white") {
        Some(TextColor::White)
    } else {
        None
    }
}

/// The seven boss-bar colours.
#[derive(Clone, Copy, Debug, PartialEq, Eq, Structural)]
pub enum BossBarColor {
    /// `pink`.
    Pink,
    /// `blue`.
    Blue,
    /// `red`.
    Red,
    /// `green`.
    Green,
    /// `yellow`.
    Yellow,
    /// `purple`.
    Purple,
    /// `white`.
    White,
}

impl BossBarColor {
    /// The name of the colour in commands.
    pub open spec fn word(self) -> Seq<char> {
        match self {
            BossBarColor::Pink => "pink"@,
            BossBarColor::Blue => "blue"@,
            BossBarColor::Red => "red"@,
            BossBarColor::Green => "green"@,
            BossBarColor::Yellow => "yellow"@,
            BossBarColor::Purple => "purple"@,
            BossBarColor::White => "white"@,
        }
    }

    /// The name of the colour in feedback.
    pub open spec fn title(self) -> Seq<char> {
        match self {
            BossBarColor::Pink => "Pink"@,
            BossBarColor::Blue => "Blue"@,
            BossBarColor::Red => "Red"@,
            BossBarColor::Green => "Green"@,
            BossBarColor::Yellow => "Yellow"@,
            BossBarColor::Purple => "Purple"@,
            BossBarColor::White => "White"@,
        }
    }

    /// The name of the colour in feedback.
    pub fn name(self) -> (r: &'static str)
        ensures
            r@ == self.title(),
    {
        match self {
            BossBarColor::Pink => "Pink",
            BossBarColor::Blue => "Blue",
            BossBarColor::Red => "Red",
            BossBarColor::Green => "Green",
            BossBarColor::Yellow => "Yellow",
            BossBarColor::Purple => "Purple",
            BossBarColor::White => "White",
        }
    }
}

/// The boss-bar colour that a name stands for.
pub open spec fn boss_color_named(name: Seq<char>) -> Option<BossBarColor> {
    if name == "pink"@ {
        Some(BossBarColor::Pink)
    } else if name == "blue"@ {
        Some(BossBarColor::Blue)
    } else if name == "red"@ {
        Some(BossBarColor::Red)
    } else if name == "green"@ {
        Some(BossBarColor::Green)
    } else if name == "yellow"@ {
        Some(BossBarColor::Yellow)
    } else if name == "purple"@ {
        Some(BossBarColor::Purple)
    } else if name == "white"@ {
        Some(BossBarColor::White)
    } else {
        None
    }
}

/// Maps a colour name to its [`BossBarColor`].
pub fn boss_color_by_name(name: &str) -> (r: Option<BossBarColor>)
    ensures
        r == boss_color_named(name@),
        r matches Some(color) ==> color.word() == name@,
{
    if same_text(name, "pink") {
        Some(BossBarColor::Pink)
    } else if same_text(name, "blue") {
        Some(BossBarColor::Blue)
    } else if same_text(name, "red") {
        Some(BossBarColor::Red)
    } else if same_text(name, "green") {
        Some(BossBarColor::Green)
    } else if same_text(name, "yellow") {
        Some(BossBarColor::Yellow)
    } else if same_text(name, "purple") {
        Some(BossBarColor::Purple)
    } else if same_text(name, "white") {
        Some(BossBarColor::White)
    } else {
        None
    }
}

/// The rest of a form from a place on, joined, or a default where nothing is left.
pub open spec fn rest_or(t: Seq<Seq<char>>, from: int, default: Seq<char>) -> Seq<char> {
    if t.len() <= from {
        default
    } else {
        joined(t.skip(from))
    }
}

fn rest_or_default(parts: &Vec<String>, from: usize, default: &String) -> (r: String)
    requires
        from <= parts.len(),
    ensures
        r@ == rest_or(texts(parts@), from as int, default@),
{
    if parts.len() <= from {
        default.clone()
    } else {
        join_rest(parts, from)
    }
}

/// A parsed `/scoreboard` invocation.
#[derive(Debug, PartialEq, Eq)]
pub enum ScoreboardAction {
    /// `objective add <name> [display]`.
    ObjectiveAdd {
        /// The objective.
        name: String,
        /// How it is shown.
        display: String,
    },
    /// `objective remove <name>`.
    ObjectiveRemove {
        /// The objective.
        name: String,
    },
    /// `objective setdisplay <slot> <name>`.
    SetDisplay {
        /// The slot.
        slot: DisplaySlot,
        /// The objective.
        name: String,
    },
    /// `score set <player> <objective> <value>`.
    ScoreSet {
        /// The player.
        entity: String,
        /// The objective.
        objective: String,
        /// The new score.
        value: i32,
    },
}

/// The model of a [`ScoreboardAction`].
pub enum ScoreboardForm {
    /// Adds an objective.
    ObjectiveAdd {
        /// The objective.
        name: Seq<char>,
        /// How it is shown.
        display: Seq<char>,
    },
    /// Removes an objective.
    ObjectiveRemove {
        /// The objective.
        name: Seq<char>,
    },
    /// Shows an objective in a slot.
    SetDisplay {
        /// The slot.
        slot: DisplaySlot,
        /// The objective.
        name: Seq<char>,
    },
    /// Sets a score.
    ScoreSet {
        /// The player.
        entity: Seq<char>,
        /// The objective.
        objective: Seq<char>,
        /// The new score.
        value: i32,
    },
}

impl View for ScoreboardAction {
    type V = ScoreboardForm;

    open spec fn view(&self) -> ScoreboardForm {
        match self {
            ScoreboardAction::ObjectiveAdd { name, display } => ScoreboardForm::ObjectiveAdd {
                name: name@,
                display: display@,
            },
            ScoreboardAction::ObjectiveRemove { name } => ScoreboardForm::ObjectiveRemove {
                name: name@,
            },
            ScoreboardAction::SetDisplay { slot, name } => ScoreboardForm::SetDisplay {
                slot: *slot,
                name: name@,
            },
            ScoreboardAction::ScoreSet { entity, objective, value } => ScoreboardForm::ScoreSet {
                entity: entity@,
                objective: objective@,
                value: *value,
            },
        }
    }
}

impl ScoreboardForm {
    /// The success message shown to the issuer.
    pub open spec fn feedback_text(self) -> Seq<char> {
        match self {
            ScoreboardForm::ObjectiveAdd { name, .. } => "Created objective "@ + name,
            ScoreboardForm::ObjectiveRemove { name } => "Removed objective "@ + name,
            ScoreboardForm::SetDisplay { name, .. } => "Now displaying objective "@ + name,
            ScoreboardForm::ScoreSet { entity, objective, value } => "Set "@ + entity + "'s "@
                + objective + " score to "@ + signed_decimal(value as int),
        }
    }
}

impl ScoreboardAction {
    /// The success message shown to the issuer.
    pub fn feedback(&self) -> (r: String)
        ensures
            r@ == self@.feedback_text(),
    {
        match self {
            ScoreboardAction::ObjectiveAdd { name, .. } => two_parts(
                "Created objective ",
                name.as_str(),
            ),
            ScoreboardAction::ObjectiveRemove { name } => two_parts(
                "Removed objective ",
                name.as_str(),
            ),
            ScoreboardAction::SetDisplay { name, .. } => two_parts(
                "Now displaying objective ",
                name.as_str(),
            ),
            ScoreboardAction::ScoreSet { entity, objective, value } => {
                let mut m = two_parts("Set ", entity.as_str());
                m.append("'s ");
                m.append(objective.as_str());
                m.append(" score to ");
                append_signed(&mut m, *value as i64);
                m
            },
        }
    }
}

/// One text behind another.
pub fn two_parts(first: &str, second: &str) -> (r: String)
    ensures
        r@ == first@ + second@,
{
    let mut m = first.to_owned();
    m.append(second);
    m
}

/// What a `/scoreboard` argument tail means.
pub open spec fn scoreboard_form(args: Seq<char>) -> Option<ScoreboardForm> {
    let t = tokens(args);
    if t.len() >= 3 && t[0] == "objective"@ && t[1] == "add"@ {
        Some(ScoreboardForm::ObjectiveAdd { name: t[2], display: rest_or(t, 3, t[2]) })
    } else if t.len() == 3 && t[0] == "objective"@ && t[1] == "remove"@ {
        Some(ScoreboardForm::ObjectiveRemove { name: t[2] })
    } else if t.len() == 4 && t[0] == "objective"@ && t[1] == "setdisplay"@ && slot_named(
        t[2],
    ) is Some {
        Some(ScoreboardForm::SetDisplay { slot: slot_named(t[2])->Some_0, name: t[3] })
    } else if t.len() == 5 && t[0] == "score"@ && t[1] == "set"@ && integer_in(
        t[4],
        i32::MIN as int,
        i32::MAX as int,
    ) is Some {
        Some(
            ScoreboardForm::ScoreSet {
                entity: t[2],
                objective: t[3],
                value: integer_in(t[4], i32::MIN as int, i32::MAX as int)->Some_0 as i32,
            },
        )
    } else {
        None
    }
}

/// Parses a `/scoreboard` argument tail, or `None` if it is not a supported form.
pub fn parse_scoreboard(args: &str) -> (r: Option<ScoreboardAction>)
    ensures
        viewed(r) == scoreboard_form(args@),
{
    let parts = split_whitespace(args);
    let ghost t = tokens(args@);
    assert(t.len() == parts@.len());
    assert(forall|i: int| 0 <= i < t.len() ==> t[i] == parts@[i]@);
    if parts.len() >= 3 && token_is(&parts, 0, "objective") && token_is(&parts, 1, "add") {
        let display = rest_or_default(&parts, 3, &parts[2]);
        return Some(ScoreboardAction::ObjectiveAdd { name: parts[2].clone(), display });
    }
    if parts.len() >= 3 && token_is(&parts, 0, "objective") && token_is(&parts, 1, "remove") {
        if let Some(name) = only(parts[2].clone(), &parts, 3) {
            return Some(ScoreboardAction::ObjectiveRemove { name });
        }
    }
    if parts.len() >= 4 && token_is(&parts, 0, "objective") && token_is(&parts, 1, "setdisplay") {
        if let Some(slot) = display_slot_by_name(parts[2].as_str()) {
            if let Some(name) = only(parts[3].clone(), &parts, 4) {
                return Some(ScoreboardAction::SetDisplay { slot, name });
            }
        }
    }
    if parts.len() >= 5 && token_is(&parts, 0, "score") && token_is(&parts, 1, "set") {
        if let Some(value) = parse_integer(parts[4].as_str(), -0x8000_0000, 0x7fff_ffff) {
            if let Some(value) = only(value, &parts, 5) {
                return Some(
                    ScoreboardAction::ScoreSet {
                        entity: parts[2].clone(),
                        objective: parts[3].clone(),
                        value: value as i32,
                    },
                );
            }
        }
    }
    None
}

/// A parsed `/team` invocation.
#[derive(Debug, PartialEq, Eq)]
pub enum TeamAction {
    /// `add <name> [display]`.
    Add {
        /// The team.
        name: String,
        /// How it is shown.
        display: String,
    },
    /// `remove <name>`.
    Remove {
        /// The team.
        name: String,
    },
    /// `join <team> [player]`; the player defaults to the issuer.
    Join {
        /// The team.
        team: String,
        /// The player.
        player: String,
    },
    /// `color <team> <color>`.
    Color {
        /// The team.
        team: String,
        /// Its colour.
        color: TextColor,
    },
}

/// The model of a [`TeamAction`].
pub enum TeamForm {
    /// Adds a team.
    Add {
        /// The team.
        name: Seq<char>,
        /// How it is shown.
        display: Seq<char>,
    },
    /// Removes a team.
    Remove {
        /// The team.
        name: Seq<char>,
    },
    /// Adds a player to a team.
    Join {
        /// The team.
        team: Seq<char>,
        /// The player.
        player: Seq<char>,
    },
    /// Colours a team.
    Color {
        /// The team.
        team: Seq<char>,
        /// Its colour.
        color: TextColor,
    },
}

impl View for TeamAction {
    type V = TeamForm;

    open spec fn view(&self) -> TeamForm {
        match self {
            TeamAction::Add { name, display } => TeamForm::Add { name: name@, display: display@ },
            TeamAction::Remove { name } => TeamForm::Remove { name: name@ },
            TeamAction::Join { team, player } => TeamForm::Join { team: team@, player: player@ },
            TeamAction::Color { team, color } => TeamForm::Color { team: team@, color: *color },
        }
    }
}

impl TeamForm {
    /// The success message shown to the issuer.
    pub open spec fn feedback_text(self) -> Seq<char> {
        match self {
            TeamForm::Add { name, .. } => "Created team "@ + name,
            TeamForm::Remove { name } => "Removed team "@ + name,
            TeamForm::Join { team, player } => "Added "@ + player + " to team "@ + team,
            TeamForm::Color { team, color } => "Set team "@ + team + " color to "@ + color.title(),
        }
    }
}

impl TeamAction {
    /// The success message shown to the issuer.
    pub fn feedback(&self) -> (r: String)
        ensures
            r@ == self@.feedback_text(),
    {
        match self {
            TeamAction::Add { name, .. } => two_parts("Created team ", name.as_str()),
            TeamAction::Remove { name } => two_parts("Removed team ", name.as_str()),
            TeamAction::Join { team, player } => {
                let mut m = two_parts("Added ", player.as_str());
                m.append(" to team ");
                m.append(team.as_str());
                m
            },
            TeamAction::Color { team, color } => {
                let mut m = two_parts("Set team ", team.as_str());
                m.append(" color to ");
                m.append(color.name());
                m
            },
        }
    }
}

/// What a `/team` argument tail from an issuer means.
pub open spec fn team_form(args: Seq<char>, issuer: Seq<char>) -> Option<TeamForm> {
    let t = tokens(args);
    if t.len() >= 2 && t[0] == "add"@ {
        Some(TeamForm::Add { name: t[1], display: rest_or(t, 2, t[1]) })
    } else if t.len() == 2 && t[0] == "remove"@ {
        Some(TeamForm::Remove { name: t[1] })
    } else if t.len() == 2 && t[0] == "join"@ {
        Some(TeamForm::Join { team: t[1], player: issuer })
    } else if t.len() == 3 && t[0] == "join"@ {
        Some(TeamForm::Join { team: t[1], player: t[2] })
    } else if t.len() == 3 && t[0] == "color"@ && text_color_named(t[2]) is Some {
        Some(TeamForm::Color { team: t[1], color: text_color_named(t[2])->Some_0 })
    } else {
        None
    }
}

/// Parses a `/team` argument tail, defaulting `join`'s target to `issuer`, or `None`
/// if it is not a supported form.
pub fn parse_team(args: &str, issuer: &str) -> (r: Option<TeamAction>)
    ensures
        viewed(r) == team_form(args@, issuer@),
{
    let parts = split_whitespace(args);
    let ghost t = tokens(args@);
    assert(t.len() == parts@.len());
    assert(forall|i: int| 0 <= i < t.len() ==> t[i] == parts@[i]@);
    if parts.len() >= 2 && token_is(&parts, 0, "add") {
        let display = rest_or_default(&parts, 2, &parts[1]);
        return Some(TeamAction::Add { name: parts[1].clone(), display });
    }
    if parts.len() >= 2 && token_is(&parts, 0, "remove") {
        if let Some(name) = only(parts[1].clone(), &parts, 2) {
            return Some(TeamAction::Remove { name });
        }
    }
    if parts.len() >= 2 && token_is(&parts, 0, "join") {
        if parts.len() == 2 {
            return Some(TeamAction::Join { team: parts[1].clone(), player: issuer.to_owned() });
        }
        if let Some(player) = only(parts[2].clone(), &parts, 3) {
            return Some(TeamAction::Join { team: parts[1].clone(), player });
        }
    }
    if parts.len() >= 3 && token_is(&parts, 0, "color") {
        if let Some(color) = text_color_by_name(parts[2].as_str()) {
            if let Some(color) = only(color, &parts, 3) {
                return Some(TeamAction::Color { team: parts[1].clone(), color });
            }
        }
    }
    None
}

/// A parsed `/bossbar` invocation.
#[derive(Debug, PartialEq, Eq)]
pub enum BossAction {
    /// `add <id> [title]`.
    Add {
        /// The bar.
        id: String,
        /// Its title.
        title: String,
    },
    /// `remove <id>`.
    Remove {
        /// The bar.
        id: String,
    },
    /// `title <id> <title>`.
    Title {
        /// The bar.
        id: String,
        /// Its title.
        title: String,
    },
    /// `progress <id> <0.0..=1.0>`.
    Progress {
        /// The bar.
        id: String,
        /// How full it is.
        health: Single,
    },
    /// `color <id> <color>`.
    Color {
        /// The bar.
        id: String,
        /// Its colour.
        color: BossBarColor,
    },
}

/// The model of a [`BossAction`].
pub enum BossForm {
    /// Adds a bar.
    Add {
        /// The bar.
        id: Seq<char>,
        /// Its title.
        title: Seq<char>,
    },
    /// Removes a bar.
    Remove {
        /// The bar.
        id: Seq<char>,
    },
    /// Retitles a bar.
    Title {
        /// The bar.
        id: Seq<char>,
        /// Its title.
        title: Seq<char>,
    },
    /// Fills a bar.
    Progress {
        /// The bar.
        id: Seq<char>,
        /// How full it is.
        health: Single,
    },
    /// Colours a bar.
    Color {
        /// The bar.
        id: Seq<char>,
        /// Its colour.
        color: BossBarColor,
    },
}

impl View for BossAction {
    type V = BossForm;

    open spec fn view(&self) -> BossForm {
        match self {
            BossAction::Add { id, title } => BossForm::Add { id: id@, title: title@ },
            BossAction::Remove { id } => BossForm::Remove { id: id@ },
            BossAction::Title { id, title } => BossForm::Title { id: id@, title: title@ },
            BossAction::Progress { id, health } => BossForm::Progress { id: id@, health: *health },
            BossAction::Color { id, color } => BossForm::Color { id: id@, color: *color },
        }
    }
}

impl BossForm {
    /// The success message shown to the issuer, with the progress written as
    /// `progress`.
    pub open spec fn feedback_text(self, progress: Seq<char>) -> Seq<char> {
        match self {
            BossForm::Add { id, .. } => "Created boss bar "@ + id,
            BossForm::Remove { id } => "Removed boss bar "@ + id,
            BossForm::Title { id, .. } => "Set boss bar "@ + id + " title"@,
            BossForm::Progress { id, .. } => "Set boss bar "@ + id + " progress to "@ + progress,
            BossForm::Color { id, color } => "Set boss bar "@ + id + " color to "@ + color.title(),
        }
    }
}

impl BossAction {
    /// The success message shown to the issuer, with the progress written as
    /// `progress`.
    pub fn feedback(&self, progress: &str) -> (r: String)
        ensures
            r@ == self@.feedback_text(progress@),
    {
        match self {
            BossAction::Add { id, .. } => two_parts("Created boss bar ", id.as_str()),
            BossAction::Remove { id } => two_parts("Removed boss bar ", id.as_str()),
            BossAction::Title { id, .. } => {
                let mut m = two_parts("Set boss bar ", id.as_str());
                m.append(" title");
                m
            },
            BossAction::Progress { id, .. } => {
                let mut m = two_parts("Set boss bar ", id.as_str());
                m.append(" progress to ");
                m.append(progress);
                m
            },
            BossAction::Color { id, color } => {
                let mut m = two_parts("Set boss bar ", id.as_str());
                m.append(" color to ");
                m.append(color.name());
                m
            },
        }
    }
}

/// What a `/bossbar` argument tail means.
///
/// `reading` is the number that the third token reads as, if it is one.
pub open spec fn bossbar_form(args: Seq<char>, reading: Option<Single>) -> Option<BossForm> {
    let t = tokens(args);
    if t.len() >= 2 && t[0] == "add"@ {
        Some(BossForm::Add { id: t[1], title: rest_or(t, 2, t[1]) })
    } else if t.len() == 2 && t[0] == "remove"@ {
        Some(BossForm::Remove { id: t[1] })
    } else if t.len() >= 3 && t[0] == "title"@ {
        Some(BossForm::Title { id: t[1], title: joined(t.skip(2)) })
    } else if t.len() == 3 && t[0] == "progress"@ && reading is Some
        && reading->Some_0.fraction_of_one() {
        Some(BossForm::Progress { id: t[1], health: reading->Some_0 })
    } else if t.len() == 3 && t[0] == "color"@ && boss_color_named(t[2]) is Some {
        Some(BossForm::Color { id: t[1], color: boss_color_named(t[2])->Some_0 })
    } else {
        None
    }
}

/// Parses a `/bossbar` argument tail, or `None` if it is not a supported form.
///
/// `reading` is the number that the third token reads as, if it is one.
pub fn parse_bossbar(args: &str, reading: Option<Single>) -> (r: Option<BossAction>)
    ensures
        viewed(r) == bossbar_form(args@, reading),
{
    let parts = split_whitespace(args);
    let ghost t = tokens(args@);
    assert(t.len() == parts@.len());
    assert(forall|i: int| 0 <= i < t.len() ==> t[i] == parts@[i]@);
    if parts.len() >= 2 && token_is(&parts, 0, "add") {
        let title = rest_or_default(&parts, 2, &parts[1]);
        return Some(BossAction::Add { id: parts[1].clone(), title });
    }
    if parts.len() >= 2 && token_is(&parts, 0, "remove") {
        if let Some(id) = only(parts[1].clone(), &parts, 2) {
            return Some(BossAction::Remove { id });
        }
    }
    if parts.len() >= 3 && token_is(&parts, 0, "title") {
        let title = join_rest(&parts, 2);
        return Some(BossAction::Title { id: parts[1].clone(), title });
    }
    if parts.len() >= 3 && token_is(&parts, 0, "progress") {
        if let Some(health) = reading {
            if let Some(health) = only(health, &parts, 3) {
                if health.is_fraction_of_one() {
                    return Some(BossAction::Progress { id: parts[1].clone(), health });
                }
            }
        }
    }
    if parts.len() >= 3 && token_is(&parts, 0, "color") {
        if let Some(color) = boss_color_by_name(parts[2].as_str()) {
            if let Some(color) = only(color, &parts, 3) {
                return Some(BossAction::Color { id: parts[1].clone(), color });
            }
        }
    }
    None
}

/// Every text colour has one name, and every name that is known its one colour: a line that
/// names a colour gets that colour, and is told of it by the same name.
pub proof fn text_colors_go_by_their_names(name: Seq<char>, color: TextColor)
    ensures
        text_color_named(color.title()) == Some(color),
        text_color_named(name) matches Some(found) ==> found.title() == name,
        (text_color_named(name) == Some(TextColor::Black)) == (name == "black"@),
        (text_color_named(name) == Some(TextColor::DarkBlue)) == (name == "dark_blue"@),
        (text_color_named(name) == Some(TextColor::DarkGreen)) == (name == "dark_green"@),
        (text_color_named(name) == Some(TextColor::DarkAqua)) == (name == "dark_aqua"@),
        (text_color_named(name) == Some(TextColor::DarkRed)) == (name == "dark_red"@),
        (text_color_named(name) == Some(TextColor::DarkPurple)) == (name == "dark_purple"@),
        (text_color_named(name) == Some(TextColor::Gold)) == (name == "gold"@),
        (text_color_named(name) == Some(TextColor::Gray)) == (name == "gray"@),
        (text_color_named(name) == Some(TextColor::DarkGray)) == (name == "dark_gray"@),
        (text_color_named(name) == Some(TextColor::Blue)) == (name == "blue"@),
        (text_color_named(name) == Some(TextColor::Green)) == (name == "green"@),
        (text_color_named(name) == Some(TextColor::Aqua)) == (name == "aqua"@),
        (text_color_named(name) == Some(TextColor::Red)) == (name == "red"@),
        (text_color_named(name) == Some(TextColor::LightPurple)) == (name == "light_purple"@),
        (text_color_named(name) == Some(TextColor::Yellow)) == (name == "yellow"@),
        (text_color_named(name) == Some(TextColor::White)) == (name == "white"@),
{
    reveal_strlit("black");
    reveal_strlit("dark_blue");
    reveal_strlit("dark_green");
    reveal_strlit("dark_aqua");
    reveal_strlit("dark_red");
    reveal_strlit("dark_purple");
    reveal_strlit("gold");
    reveal_strlit("gray");
    reveal_strlit("dark_gray");
    reveal_strlit("blue");
    reveal_strlit("green");
    reveal_strlit("aqua");
    reveal_strlit("red");
    reveal_strlit("light_purple");
    reveal_strlit("yellow");
    reveal_strlit("white");
    assert("black"@.len() == 5);
    assert("dark_blue"@.len() == 9);
    assert("dark_green"@.len() == 10);
    assert("dark_aqua"@.len() == 9);
    assert("dark_red"@.len() == 8);
    assert("dark_purple"@.len() == 11);
    assert("gold"@.len() == 4);
    assert("gray"@.len() == 4);
    assert("dark_gray"@.len() == 9);
    assert("blue"@.len() == 4);
    assert("green"@.len() == 5);
    assert("aqua"@.len() == 4);
    assert("red"@.len() == 3);
    assert("light_purple"@.len() == 12);
    assert("yellow"@.len() == 6);
    assert("white"@.len() == 5);
    assert("aqua"@[0] == 'a');
    assert("black"@[0] == 'b');
    assert("blue"@[0] == 'b');
    assert("dark_aqua"@[5] == 'a');
    assert("dark_blue"@[5] == 'b');
    assert("dark_gray"@[5] == 'g');
    assert("gold"@[0] == 'g');
    assert("gold"@[1] == 'o');
    assert("gray"@[0] == 'g');
    assert("gray"@[1] == 'r');
    assert("green"@[0] == 'g');
    assert("white"@[0] == 'w');
}

/// Every boss-bar colour has one name, and every name that is known its one colour.
pub proof fn boss_colors_go_by_their_names(name: Seq<char>, color: BossBarColor)
    ensures
        boss_color_named(color.word()) == Some(color),
        boss_color_named(name) matches Some(found) ==> found.word() == name,
        (boss_color_named(name) == Some(BossBarColor::Pink)) == (name == "pink"@),
        (boss_color_named(name) == Some(BossBarColor::Blue)) == (name == "blue"@),
        (boss_color_named(name) == Some(BossBarColor::Red)) == (name == "red"@),
        (boss_color_named(name) == Some(BossBarColor::Green)) == (name == "green"@),
        (boss_color_named(name) == Some(BossBarColor::Yellow)) == (name == "yellow"@),
        (boss_color_named(name) == Some(BossBarColor::Purple)) == (name == "purple"@),
        (boss_color_named(name) == Some(BossBarColor::White)) == (name == "white"@),
{
    reveal_strlit("pink");
    reveal_strlit("blue");
    reveal_strlit("red");
    reveal_strlit("green");
    reveal_strlit("yellow");
    reveal_strlit("purple");
    reveal_strlit("white");
    assert("pink"@.len() == 4);
    assert("blue"@.len() == 4);
    assert("red"@.len() == 3);
    assert("green"@.len() == 5);
    assert("yellow"@.len() == 6);
    assert("purple"@.len() == 6);
    assert("white"@.len() == 5);
    assert("blue"@[0] == 'b');
    assert("green"@[0] == 'g');
    assert("pink"@[0] == 'p');
    assert("purple"@[0] == 'p');
    assert("white"@[0] == 'w');
    assert("yellow"@[0] == 'y');
}

/// A colour is told by the name it was asked for, but for the capital letter at its front.
pub proof fn boss_colors_are_told_by_their_names(color: BossBarColor)
    ensures
        color.title().len() == color.word().len(),
        color.title().drop_first() == color.word().drop_first(),
        color.title()[0] as int == color.word()[0] as int - 32,
{
    reveal_strlit("pink");
    reveal_strlit("blue");
    reveal_strlit("red");
    reveal_strlit("green");
    reveal_strlit("yellow");
    reveal_strlit("purple");
    reveal_strlit("white");
    reveal_strlit("Pink");
    reveal_strlit("Blue");
    reveal_strlit("Red");
    reveal_strlit("Green");
    reveal_strlit("Yellow");
    reveal_strlit("Purple");
    reveal_strlit("White");
    assert(color.title().drop_first() =~= color.word().drop_first());
}

/// Where an objective can be shown, by name.
pub proof fn display_slots_go_by_their_names(name: Seq<char>)
    ensures
        (slot_named(name) == Some(DisplaySlot::List)) == (name == "list"@ || name == "tab"@),
        (slot_named(name) == Some(DisplaySlot::Sidebar)) == (name == "sidebar"@),
        (slot_named(name) == Some(DisplaySlot::BelowName)) == (name == "below_name"@ || name == "belowname"@ || name == "below"@),
{
    reveal_strlit("list");
    reveal_strlit("tab");
    reveal_strlit("sidebar");
    reveal_strlit("below_name");
    reveal_strlit("belowname");
    reveal_strlit("below");
    assert("list"@.len() == 4);
    assert("tab"@.len() == 3);
    assert("sidebar"@.len() == 7);
    assert("below_name"@.len() == 10);
    assert("belowname"@.len() == 9);
    assert("below"@.len() == 5);
}

/// A mode is told by the name of its number: none is survival, one creative, two adventure and
/// three spectator.
pub proof fn modes_are_told_by_name(mode: GameMode)
    ensures
        (mode.number() == 0) == (mode.title() == "Survival"@),
        (mode.number() == 1) == (mode.title() == "Creative"@),
        (mode.number() == 2) == (mode.title() == "Adventure"@),
        (mode.number() == 3) == (mode.title() == "Spectator"@),
{
    reveal_strlit("Survival");
    reveal_strlit("Creative");
    reveal_strlit("Adventure");
    reveal_strlit("Spectator");
    assert("Survival"@.len() == 8);
    assert("Creative"@.len() == 8);
    assert("Adventure"@.len() == 9);
    assert("Spectator"@.len() == 9);
    assert("Adventure"@[0] == 'A');
    assert("Creative"@[0] == 'C');
    assert("Spectator"@[0] == 'S');
    assert("Survival"@[0] == 'S');
}

} // verus!
