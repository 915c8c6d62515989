//! The settings of a game that clients are told by number.

use vstd::prelude::*;

verus! {

#[derive(Clone, Copy, Debug, PartialEq, Eq, Structural, Hash)]
pub enum Gamemode {
    Survival,
    Creative,
    Adventure,
    Spectator,
}

impl Gamemode {
    /// The number of this game mode.
    pub open spec fn spec_get_id(self) -> u8 {
        match self {
            Gamemode::Survival => 0,
            Gamemode::Creative => 1,
            Gamemode::Adventure => 2,
            Gamemode::Spectator => 3,
        }
    }

    #[verifier::when_used_as_spec(spec_get_id)]
    pub fn get_id(self) -> (r: u8)
        ensures
            r == self.spec_get_id(),
    {
        match self {
            Gamemode::Survival => 0,
            Gamemode::Creative => 1,
            Gamemode::Adventure => 2,
            Gamemode::Spectator => 3,
        }
    }

    /// The game mode with the given number.
    pub fn from_id(id: u8) -> (r: Option<Self>)
        ensures
            r matches Some(mode) ==> mode.spec_get_id() == id,
            r is None <==> id > 3,
    {
        match id {
            0 => Some(Gamemode::Survival),
            1 => Some(Gamemode::Creative),
            2 => Some(Gamemode::Adventure),
            3 => Some(Gamemode::Spectator),
            _ => None,
        }
    }
}

/// What a player of some game mode can do.
#[derive(Clone, Copy, Debug, PartialEq, Eq, Structural, Hash)]
pub struct Abilities {
    pub can_take_damage: bool,
    pub can_insta_break: bool,
    pub can_break: bool,
}

impl Gamemode {
    /// What a player of this game mode can do: take damage in survival and
    /// adventure, break blocks at once in creative, break blocks in
    /// survival and creative.
    pub open spec fn spec_abilities(self) -> Abilities {
        Abilities {
            can_take_damage: self == Gamemode::Survival || self == Gamemode::Adventure,
            can_insta_break: self == Gamemode::Creative,
            can_break: self == Gamemode::Survival || self == Gamemode::Creative,
        }
    }

    /// The abilities that a player gets with this game mode.
    pub fn abilities(self) -> (r: Abilities)
        ensures
            r == self.spec_abilities(),
    {
        let mut abilities = Abilities {
            can_take_damage: false,
            can_insta_break: false,
            can_break: false,
        };
        match self {
            Gamemode::Survival | Gamemode::Adventure => {
                abilities.can_take_damage = true;
            },
            Gamemode::Creative => {
                abilities.can_insta_break = true;
            },
            _ => (),
        }
        if self == Gamemode::Survival || self == Gamemode::Creative {
            abilities.can_break = true;
        }
        abilities
    }
}

#[derive(Clone, Copy, Debug, PartialEq, Eq, Structural, Hash)]
pub enum Difficulty {
    Peaceful,
    Easy,
    Medium,
    Hard,
}

impl Difficulty {
    /// The number of this difficulty.
    pub open spec fn spec_get_id(self) -> u8 {
        match self {
            Difficulty::Peaceful => 0,
            Difficulty::Easy => 1,
            Difficulty::Medium => 2,
            Difficulty::Hard => 3,
        }
    }

    #[verifier::when_used_as_spec(spec_get_id)]
    pub fn get_id(self) -> (r: u8)
        ensures
            r == self.spec_get_id(),
    {
        match self {
            Difficulty::Peaceful => 0,
            Difficulty::Easy => 1,
            Difficulty::Medium => 2,
            Difficulty::Hard => 3,
        }
    }
}

#[derive(Clone, Copy, Debug, PartialEq, Eq, Structural, Hash)]
pub enum Dimension {
    Nether,
    Overwold,
    End,
}

impl Dimension {
    /// The number of this dimension.
    pub open spec fn spec_get_id(self) -> i32 {
        match self {
            Dimension::Nether => -1i32,
            Dimension::Overwold => 0i32,
            Dimension::End => 1i32,
        }
    }

    #[verifier::when_used_as_spec(spec_get_id)]
    pub fn get_id(self) -> (r: i32)
        ensures
            r == self.spec_get_id(),
    {
        match self {
            Dimension::Nether => -1,
            Dimension::Overwold => 0,
            Dimension::End => 1,
        }
    }
}

#[derive(Clone, Copy, Debug, PartialEq, Eq, Structural, Hash)]
pub enum PvpStyle {
    Classic,
    New,
}

/// The game mode number of a player whose data holds none.
pub const UNSET_GAMEMODE: i32 = -1;

/// Represents the contents of a player data file.
#[derive(Clone, Copy, Debug, PartialEq, Eq, Structural)]
pub struct PlayerData {
    pub gamemode: i32,
}

/// Set to a magic value when player data doesn't exist (first-time join)
pub fn default_gamemode() -> (r: i32)
    ensures
        r == UNSET_GAMEMODE,
{
    UNSET_GAMEMODE
}

impl Default for PlayerData {
    fn default() -> (r: Self)
        ensures
            r.gamemode == 0,
    {
        PlayerData { gamemode: 0 }
    }
}

/// Different positions a chat message can be displayed
#[derive(Clone, Copy, Debug, PartialEq, Eq, Structural)]
pub enum ChatPosition {
    /// Simple message displayed in the chat box
    Chat,
    /// System message displayed in the chat box
    SystemMessage,
    /// A text displayed above the hotbar
    GameInfo,
}

/// Event triggered when a chat message is sent out
#[derive(Clone, Debug)]
pub struct ChatEvent {
    /// The JSON-formatted message
    pub message: String,
    /// The position of the message
    pub position: ChatPosition,
}

/// The tick at which a player began to use an item that takes time.
#[derive(Clone, Copy, Debug, PartialEq, Eq, Structural)]
pub struct ItemTimedUse {
    pub tick_start: u64,
}

} // verus!
