use vstd::prelude::*;

verus! {

/// Kind of a map tile; on the wire it is its code, a `u8`.
#[derive(Debug, Clone, Copy, PartialEq, Eq, Structural)]
#[allow(non_camel_case_types, clippy::upper_case_acronyms)]
pub enum TileKind {
    BASE,
    SNOW,
}

/// Object standing on a map tile; on the wire it is its code, a `u8`.
#[derive(Debug, Clone, Copy, PartialEq, Eq, Structural)]
#[allow(non_camel_case_types, clippy::upper_case_acronyms)]
pub enum ObjectId {
    NONE,
    TREE,
}

impl TileKind {
    pub open spec fn code_spec(self) -> u8 {
        match self {
            TileKind::BASE => 0,
            TileKind::SNOW => 1,
        }
    }

    /// The wire code of the kind.
    pub fn code(&self) -> (c: u8)
        ensures
            c == self.code_spec(),
    {
        match self {
            TileKind::BASE => 0,
            TileKind::SNOW => 1,
        }
    }

    /// The kind with the wire code `c`, where there is one.
    pub fn from_code(c: u8) -> (r: Option<TileKind>)
        ensures
            forall|k: TileKind| (r == Some(k)) <==> k.code_spec() == c,
    {
        match c {
            0 => Some(TileKind::BASE),
            1 => Some(TileKind::SNOW),
            _ => None,
        }
    }
}

impl ObjectId {
    pub open spec fn code_spec(self) -> u8 {
        match self {
            ObjectId::NONE => 0,
            ObjectId::TREE => 1,
        }
    }

    /// The wire code of the object.
    pub fn code(&self) -> (c: u8)
        ensures
            c == self.code_spec(),
    {
        match self {
            ObjectId::NONE => 0,
            ObjectId::TREE => 1,
        }
    }

    /// The object with the wire code `c`, where there is one.
    pub fn from_code(c: u8) -> (r: Option<ObjectId>)
        ensures
            forall|k: ObjectId| (r == Some(k)) <==> k.code_spec() == c,
    {
        match c {
            0 => Some(ObjectId::NONE),
            1 => Some(ObjectId::TREE),
            _ => None,
        }
    }
}

/// Place of a player on the map.
#[derive(Debug, Clone)]
pub struct Position {
    pub x: i64,
    pub y: i64,
}

/// What is known of a player.
#[derive(Debug)]
pub struct PlayerData {
    pub position: Position,
}

/// Message of the system to a client.
#[derive(Debug, Clone)]
pub enum SystemPacket {
    PlayerKicked,
}

/// Request to run a piece of script right away.
#[derive(Debug, Clone)]
pub struct ImpromptuRequest {
    pub name: Option<String>,
    pub code: String,
}

} // verus!
