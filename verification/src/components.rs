use vstd::prelude::*;
use crate::player::PlayerId;

verus! {

/// Display name of an entity.
pub type Name = String;

/// Player that owns an entity.
pub type OwnedBy = PlayerId;

/// Rotation of an entity, in steps of a full turn.
pub type Rotation = u8;

} // verus!
