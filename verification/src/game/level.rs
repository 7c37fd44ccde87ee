//! The level: the container of the shapes.

use vstd::prelude::*;
use crate::editor::components::ShapeEntity;

verus! {

/// The shapes of the level, in the order in which they were added. A shape is
/// named by its place in this list.
pub struct Level {
    pub shapes: Vec<ShapeEntity>,
}

/// The level, once it has been made.
pub struct LevelEntity {
    pub entity: Option<Level>,
}

impl Level {
    /// A level without shapes.
    pub fn new() -> (r: Level)
        ensures
            r.shapes@.len() == 0,
    {
        Level { shapes: Vec::new() }
    }
}

/// Makes the empty level.
pub fn level_startup(level_entity: &mut LevelEntity)
    ensures
        final(level_entity).entity is Some,
        final(level_entity).entity->0.shapes@.len() == 0,
{
    level_entity.entity = Some(Level::new());
}

} // verus!
