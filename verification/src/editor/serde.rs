//! The level as it is written to and read from its file.
//!
//! The library turns the level into a list of records and a list of records
//! into a level. Turning the records into text and the text into records, and
//! reading and writing the file, is left to the caller.

use vstd::prelude::*;
use crate::editor::components::{EditorShape, ShapeEntity};
use crate::editor::editor::SpawnShapeParam;
use crate::game::level::Level;
use crate::geometry::{Direction, Transform, Vec2};
use crate::input::KeyboardInput;
use crate::util::ColorMaterial;

verus! {

/// One shape of a saved level.
#[derive(Clone, Copy, PartialEq, Eq, Debug, Structural)]
pub struct SerdeShape {
    pub shape: EditorShape,
    pub translation: Vec2,
    pub rotation: Direction,
    pub scale: Vec2,
}

/// A saved level.
pub struct SerdeLevel {
    pub shapes: Vec<SerdeShape>,
}

/// Whether the saved level has been looked for.
#[derive(Clone, Copy, PartialEq, Eq, Debug, Structural)]
pub struct SaveLoaded(pub bool);

impl SerdeShape {
    pub open spec fn spec_new(shape: EditorShape, transform: &Transform) -> SerdeShape {
        SerdeShape {
            shape,
            translation: transform.translation,
            rotation: transform.rotation,
            scale: transform.scale,
        }
    }

    /// The record of a shape that stands at `transform`.
    #[verifier::when_used_as_spec(spec_new)]
    pub fn new(shape: EditorShape, transform: &Transform) -> (r: Self)
        ensures
            r == SerdeShape::spec_new(shape, transform),
    {
        Self { shape, translation: transform.translation, rotation: transform.rotation, scale: transform.scale }
    }

    /// Where the shape of the record stands.
    pub open spec fn spec_transform(&self) -> Transform {
        Transform { translation: self.translation, rotation: self.rotation, scale: self.scale }
    }

    /// The shape of the record as it enters a level.
    pub open spec fn spec_entity(&self) -> ShapeEntity {
        self.shape.spec_entity(
            ColorMaterial { color: self.shape.spec_fresh_state().spec_get_color() },
            self.spec_transform(),
        )
    }

    /// Adds the shape of the record to the level.
    pub fn spawn(self, param: &mut SpawnShapeParam)
        requires
            old(param).level.entity is Some,
            old(param).preload.loaded(),
        ensures
            final(param).preload == old(param).preload,
            final(param).level.entity is Some,
            final(param).level.entity->0.shapes@ == old(param).level.entity->0.shapes@.push(
                self.spec_entity(),
            ),
    {
        self.shape.spawn(
            param,
            &Transform { translation: self.translation, rotation: self.rotation, scale: self.scale },
        );
    }
}

impl SerdeLevel {
    /// A saved level without shapes.
    pub fn new() -> (r: Self)
        ensures
            r.shapes@.len() == 0,
    {
        Self { shapes: Vec::new() }
    }

    /// Adds a record at the end.
    pub fn push(&mut self, shape: SerdeShape)
        ensures
            final(self).shapes@ == old(self).shapes@.push(shape),
    {
        self.shapes.push(shape);
    }
}

/// The records of the shapes, in the order of the level.
pub open spec fn saved(shapes: Seq<ShapeEntity>) -> Seq<SerdeShape> {
    Seq::new(shapes.len(), |i: int| SerdeShape::spec_new(shapes[i].shape, &shapes[i].body.transform))
}

/// The shapes that the records stand for, in the order of the records.
pub open spec fn loaded_shapes(records: Seq<SerdeShape>) -> Seq<ShapeEntity> {
    Seq::new(records.len(), |i: int| records[i].spec_entity())
}

/// Saves the level when the save key has just been pressed: returns the
/// records of all its shapes, for the caller to write out. Returns `None` in
/// every other frame.
pub fn editor_save(keyboard_input: &KeyboardInput, level: &Level) -> (r: Option<SerdeLevel>)
    ensures
        r is Some <==> keyboard_input.p.just_pressed,
        r matches Some(serde_level) ==> serde_level.shapes@ == saved(level.shapes@),
{
    if keyboard_input.p.just_pressed {
        let mut serde_level = SerdeLevel::new();
        let mut i: usize = 0;
        while i < level.shapes.len()
            invariant
                0 <= i <= level.shapes@.len(),
                serde_level.shapes@.len() == i,
                forall|k: int| 0 <= k < i ==> serde_level.shapes@[k] == saved(level.shapes@)[k],
            decreases level.shapes@.len() - i,
        {
            let editor_shape = level.shapes[i].shape;
            let transform = level.shapes[i].body.transform;
            let serde_shape = SerdeShape::new(editor_shape, &transform);
            serde_level.push(serde_shape);
            i = i + 1;
        }
        assert(serde_level.shapes@ =~= saved(level.shapes@));
        Some(serde_level)
    } else {
        None
    }
}

/// Whether the saved level is still to be looked for: it has not been yet, and
/// the level to put it in is there.
pub open spec fn spec_wants_load(loaded: SaveLoaded, param: &SpawnShapeParam) -> bool {
    !loaded.0 && param.level.entity is Some
}

/// Whether the saved level is still to be looked for.
#[verifier::when_used_as_spec(spec_wants_load)]
pub fn wants_load(loaded: SaveLoaded, param: &SpawnShapeParam) -> (r: bool)
    ensures
        r == spec_wants_load(loaded, param),
{
    !loaded.0 && param.level.entity.is_some()
}

/// Loads the saved level, once, as soon as the level to put it in is there.
///
/// `contents` holds the records that the caller read, or `None` where there was
/// no file or none that could be understood: the level then starts empty. In
/// either case the saved level counts as looked for from then on.
pub fn editor_load(loaded: &mut SaveLoaded, param: &mut SpawnShapeParam, contents: Option<SerdeLevel>)
    requires
        old(param).preload.loaded(),
    ensures
        final(param).preload == old(param).preload,
        !spec_wants_load(*old(loaded), old(param)) ==> {
            &&& *final(loaded) == *old(loaded)
            &&& final(param).level == old(param).level
        },
        spec_wants_load(*old(loaded), old(param)) ==> {
            &&& final(loaded).0
            &&& final(param).level.entity is Some
            &&& final(param).level.entity->0.shapes@ == old(param).level.entity->0.shapes@
                + loaded_shapes(
                match contents {
                    Some(c) => c.shapes@,
                    None => Seq::empty(),
                },
            )
        },
{
    if loaded.0 {
        return ;
    }
    if param.level.entity.is_none() {
        return ;
    }
    let ghost before = param.level.entity->0.shapes@;
    match contents {
        Some(contents) => {
            let mut i: usize = 0;
            while i < contents.shapes.len()
                invariant
                    0 <= i <= contents.shapes@.len(),
                    param.preload == old(param).preload,
                    param.preload.loaded(),
                    param.level.entity is Some,
                    param.level.entity->0.shapes@.len() == before.len() + i,
                    forall|k: int| 0 <= k < before.len() ==> param.level.entity->0.shapes@[k] == before[k],
                    forall|k: int|
                        before.len() <= k < before.len() + i ==> param.level.entity->0.shapes@[k]
                            == contents.shapes@[k - before.len()].spec_entity(),
                decreases contents.shapes@.len() - i,
            {
                let shape = contents.shapes[i];
                shape.spawn(param);
                i = i + 1;
            }
            assert(param.level.entity->0.shapes@ =~= before + loaded_shapes(contents.shapes@));
        },
        None => {
            assert(param.level.entity->0.shapes@ =~= before + loaded_shapes(Seq::empty()));
        },
    }
    loaded.0 = true;
}

/// Saving a level and loading what was saved into an empty level gives the
/// level back: as many shapes, in the same order, each of the same kind, as
/// sticky as before, and in the same place, turned and scaled the same way.
pub proof fn lemma_save_load_round_trip(shapes: Seq<ShapeEntity>, i: int)
    requires
        0 <= i < shapes.len(),
    ensures
        loaded_shapes(saved(shapes)).len() == shapes.len(),
        loaded_shapes(saved(shapes))[i].shape == shapes[i].shape,
        loaded_shapes(saved(shapes))[i].body.transform == shapes[i].body.transform,
        saved(loaded_shapes(saved(shapes))) == saved(shapes),
{
    assert(saved(loaded_shapes(saved(shapes))) =~= saved(shapes));
}

/// Loading records and saving the level that they make gives the records back.
pub proof fn lemma_load_save_round_trip(records: Seq<SerdeShape>)
    ensures
        saved(loaded_shapes(records)) == records,
{
    assert(saved(loaded_shapes(records)) =~= records);
}

} // verus!
