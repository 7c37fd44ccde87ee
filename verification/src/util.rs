//! The cursor, the tint of the level's shapes, and the assets made once at startup.

use vstd::prelude::*;
use crate::geometry::{Transform, Vec2, UNITS_PER_PIXEL};

verus! {

/// The number of grey materials made at startup: one for each whole per cent
/// of brightness, black and white included.
pub const GREY_LEVELS: usize = 101;

/// Where the pointer is, in the window and in the world.
#[derive(Clone, Copy, PartialEq, Eq, Debug, Structural)]
pub struct Cursor {
    /// Position relative to the middle of the window.
    pub pos: Vec2,
    pub prev_pos: Vec2,
    /// Position in the world that the camera shows.
    pub world_pos: Vec2,
    pub prev_world_pos: Vec2,
    /// How far the pointer went back since the last frame, in world lengths.
    pub delta: Vec2,
    /// Whether the pointer moved in this frame.
    pub moved: bool,
}

impl Cursor {
    pub open spec fn spec_new() -> Cursor {
        Cursor {
            pos: Vec2::spec_zero(),
            prev_pos: Vec2::spec_zero(),
            world_pos: Vec2::spec_zero(),
            prev_world_pos: Vec2::spec_zero(),
            delta: Vec2::spec_zero(),
            moved: false,
        }
    }

    /// A cursor at rest in the middle of the window.
    #[verifier::when_used_as_spec(spec_new)]
    pub fn new() -> (r: Cursor)
        ensures
            r == Cursor::spec_new(),
    {
        Cursor {
            pos: Vec2::zero(),
            prev_pos: Vec2::zero(),
            world_pos: Vec2::zero(),
            prev_world_pos: Vec2::zero(),
            delta: Vec2::zero(),
            moved: false,
        }
    }
}

impl Default for Cursor {
    fn default() -> (r: Self)
        ensures
            r == Cursor::spec_new(),
    {
        Cursor::new()
    }
}

/// The cursor after a frame in which the pointer reported the positions
/// `moved_to`, in window coordinates, the last of which counts.
pub open spec fn cursor_after(
    cursor: Cursor,
    moved_to: Seq<Vec2>,
    window_size: Vec2,
    scale: i64,
    cam_translation: Vec2,
) -> Cursor {
    let pos = if moved_to.len() > 0 {
        moved_to.last().spec_minus(window_size.spec_scaled(1, 2))
    } else {
        cursor.pos
    };
    Cursor {
        pos,
        prev_pos: cursor.pos,
        world_pos: pos.spec_scaled(scale, UNITS_PER_PIXEL).spec_plus(cam_translation),
        prev_world_pos: cursor.world_pos,
        delta: cursor.pos.spec_minus(pos).spec_scaled(scale, UNITS_PER_PIXEL),
        moved: moved_to.len() > 0,
    }
}

/// Brings the cursor up to date at the start of a frame. `moved_to` holds the
/// pointer positions reported since the last frame, `scale` is the camera's
/// zoom in thousandths, `cam_translation` the camera's place in the world.
pub fn cursor_pos(
    cursor: &mut Cursor,
    moved_to: &Vec<Vec2>,
    window_size: Vec2,
    scale: i64,
    cam_translation: Vec2,
)
    ensures
        *final(cursor) == cursor_after(*old(cursor), moved_to@, window_size, scale, cam_translation),
{
    cursor.prev_pos = cursor.pos;
    cursor.prev_world_pos = cursor.world_pos;
    if moved_to.len() > 0 {
        let last = moved_to[moved_to.len() - 1];
        cursor.pos = last.minus(window_size.scaled(1, 2));
        cursor.moved = true;
    } else {
        cursor.moved = false;
    }
    cursor.world_pos = cursor.pos.scaled(scale, UNITS_PER_PIXEL).plus(cam_translation);
    cursor.delta = cursor.prev_pos.minus(cursor.pos).scaled(scale, UNITS_PER_PIXEL);
}

/// A colour; each channel in per cent of full brightness.
#[derive(Clone, Copy, PartialEq, Eq, Debug, Structural)]
pub struct Color {
    pub r: u8,
    pub g: u8,
    pub b: u8,
}

/// What a shape is painted with.
#[derive(Clone, Copy, PartialEq, Eq, Debug, Structural)]
pub struct ColorMaterial {
    pub color: Color,
}

impl Color {
    pub fn rgb(r: u8, g: u8, b: u8) -> (c: Color)
        ensures
            c == (Color { r, g, b }),
    {
        Color { r, g, b }
    }

    pub open spec fn spec_grey(level: u8) -> Color {
        Color { r: level, g: level, b: level }
    }

    /// The grey of the given brightness.
    #[verifier::when_used_as_spec(spec_grey)]
    pub fn grey(level: u8) -> (c: Color)
        ensures
            c == Color::spec_grey(level),
    {
        Color { r: level, g: level, b: level }
    }

    /// Perceived brightness in per cent, to the nearest whole: red weighs 299,
    /// green 587 and blue 114 parts in a thousand.
    pub open spec fn spec_luma(self) -> int {
        (299 * self.r + 587 * self.g + 114 * self.b + 500) / 1000
    }

    /// Perceived brightness in per cent.
    pub fn luma(self) -> (l: usize)
        ensures
            l == self.spec_luma(),
            l <= 255,
            self.r <= 100 && self.g <= 100 && self.b <= 100 ==> l <= 100,
            self.r == self.g && self.g == self.b ==> l == self.r,
    {
        let sum: u32 = 299 * self.r as u32 + 587 * self.g as u32 + 114 * self.b as u32 + 500;
        (sum / 1000) as usize
    }
}

/// The state of a shape that decides its tint.
#[derive(Clone, Copy, PartialEq, Eq, Debug, Structural)]
pub struct ColorUpdate {
    pub selected: bool,
    pub hovered: bool,
    pub stickable: bool,
}

impl ColorUpdate {
    /// The brightness of the tint in per cent: 50 for a shape the web sticks
    /// to and 25 for one it does not, raised by 40 when the shape is selected,
    /// else by 10 when it is hovered.
    pub open spec fn spec_brightness(&self) -> u8 {
        let base: u8 = if self.stickable { 50 } else { 25 };
        if self.selected {
            (base + 40) as u8
        } else if self.hovered {
            (base + 10) as u8
        } else {
            base
        }
    }

    pub open spec fn spec_get_color(&self) -> Color {
        Color::spec_grey(self.spec_brightness())
    }

    /// The tint: a grey of brightness `spec_brightness`.
    #[verifier::when_used_as_spec(spec_get_color)]
    pub fn get_color(&self) -> (c: Color)
        ensures
            c == self.spec_get_color(),
    {
        let mut ret: u8 = if self.stickable { 50 } else { 25 };
        if self.selected {
            ret = ret + 40;
        } else if self.hovered {
            ret = ret + 10;
        }
        Color::rgb(ret, ret, ret)
    }
}

/// Repaints `material` with the tint that `update` calls for.
pub fn update_color_material(material: &mut ColorMaterial, update: ColorUpdate)
    ensures
        final(material).color == update.spec_get_color(),
{
    material.color = update.get_color();
}

/// Pairs every item of a list with one and the same value.
pub struct ZipAll<A, T> {
    pub items: Vec<A>,
    /// How many items have been handed out.
    pub position: usize,
    pub zip_item: T,
}

impl<A: Copy, T: Copy> ZipAll<A, T> {
    /// The pairs that are still to come.
    pub open spec fn remaining(&self) -> Seq<(A, T)> {
        if self.position <= self.items@.len() {
            Seq::new(
                (self.items@.len() - self.position) as nat,
                |i: int| (self.items@[self.position + i], self.zip_item),
            )
        } else {
            Seq::empty()
        }
    }

    pub fn new(iter: Vec<A>, zip_item: T) -> (r: Self)
        ensures
            r.items == iter,
            r.position == 0,
            r.zip_item == zip_item,
            r.remaining() == Seq::new(iter@.len(), |i: int| (iter@[i], zip_item)),
    {
        let r = ZipAll { items: iter, position: 0, zip_item };
        assert(r.remaining() =~= Seq::new(r.items@.len(), |i: int| (r.items@[i], zip_item)));
        r
    }

    /// Hands out the next pair, or `None` when the list is used up.
    pub fn next(&mut self) -> (r: Option<(A, T)>)
        ensures
            final(self).items == old(self).items,
            final(self).zip_item == old(self).zip_item,
            r is None <==> old(self).remaining().len() == 0,
            r is None ==> final(self).position == old(self).position,
            r matches Some(pair) ==> {
                &&& pair == old(self).remaining()[0]
                &&& pair == (old(self).items@[old(self).position as int], old(self).zip_item)
                &&& final(self).position == old(self).position + 1
                &&& final(self).remaining() == old(self).remaining().drop_first()
            },
    {
        if self.position < self.items.len() {
            let item = self.items[self.position];
            self.position = self.position + 1;
            assert(self.remaining() =~= old(self).remaining().drop_first());
            Some((item, self.zip_item))
        } else {
            None
        }
    }

    /// All the pairs that are still to come, in order.
    pub fn collect(self) -> (r: Vec<(A, T)>)
        ensures
            r@ == self.remaining(),
    {
        let mut out: Vec<(A, T)> = Vec::new();
        let mut i: usize = self.position;
        while i < self.items.len()
            invariant
                self.position <= i,
                i <= self.items@.len() || i == self.position,
                out@.len() == i - self.position,
                forall|k: int| 0 <= k < out@.len() ==> out@[k] == self.remaining()[k],
            decreases self.items@.len() - i,
        {
            out.push((self.items[i], self.zip_item));
            i = i + 1;
        }
        assert(out@ =~= self.remaining());
        out
    }
}

/// Lists that can be paired off with one value.
pub trait ZipAllTrait<A, T>: Sized {
    /// The items of the list, in order.
    spec fn elements(&self) -> Seq<A>;

    /// Pairs every item with `zip_item`.
    fn zip_all(self, zip_item: T) -> (r: ZipAll<A, T>)
        ensures
            r.items@ == self.elements(),
            r.position == 0,
            r.zip_item == zip_item,
    ;
}

impl<A: Copy, T: Copy> ZipAllTrait<A, T> for Vec<A> {
    open spec fn elements(&self) -> Seq<A> {
        self@
    }

    fn zip_all(self, zip_item: T) -> (r: ZipAll<A, T>) {
        ZipAll::new(self, zip_item)
    }
}

/// Placements made from two end points.
pub trait ExtraTransformMethods: Sized {
    /// The placement of a bar of the given width that reaches from `p1` to `p2`.
    spec fn spec_from_pt_to_pt(p1: Vec2, p2: Vec2, width: i64) -> Self;

    /// The placement of a bar of the given width that reaches from `p1` to `p2`.
    fn from_pt_to_pt(p1: Vec2, p2: Vec2, width: i64) -> (r: Self)
        ensures
            r == Self::spec_from_pt_to_pt(p1, p2, width),
    ;
}

impl ExtraTransformMethods for Transform {
    /// Centred half way between the points, its y axis turned from `p1` towards
    /// `p2`, as wide as asked and as long as the points are apart.
    open spec fn spec_from_pt_to_pt(p1: Vec2, p2: Vec2, width: i64) -> Self {
        Transform {
            translation: p1.spec_midpoint(p2),
            rotation: p2.spec_minus(p1).spec_heading().spec_arc_from_y(),
            scale: Vec2 { x: width, y: p2.spec_minus(p1).spec_length() },
        }
    }

    fn from_pt_to_pt(p1: Vec2, p2: Vec2, width: i64) -> (r: Self) {
        let span = p2.minus(p1);
        Transform {
            translation: p1.midpoint(p2),
            rotation: span.heading().arc_from_y(),
            scale: Vec2 { x: width, y: span.length() },
        }
    }
}

/// The outline that is drawn for a thing.
#[derive(Clone, Copy, PartialEq, Eq, Debug, Structural)]
pub enum Mesh {
    Box { x_length: i64, y_length: i64, z_length: i64 },
    Circle { radius: i64 },
}

/// The names under which the meshes made at startup are kept.
#[derive(Clone, Copy, PartialEq, Eq, Debug, Structural)]
pub enum MeshKey {
    /// A square of side 1.
    Box1,
    /// A square of side 2.
    Box2,
    /// A circle of radius 1.
    Circle1,
    /// A circle of radius 4.
    Circle4,
}

/// The meshes made at startup, by name.
#[derive(Clone, Copy, PartialEq, Eq, Debug, Structural)]
pub struct PreloadedMeshes {
    pub box_1: Option<Mesh>,
    pub box_2: Option<Mesh>,
    pub circle_1: Option<Mesh>,
    pub circle_4: Option<Mesh>,
}

impl PreloadedMeshes {
    pub open spec fn spec_new() -> PreloadedMeshes {
        PreloadedMeshes { box_1: None, box_2: None, circle_1: None, circle_4: None }
    }

    /// No mesh under any name.
    #[verifier::when_used_as_spec(spec_new)]
    pub fn new() -> (r: PreloadedMeshes)
        ensures
            r == PreloadedMeshes::spec_new(),
    {
        PreloadedMeshes { box_1: None, box_2: None, circle_1: None, circle_4: None }
    }

    pub open spec fn spec_get(&self, key: MeshKey) -> Option<Mesh> {
        match key {
            MeshKey::Box1 => self.box_1,
            MeshKey::Box2 => self.box_2,
            MeshKey::Circle1 => self.circle_1,
            MeshKey::Circle4 => self.circle_4,
        }
    }

    /// The mesh kept under `key`, if there is one.
    #[verifier::when_used_as_spec(spec_get)]
    pub fn get(&self, key: MeshKey) -> (r: Option<Mesh>)
        ensures
            r == self.spec_get(key),
    {
        match key {
            MeshKey::Box1 => self.box_1,
            MeshKey::Box2 => self.box_2,
            MeshKey::Circle1 => self.circle_1,
            MeshKey::Circle4 => self.circle_4,
        }
    }

    /// Keeps `mesh` under `key`, in place of what was there.
    pub fn insert(&mut self, key: MeshKey, mesh: Mesh)
        ensures
            forall|k: MeshKey|
                final(self).spec_get(k) == if k == key {
                    Some(mesh)
                } else {
                    old(self).spec_get(k)
                },
    {
        match key {
            MeshKey::Box1 => {
                self.box_1 = Some(mesh);
            },
            MeshKey::Box2 => {
                self.box_2 = Some(mesh);
            },
            MeshKey::Circle1 => {
                self.circle_1 = Some(mesh);
            },
            MeshKey::Circle4 => {
                self.circle_4 = Some(mesh);
            },
        }
    }
}

/// Materials and meshes that are made once and shared.
pub struct PreloadedAssets {
    /// The greys, from black at index 0 to white at index 100.
    pub materials: Vec<ColorMaterial>,
    pub meshes: PreloadedMeshes,
}

impl PreloadedAssets {
    /// Nothing made yet.
    pub fn new() -> (r: Self)
        ensures
            r.materials@.len() == 0,
            r.meshes == PreloadedMeshes::spec_new(),
    {
        PreloadedAssets { materials: Vec::with_capacity(101), meshes: PreloadedMeshes::new() }
    }

    /// The grey ramp is in place: entry `i` is the grey of brightness `i`.
    pub open spec fn loaded(&self) -> bool {
        &&& self.materials@.len() >= GREY_LEVELS
        &&& forall|i: int|
            0 <= i < GREY_LEVELS ==> (#[trigger] self.materials@[i]).color == Color::spec_grey(i as u8)
    }

    /// Whether the grey ramp is in place.
    pub fn is_loaded(&self) -> (r: bool)
        ensures
            r == self.loaded(),
    {
        if self.materials.len() < GREY_LEVELS {
            return false;
        }
        let mut i: u8 = 0;
        while i <= 100
            invariant
                0 <= i <= 101,
                self.materials@.len() >= GREY_LEVELS,
                forall|k: int|
                    0 <= k < i ==> (#[trigger] self.materials@[k]).color == Color::spec_grey(k as u8),
            decreases 101 - i,
        {
            let c = self.materials[i as usize].color;
            if c.r != i || c.g != i || c.b != i {
                return false;
            }
            i = i + 1;
        }
        true
    }

    /// The shared material whose grey is nearest to the brightness of `color`.
    pub fn get_bw_color_handle(&self, color: Color) -> (r: &ColorMaterial)
        requires
            color.spec_luma() < self.materials@.len(),
        ensures
            *r == self.materials@[color.spec_luma()],
    {
        let i: usize = color.luma();
        &self.materials[i]
    }
}

/// The four meshes of the game.
pub open spec fn standard_meshes() -> PreloadedMeshes {
    PreloadedMeshes {
        box_1: Some(Mesh::Box { x_length: 1000, y_length: 1000, z_length: 0 }),
        box_2: Some(Mesh::Box { x_length: 2000, y_length: 2000, z_length: 0 }),
        circle_1: Some(Mesh::Circle { radius: 1000 }),
        circle_4: Some(Mesh::Circle { radius: 4000 }),
    }
}

/// Makes the shared assets: appends the 101 greys to the materials and keeps
/// the four meshes under their names.
pub fn preload_assets(preloaded: &mut PreloadedAssets)
    ensures
        final(preloaded).materials@ == old(preloaded).materials@ + Seq::new(
            GREY_LEVELS as nat,
            |i: int| ColorMaterial { color: Color::spec_grey(i as u8) },
        ),
        final(preloaded).meshes == standard_meshes(),
        old(preloaded).materials@.len() == 0 ==> final(preloaded).loaded(),
{
    let ghost before = preloaded.materials@;
    let mut i: u8 = 0;
    while i <= 100
        invariant
            0 <= i <= 101,
            preloaded.meshes == old(preloaded).meshes,
            preloaded.materials@ == before + Seq::new(
                i as nat,
                |k: int| ColorMaterial { color: Color::spec_grey(k as u8) },
            ),
        decreases 101 - i,
    {
        preloaded.materials.push(ColorMaterial { color: Color::grey(i) });
        i = i + 1;
        assert(preloaded.materials@ =~= before + Seq::new(
            i as nat,
            |k: int| ColorMaterial { color: Color::spec_grey(k as u8) },
        ));
    }
    preloaded.meshes.insert(MeshKey::Box1, Mesh::Box { x_length: 1000, y_length: 1000, z_length: 0 });
    preloaded.meshes.insert(MeshKey::Box2, Mesh::Box { x_length: 2000, y_length: 2000, z_length: 0 });
    preloaded.meshes.insert(MeshKey::Circle1, Mesh::Circle { radius: 1000 });
    preloaded.meshes.insert(MeshKey::Circle4, Mesh::Circle { radius: 4000 });
    proof {
        let m = preloaded.meshes;
        assert(m.spec_get(MeshKey::Box1) == standard_meshes().box_1);
        assert(m.spec_get(MeshKey::Box2) == standard_meshes().box_2);
        assert(m.spec_get(MeshKey::Circle1) == standard_meshes().circle_1);
        assert(m.spec_get(MeshKey::Circle4) == standard_meshes().circle_4);
    }
}

} // verus!
