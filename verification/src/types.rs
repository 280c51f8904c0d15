//! Data model of the conversion engine.
//!
//! A `SourceBrick` is one record read from the source stream, already reduced
//! to plain values: its type name and print identifier as byte strings, its
//! position pre-scaled to target grid units (20 per source unit), and its
//! orientation as a quarter-turn count. A `BrickDesc` is one target-object
//! template, relative to the source record's local frame; a rule resolves a
//! name to a list of them. A `Brick` is one finished target object.

use vstd::prelude::*;

verus! {

/// Orientation axis of a target object.
#[derive(Clone, Copy, Debug, PartialEq, Eq, Structural)]
pub enum Direction {
    XPositive,
    XNegative,
    YPositive,
    YNegative,
    ZPositive,
    ZNegative,
}

/// An 8-bit-per-channel RGBA color.
#[derive(Clone, Copy, Debug, PartialEq, Eq, Structural)]
pub struct Color {
    pub r: u8,
    pub g: u8,
    pub b: u8,
    pub a: u8,
}

impl Color {
    /// Build a color from its four channels.
    pub fn from_rgba(r: u8, g: u8, b: u8, a: u8) -> (c: Color)
        ensures
            c == (Color { r, g, b, a }),
    {
        Color { r, g, b, a }
    }
}

/// How a target object's color is stored: a reference into the shared
/// palette, or an inline custom color.
#[derive(Clone, Copy, Debug, PartialEq, Eq, Structural)]
pub enum ColorMode {
    Indexed(u32),
    Custom(Color),
}

/// One source record, reduced to plain values.
///
/// `position` is already expressed in target grid units (the source
/// coordinate times 20, truncated); `angle` is a quarter-turn count, not
/// necessarily reduced mod 4.
#[derive(Debug)]
pub struct SourceBrick {
    pub ui_name: Vec<u8>,
    pub print: Vec<u8>,
    pub position: (i32, i32, i32),
    pub angle: u8,
    pub color_index: u8,
    pub color_fx: u8,
    pub collision: bool,
    pub rendering: bool,
}

/// Mathematical image of a `SourceBrick`.
pub ghost struct SourceBrickV {
    pub ui_name: Seq<u8>,
    pub print: Seq<u8>,
    pub position: (i32, i32, i32),
    pub angle: u8,
    pub color_index: u8,
    pub color_fx: u8,
    pub collision: bool,
    pub rendering: bool,
}

impl View for SourceBrick {
    type V = SourceBrickV;

    open spec fn view(&self) -> SourceBrickV {
        SourceBrickV {
            ui_name: self.ui_name@,
            print: self.print@,
            position: self.position,
            angle: self.angle,
            color_index: self.color_index,
            color_fx: self.color_fx,
            collision: self.collision,
            rendering: self.rendering,
        }
    }
}

/// One target-object template, relative to a source record's local frame.
#[derive(Debug, PartialEq)]
pub struct BrickDesc {
    pub asset: Vec<u8>,
    pub size: (u32, u32, u32),
    pub offset: (i32, i32, i32),
    pub rotation_offset: u8,
    pub color_override: Option<Color>,
    pub direction_override: Option<Direction>,
    pub non_priority: bool,
    pub microwedge_rotate: bool,
    pub inverted_modter_rotate: bool,
    pub inverted_wedge_rotate: bool,
    pub modter: bool,
    pub lattice_rotate: bool,
    pub nocollide: bool,
}

/// Mathematical image of a `BrickDesc`.
pub ghost struct BrickDescV {
    pub asset: Seq<u8>,
    pub size: (u32, u32, u32),
    pub offset: (i32, i32, i32),
    pub rotation_offset: u8,
    pub color_override: Option<Color>,
    pub direction_override: Option<Direction>,
    pub non_priority: bool,
    pub microwedge_rotate: bool,
    pub inverted_modter_rotate: bool,
    pub inverted_wedge_rotate: bool,
    pub modter: bool,
    pub lattice_rotate: bool,
    pub nocollide: bool,
}

impl View for BrickDesc {
    type V = BrickDescV;

    open spec fn view(&self) -> BrickDescV {
        BrickDescV {
            asset: self.asset@,
            size: self.size,
            offset: self.offset,
            rotation_offset: self.rotation_offset,
            color_override: self.color_override,
            direction_override: self.direction_override,
            non_priority: self.non_priority,
            microwedge_rotate: self.microwedge_rotate,
            inverted_modter_rotate: self.inverted_modter_rotate,
            inverted_wedge_rotate: self.inverted_wedge_rotate,
            modter: self.modter,
            lattice_rotate: self.lattice_rotate,
            nocollide: self.nocollide,
        }
    }
}

/// The template a fresh `BrickDesc` starts from: the given asset, zero size
/// and offset, one quarter turn of rotation delta, and every flag off.
pub open spec fn spec_desc_new(asset: Seq<u8>) -> BrickDescV {
    BrickDescV {
        asset,
        size: (0, 0, 0),
        offset: (0, 0, 0),
        rotation_offset: 1,
        color_override: None,
        direction_override: None,
        non_priority: false,
        microwedge_rotate: false,
        inverted_modter_rotate: false,
        inverted_wedge_rotate: false,
        modter: false,
        lattice_rotate: false,
        nocollide: false,
    }
}

impl BrickDesc {
    /// A fresh template for the given target asset.
    pub fn new(asset: Vec<u8>) -> (d: Self)
        ensures
            d@ == spec_desc_new(asset@),
    {
        Self {
            asset,
            size: (0, 0, 0),
            offset: (0, 0, 0),
            rotation_offset: 1,
            color_override: None,
            direction_override: None,
            non_priority: false,
            microwedge_rotate: false,
            inverted_modter_rotate: false,
            inverted_wedge_rotate: false,
            modter: false,
            lattice_rotate: false,
            nocollide: false,
        }
    }

    /// Set the target size triple.
    pub fn size(self, size: (u32, u32, u32)) -> (d: Self)
        ensures
            d@ == (BrickDescV { size, ..self@ }),
    {
        Self { size, ..self }
    }

    /// Set the local offset triple.
    pub fn offset(self, offset: (i32, i32, i32)) -> (d: Self)
        ensures
            d@ == (BrickDescV { offset, ..self@ }),
    {
        Self { offset, ..self }
    }

    /// Set the quarter-turn delta added to the source rotation.
    pub fn rotation_offset(self, rotation: u8) -> (d: Self)
        ensures
            d@ == (BrickDescV { rotation_offset: rotation, ..self@ }),
    {
        Self { rotation_offset: rotation, ..self }
    }

    /// Give the template an explicit color, instead of the source palette
    /// reference.
    pub fn color_override(self, color_override: Color) -> (d: Self)
        ensures
            d@ == (BrickDescV { color_override: Some(color_override), ..self@ }),
    {
        Self { color_override: Some(color_override), ..self }
    }

    /// Give the template an explicit orientation axis, instead of the
    /// vertical default.
    pub fn direction_override(self, direction_override: Direction) -> (d: Self)
        ensures
            d@ == (BrickDescV { direction_override: Some(direction_override), ..self@ }),
    {
        Self { direction_override: Some(direction_override), ..self }
    }

    /// Mark the produced object as deferred behind all priority objects.
    pub fn non_priority(self, non_priority: bool) -> (d: Self)
        ensures
            d@ == (BrickDescV { non_priority, ..self@ }),
    {
        Self { non_priority, ..self }
    }

    /// Flag the sloped-to-axis-aligned wedge reinterpretation.
    pub fn microwedge_rotate(self, microwedge_rotate: bool) -> (d: Self)
        ensures
            d@ == (BrickDescV { microwedge_rotate, ..self@ }),
    {
        Self { microwedge_rotate, ..self }
    }

    /// Flag the 180-degree fixup applied on odd rotations.
    pub fn inverted_modter_rotate(self, inverted_modter_rotate: bool) -> (d: Self)
        ensures
            d@ == (BrickDescV { inverted_modter_rotate, ..self@ }),
    {
        Self { inverted_modter_rotate, ..self }
    }

    /// Flag the 180-degree fixup applied on even rotations.
    pub fn inverted_wedge_rotate(self, inverted_wedge_rotate: bool) -> (d: Self)
        ensures
            d@ == (BrickDescV { inverted_wedge_rotate, ..self@ }),
    {
        Self { inverted_wedge_rotate, ..self }
    }

    /// Mark the template as coming from a composite shape rule; such objects
    /// are deferred when invisible.
    pub fn modter(self, modter: bool) -> (d: Self)
        ensures
            d@ == (BrickDescV { modter, ..self@ }),
    {
        Self { modter, ..self }
    }

    /// Flag the sideways-lattice reinterpretation.
    pub fn lattice_rotate(self, lattice_rotate: bool) -> (d: Self)
        ensures
            d@ == (BrickDescV { lattice_rotate, ..self@ }),
    {
        Self { lattice_rotate, ..self }
    }

    /// Strip collision from the produced object.
    pub fn nocollide(self) -> (d: Self)
        ensures
            d@ == (BrickDescV { nocollide: true, ..self@ }),
    {
        Self { nocollide: true, ..self }
    }
}

/// One finished target object.
#[derive(Clone, Copy, Debug, PartialEq, Eq)]
pub struct Brick {
    pub asset_name_index: usize,
    pub size: (u32, u32, u32),
    pub position: (i32, i32, i32),
    pub direction: Direction,
    pub rotation: u8,
    pub collision: bool,
    pub visibility: bool,
    pub material_index: usize,
    pub color: ColorMode,
    pub owner_index: usize,
}

/// One entry of the literal rule registry: an exact type name and the
/// templates it maps to.
#[derive(Debug)]
pub struct RuleEntry {
    pub name: Vec<u8>,
    pub bricks: Vec<BrickDesc>,
}

/// Mathematical image of a `RuleEntry`.
pub ghost struct RuleEntryV {
    pub name: Seq<u8>,
    pub bricks: Seq<BrickDescV>,
}

impl View for RuleEntry {
    type V = RuleEntryV;

    open spec fn view(&self) -> RuleEntryV {
        RuleEntryV { name: self.name@, bricks: self.bricks@.map_values(|d: BrickDesc| d@) }
    }
}

} // verus!
