//! The geometry transform: a pure function from one source record and one
//! target-object template to one finished target object.
//!
//! The composed rotation is the source quarter-turn count plus the template's
//! delta, mod 4. The template's local offset is rotated into the source
//! record's frame and added (wrapping) to the pre-scaled source position; the
//! two horizontal axes swap between the two coordinate conventions. The
//! shape-reinterpretation flags then permute the size triple and pick an
//! orientation axis, and the 180-degree fixups compensate assets whose
//! canonical facing is reversed.

use vstd::prelude::*;
use crate::types::{Brick, BrickDescV, Color, ColorMode, Direction, SourceBrick, SourceBrickV,
    BrickDesc};
use crate::rotation::{compose_rotation, rotate_offset, spec_compose_rotation, spec_rotate_n};

verus! {

/// Index of the plastic entry in the fixed material table.
pub const MATERIAL_PLASTIC: usize = 0;

/// Index of the glow entry in the fixed material table.
pub const MATERIAL_GLOW: usize = 1;

/// Index of the metallic entry in the fixed material table.
pub const MATERIAL_METALLIC: usize = 2;

/// Index of the single pseudo-owner every produced object is assigned.
pub const BRICK_OWNER: usize = 0;

/// Addition of two i32 values, wrapping at the type boundary.
pub open spec fn spec_wrap_add(a: i32, b: i32) -> i32 {
    vstd::wrapping::i32_specs::wrapping_add(a, b)
}

/// Which material a source color-effect code selects: glow for code 3,
/// metallic for codes 1 and 2, plastic otherwise.
pub open spec fn spec_material_index(color_fx: u8) -> usize {
    if color_fx == 3 {
        MATERIAL_GLOW
    } else if color_fx == 1 || color_fx == 2 {
        MATERIAL_METALLIC
    } else {
        MATERIAL_PLASTIC
    }
}

/// How a produced object's color is stored: the template's explicit color
/// inline if it has one, else the source record's own palette index.
pub open spec fn spec_color_mode(src: SourceBrickV, desc: BrickDescV) -> ColorMode {
    match desc.color_override {
        Some(c) => ColorMode::Custom(c),
        None => ColorMode::Indexed(src.color_index as u32),
    }
}

/// The sloped-to-axis-aligned wedge reinterpretation: by the parity of the
/// composed rotation, permute the size triple, pick a sideways orientation
/// axis, and adjust the rotation. Returns (size, axis, rotation).
pub open spec fn spec_microwedge_step(size: (u32, u32, u32), rot: int) -> (
    (u32, u32, u32),
    Direction,
    int,
) {
    if rot == 0 {
        ((size.2, size.0, size.1), Direction::YPositive, rot)
    } else if rot == 2 {
        ((size.0, size.2, size.1), Direction::YPositive, (rot + 1) % 4)
    } else if rot == 1 {
        ((size.0, size.2, size.1), Direction::XPositive, (rot + 2) % 4)
    } else {
        ((size.2, size.0, size.1), Direction::XPositive, (rot + 1) % 4)
    }
}

/// The sideways-lattice reinterpretation: an even rotation turns the object
/// onto the Y axis and swaps the first two size components; an odd rotation
/// turns it onto the X axis and keeps the size.
pub open spec fn spec_lattice_step(size: (u32, u32, u32), rot: int) -> ((u32, u32, u32), Direction) {
    if rot == 0 || rot == 2 {
        (
            (size.1, size.0, size.2),
            if rot == 0 {
                Direction::YPositive
            } else {
                Direction::YNegative
            },
        )
    } else {
        (
            size,
            if rot == 1 {
                Direction::XNegative
            } else {
                Direction::XPositive
            },
        )
    }
}

/// The orientation pipeline applied to a template under composed rotation
/// `rot0`: the wedge reinterpretation (with its 180-degree adjustment when
/// the template explicitly asked for the downward axis), then the lattice
/// reinterpretation, then the reversed-facing fixups.
/// Returns (size, axis override, rotation).
pub open spec fn spec_orient(desc: BrickDescV, rot0: int) -> (
    (u32, u32, u32),
    Option<Direction>,
    int,
) {
    let (size1, dir1, rot1) = if desc.microwedge_rotate {
        let m = spec_microwedge_step(desc.size, rot0);
        let rm = if desc.direction_override == Some(Direction::ZNegative) {
            (m.2 + 2) % 4
        } else {
            m.2
        };
        (m.0, Some(m.1), rm)
    } else {
        (desc.size, desc.direction_override, rot0)
    };
    let (size2, dir2) = if desc.lattice_rotate {
        let l = spec_lattice_step(size1, rot1);
        (l.0, Some(l.1))
    } else {
        (size1, dir1)
    };
    let rot2 = if (desc.inverted_modter_rotate && (rot1 == 1 || rot1 == 3)) || (
    desc.inverted_wedge_rotate && (rot1 == 0 || rot1 == 2)) {
        (rot1 + 2) % 4
    } else {
        rot1
    };
    (size2, dir2, rot2)
}

/// The finished target object a template yields for a source record, once
/// the template's asset has been interned at `asset_index`.
pub open spec fn spec_transform(src: SourceBrickV, desc: BrickDescV, asset_index: usize) -> Brick {
    let rot0 = spec_compose_rotation(src.angle as int, desc.rotation_offset as int);
    let rxy = spec_rotate_n((desc.offset.0, desc.offset.1), src.angle as nat);
    let o = spec_orient(desc, rot0);
    Brick {
        asset_name_index: asset_index,
        size: o.0,
        position: (
            spec_wrap_add(src.position.1, rxy.0),
            spec_wrap_add(src.position.0, rxy.1),
            spec_wrap_add(src.position.2, desc.offset.2),
        ),
        direction: match o.1 {
            Some(d) => d,
            None => Direction::ZPositive,
        },
        rotation: o.2 as u8,
        collision: src.collision && !desc.nocollide,
        visibility: src.rendering,
        material_index: spec_material_index(src.color_fx),
        color: spec_color_mode(src, desc),
        owner_index: BRICK_OWNER,
    }
}

/// Place and orient one template against one source record. The produced
/// rotation is always reduced mod 4.
pub fn transform(src: &SourceBrick, desc: &BrickDesc, asset_index: usize) -> (b: Brick)
    ensures
        b == spec_transform(src@, desc@, asset_index),
        b.rotation < 4,
{
    let mut rotation: u8 = compose_rotation(src.angle, desc.rotation_offset);
    let rxy = rotate_offset((desc.offset.0, desc.offset.1), src.angle);
    let position = (
        src.position.1.wrapping_add(rxy.0),
        src.position.0.wrapping_add(rxy.1),
        src.position.2.wrapping_add(desc.offset.2),
    );
    let material_index: usize = if src.color_fx == 3 {
        MATERIAL_GLOW
    } else if src.color_fx == 1 || src.color_fx == 2 {
        MATERIAL_METALLIC
    } else {
        MATERIAL_PLASTIC
    };
    let color = match desc.color_override {
        Some(c) => ColorMode::Custom(c),
        None => ColorMode::Indexed(src.color_index as u32),
    };

    let mut size = desc.size;
    let mut direction_override = desc.direction_override;

    if desc.microwedge_rotate {
        let requested_down = match desc.direction_override {
            Some(d) => d == Direction::ZNegative,
            None => false,
        };
        let (x, y, z) = size;
        if rotation == 0 || rotation == 2 {
            direction_override = Some(Direction::YPositive);
            if rotation == 0 {
                size = (z, x, y);
            } else {
                size = (x, z, y);
                rotation = (rotation + 1) % 4;
            }
        } else {
            direction_override = Some(Direction::XPositive);
            if rotation == 1 {
                size = (x, z, y);
                rotation = (rotation + 2) % 4;
            } else {
                size = (z, x, y);
                rotation = (rotation + 1) % 4;
            }
        }
        if requested_down {
            rotation = (rotation + 2) % 4;
        }
    }

    if desc.lattice_rotate {
        if rotation == 0 || rotation == 2 {
            direction_override = if rotation == 0 {
                Some(Direction::YPositive)
            } else {
                Some(Direction::YNegative)
            };
            let (x, y, z) = size;
            size = (y, x, z);
        } else {
            direction_override = if rotation == 1 {
                Some(Direction::XNegative)
            } else {
                Some(Direction::XPositive)
            };
        }
    }

    if (desc.inverted_modter_rotate && (rotation == 1 || rotation == 3)) || (
    desc.inverted_wedge_rotate && (rotation == 0 || rotation == 2)) {
        rotation = (rotation + 2) % 4;
    }

    let direction = match direction_override {
        Some(d) => d,
        None => Direction::ZPositive,
    };

    Brick {
        asset_name_index: asset_index,
        size,
        position,
        direction,
        rotation,
        collision: src.collision && !desc.nocollide,
        visibility: src.rendering,
        material_index,
        color,
        owner_index: BRICK_OWNER,
    }
}

/// Law: a template flagged for the wedge reinterpretation, composed rotation
/// 0, without the downward-axis request and without the lattice flag, comes
/// out facing the positive Y axis with its size permuted (x, y, z) to
/// (z, x, y).
pub proof fn lemma_microwedge_upright(src: SourceBrickV, desc: BrickDescV, asset_index: usize)
    requires
        desc.microwedge_rotate,
        !desc.lattice_rotate,
        desc.direction_override != Some(Direction::ZNegative),
        spec_compose_rotation(src.angle as int, desc.rotation_offset as int) == 0,
    ensures
        spec_transform(src, desc, asset_index).direction == Direction::YPositive,
        spec_transform(src, desc, asset_index).size == (desc.size.2, desc.size.0, desc.size.1),
{
}

} // verus!
