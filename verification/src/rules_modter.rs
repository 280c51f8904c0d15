//! The modular-terrain rule: names like `4x Cube`, `8x Ramp Steep`,
//! `2x CornerA 1/2h Inv.`, with an optional single leading whitespace byte.
//! After the side length and shape word come up to three optional suffixes,
//! tried in order: an ` Inv` marker, a height class (` Steep`, ` 3/4h`,
//! ` 1/2h`, ` 1/4h`, or a bare space), and an ` Inv` marker followed by one
//! more byte; the first combination that accounts for the whole rest of the
//! name wins, exactly in that preference order. Everything maps to micro
//! shapes flagged as composite, with the inverted variants turned downward.

use vstd::prelude::*;
use crate::literals::{
    asset_default_micro_brick, asset_default_micro_wedge, asset_default_micro_wedge_corner,
    asset_default_micro_wedge_inner_corner, asset_default_micro_wedge_outer_corner,
    asset_default_micro_wedge_triangle_corner, match_corner_a_long, match_corner_a_short,
    match_corner_b_long, match_corner_b_short, match_corner_c_long, match_corner_c_short,
    match_corner_d_long, match_corner_d_short, match_cube_word, match_half_suffix,
    match_inv_suffix, match_quarter_suffix, match_ramp_word, match_steep_suffix,
    match_three_quarter_suffix, match_wedge_word, spec_asset_default_micro_brick,
    spec_asset_default_micro_wedge, spec_asset_default_micro_wedge_corner,
    spec_asset_default_micro_wedge_inner_corner, spec_asset_default_micro_wedge_outer_corner,
    spec_asset_default_micro_wedge_triangle_corner, spec_lit_corner_a_long,
    spec_lit_corner_a_short, spec_lit_corner_b_long, spec_lit_corner_b_short,
    spec_lit_corner_c_long, spec_lit_corner_c_short, spec_lit_corner_d_long,
    spec_lit_corner_d_short, spec_lit_cube_word, spec_lit_half_suffix, spec_lit_inv_suffix,
    spec_lit_quarter_suffix, spec_lit_ramp_word, spec_lit_steep_suffix,
    spec_lit_three_quarter_suffix, spec_lit_wedge_word,
};
use crate::parse::{digits_end, lemma_digits_end_bounds, parse_u32, spec_digits_end,
    spec_digits_val, spec_match_at};
use crate::rules::{descs_view, rule_result_view};
use crate::types::{BrickDesc, BrickDescV, Direction, spec_desc_new};

verus! {

/// The seven terrain shapes.
#[derive(Clone, Copy, Debug, PartialEq, Eq, Structural)]
pub enum Shape {
    Cube,
    Ramp,
    CornerA,
    CornerB,
    CornerC,
    CornerD,
    Wedge,
}

/// The height classes a name can carry; `Space` is the bare-space filler,
/// which leaves the height at the default like `Absent`.
#[derive(Clone, Copy, Debug, PartialEq, Eq, Structural)]
pub enum HeightClass {
    Steep,
    ThreeQuarter,
    Half,
    Quarter,
    Space,
    Absent,
}

/// An ASCII whitespace byte.
pub open spec fn spec_is_ws(b: u8) -> bool {
    b == 9 || b == 10 || b == 11 || b == 12 || b == 13 || b == 32
}

/// The shape word found at position `q`, and its length; the long corner
/// spellings are tried before the short ones.
pub open spec fn spec_modter_shape(s: Seq<u8>, q: int) -> Option<(Shape, int)> {
    if spec_match_at(s, q, spec_lit_cube_word()) {
        Some((Shape::Cube, 4))
    } else if spec_match_at(s, q, spec_lit_ramp_word()) {
        Some((Shape::Ramp, 4))
    } else if spec_match_at(s, q, spec_lit_corner_a_long()) {
        Some((Shape::CornerA, 7))
    } else if spec_match_at(s, q, spec_lit_corner_a_short()) {
        Some((Shape::CornerA, 4))
    } else if spec_match_at(s, q, spec_lit_corner_b_long()) {
        Some((Shape::CornerB, 7))
    } else if spec_match_at(s, q, spec_lit_corner_b_short()) {
        Some((Shape::CornerB, 4))
    } else if spec_match_at(s, q, spec_lit_corner_c_long()) {
        Some((Shape::CornerC, 7))
    } else if spec_match_at(s, q, spec_lit_corner_c_short()) {
        Some((Shape::CornerC, 4))
    } else if spec_match_at(s, q, spec_lit_corner_d_long()) {
        Some((Shape::CornerD, 7))
    } else if spec_match_at(s, q, spec_lit_corner_d_short()) {
        Some((Shape::CornerD, 4))
    } else if spec_match_at(s, q, spec_lit_wedge_word()) {
        Some((Shape::Wedge, 5))
    } else {
        None
    }
}

/// After a height class: either the trailing inverted marker (` Inv` and
/// exactly one more byte, not a line feed) covering the rest, or nothing
/// left at all.
pub open spec fn spec_after_mid(s: Seq<u8>, r: int) -> Option<bool> {
    if spec_match_at(s, r, spec_lit_inv_suffix()) && r + 5 == s.len() && s[s.len() - 1] != 10 {
        Some(true)
    } else if r == s.len() {
        Some(false)
    } else {
        None
    }
}

/// The height class starting at `r` together with the trailing inverted
/// marker, tried in preference order; the bare space comes after the named
/// classes, and no class at all comes last.
pub open spec fn spec_mid_and_inv(s: Seq<u8>, r: int) -> Option<(HeightClass, bool)> {
    if spec_match_at(s, r, spec_lit_steep_suffix()) && spec_after_mid(s, r + 6) is Some {
        Some((HeightClass::Steep, spec_after_mid(s, r + 6)->Some_0))
    } else if spec_match_at(s, r, spec_lit_three_quarter_suffix()) && spec_after_mid(s, r + 5)
        is Some {
        Some((HeightClass::ThreeQuarter, spec_after_mid(s, r + 5)->Some_0))
    } else if spec_match_at(s, r, spec_lit_half_suffix()) && spec_after_mid(s, r + 5) is Some {
        Some((HeightClass::Half, spec_after_mid(s, r + 5)->Some_0))
    } else if spec_match_at(s, r, spec_lit_quarter_suffix()) && spec_after_mid(s, r + 5) is Some {
        Some((HeightClass::Quarter, spec_after_mid(s, r + 5)->Some_0))
    } else if r < s.len() && s[r] == 32 && spec_after_mid(s, r + 1) is Some {
        Some((HeightClass::Space, spec_after_mid(s, r + 1)->Some_0))
    } else if spec_after_mid(s, r) is Some {
        Some((HeightClass::Absent, spec_after_mid(s, r)->Some_0))
    } else {
        None
    }
}

/// The whole suffix after the shape word: whether the object is inverted,
/// and its height class. The leading ` Inv` is preferred when the rest
/// still parses.
pub open spec fn spec_modter_suffix(s: Seq<u8>, r0: int) -> Option<(bool, HeightClass)> {
    if spec_match_at(s, r0, spec_lit_inv_suffix()) && spec_mid_and_inv(s, r0 + 4) is Some {
        Some((true, spec_mid_and_inv(s, r0 + 4)->Some_0.0))
    } else {
        match spec_mid_and_inv(s, r0) {
            Some((m, c)) => Some((c, m)),
            None => None,
        }
    }
}

/// The asset, base rotation delta, and wedge-reinterpretation flag of a
/// shape.
pub open spec fn spec_modter_asset(shape: Shape) -> (Seq<u8>, int, bool) {
    match shape {
        Shape::Cube => (spec_asset_default_micro_brick(), 1, false),
        Shape::Ramp => (spec_asset_default_micro_wedge(), 3, true),
        Shape::CornerA => (spec_asset_default_micro_wedge_triangle_corner(), 2, false),
        Shape::CornerB => (spec_asset_default_micro_wedge_outer_corner(), 2, false),
        Shape::CornerC => (spec_asset_default_micro_wedge_corner(), 2, false),
        Shape::CornerD => (spec_asset_default_micro_wedge_inner_corner(), 2, false),
        Shape::Wedge => (spec_asset_default_micro_wedge(), 2, false),
    }
}

/// The height of a terrain piece of side `v` under a height class, or
/// nothing where a scaled value does not fit 32 bits.
pub open spec fn spec_modter_height(v: int, mid: HeightClass) -> Option<int> {
    match mid {
        HeightClass::Steep => if v * 2 <= u32::MAX && v * 2 * 5 <= u32::MAX {
            Some(v * 2 * 5)
        } else {
            None
        },
        HeightClass::ThreeQuarter => if v * 5 <= u32::MAX && v * 5 * 3 <= u32::MAX {
            Some(v * 5 * 3 / 4)
        } else {
            None
        },
        HeightClass::Half => if v / 2 * 5 <= u32::MAX {
            Some(v / 2 * 5)
        } else {
            None
        },
        HeightClass::Quarter => if v / 4 * 5 <= u32::MAX {
            Some(v / 4 * 5)
        } else {
            None
        },
        _ => if v * 5 <= u32::MAX {
            Some(v * 5)
        } else {
            None
        },
    }
}

/// What the rule produces once the name has matched.
pub open spec fn spec_modter_generate(
    s: Seq<u8>,
    p0: int,
    e: int,
    shape: Shape,
    inverted: bool,
    mid: HeightClass,
) -> Option<Seq<BrickDescV>> {
    let v = spec_digits_val(s, p0, e);
    let hres = spec_modter_height(v, mid);
    if v <= u32::MAX && v * 5 <= u32::MAX && hres is Some {
        let height = hres->Some_0;
        let asset = spec_modter_asset(shape).0;
        let rot0 = spec_modter_asset(shape).1;
        let mw = spec_modter_asset(shape).2;
        let rot1 = if inverted {
            if shape is Ramp {
                rot0 + 2
            } else {
                rot0 + 3
            }
        } else {
            rot0
        };
        let dirn = if inverted {
            Direction::ZNegative
        } else {
            Direction::ZPositive
        };
        let imr = inverted && !(shape is Ramp);
        let rot2 = if (v == 2 && shape is Wedge) || (v == 4 && shape is Wedge && height != v
            * 5) {
            rot1 + 1
        } else {
            rot1
        };
        Some(
            seq![
                BrickDescV {
                    size: ((v * 5) as u32, (v * 5) as u32, height as u32),
                    offset: (0i32, 0i32, 0i32),
                    rotation_offset: rot2 as u8,
                    direction_override: Some(dirn),
                    microwedge_rotate: mw,
                    inverted_modter_rotate: imr,
                    modter: true,
                    ..spec_desc_new(asset)
                },
            ],
        )
    } else {
        None
    }
}

/// The whole modular-terrain rule.
pub open spec fn spec_rule_modter(s: Seq<u8>) -> Option<Option<Seq<BrickDescV>>> {
    let p0: int = if s.len() > 0 && spec_is_ws(s[0]) {
        1
    } else {
        0
    };
    let e = spec_digits_end(s, p0);
    if e <= p0 || !(e + 1 < s.len() && s[e] == 120 && s[e + 1] == 32) {
        None
    } else {
        let q = e + 2;
        match spec_modter_shape(s, q) {
            None => None,
            Some((shape, w)) => match spec_modter_suffix(s, q + w) {
                None => None,
                Some((inverted, mid)) => Some(
                    spec_modter_generate(s, p0, e, shape, inverted, mid),
                ),
            },
        }
    }
}

/// Find the shape word at `q`.
fn modter_shape(s: &Vec<u8>, q: usize) -> (r: Option<(Shape, usize)>)
    ensures
        (match r {
            Some(t) => spec_modter_shape(s@, q as int) == Some((t.0, t.1 as int)),
            None => spec_modter_shape(s@, q as int) is None,
        }),
{
    proof {
        assert(spec_lit_cube_word().len() == 4);
        assert(spec_lit_ramp_word().len() == 4);
        assert(spec_lit_corner_a_long().len() == 7);
        assert(spec_lit_corner_a_short().len() == 4);
        assert(spec_lit_corner_b_long().len() == 7);
        assert(spec_lit_corner_b_short().len() == 4);
        assert(spec_lit_corner_c_long().len() == 7);
        assert(spec_lit_corner_c_short().len() == 4);
        assert(spec_lit_corner_d_long().len() == 7);
        assert(spec_lit_corner_d_short().len() == 4);
        assert(spec_lit_wedge_word().len() == 5);
    }
    if match_cube_word(s, q) {
        Some((Shape::Cube, 4))
    } else if match_ramp_word(s, q) {
        Some((Shape::Ramp, 4))
    } else if match_corner_a_long(s, q) {
        Some((Shape::CornerA, 7))
    } else if match_corner_a_short(s, q) {
        Some((Shape::CornerA, 4))
    } else if match_corner_b_long(s, q) {
        Some((Shape::CornerB, 7))
    } else if match_corner_b_short(s, q) {
        Some((Shape::CornerB, 4))
    } else if match_corner_c_long(s, q) {
        Some((Shape::CornerC, 7))
    } else if match_corner_c_short(s, q) {
        Some((Shape::CornerC, 4))
    } else if match_corner_d_long(s, q) {
        Some((Shape::CornerD, 7))
    } else if match_corner_d_short(s, q) {
        Some((Shape::CornerD, 4))
    } else if match_wedge_word(s, q) {
        Some((Shape::Wedge, 5))
    } else {
        None
    }
}

/// Decide what follows a height class.
fn after_mid(s: &Vec<u8>, r: usize) -> (b: Option<bool>)
    requires
        r <= s@.len(),
    ensures
        b == spec_after_mid(s@, r as int),
{
    proof {
        assert(spec_lit_inv_suffix().len() == 4);
    }
    let n = s.len();
    if match_inv_suffix(s, r) && n - r == 5 && s[n - 1] != 10 {
        Some(true)
    } else if r == n {
        Some(false)
    } else {
        None
    }
}

/// Parse the height class and trailing inverted marker at `r`.
fn mid_and_inv(s: &Vec<u8>, r: usize) -> (res: Option<(HeightClass, bool)>)
    requires
        r <= s@.len(),
    ensures
        res == spec_mid_and_inv(s@, r as int),
{
    proof {
        assert(spec_lit_steep_suffix().len() == 6);
        assert(spec_lit_three_quarter_suffix().len() == 5);
        assert(spec_lit_half_suffix().len() == 5);
        assert(spec_lit_quarter_suffix().len() == 5);
    }
    let n = s.len();
    if match_steep_suffix(s, r) {
        if let Some(c) = after_mid(s, r + 6) {
            return Some((HeightClass::Steep, c));
        }
    }
    if match_three_quarter_suffix(s, r) {
        if let Some(c) = after_mid(s, r + 5) {
            return Some((HeightClass::ThreeQuarter, c));
        }
    }
    if match_half_suffix(s, r) {
        if let Some(c) = after_mid(s, r + 5) {
            return Some((HeightClass::Half, c));
        }
    }
    if match_quarter_suffix(s, r) {
        if let Some(c) = after_mid(s, r + 5) {
            return Some((HeightClass::Quarter, c));
        }
    }
    if r < n && s[r] == 32 {
        if let Some(c) = after_mid(s, r + 1) {
            return Some((HeightClass::Space, c));
        }
    }
    match after_mid(s, r) {
        Some(c) => Some((HeightClass::Absent, c)),
        None => None,
    }
}

/// Parse the whole suffix after the shape word.
fn modter_suffix(s: &Vec<u8>, r0: usize) -> (res: Option<(bool, HeightClass)>)
    requires
        r0 <= s@.len(),
    ensures
        res == spec_modter_suffix(s@, r0 as int),
{
    proof {
        assert(spec_lit_inv_suffix().len() == 4);
    }
    let _n = s.len();
    if match_inv_suffix(s, r0) {
        if let Some((m, _c)) = mid_and_inv(s, r0 + 4) {
            return Some((true, m));
        }
    }
    match mid_and_inv(s, r0) {
        Some((m, c)) => Some((c, m)),
        None => None,
    }
}

/// Try the modular-terrain rule on a type name.
#[verifier::rlimit(100)]
pub fn rule_modter(s: &Vec<u8>) -> (r: Option<Option<Vec<BrickDesc>>>)
    ensures
        rule_result_view(r) == spec_rule_modter(s@),
{
    let n = s.len();
    let first_ws = n > 0 && (s[0] == 9 || s[0] == 10 || s[0] == 11 || s[0] == 12 || s[0] == 13
        || s[0] == 32);
    let p0: usize = if first_ws {
        1
    } else {
        0
    };
    let e = digits_end(s, p0);
    if e == p0 || n - e <= 1 || s[e] != 120 || s[e + 1] != 32 {
        return None;
    }
    let q = e + 2;
    let (shape, w) = match modter_shape(s, q) {
        Some(t) => t,
        None => {
            return None;
        },
    };
    let (inverted, mid) = match modter_suffix(s, q + w) {
        Some(t) => t,
        None => {
            return None;
        },
    };
    proof {
        lemma_digits_end_bounds(s@, p0 as int);
    }
    let v = match parse_u32(s, p0, e) {
        Some(x) => x,
        None => {
            return Some(None);
        },
    };
    let v5 = match v.checked_mul(5) {
        Some(x) => x,
        None => {
            return Some(None);
        },
    };
    let height: u32 = match mid {
        HeightClass::Steep => {
            let a = match v.checked_mul(2) {
                Some(x) => x,
                None => {
                    return Some(None);
                },
            };
            match a.checked_mul(5) {
                Some(x) => x,
                None => {
                    return Some(None);
                },
            }
        },
        HeightClass::ThreeQuarter => {
            let b = match v5.checked_mul(3) {
                Some(x) => x,
                None => {
                    return Some(None);
                },
            };
            b / 4
        },
        HeightClass::Half => {
            match (v / 2).checked_mul(5) {
                Some(x) => x,
                None => {
                    return Some(None);
                },
            }
        },
        HeightClass::Quarter => {
            match (v / 4).checked_mul(5) {
                Some(x) => x,
                None => {
                    return Some(None);
                },
            }
        },
        _ => v5,
    };
    let (asset, rot0, mw): (Vec<u8>, u8, bool) = match shape {
        Shape::Cube => (asset_default_micro_brick(), 1, false),
        Shape::Ramp => (asset_default_micro_wedge(), 3, true),
        Shape::CornerA => (asset_default_micro_wedge_triangle_corner(), 2, false),
        Shape::CornerB => (asset_default_micro_wedge_outer_corner(), 2, false),
        Shape::CornerC => (asset_default_micro_wedge_corner(), 2, false),
        Shape::CornerD => (asset_default_micro_wedge_inner_corner(), 2, false),
        Shape::Wedge => (asset_default_micro_wedge(), 2, false),
    };
    let is_ramp = match shape {
        Shape::Ramp => true,
        _ => false,
    };
    let is_wedge = match shape {
        Shape::Wedge => true,
        _ => false,
    };
    let rot1: u8 = if inverted {
        if is_ramp {
            rot0 + 2
        } else {
            rot0 + 3
        }
    } else {
        rot0
    };
    let dirn = if inverted {
        Direction::ZNegative
    } else {
        Direction::ZPositive
    };
    let imr = inverted && !is_ramp;
    let rot2: u8 = if (v == 2 && is_wedge) || (v == 4 && is_wedge && height != v5) {
        rot1 + 1
    } else {
        rot1
    };
    let d = BrickDesc::new(asset).size((v5, v5, height)).offset((0, 0, 0)).rotation_offset(
        rot2,
    ).microwedge_rotate(mw).inverted_modter_rotate(imr).direction_override(dirn).modter(true);
    let mut out: Vec<BrickDesc> = Vec::new();
    out.push(d);
    proof {
        assert(descs_view(out@) =~= seq![d@]);
    }
    Some(Some(out))
}

} // verus!
