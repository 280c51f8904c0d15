//! The generic rectangular-brick rule.
//!
//! It reads names of the shape `WxL`, optionally followed by `xZ` (height in
//! plate units), `F`/`f` (a flat plate), or `H`/`h` (a half brick), then an
//! optional ` Print` token and an optional ` Ceiling` token, and nothing
//! else. The produced template is a default brick of size
//! `(W*5, L*5, Z*6)` (or height 2 for a plate, 4 for a half brick); a
//! printed plate becomes a tile, smooth unless the source record's print
//! identifier is one of the blank tile faces; ` Ceiling` turns the object
//! downward. A size whose scaled value does not fit 32 bits rejects the
//! name.

use vstd::prelude::*;
use crate::literals::{
    asset_default_brick, asset_default_smooth_tile, asset_default_tile, is_blank_print_large,
    is_blank_print_small, match_ceiling_flag, match_print_flag, spec_asset_default_brick,
    spec_asset_default_smooth_tile, spec_asset_default_tile, spec_blank_print_large,
    spec_blank_print_small, spec_lit_ceiling_flag, spec_lit_print_flag,
};
use crate::parse::{digits_end, lemma_digits_end_bounds, parse_u32, spec_digits_end,
    spec_digits_val, spec_match_at};
use crate::rules::{descs_view, rule_result_view};
use crate::types::{BrickDesc, BrickDescV, Direction, spec_desc_new};

verus! {

/// What the rule produces once the name has matched: the scaled sizes, or a
/// rejection where a scaled size does not fit.
pub open spec fn spec_grid_generate(
    s: Seq<u8>,
    print_id: Seq<u8>,
    e1: int,
    e2: int,
    e3: int,
    take_x: bool,
    is_f: bool,
    is_h: bool,
    has_print: bool,
    has_ceiling: bool,
) -> Option<Seq<BrickDescV>> {
    let w = spec_digits_val(s, 0, e1);
    let l = spec_digits_val(s, e1 + 1, e2);
    let zres: Option<int> = if is_f {
        Some(2)
    } else if is_h {
        Some(4)
    } else if take_x {
        let zc = spec_digits_val(s, e2 + 1, e3);
        if zc <= u32::MAX && zc * 6 <= u32::MAX {
            Some(zc * 6)
        } else {
            None
        }
    } else {
        Some(6)
    };
    if w <= u32::MAX && l <= u32::MAX && w * 5 <= u32::MAX && l * 5 <= u32::MAX && zres is Some {
        let z = zres->Some_0;
        let tile_face = print_id == spec_blank_print_small() || print_id
            == spec_blank_print_large();
        let asset = if z == 2 && has_print && tile_face {
            spec_asset_default_tile()
        } else if z == 2 && has_print {
            spec_asset_default_smooth_tile()
        } else {
            spec_asset_default_brick()
        };
        Some(
            seq![
                BrickDescV {
                    size: ((w * 5) as u32, (l * 5) as u32, z as u32),
                    rotation_offset: if has_print { 0 as u8 } else { 1 as u8 },
                    direction_override: Some(
                        if has_ceiling {
                            Direction::ZNegative
                        } else {
                            Direction::ZPositive
                        },
                    ),
                    ..spec_desc_new(asset)
                },
            ],
        )
    } else {
        None
    }
}

/// The whole rule: syntactic match of `WxL[xZ|F|H][ Print][ Ceiling]`, then
/// generation.
pub open spec fn spec_rule_grid(s: Seq<u8>, print_id: Seq<u8>) -> Option<
    Option<Seq<BrickDescV>>,
> {
    let e1 = spec_digits_end(s, 0);
    if e1 <= 0 || e1 >= s.len() || s[e1] != 120 {
        None
    } else {
        let i2 = e1 + 1;
        let e2 = spec_digits_end(s, i2);
        if e2 <= i2 {
            None
        } else {
            let e3 = spec_digits_end(s, e2 + 1);
            let take_x = e2 < s.len() && s[e2] == 120 && e3 > e2 + 1;
            let is_f = !take_x && e2 < s.len() && (s[e2] == 70 || s[e2] == 102);
            let is_h = !take_x && !is_f && e2 < s.len() && (s[e2] == 72 || s[e2] == 104);
            let pos0 = if take_x {
                e3
            } else if is_f || is_h {
                e2 + 1
            } else {
                e2
            };
            let has_print = spec_match_at(s, pos0, spec_lit_print_flag());
            let pos1 = if has_print {
                pos0 + spec_lit_print_flag().len()
            } else {
                pos0
            };
            let has_ceiling = spec_match_at(s, pos1, spec_lit_ceiling_flag());
            let pos2 = if has_ceiling {
                pos1 + spec_lit_ceiling_flag().len()
            } else {
                pos1
            };
            if pos2 != s.len() {
                None
            } else {
                Some(
                    spec_grid_generate(
                        s,
                        print_id,
                        e1,
                        e2,
                        e3,
                        take_x,
                        is_f,
                        is_h,
                        has_print,
                        has_ceiling,
                    ),
                )
            }
        }
    }
}

/// Try the rectangular-brick rule on a type name.
pub fn rule_grid(s: &Vec<u8>, print_id: &Vec<u8>) -> (r: Option<Option<Vec<BrickDesc>>>)
    ensures
        rule_result_view(r) == spec_rule_grid(s@, print_id@),
{
    proof {
        assert(spec_lit_print_flag().len() == 6);
        assert(spec_lit_ceiling_flag().len() == 8);
    }
    let n = s.len();
    let e1 = digits_end(s, 0);
    if e1 == 0 || e1 >= n || s[e1] != 120 {
        return None;
    }
    let i2 = e1 + 1;
    let e2 = digits_end(s, i2);
    if e2 == i2 {
        return None;
    }
    let mut take_x = false;
    let mut e3 = e2;
    if e2 < n && s[e2] == 120 {
        e3 = digits_end(s, e2 + 1);
        if e3 > e2 + 1 {
            take_x = true;
        }
    }
    let is_f = !take_x && e2 < n && (s[e2] == 70 || s[e2] == 102);
    let is_h = !take_x && !is_f && e2 < n && (s[e2] == 72 || s[e2] == 104);
    let pos0 = if take_x {
        e3
    } else if is_f || is_h {
        e2 + 1
    } else {
        e2
    };
    let has_print = match_print_flag(s, pos0);
    let pos1 = if has_print {
        pos0 + 6
    } else {
        pos0
    };
    let has_ceiling = match_ceiling_flag(s, pos1);
    let pos2 = if has_ceiling {
        pos1 + 8
    } else {
        pos1
    };
    if pos2 != n {
        return None;
    }
    proof {
        lemma_digits_end_bounds(s@, 0);
        lemma_digits_end_bounds(s@, i2 as int);
        if take_x {
            lemma_digits_end_bounds(s@, e2 as int + 1);
        }
    }
    let w = match parse_u32(s, 0, e1) {
        Some(v) => v,
        None => {
            return Some(None);
        },
    };
    let l = match parse_u32(s, i2, e2) {
        Some(v) => v,
        None => {
            return Some(None);
        },
    };
    let z: u32 = if is_f {
        2
    } else if is_h {
        4
    } else if take_x {
        let zc = match parse_u32(s, e2 + 1, e3) {
            Some(v) => v,
            None => {
                return Some(None);
            },
        };
        match zc.checked_mul(6) {
            Some(v) => v,
            None => {
                return Some(None);
            },
        }
    } else {
        6
    };
    let w5 = match w.checked_mul(5) {
        Some(v) => v,
        None => {
            return Some(None);
        },
    };
    let l5 = match l.checked_mul(5) {
        Some(v) => v,
        None => {
            return Some(None);
        },
    };
    let tile_face = is_blank_print_small(print_id) || is_blank_print_large(print_id);
    let asset = if z == 2 && has_print && tile_face {
        asset_default_tile()
    } else if z == 2 && has_print {
        asset_default_smooth_tile()
    } else {
        asset_default_brick()
    };
    let ro: u8 = if has_print {
        0
    } else {
        1
    };
    let dir = if has_ceiling {
        Direction::ZNegative
    } else {
        Direction::ZPositive
    };
    let d = BrickDesc::new(asset).size((w5, l5, z)).rotation_offset(ro).direction_override(dir);
    let mut v: Vec<BrickDesc> = Vec::new();
    v.push(d);
    proof {
        assert(descs_view(v@) =~= seq![d@]);
    }
    Some(Some(v))
}

} // verus!
