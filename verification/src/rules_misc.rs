//! Three small exact-shape rules: flat tiles (`LxWF Tile`), thin baseplates
//! (`WxL Base`), and baseplate cubes (`Nx Cube`, optionally `Nx Cube MH` for
//! M times the side in height). Scaled sizes that do not fit 32 bits reject
//! the name; a cube height annotation whose number does not fit is ignored,
//! as if absent.

use vstd::prelude::*;
use crate::literals::{
    asset_default_brick, asset_default_tile, match_base_tail, match_cube_tail, match_f_tile_tail,
    spec_asset_default_brick, spec_asset_default_tile, spec_lit_base_tail, spec_lit_cube_tail,
    spec_lit_f_tile_tail,
};
use crate::parse::{digits_end, lemma_digits_end_bounds, parse_u32, spec_digits_end,
    spec_digits_val, spec_match_at};
use crate::rules::{descs_view, rule_result_view};
use crate::types::{BrickDesc, BrickDescV, spec_desc_new};

verus! {

/// The flat-tile rule: `LxWF Tile`, producing a default tile of size
/// `(W*5, L*5, 2)`.
pub open spec fn spec_rule_tile(s: Seq<u8>) -> Option<Option<Seq<BrickDescV>>> {
    let e1 = spec_digits_end(s, 0);
    if e1 <= 0 || e1 >= s.len() || s[e1] != 120 {
        None
    } else {
        let e2 = spec_digits_end(s, e1 + 1);
        if e2 <= e1 + 1 || !spec_match_at(s, e2, spec_lit_f_tile_tail()) || e2
            + spec_lit_f_tile_tail().len() != s.len() {
            None
        } else {
            let l = spec_digits_val(s, 0, e1);
            let w = spec_digits_val(s, e1 + 1, e2);
            if l <= u32::MAX && w <= u32::MAX && l * 5 <= u32::MAX && w * 5 <= u32::MAX {
                Some(
                    Some(
                        seq![
                            BrickDescV {
                                size: ((w * 5) as u32, (l * 5) as u32, 2 as u32),
                                ..spec_desc_new(spec_asset_default_tile())
                            },
                        ],
                    ),
                )
            } else {
                Some(None)
            }
        }
    }
}

/// Try the flat-tile rule.
pub fn rule_tile(s: &Vec<u8>) -> (r: Option<Option<Vec<BrickDesc>>>)
    ensures
        rule_result_view(r) == spec_rule_tile(s@),
{
    proof {
        assert(spec_lit_f_tile_tail().len() == 6);
    }
    let n = s.len();
    let e1 = digits_end(s, 0);
    if e1 == 0 || e1 >= n || s[e1] != 120 {
        return None;
    }
    let e2 = digits_end(s, e1 + 1);
    if e2 == e1 + 1 || !match_f_tile_tail(s, e2) || e2 + 6 != n {
        return None;
    }
    proof {
        lemma_digits_end_bounds(s@, 0);
        lemma_digits_end_bounds(s@, e1 as int + 1);
    }
    let l = match parse_u32(s, 0, e1) {
        Some(v) => v,
        None => {
            return Some(None);
        },
    };
    let w = match parse_u32(s, e1 + 1, e2) {
        Some(v) => v,
        None => {
            return Some(None);
        },
    };
    let l5 = match l.checked_mul(5) {
        Some(v) => v,
        None => {
            return Some(None);
        },
    };
    let w5 = match w.checked_mul(5) {
        Some(v) => v,
        None => {
            return Some(None);
        },
    };
    let d = BrickDesc::new(asset_default_tile()).size((w5, l5, 2));
    let mut v: Vec<BrickDesc> = Vec::new();
    v.push(d);
    proof {
        assert(descs_view(v@) =~= seq![d@]);
    }
    Some(Some(v))
}

/// The baseplate rule: `WxL Base`, producing a default brick of size
/// `(W*5, L*5, 2)`.
pub open spec fn spec_rule_base(s: Seq<u8>) -> Option<Option<Seq<BrickDescV>>> {
    let e1 = spec_digits_end(s, 0);
    if e1 <= 0 || e1 >= s.len() || s[e1] != 120 {
        None
    } else {
        let e2 = spec_digits_end(s, e1 + 1);
        if e2 <= e1 + 1 || !spec_match_at(s, e2, spec_lit_base_tail()) || e2
            + spec_lit_base_tail().len() != s.len() {
            None
        } else {
            let w = spec_digits_val(s, 0, e1);
            let l = spec_digits_val(s, e1 + 1, e2);
            if w <= u32::MAX && l <= u32::MAX && w * 5 <= u32::MAX && l * 5 <= u32::MAX {
                Some(
                    Some(
                        seq![
                            BrickDescV {
                                size: ((w * 5) as u32, (l * 5) as u32, 2 as u32),
                                ..spec_desc_new(spec_asset_default_brick())
                            },
                        ],
                    ),
                )
            } else {
                Some(None)
            }
        }
    }
}

/// Try the baseplate rule.
pub fn rule_base(s: &Vec<u8>) -> (r: Option<Option<Vec<BrickDesc>>>)
    ensures
        rule_result_view(r) == spec_rule_base(s@),
{
    proof {
        assert(spec_lit_base_tail().len() == 5);
    }
    let n = s.len();
    let e1 = digits_end(s, 0);
    if e1 == 0 || e1 >= n || s[e1] != 120 {
        return None;
    }
    let e2 = digits_end(s, e1 + 1);
    if e2 == e1 + 1 || !match_base_tail(s, e2) || e2 + 5 != n {
        return None;
    }
    proof {
        lemma_digits_end_bounds(s@, 0);
        lemma_digits_end_bounds(s@, e1 as int + 1);
    }
    let w = match parse_u32(s, 0, e1) {
        Some(v) => v,
        None => {
            return Some(None);
        },
    };
    let l = match parse_u32(s, e1 + 1, e2) {
        Some(v) => v,
        None => {
            return Some(None);
        },
    };
    let w5 = match w.checked_mul(5) {
        Some(v) => v,
        None => {
            return Some(None);
        },
    };
    let l5 = match l.checked_mul(5) {
        Some(v) => v,
        None => {
            return Some(None);
        },
    };
    let d = BrickDesc::new(asset_default_brick()).size((w5, l5, 2));
    let mut v: Vec<BrickDesc> = Vec::new();
    v.push(d);
    proof {
        assert(descs_view(v@) =~= seq![d@]);
    }
    Some(Some(v))
}

/// The cube rule: `Nx Cube` is a default brick `(N*5, N*5, N*5)`; a trailing
/// ` MH` multiplies the height by M. A height annotation whose number does
/// not fit 32 bits counts as absent; a scaled size that does not fit rejects
/// the name.
pub open spec fn spec_rule_cube(s: Seq<u8>) -> Option<Option<Seq<BrickDescV>>> {
    let e1 = spec_digits_end(s, 0);
    if e1 <= 0 || e1 >= s.len() || s[e1] != 120 || !spec_match_at(s, e1 + 1, spec_lit_cube_tail())
    {
        None
    } else {
        let q = e1 + 1 + spec_lit_cube_tail().len();
        let e2 = spec_digits_end(s, q + 1);
        let ext_matches = q < s.len() && s[q] == 32 && e2 > q + 1 && e2 < s.len() && s[e2] == 72
            && e2 + 1 == s.len();
        if !ext_matches && q != s.len() {
            None
        } else {
            let size = spec_digits_val(s, 0, e1);
            if size > u32::MAX {
                Some(None)
            } else {
                let extv = spec_digits_val(s, q + 1, e2);
                let ext: Option<int> = if ext_matches && extv <= u32::MAX {
                    Some(extv)
                } else {
                    None
                };
                let height: Option<int> = match ext {
                    Some(m) => if size * m <= u32::MAX && size * m * 5 <= u32::MAX {
                        Some(size * m * 5)
                    } else {
                        None
                    },
                    None => if size * 5 <= u32::MAX {
                        Some(size * 5)
                    } else {
                        None
                    },
                };
                if size * 5 <= u32::MAX && height is Some {
                    Some(
                        Some(
                            seq![
                                BrickDescV {
                                    size: (
                                        (size * 5) as u32,
                                        (size * 5) as u32,
                                        height->Some_0 as u32,
                                    ),
                                    ..spec_desc_new(spec_asset_default_brick())
                                },
                            ],
                        ),
                    )
                } else {
                    Some(None)
                }
            }
        }
    }
}

/// Try the cube rule.
pub fn rule_cube(s: &Vec<u8>) -> (r: Option<Option<Vec<BrickDesc>>>)
    ensures
        rule_result_view(r) == spec_rule_cube(s@),
{
    proof {
        assert(spec_lit_cube_tail().len() == 5);
    }
    let n = s.len();
    let e1 = digits_end(s, 0);
    if e1 == 0 || e1 >= n || s[e1] != 120 || !match_cube_tail(s, e1 + 1) {
        return None;
    }
    let q = e1 + 6;
    let mut ext_matches = false;
    let mut e2 = q;
    if q < n && s[q] == 32 {
        e2 = digits_end(s, q + 1);
        if e2 > q + 1 && e2 < n && s[e2] == 72 && e2 + 1 == n {
            ext_matches = true;
        }
    }
    if !ext_matches && q != n {
        return None;
    }
    proof {
        lemma_digits_end_bounds(s@, 0);
        if ext_matches {
            lemma_digits_end_bounds(s@, q as int + 1);
        }
    }
    let size = match parse_u32(s, 0, e1) {
        Some(v) => v,
        None => {
            return Some(None);
        },
    };
    let ext: Option<u32> = if ext_matches {
        parse_u32(s, q + 1, e2)
    } else {
        None
    };
    let height: u32 = match ext {
        Some(m) => {
            let sm = match size.checked_mul(m) {
                Some(v) => v,
                None => {
                    return Some(None);
                },
            };
            match sm.checked_mul(5) {
                Some(v) => v,
                None => {
                    return Some(None);
                },
            }
        },
        None => {
            match size.checked_mul(5) {
                Some(v) => v,
                None => {
                    return Some(None);
                },
            }
        },
    };
    let s5 = match size.checked_mul(5) {
        Some(v) => v,
        None => {
            return Some(None);
        },
    };
    let d = BrickDesc::new(asset_default_brick()).size((s5, s5, height));
    let mut v: Vec<BrickDesc> = Vec::new();
    v.push(d);
    proof {
        assert(descs_view(v@) =~= seq![d@]);
    }
    Some(Some(v))
}

} // verus!
