//! The center-ramp rule: names starting `A° Center Ramp 1x` with an
//! optional leading `-` (downward) and an optional `Diag ` before `Ramp`.
//! The slope must be one of 18, 25, 45, 65, 72, 80 written as exactly two
//! digits; any other angle rejects the name outright. The piece is built
//! out of a center brick and two wedges sloping away from it.

use vstd::prelude::*;
use crate::literals::{
    asset_default_brick, asset_default_wedge, match_center_head, match_degree_sign,
    match_diag_prefix, match_ramp_one_x, spec_asset_default_brick, spec_asset_default_wedge,
    spec_lit_center_head, spec_lit_degree_sign, spec_lit_diag_prefix, spec_lit_ramp_one_x,
};
use crate::parse::{digits_end, lemma_digits_end_bounds, spec_digits_end, spec_digits_val};
use crate::parse::spec_match_at;
use crate::rules::{descs_view, rule_result_view};
use crate::types::{BrickDesc, BrickDescV, Direction, spec_desc_new};

verus! {

/// What the center-ramp rule produces once the name has matched: the angle
/// must be one of the six known slopes, written as two digits.
pub open spec fn spec_center_generate(s: Seq<u8>, p0: int, de: int, neg: bool, diag: bool) -> Option<
    Seq<BrickDescV>,
> {
    let dv = spec_digits_val(s, p0, de);
    if de != p0 + 2 || (dv != 18 && dv != 25 && dv != 45 && dv != 65 && dv != 72 && dv != 80) {
        None
    } else {
        let z: int = if dv == 18 {
            6
        } else if dv == 25 {
            6
        } else if dv == 45 {
            6
        } else if dv == 65 {
            12
        } else if dv == 72 {
            18
        } else {
            30
        };
        let x: int = if dv == 18 {
            15
        } else if dv == 25 {
            10
        } else {
            5
        };
        let dir = if neg {
            Direction::ZNegative
        } else {
            Direction::ZPositive
        };
        let iwr = neg;
        let dir2 = if diag {
            Direction::ZNegative
        } else {
            dir
        };
        let iwr2 = if diag {
            true
        } else {
            iwr
        };
        Some(
            seq![
                BrickDescV {
                    size: (5, 5, z as u32),
                    direction_override: Some(dir),
                    ..spec_desc_new(spec_asset_default_brick())
                },
                BrickDescV {
                    size: (x as u32, 5, z as u32),
                    offset: ((0 - (x + 5)) as i32, 0i32, 0i32),
                    rotation_offset: 2,
                    direction_override: Some(dir2),
                    inverted_wedge_rotate: iwr2,
                    ..spec_desc_new(spec_asset_default_wedge())
                },
                BrickDescV {
                    size: (x as u32, 5, z as u32),
                    offset: ((x + 5) as i32, 0i32, 0i32),
                    rotation_offset: 0,
                    direction_override: Some(dir),
                    inverted_wedge_rotate: iwr,
                    ..spec_desc_new(spec_asset_default_wedge())
                },
            ],
        )
    }
}

/// The whole center-ramp rule.
pub open spec fn spec_rule_center(s: Seq<u8>) -> Option<Option<Seq<BrickDescV>>> {
    let p0: int = if s.len() > 0 && s[0] == 45 {
        1
    } else {
        0
    };
    let neg = p0 == 1;
    let de = spec_digits_end(s, p0);
    if de <= p0 || !spec_match_at(s, de, spec_lit_degree_sign()) || !spec_match_at(
        s,
        de + 2,
        spec_lit_center_head(),
    ) {
        None
    } else {
        let q = de + 2 + spec_lit_center_head().len();
        let diag = spec_match_at(s, q, spec_lit_diag_prefix());
        let q2 = if diag {
            q + spec_lit_diag_prefix().len()
        } else {
            q
        };
        if !spec_match_at(s, q2, spec_lit_ramp_one_x()) {
            None
        } else {
            Some(spec_center_generate(s, p0, de, neg, diag))
        }
    }
}

/// Try the center-ramp rule on a type name.
#[verifier::rlimit(50)]
pub fn rule_center(s: &Vec<u8>) -> (r: Option<Option<Vec<BrickDesc>>>)
    ensures
        rule_result_view(r) == spec_rule_center(s@),
{
    proof {
        assert(spec_lit_degree_sign().len() == 2);
        assert(spec_lit_center_head().len() == 8);
        assert(spec_lit_diag_prefix().len() == 5);
        assert(spec_lit_ramp_one_x().len() == 7);
    }
    let n = s.len();
    let neg = n > 0 && s[0] == 45;
    let p0: usize = if neg {
        1
    } else {
        0
    };
    let de = digits_end(s, p0);
    if de == p0 || !match_degree_sign(s, de) || !match_center_head(s, de + 2) {
        return None;
    }
    let q = de + 10;
    let diag = match_diag_prefix(s, q);
    let q2 = if diag {
        q + 5
    } else {
        q
    };
    if !match_ramp_one_x(s, q2) {
        return None;
    }
    proof {
        lemma_digits_end_bounds(s@, p0 as int);
    }
    if de - p0 != 2 {
        return Some(None);
    }
    let d1: u32 = (s[p0] - 48) as u32;
    let d2: u32 = (s[p0 + 1] - 48) as u32;
    let dv: u32 = d1 * 10 + d2;
    proof {
        let i = p0 as int;
        assert(spec_digits_val(s@, i, i) == 0);
        assert(spec_digits_val(s@, i, i + 1) == s@[i] - 48);
        assert(spec_digits_val(s@, i, i + 2) == (s@[i] - 48) * 10 + (s@[i + 1] - 48));
        assert(dv as int == spec_digits_val(s@, i, de as int));
    }
    if dv != 18 && dv != 25 && dv != 45 && dv != 65 && dv != 72 && dv != 80 {
        return Some(None);
    }
    let z: u32 = if dv == 18 {
        6
    } else if dv == 25 {
        6
    } else if dv == 45 {
        6
    } else if dv == 65 {
        12
    } else if dv == 72 {
        18
    } else {
        30
    };
    let x: u32 = if dv == 18 {
        15
    } else if dv == 25 {
        10
    } else {
        5
    };
    let xi: i32 = x as i32;
    let dir = if neg {
        Direction::ZNegative
    } else {
        Direction::ZPositive
    };
    let iwr = neg;
    let dir2 = if diag {
        Direction::ZNegative
    } else {
        dir
    };
    let iwr2 = if diag {
        true
    } else {
        iwr
    };
    let mut v: Vec<BrickDesc> = Vec::new();
    v.push(BrickDesc::new(asset_default_brick()).size((5, 5, z)).direction_override(dir));
    v.push(
        BrickDesc::new(asset_default_wedge()).size((x, 5, z)).offset(
            (0 - (xi + 5), 0, 0),
        ).rotation_offset(2).direction_override(dir2).inverted_wedge_rotate(iwr2),
    );
    v.push(
        BrickDesc::new(asset_default_wedge()).size((x, 5, z)).offset(
            (xi + 5, 0, 0),
        ).rotation_offset(0).direction_override(dir).inverted_wedge_rotate(iwr),
    );
    proof {
        assert(descs_view(v@) =~= spec_center_generate(
            s@,
            p0 as int,
            de as int,
            neg,
            diag,
        )->Some_0);
    }
    Some(Some(v))
}

} // verus!
