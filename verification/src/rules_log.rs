//! The log rule: names starting `1xW Log` with a single-digit width, and
//! `1xW Log Wall` for the wall variant. Each of the W columns is built out
//! of octagonal bricks: a wall stacks six tall rounds per column, a plain
//! log stacks three flat rounds.

use vstd::prelude::*;
use crate::literals::{
    asset_b_1x1f_octo, asset_b_1x_octo, match_log_word, match_one_x, match_wall_suffix,
    spec_asset_b_1x1f_octo, spec_asset_b_1x_octo, spec_lit_log_word, spec_lit_one_x,
    spec_lit_wall_suffix,
};
use crate::parse::{is_digit, spec_match_at};
use crate::rules::{descs_view, rule_result_view};
use crate::types::{BrickDesc, BrickDescV, spec_desc_new};

verus! {

/// The horizontal position of column `i` out of `width`.
pub open spec fn spec_log_col_x(width: int, i: int) -> int {
    i * 10 - (width - 1) * 5
}

/// The bricks of one column at horizontal position `x`.
pub open spec fn spec_log_group(x: int, wall: bool) -> Seq<BrickDescV> {
    if wall {
        Seq::new(
            6,
            |j: int|
                BrickDescV {
                    offset: (x as i32, 0i32, (j * 10 - 25) as i32),
                    ..spec_desc_new(spec_asset_b_1x_octo())
                },
        )
    } else {
        seq![
            BrickDescV { offset: (x as i32, 0i32, -4i32), ..spec_desc_new(
                spec_asset_b_1x1f_octo(),
            ) },
            BrickDescV { offset: (x as i32, 0i32, 0i32), ..spec_desc_new(
                spec_asset_b_1x1f_octo(),
            ) },
            BrickDescV { offset: (x as i32, 0i32, 4i32), ..spec_desc_new(
                spec_asset_b_1x1f_octo(),
            ) },
        ]
    }
}

/// The first `i` columns of a log of the given width.
pub open spec fn spec_log_cols(width: int, wall: bool, i: int) -> Seq<BrickDescV>
    decreases i,
{
    if i <= 0 {
        Seq::empty()
    } else {
        spec_log_cols(width, wall, i - 1) + spec_log_group(spec_log_col_x(width, i - 1), wall)
    }
}

/// The whole log rule.
pub open spec fn spec_rule_log(s: Seq<u8>) -> Option<Option<Seq<BrickDescV>>> {
    if !(spec_match_at(s, 0, spec_lit_one_x()) && 2 < s.len() && is_digit(s[2]) && spec_match_at(
        s,
        3,
        spec_lit_log_word(),
    )) {
        None
    } else {
        let wall = spec_match_at(s, 7, spec_lit_wall_suffix());
        let width = s[2] - 48;
        Some(Some(spec_log_cols(width as int, wall, width as int)))
    }
}

/// Try the log rule on a type name.
pub fn rule_log(s: &Vec<u8>) -> (r: Option<Option<Vec<BrickDesc>>>)
    ensures
        rule_result_view(r) == spec_rule_log(s@),
{
    proof {
        assert(spec_lit_one_x().len() == 2);
        assert(spec_lit_log_word().len() == 4);
        assert(spec_lit_wall_suffix().len() == 5);
    }
    let n = s.len();
    if !(match_one_x(s, 0) && 2 < n && 48 <= s[2] && s[2] <= 57 && match_log_word(s, 3)) {
        return None;
    }
    let wall = match_wall_suffix(s, 7);
    let width: u8 = s[2] - 48;
    let wi: i32 = width as i32;
    let mut v: Vec<BrickDesc> = Vec::new();
    for i in 0..width as usize
        invariant
            width <= 9,
            wi == width as i32,
            descs_view(v@) =~= spec_log_cols(width as int, wall, i as int),
    {
        let x: i32 = (i as i32) * 10 - (wi - 1) * 5;
        proof {
            assert(x as int == spec_log_col_x(width as int, i as int));
        }
        if wall {
            for j in 0..6usize
                invariant
                    width <= 9,
                    wall,
                    x as int == spec_log_col_x(width as int, i as int),
                    i < width as usize,
                    descs_view(v@) =~= spec_log_cols(width as int, wall, i as int)
                        + spec_log_group(x as int, wall).take(j as int),
            {
                let z: i32 = (j as i32) * 10 - 25;
                let d = BrickDesc::new(asset_b_1x_octo()).offset((x, 0, z));
                proof {
                    let g = spec_log_group(x as int, wall);
                    assert(g.len() == 6);
                    assert(g[j as int] == (BrickDescV {
                        offset: (x, 0i32, z),
                        ..spec_desc_new(spec_asset_b_1x_octo())
                    }));
                    assert(d@ == g[j as int]);
                }
                let ghost vpre = v@;
                v.push(d);
                proof {
                    let g = spec_log_group(x as int, wall);
                    let cols = spec_log_cols(width as int, wall, i as int);
                    assert(descs_view(v@) =~= descs_view(vpre).push(d@));
                    assert((cols + g.take(j as int)).push(g[j as int]) =~= cols + g.take(
                        j as int + 1,
                    ));
                    assert(descs_view(v@) =~= cols + g.take(j as int + 1));
                }
            }
            proof {
                assert(spec_log_group(x as int, wall).take(6) =~= spec_log_group(x as int, wall));
                assert(descs_view(v@) =~= spec_log_cols(width as int, wall, i as int + 1));
            }
        } else {
            v.push(BrickDesc::new(asset_b_1x1f_octo()).offset((x, 0, -4)));
            v.push(BrickDesc::new(asset_b_1x1f_octo()).offset((x, 0, 0)));
            v.push(BrickDesc::new(asset_b_1x1f_octo()).offset((x, 0, 4)));
            proof {
                assert(descs_view(v@) =~= spec_log_cols(width as int, wall, i as int + 1));
            }
        }
    }
    Some(Some(v))
}

} // verus!
