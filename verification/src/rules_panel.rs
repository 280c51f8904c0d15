//! The panel rule: names starting `Hh Panel Lx` (single-digit height and
//! length), optionally `Hh Panel Corner Lx`. A panel is assembled out of
//! micro bricks: a foot plate, a thin web (split differently for height 1),
//! and for taller panels a top plate, or for corners a short return wall.
//! The web height wraps at the 32-bit boundary for the degenerate height 0.

use vstd::prelude::*;
use crate::literals::{
    asset_default_micro_brick, match_corner_then_space, match_panel_head,
    spec_asset_default_micro_brick, spec_lit_corner_then_space, spec_lit_panel_head,
};
use crate::parse::{is_digit, spec_match_at};
use crate::rules::{descs_view, rule_result_view};
use crate::types::{BrickDesc, BrickDescV, spec_desc_new};

verus! {

/// The panel templates for a given height and length (both single digits).
pub open spec fn spec_panel_descs(height: int, length: int, corner: bool) -> Seq<BrickDescV> {
    let l5 = (length * 5) as u32;
    let h6 = height * 6;
    let foot = BrickDescV {
        size: (l5, 5, 2),
        offset: (0, 0, (2 - h6) as i32),
        ..spec_desc_new(spec_asset_default_micro_brick())
    };
    if corner {
        seq![
            foot,
            BrickDescV {
                size: (l5, 1, 4),
                offset: (-4i32, 0i32, 2i32),
                ..spec_desc_new(spec_asset_default_micro_brick())
            },
            BrickDescV {
                size: (1, 4, 4),
                offset: (1i32, -4i32, 2i32),
                ..spec_desc_new(spec_asset_default_micro_brick())
            },
        ]
    } else if height == 1 {
        seq![
            foot,
            BrickDescV {
                size: (l5, 1, 4),
                offset: (-4i32, 0i32, 2i32),
                ..spec_desc_new(spec_asset_default_micro_brick())
            },
        ]
    } else {
        seq![
            foot,
            BrickDescV {
                size: (l5, 1, vstd::wrapping::u32_specs::wrapping_sub((h6) as u32, 4)),
                offset: (-4i32, 0i32, 0i32),
                ..spec_desc_new(spec_asset_default_micro_brick())
            },
            BrickDescV {
                size: (l5, 5, 2),
                offset: (0, 0, (h6 - 2) as i32),
                ..spec_desc_new(spec_asset_default_micro_brick())
            },
        ]
    }
}

/// The whole panel rule.
pub open spec fn spec_rule_panel(s: Seq<u8>) -> Option<Option<Seq<BrickDescV>>> {
    if s.len() < 1 || !is_digit(s[0]) || !spec_match_at(s, 1, spec_lit_panel_head()) {
        None
    } else {
        let corner = spec_match_at(s, 9, spec_lit_corner_then_space());
        let lpos: int = if corner {
            9 + spec_lit_corner_then_space().len() as int
        } else {
            9
        };
        if lpos + 1 < s.len() && is_digit(s[lpos]) && s[lpos + 1] == 120 {
            Some(Some(spec_panel_descs(s[0] - 48, s[lpos] - 48, corner)))
        } else {
            None
        }
    }
}

/// Try the panel rule on a type name.
pub fn rule_panel(s: &Vec<u8>) -> (r: Option<Option<Vec<BrickDesc>>>)
    ensures
        rule_result_view(r) == spec_rule_panel(s@),
{
    proof {
        assert(spec_lit_panel_head().len() == 8);
        assert(spec_lit_corner_then_space().len() == 7);
    }
    let n = s.len();
    if n < 1 || s[0] < 48 || s[0] > 57 || !match_panel_head(s, 1) {
        return None;
    }
    let corner = match_corner_then_space(s, 9);
    let lpos = if corner {
        16
    } else {
        9
    };
    if !(lpos + 1 < n && 48 <= s[lpos] && s[lpos] <= 57 && s[lpos + 1] == 120) {
        return None;
    }
    let height: u32 = (s[0] - 48) as u32;
    let length: u32 = (s[lpos] - 48) as u32;
    let l5: u32 = length * 5;
    let h6: u32 = height * 6;
    let foot = BrickDesc::new(asset_default_micro_brick()).size((l5, 5, 2)).offset(
        (0, 0, 2 - (h6 as i32)),
    );
    let mut v: Vec<BrickDesc> = Vec::new();
    if corner {
        v.push(foot);
        v.push(
            BrickDesc::new(asset_default_micro_brick()).size((l5, 1, 4)).offset((-4, 0, 2)),
        );
        v.push(
            BrickDesc::new(asset_default_micro_brick()).size((1, 4, 4)).offset((1, -4, 2)),
        );
    } else if height == 1 {
        v.push(foot);
        v.push(
            BrickDesc::new(asset_default_micro_brick()).size((l5, 1, 4)).offset((-4, 0, 2)),
        );
    } else {
        v.push(foot);
        v.push(
            BrickDesc::new(asset_default_micro_brick()).size((l5, 1, h6.wrapping_sub(4))).offset(
                (-4, 0, 0),
            ),
        );
        v.push(
            BrickDesc::new(asset_default_micro_brick()).size((l5, 5, 2)).offset(
                (0, 0, (h6 as i32) - 2),
            ),
        );
    }
    proof {
        assert(descs_view(v@) =~= spec_panel_descs(
            s@[0] - 48,
            s@[lpos as int] - 48,
            corner,
        ));
    }
    Some(Some(v))
}

} // verus!
