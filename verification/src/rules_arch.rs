//! The arch rule. It looks for `WxL Arch` anywhere in the name, `W` and `L`
//! digit runs, with an optional height annotation squeezed in (`WxLxH Arch`
//! or `WxLx Arch`) and an optional ` Up` right after; the earliest position
//! where the shape fits wins. Without a height annotation the height is 2
//! for length 5, 3 for length 8, else 1. The produced template is a default
//! arch of size `(W*5, L*5, H*6)`, turned downward by ` Up`, with one extra
//! quarter turn for lengths past 8.

use vstd::prelude::*;
use crate::literals::{
    asset_default_arch, match_arch_word, match_up_suffix, spec_asset_default_arch,
    spec_lit_arch_word, spec_lit_up_suffix,
};
use crate::parse::{digits_end, lemma_digits_end_bounds, parse_u32, spec_digits_end,
    spec_digits_val, spec_match_at};
use crate::rules::{descs_view, rule_result_view};
use crate::types::{BrickDesc, BrickDescV, Direction, spec_desc_new};

verus! {

/// Whether the arch shape fits starting at position `p`.
pub open spec fn spec_arch_at(s: Seq<u8>, p: int) -> bool {
    let e1 = spec_digits_end(s, p);
    let e2 = spec_digits_end(s, e1 + 1);
    let hs = if e2 < s.len() && s[e2] == 120 {
        e2 + 1
    } else {
        e2
    };
    let e3 = spec_digits_end(s, hs);
    e1 > p && e1 < s.len() && s[e1] == 120 && e2 > e1 + 1 && spec_match_at(
        s,
        e3,
        spec_lit_arch_word(),
    )
}

/// The earliest position at or after `p` where the arch shape fits.
pub open spec fn spec_arch_scan(s: Seq<u8>, p: int) -> Option<int>
    decreases s.len() - p,
{
    if p < 0 || p >= s.len() {
        None
    } else if spec_arch_at(s, p) {
        Some(p)
    } else {
        spec_arch_scan(s, p + 1)
    }
}

/// What the rule produces for the match at position `p`.
pub open spec fn spec_arch_generate(s: Seq<u8>, p: int) -> Option<Seq<BrickDescV>> {
    let e1 = spec_digits_end(s, p);
    let e2 = spec_digits_end(s, e1 + 1);
    let hs = if e2 < s.len() && s[e2] == 120 {
        e2 + 1
    } else {
        e2
    };
    let e3 = spec_digits_end(s, hs);
    let up = spec_match_at(s, e3 + spec_lit_arch_word().len(), spec_lit_up_suffix());
    let w = spec_digits_val(s, p, e1);
    let l = spec_digits_val(s, e1 + 1, e2);
    let h: Option<int> = if e3 > hs {
        let hv = spec_digits_val(s, hs, e3);
        if hv <= u32::MAX {
            Some(hv)
        } else {
            None
        }
    } else if l == 5 {
        Some(2)
    } else if l == 8 {
        Some(3)
    } else {
        Some(1)
    };
    if w <= u32::MAX && l <= u32::MAX && w * 5 <= u32::MAX && l * 5 <= u32::MAX && h is Some && h
        ->Some_0 * 6 <= u32::MAX {
        Some(
            seq![
                BrickDescV {
                    size: ((w * 5) as u32, (l * 5) as u32, (h->Some_0 * 6) as u32),
                    rotation_offset: if l > 8 {
                        2 as u8
                    } else {
                        1 as u8
                    },
                    direction_override: Some(
                        if up {
                            Direction::ZNegative
                        } else {
                            Direction::ZPositive
                        },
                    ),
                    ..spec_desc_new(spec_asset_default_arch())
                },
            ],
        )
    } else {
        None
    }
}

/// The whole arch rule: scan for the shape, then generate.
pub open spec fn spec_rule_arch(s: Seq<u8>) -> Option<Option<Seq<BrickDescV>>> {
    match spec_arch_scan(s, 0) {
        None => None,
        Some(p) => Some(spec_arch_generate(s, p)),
    }
}

/// Whether the arch shape fits at `p`, and where its pieces lie.
fn arch_at(s: &Vec<u8>, p: usize) -> (b: bool)
    requires
        p < s@.len(),
    ensures
        b == spec_arch_at(s@, p as int),
{
    proof {
        assert(spec_lit_arch_word().len() == 5);
    }
    let n = s.len();
    let e1 = digits_end(s, p);
    if e1 == p || e1 >= n || s[e1] != 120 {
        return false;
    }
    let e2 = digits_end(s, e1 + 1);
    if e2 == e1 + 1 {
        return false;
    }
    let hs = if e2 < n && s[e2] == 120 {
        e2 + 1
    } else {
        e2
    };
    let e3 = digits_end(s, hs);
    match_arch_word(s, e3)
}

/// Produce the template for the arch match at `p`.
fn arch_generate(s: &Vec<u8>, p: usize) -> (r: Option<Vec<BrickDesc>>)
    requires
        p < s@.len(),
        spec_arch_at(s@, p as int),
    ensures
        match r {
            Some(v) => spec_arch_generate(s@, p as int) == Some(descs_view(v@)),
            None => spec_arch_generate(s@, p as int) == None::<Seq<BrickDescV>>,
        },
{
    proof {
        assert(spec_lit_arch_word().len() == 5);
        assert(spec_lit_up_suffix().len() == 3);
    }
    let n = s.len();
    let e1 = digits_end(s, p);
    let e2 = digits_end(s, e1 + 1);
    let hs = if e2 < n && s[e2] == 120 {
        e2 + 1
    } else {
        e2
    };
    let e3 = digits_end(s, hs);
    let up = match_up_suffix(s, e3 + 5);
    proof {
        lemma_digits_end_bounds(s@, p as int);
        lemma_digits_end_bounds(s@, e1 as int + 1);
        lemma_digits_end_bounds(s@, hs as int);
    }
    let w = match parse_u32(s, p, e1) {
        Some(v) => v,
        None => {
            return None;
        },
    };
    let l = match parse_u32(s, e1 + 1, e2) {
        Some(v) => v,
        None => {
            return None;
        },
    };
    let h: u32 = if e3 > hs {
        match parse_u32(s, hs, e3) {
            Some(v) => v,
            None => {
                return None;
            },
        }
    } else if l == 5 {
        2
    } else if l == 8 {
        3
    } else {
        1
    };
    let w5 = match w.checked_mul(5) {
        Some(v) => v,
        None => {
            return None;
        },
    };
    let l5 = match l.checked_mul(5) {
        Some(v) => v,
        None => {
            return None;
        },
    };
    let h6 = match h.checked_mul(6) {
        Some(v) => v,
        None => {
            return None;
        },
    };
    let ro: u8 = if l > 8 {
        2
    } else {
        1
    };
    let dir = if up {
        Direction::ZNegative
    } else {
        Direction::ZPositive
    };
    let d = BrickDesc::new(asset_default_arch()).size((w5, l5, h6)).direction_override(
        dir,
    ).rotation_offset(ro);
    let mut v: Vec<BrickDesc> = Vec::new();
    v.push(d);
    proof {
        assert(descs_view(v@) =~= seq![d@]);
    }
    Some(v)
}

/// Try the arch rule on a type name.
pub fn rule_arch(s: &Vec<u8>) -> (r: Option<Option<Vec<BrickDesc>>>)
    ensures
        rule_result_view(r) == spec_rule_arch(s@),
{
    let n = s.len();
    let mut p: usize = 0;
    while p < n
        invariant
            0 <= p <= n,
            n == s@.len(),
            spec_arch_scan(s@, 0) == spec_arch_scan(s@, p as int),
        decreases n - p,
    {
        if arch_at(s, p) {
            return Some(arch_generate(s, p));
        }
        p = p + 1;
    }
    None
}

} // verus!
