//! The crest rule. It looks anywhere in the name for `25° Crest ` or
//! `45° Crest ` followed by `End`, `Corner`, or a length annotation `Nx`;
//! the earliest position where the shape fits wins. A crest is a ridge
//! piece: slope 25 is 4 high and sunk two units, slope 45 is 6 high.

use vstd::prelude::*;
use crate::literals::{
    asset_default_ramp_crest, asset_default_ramp_crest_corner, asset_default_ramp_crest_end,
    match_corner_word, match_crest_head, match_degree_sign, match_end_word,
    spec_asset_default_ramp_crest, spec_asset_default_ramp_crest_corner,
    spec_asset_default_ramp_crest_end, spec_lit_corner_word, spec_lit_crest_head,
    spec_lit_degree_sign, spec_lit_end_word,
};
use crate::parse::{digits_end, lemma_digits_end_bounds, parse_u32, spec_digits_end,
    spec_digits_val, spec_match_at};
use crate::rules::{descs_view, rule_result_view};
use crate::types::{BrickDesc, BrickDescV, spec_desc_new};

verus! {

/// Whether the crest shape fits starting at position `p`.
pub open spec fn spec_crest_at(s: Seq<u8>, p: int) -> bool {
    let de = spec_digits_end(s, p);
    let dv = spec_digits_val(s, p, de);
    let q = de + 2 + spec_lit_crest_head().len();
    let le = spec_digits_end(s, q);
    de == p + 2 && (dv == 25 || dv == 45) && spec_match_at(s, de, spec_lit_degree_sign())
        && spec_match_at(s, de + 2, spec_lit_crest_head()) && (spec_match_at(
        s,
        q,
        spec_lit_end_word(),
    ) || spec_match_at(s, q, spec_lit_corner_word()) || (le > q && le < s.len() && s[le] == 120))
}

/// The earliest position at or after `p` where the crest shape fits.
pub open spec fn spec_crest_scan(s: Seq<u8>, p: int) -> Option<int>
    decreases s.len() - p,
{
    if p < 0 || p >= s.len() {
        None
    } else if spec_crest_at(s, p) {
        Some(p)
    } else {
        spec_crest_scan(s, p + 1)
    }
}

/// What the crest rule produces for the match at position `p`.
pub open spec fn spec_crest_generate(s: Seq<u8>, p: int) -> Option<Seq<BrickDescV>> {
    let de = spec_digits_end(s, p);
    let dv = spec_digits_val(s, p, de);
    let z: int = if dv == 25 {
        4
    } else {
        6
    };
    let zoff: i32 = if dv == 25 {
        -2i32
    } else {
        0i32
    };
    let q = de + 2 + spec_lit_crest_head().len();
    let le = spec_digits_end(s, q);
    let is_end = spec_match_at(s, q, spec_lit_end_word());
    let is_corner = !is_end && spec_match_at(s, q, spec_lit_corner_word());
    let yres: Option<(Seq<u8>, int, int)> = if is_end {
        Some((spec_asset_default_ramp_crest_end(), 5, 2))
    } else if is_corner {
        Some((spec_asset_default_ramp_crest_corner(), 10, 2))
    } else {
        let lv = spec_digits_val(s, q, le);
        if lv <= u32::MAX && lv * 5 <= u32::MAX {
            Some((spec_asset_default_ramp_crest(), lv * 5, 0))
        } else {
            None
        }
    };
    match yres {
        None => None,
        Some((asset, y, rot)) => Some(
            seq![
                BrickDescV {
                    size: (10, y as u32, z as u32),
                    rotation_offset: rot as u8,
                    offset: (0i32, 0i32, zoff),
                    ..spec_desc_new(asset)
                },
            ],
        ),
    }
}

/// The whole crest rule: scan for the shape, then generate.
pub open spec fn spec_rule_crest(s: Seq<u8>) -> Option<Option<Seq<BrickDescV>>> {
    match spec_crest_scan(s, 0) {
        None => None,
        Some(p) => Some(spec_crest_generate(s, p)),
    }
}

/// Whether the crest shape fits at `p`.
fn crest_at(s: &Vec<u8>, p: usize) -> (b: bool)
    requires
        p < s@.len(),
    ensures
        b == spec_crest_at(s@, p as int),
{
    proof {
        assert(spec_lit_degree_sign().len() == 2);
        assert(spec_lit_crest_head().len() == 7);
        assert(spec_lit_end_word().len() == 3);
        assert(spec_lit_corner_word().len() == 6);
    }
    let n = s.len();
    let de = digits_end(s, p);
    if de - p != 2 {
        return false;
    }
    proof {
        lemma_digits_end_bounds(s@, p as int);
    }
    let dv = match parse_u32(s, p, de) {
        Some(v) => v,
        None => {
            proof {
                let i = p as int;
                assert(spec_digits_val(s@, i, i) == 0);
                assert(spec_digits_val(s@, i, i + 1) == s@[i] - 48);
                assert(spec_digits_val(s@, i, i + 2) == (s@[i] - 48) * 10 + (s@[i + 1] - 48));
                assert(false);
            }
            return false;
        },
    };
    if !(dv == 25 || dv == 45) || !match_degree_sign(s, de) || !match_crest_head(s, de + 2) {
        return false;
    }
    let q = de + 9;
    if match_end_word(s, q) || match_corner_word(s, q) {
        return true;
    }
    let le = digits_end(s, q);
    le > q && le < n && s[le] == 120
}

/// Produce the template for the crest match at `p`.
#[verifier::rlimit(50)]
fn crest_generate(s: &Vec<u8>, p: usize) -> (r: Option<Vec<BrickDesc>>)
    requires
        p < s@.len(),
        spec_crest_at(s@, p as int),
    ensures
        match r {
            Some(v) => spec_crest_generate(s@, p as int) == Some(descs_view(v@)),
            None => spec_crest_generate(s@, p as int) == None::<Seq<BrickDescV>>,
        },
{
    proof {
        assert(spec_lit_degree_sign().len() == 2);
        assert(spec_lit_crest_head().len() == 7);
        assert(spec_lit_end_word().len() == 3);
        assert(spec_lit_corner_word().len() == 6);
    }
    let n = s.len();
    let de = digits_end(s, p);
    proof {
        lemma_digits_end_bounds(s@, p as int);
    }
    let dv = match parse_u32(s, p, de) {
        Some(v) => v,
        None => {
            proof {
                let i = p as int;
                assert(spec_digits_val(s@, i, i) == 0);
                assert(spec_digits_val(s@, i, i + 1) == s@[i] - 48);
                assert(spec_digits_val(s@, i, i + 2) == (s@[i] - 48) * 10 + (s@[i + 1] - 48));
                assert(false);
            }
            return None;
        },
    };
    let z: u32 = if dv == 25 {
        4
    } else {
        6
    };
    let zoff: i32 = if dv == 25 {
        -2
    } else {
        0
    };
    let q = de + 9;
    let is_end = match_end_word(s, q);
    let is_corner = !is_end && match_corner_word(s, q);
    let (asset, y, rot): (Vec<u8>, u32, u8) = if is_end {
        (asset_default_ramp_crest_end(), 5, 2)
    } else if is_corner {
        (asset_default_ramp_crest_corner(), 10, 2)
    } else {
        proof {
            lemma_digits_end_bounds(s@, q as int);
        }
        let le = digits_end(s, q);
        let lv = match parse_u32(s, q, le) {
            Some(v) => v,
            None => {
                return None;
            },
        };
        let l5 = match lv.checked_mul(5) {
            Some(v) => v,
            None => {
                return None;
            },
        };
        (asset_default_ramp_crest(), l5, 0)
    };
    let d = BrickDesc::new(asset).size((10, y, z)).rotation_offset(rot).offset((0, 0, zoff));
    let mut v: Vec<BrickDesc> = Vec::new();
    v.push(d);
    proof {
        assert(descs_view(v@) =~= seq![d@]);
    }
    Some(v)
}

/// Try the crest rule on a type name.
pub fn rule_crest(s: &Vec<u8>) -> (r: Option<Option<Vec<BrickDesc>>>)
    ensures
        rule_result_view(r) == spec_rule_crest(s@),
{
    let n = s.len();
    let mut p: usize = 0;
    while p < n
        invariant
            0 <= p <= n,
            n == s@.len(),
            spec_crest_scan(s@, 0) == spec_crest_scan(s@, p as int),
        decreases n - p,
    {
        if crest_at(s, p) {
            return Some(crest_generate(s, p));
        }
        p = p + 1;
    }
    None
}

} // verus!
