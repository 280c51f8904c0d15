//! The ramp rule: names of the shape `18° Ramp`, with an optional leading
//! `-` (downward ramp), one of the slopes 18, 25, 45, 65, 72, 80, an
//! optional `Inv ` (inner corner), an optional length annotation ` Nx`, an
//! optional ` Corner`, and an optional ` Print`, ending there. `Inv` without
//! `Corner` is an invalid combination and rejects the name, as does a length
//! annotation on a corner or one whose scaled value does not fit 32 bits.

use vstd::prelude::*;
use crate::literals::{
    asset_default_ramp, asset_default_ramp_corner, asset_default_ramp_corner_inverted,
    asset_default_ramp_inner_corner, asset_default_ramp_inner_corner_inverted,
    asset_default_ramp_inverted, match_corner_suffix, match_degree_sign, match_inv_prefix,
    match_print_flag, match_ramp_word, spec_asset_default_ramp, spec_asset_default_ramp_corner,
    spec_asset_default_ramp_corner_inverted, spec_asset_default_ramp_inner_corner,
    spec_asset_default_ramp_inner_corner_inverted, spec_asset_default_ramp_inverted,
    spec_lit_corner_suffix, spec_lit_degree_sign, spec_lit_inv_prefix, spec_lit_print_flag,
    spec_lit_ramp_word,
};
use crate::parse::{digits_end, lemma_digits_end_bounds, parse_u32, spec_digits_end,
    spec_digits_val, spec_match_at};
use crate::rules::{descs_view, rule_result_view};
use crate::types::{BrickDesc, BrickDescV, spec_desc_new};

verus! {

/// The asset a ramp variant maps to.
pub open spec fn spec_ramp_asset(neg: bool, inv: bool, corner: bool) -> Seq<u8> {
    if neg {
        if inv {
            spec_asset_default_ramp_inner_corner_inverted()
        } else if corner {
            spec_asset_default_ramp_corner_inverted()
        } else {
            spec_asset_default_ramp_inverted()
        }
    } else if inv {
        spec_asset_default_ramp_inner_corner()
    } else if corner {
        spec_asset_default_ramp_corner()
    } else {
        spec_asset_default_ramp()
    }
}

/// The footprint and height of a slope.
pub open spec fn spec_ramp_xz(dv: int) -> (int, int) {
    if dv == 18 {
        (20, 6)
    } else if dv == 25 {
        (15, 6)
    } else if dv == 45 {
        (10, 6)
    } else if dv == 65 {
        (10, 12)
    } else if dv == 72 {
        (10, 18)
    } else {
        (10, 30)
    }
}

/// What the ramp rule produces once the name has matched.
pub open spec fn spec_ramp_generate(
    s: Seq<u8>,
    neg: bool,
    inv: bool,
    corner: bool,
    dv: int,
    has_len: bool,
    p4: int,
    le: int,
) -> Option<Seq<BrickDescV>> {
    if inv && !corner {
        None
    } else {
        let x = spec_ramp_xz(dv).0;
        let z = spec_ramp_xz(dv).1;
        let yres: Option<int> = if has_len {
            if corner {
                None
            } else {
                let lv = spec_digits_val(s, p4 + 1, le);
                if lv <= u32::MAX && lv * 5 <= u32::MAX {
                    Some(lv * 5)
                } else {
                    None
                }
            }
        } else {
            Some(x)
        };
        match yres {
            None => None,
            Some(y) => Some(
                seq![
                    BrickDescV {
                        size: (x as u32, y as u32, z as u32),
                        rotation_offset: if corner && inv {
                            1 as u8
                        } else {
                            0 as u8
                        },
                        ..spec_desc_new(spec_ramp_asset(neg, inv, corner))
                    },
                ],
            ),
        }
    }
}

/// The whole ramp rule: syntactic match, then generation.
pub open spec fn spec_rule_ramp(s: Seq<u8>) -> Option<Option<Seq<BrickDescV>>> {
    let p0: int = if s.len() > 0 && s[0] == 45 {
        1
    } else {
        0
    };
    let neg = p0 == 1;
    let de = spec_digits_end(s, p0);
    if de != p0 + 2 || !spec_match_at(s, de, spec_lit_degree_sign()) {
        None
    } else {
        let dv = spec_digits_val(s, p0, de);
        if dv != 18 && dv != 25 && dv != 45 && dv != 65 && dv != 72 && dv != 80 {
            None
        } else {
            let p1 = de + 2;
            let p2 = if p1 < s.len() && s[p1] == 32 {
                p1 + 1
            } else {
                p1
            };
            let inv = spec_match_at(s, p2, spec_lit_inv_prefix());
            let p3 = if inv {
                p2 + 4
            } else {
                p2
            };
            if !spec_match_at(s, p3, spec_lit_ramp_word()) {
                None
            } else {
                let p4 = p3 + 4;
                let le = spec_digits_end(s, p4 + 1);
                let has_len = p4 < s.len() && s[p4] == 32 && le > p4 + 1 && le < s.len() && s[le]
                    == 120;
                let p5 = if has_len {
                    le + 1
                } else {
                    p4
                };
                let corner = spec_match_at(s, p5, spec_lit_corner_suffix());
                let p6 = if corner {
                    p5 + 7
                } else {
                    p5
                };
                let has_print = spec_match_at(s, p6, spec_lit_print_flag());
                let p7 = if has_print {
                    p6 + 6
                } else {
                    p6
                };
                if p7 != s.len() {
                    None
                } else {
                    Some(spec_ramp_generate(s, neg, inv, corner, dv, has_len, p4, le))
                }
            }
        }
    }
}

/// Try the ramp rule on a type name.
#[verifier::rlimit(100)]
pub fn rule_ramp(s: &Vec<u8>) -> (r: Option<Option<Vec<BrickDesc>>>)
    ensures
        rule_result_view(r) == spec_rule_ramp(s@),
{
    proof {
        assert(spec_lit_degree_sign().len() == 2);
        assert(spec_lit_inv_prefix().len() == 4);
        assert(spec_lit_ramp_word().len() == 4);
        assert(spec_lit_corner_suffix().len() == 7);
        assert(spec_lit_print_flag().len() == 6);
    }
    let n = s.len();
    let neg = n > 0 && s[0] == 45;
    let p0: usize = if neg {
        1
    } else {
        0
    };
    let de = digits_end(s, p0);
    if de != p0 + 2 || !match_degree_sign(s, de) {
        return None;
    }
    proof {
        lemma_digits_end_bounds(s@, p0 as int);
    }
    let dv = match parse_u32(s, p0, de) {
        Some(v) => v,
        None => {
            proof {
                let i = p0 as int;
                assert(spec_digits_val(s@, i, i) == 0);
                assert(spec_digits_val(s@, i, i + 1) == s@[i] - 48);
                assert(spec_digits_val(s@, i, i + 2) == (s@[i] - 48) * 10 + (s@[i + 1] - 48));
                assert(spec_digits_val(s@, i, i + 2) <= 99);
                assert(false);
            }
            return None;
        },
    };
    if dv != 18 && dv != 25 && dv != 45 && dv != 65 && dv != 72 && dv != 80 {
        return None;
    }
    let p1 = de + 2;
    let p2 = if p1 < n && s[p1] == 32 {
        p1 + 1
    } else {
        p1
    };
    let inv = match_inv_prefix(s, p2);
    let p3 = if inv {
        p2 + 4
    } else {
        p2
    };
    if !match_ramp_word(s, p3) {
        return None;
    }
    let p4 = p3 + 4;
    let mut has_len = false;
    let mut le = p4;
    if p4 < n && s[p4] == 32 {
        le = digits_end(s, p4 + 1);
        if le > p4 + 1 && le < n && s[le] == 120 {
            has_len = true;
        }
    }
    let p5 = if has_len {
        le + 1
    } else {
        p4
    };
    let corner = match_corner_suffix(s, p5);
    let p6 = if corner {
        p5 + 7
    } else {
        p5
    };
    let has_print = match_print_flag(s, p6);
    let p7 = if has_print {
        p6 + 6
    } else {
        p6
    };
    if p7 != n {
        return None;
    }
    if inv && !corner {
        return Some(None);
    }
    let (x, z): (u32, u32) = if dv == 18 {
        (20, 6)
    } else if dv == 25 {
        (15, 6)
    } else if dv == 45 {
        (10, 6)
    } else if dv == 65 {
        (10, 12)
    } else if dv == 72 {
        (10, 18)
    } else {
        (10, 30)
    };
    let y: u32 = if has_len {
        if corner {
            return Some(None);
        }
        proof {
            lemma_digits_end_bounds(s@, p4 as int + 1);
        }
        let lv = match parse_u32(s, p4 + 1, le) {
            Some(v) => v,
            None => {
                return Some(None);
            },
        };
        match lv.checked_mul(5) {
            Some(v) => v,
            None => {
                return Some(None);
            },
        }
    } else {
        x
    };
    let ro: u8 = if corner && inv {
        1
    } else {
        0
    };
    let mut asset = asset_default_ramp();
    if neg {
        if inv {
            asset = asset_default_ramp_inner_corner_inverted();
        } else if corner {
            asset = asset_default_ramp_corner_inverted();
        } else {
            asset = asset_default_ramp_inverted();
        }
    } else if inv {
        asset = asset_default_ramp_inner_corner();
    } else if corner {
        asset = asset_default_ramp_corner();
    }
    let d = BrickDesc::new(asset).size((x, y, z)).rotation_offset(ro);
    let mut v: Vec<BrickDesc> = Vec::new();
    v.push(d);
    proof {
        assert(descs_view(v@) =~= seq![d@]);
    }
    Some(Some(v))
}

} // verus!
