//! The pattern rules and their shared result shape.
//!
//! A pattern rule inspects a type name (and sometimes the source record) and
//! answers one of three things: the name does not fit the pattern (`None`);
//! the name fits but the captured parameters are invalid, which makes the
//! whole dispatch fail without trying later rules (`Some(None)`); or the
//! name fits and yields a list of templates (`Some(Some(..))`).

use vstd::prelude::*;
use crate::parse::bytes_eq;
use crate::types::{BrickDesc, BrickDescV, RuleEntry, RuleEntryV, SourceBrick, SourceBrickV};
use crate::rules_arch::{rule_arch, spec_rule_arch};
use crate::rules_center::{rule_center, spec_rule_center};
use crate::rules_crest::{rule_crest, spec_rule_crest};
use crate::rules_grid::{rule_grid, spec_rule_grid};
use crate::rules_log::{rule_log, spec_rule_log};
use crate::rules_misc::{rule_base, rule_cube, rule_tile, spec_rule_base, spec_rule_cube,
    spec_rule_tile};
use crate::rules_modter::{rule_modter, spec_rule_modter};
use crate::rules_panel::{rule_panel, spec_rule_panel};
use crate::rules_ramp::{rule_ramp, spec_rule_ramp};

verus! {

/// The mathematical image of a template list.
pub open spec fn descs_view(v: Seq<BrickDesc>) -> Seq<BrickDescV> {
    v.map_values(|d: BrickDesc| d@)
}

/// The mathematical image of a rule's answer.
pub open spec fn rule_result_view(r: Option<Option<Vec<BrickDesc>>>) -> Option<
    Option<Seq<BrickDescV>>,
> {
    match r {
        None => None,
        Some(None) => Some(None::<Seq<BrickDescV>>),
        Some(Some(v)) => Some(Some(descs_view(v@))),
    }
}

/// The mathematical image of the literal rule registry.
pub open spec fn reg_view(reg: Seq<RuleEntry>) -> Seq<RuleEntryV> {
    reg.map_values(|e: RuleEntry| e@)
}

/// The first registry entry at or after `i` whose name is exactly `name`.
pub open spec fn spec_lookup_from(reg: Seq<RuleEntryV>, name: Seq<u8>, i: int) -> Option<
    Seq<BrickDescV>,
>
    decreases reg.len() - i,
{
    if i < 0 || i >= reg.len() {
        None
    } else if reg[i].name == name {
        Some(reg[i].bricks)
    } else {
        spec_lookup_from(reg, name, i + 1)
    }
}

/// Exact-name lookup in the literal rule registry; the first entry wins.
pub open spec fn spec_lookup(reg: Seq<RuleEntryV>, name: Seq<u8>) -> Option<Seq<BrickDescV>> {
    spec_lookup_from(reg, name, 0)
}

/// The pattern rules, tried in their fixed order; the first whose shape
/// fits decides, and its rejection is final.
pub open spec fn spec_patterns(name: Seq<u8>, print_id: Seq<u8>) -> Option<Seq<BrickDescV>> {
    match spec_rule_grid(name, print_id) {
        Some(res) => res,
        None => match spec_rule_ramp(name) {
            Some(res) => res,
            None => match spec_rule_crest(name) {
                Some(res) => res,
                None => match spec_rule_tile(name) {
                    Some(res) => res,
                    None => match spec_rule_base(name) {
                        Some(res) => res,
                        None => match spec_rule_cube(name) {
                            Some(res) => res,
                            None => match spec_rule_modter(name) {
                                Some(res) => res,
                                None => match spec_rule_arch(name) {
                                    Some(res) => res,
                                    None => match spec_rule_panel(name) {
                                        Some(res) => res,
                                        None => match spec_rule_center(name) {
                                            Some(res) => res,
                                            None => match spec_rule_log(name) {
                                                Some(res) => res,
                                                None => None,
                                            },
                                        },
                                    },
                                },
                            },
                        },
                    },
                },
            },
        },
    }
}

/// How one source record's type name resolves: exact lookup first, then the
/// ordered pattern rules, else unmapped.
pub open spec fn spec_map_brick(reg: Seq<RuleEntryV>, src: SourceBrickV) -> Option<
    Seq<BrickDescV>,
> {
    match spec_lookup(reg, src.ui_name) {
        Some(m) => Some(m),
        None => spec_patterns(src.ui_name, src.print),
    }
}

/// How a name resolved: to a registry entry (by index), to a generated
/// template list, or not at all.
pub enum Resolution {
    Literal(usize),
    Generated(Vec<BrickDesc>),
    Unmapped,
}

/// Resolve one source record's type name against the registry and the
/// pattern rules.
pub fn resolve(reg: &Vec<RuleEntry>, src: &SourceBrick) -> (r: Resolution)
    ensures
        (match r {
            Resolution::Literal(i) => i < reg@.len() && spec_map_brick(reg_view(reg@), src@)
                == Some(reg_view(reg@)[i as int].bricks),
            Resolution::Generated(v) => spec_map_brick(reg_view(reg@), src@) == Some(
                descs_view(v@),
            ),
            Resolution::Unmapped => spec_map_brick(reg_view(reg@), src@) is None,
        }),
{
    let ghost rv = reg_view(reg@);
    let ghost nm = src@.ui_name;
    let mut i: usize = 0;
    while i < reg.len()
        invariant
            0 <= i <= reg@.len(),
            rv == reg_view(reg@),
            nm == src@.ui_name,
            spec_lookup(rv, nm) == spec_lookup_from(rv, nm, i as int),
        decreases reg@.len() - i,
    {
        if bytes_eq(&reg[i].name, &src.ui_name) {
            proof {
                assert(rv[i as int].name == nm);
            }
            return Resolution::Literal(i);
        }
        i = i + 1;
    }
    let pat = match rule_grid(&src.ui_name, &src.print) {
        Some(res) => Some(res),
        None => match rule_ramp(&src.ui_name) {
            Some(res) => Some(res),
            None => match rule_crest(&src.ui_name) {
                Some(res) => Some(res),
                None => match rule_tile(&src.ui_name) {
                    Some(res) => Some(res),
                    None => match rule_base(&src.ui_name) {
                        Some(res) => Some(res),
                        None => match rule_cube(&src.ui_name) {
                            Some(res) => Some(res),
                            None => match rule_modter(&src.ui_name) {
                                Some(res) => Some(res),
                                None => match rule_arch(&src.ui_name) {
                                    Some(res) => Some(res),
                                    None => match rule_panel(&src.ui_name) {
                                        Some(res) => Some(res),
                                        None => match rule_center(&src.ui_name) {
                                            Some(res) => Some(res),
                                            None => match rule_log(&src.ui_name) {
                                                Some(res) => Some(res),
                                                None => None,
                                            },
                                        },
                                    },
                                },
                            },
                        },
                    },
                },
            },
        },
    };
    match pat {
        Some(Some(v)) => Resolution::Generated(v),
        Some(None) => Resolution::Unmapped,
        None => Resolution::Unmapped,
    }
}

} // verus!
