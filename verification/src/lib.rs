//! Conversion engine for voxel-construction save records.
//!
//! Each source record names a brick type; a rule registry resolves that name
//! to zero or more target descriptors, a pure geometry transform places and
//! orients each descriptor, colors and asset names are interned into dense
//! tables, and the produced objects are emitted priority-first.

mod convert;
mod intern;
mod literals;
mod parse;
mod rotation;
mod rules;
mod rules_arch;
mod rules_center;
mod rules_crest;
mod rules_grid;
mod rules_log;
mod rules_misc;
mod rules_modter;
mod rules_panel;
mod rules_ramp;
mod transform;
mod types;

pub use convert::{
    Converter, ConvertReport, RunState, convert, lemma_apply_descs_keeps_counts,
    lemma_convert_counts_total, spec_apply_desc, spec_apply_descs,
    spec_apply_descs_from, spec_bump_unknown, spec_find_name, spec_init, spec_run, spec_run_from,
    spec_step, srcs_view, unknown_view,
};
pub use rules::{
    Resolution, descs_view, reg_view, resolve, rule_result_view, spec_lookup, spec_lookup_from,
    spec_map_brick, spec_patterns,
};
pub use intern::{
    AssetTable, ColorTable, lemma_find_from_props, lemma_intern_fresh, lemma_intern_idempotent,
    lemma_intern_stable, spec_find, spec_find_from, spec_intern,
};
pub use transform::{
    BRICK_OWNER, MATERIAL_GLOW, MATERIAL_METALLIC, MATERIAL_PLASTIC, lemma_microwedge_upright,
    spec_color_mode, spec_lattice_step, spec_material_index, spec_microwedge_step, spec_orient,
    spec_transform, spec_wrap_add, transform,
};
pub use parse::{
    bytes_is, bytes_of, digits_end, is_digit, lemma_digits_end_bounds, lemma_digits_val_mono,
    lemma_digits_val_nonneg, match_at, parse_u32, spec_digits_end, spec_digits_val, spec_match_at,
};

pub use types::{
    Brick, BrickDesc, BrickDescV, Color, ColorMode, Direction, RuleEntry, RuleEntryV, SourceBrick,
    SourceBrickV, spec_desc_new,
};
pub use rotation::{
    compose_rotation, lemma_compose_rotation_period, lemma_rotate_four_identity, rotate_90_2d,
    rotate_offset, spec_compose_rotation, spec_neg_wrap, spec_rotate_90_2d, spec_rotate_n,
};

