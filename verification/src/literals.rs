//! The fixed byte strings of the name grammar and of the generated
//! templates: the tokens the pattern rules look for in a type name, the
//! print identifiers treated as tile faces, and the target asset names the
//! rules emit.

use vstd::prelude::*;
use crate::parse::{bytes_is, bytes_of, match_at, spec_match_at};

verus! {

/// The token `" Print"`.
pub open spec fn spec_lit_print_flag() -> Seq<u8> {
    seq![32u8, 80u8, 114u8, 105u8, 110u8, 116u8]
}

/// Whether that token occurs in `s` at position `i`.
pub fn match_print_flag(s: &Vec<u8>, i: usize) -> (b: bool)
    ensures
        b == spec_match_at(s@, i as int, spec_lit_print_flag()),
{
    let a: [u8; 6] = [32u8, 80u8, 114u8, 105u8, 110u8, 116u8];
    let b = match_at(s, i, &a);
    proof {
        assert(a@ =~= spec_lit_print_flag());
    }
    b
}

/// The token `" Ceiling"`.
pub open spec fn spec_lit_ceiling_flag() -> Seq<u8> {
    seq![32u8, 67u8, 101u8, 105u8, 108u8, 105u8, 110u8, 103u8]
}

/// Whether that token occurs in `s` at position `i`.
pub fn match_ceiling_flag(s: &Vec<u8>, i: usize) -> (b: bool)
    ensures
        b == spec_match_at(s@, i as int, spec_lit_ceiling_flag()),
{
    let a: [u8; 8] = [32u8, 67u8, 101u8, 105u8, 108u8, 105u8, 110u8, 103u8];
    let b = match_at(s, i, &a);
    proof {
        assert(a@ =~= spec_lit_ceiling_flag());
    }
    b
}

/// The token the degree sign, as the two bytes of its UTF-8 encoding.
pub open spec fn spec_lit_degree_sign() -> Seq<u8> {
    seq![194u8, 176u8]
}

/// Whether that token occurs in `s` at position `i`.
pub fn match_degree_sign(s: &Vec<u8>, i: usize) -> (b: bool)
    ensures
        b == spec_match_at(s@, i as int, spec_lit_degree_sign()),
{
    let a: [u8; 2] = [194u8, 176u8];
    let b = match_at(s, i, &a);
    proof {
        assert(a@ =~= spec_lit_degree_sign());
    }
    b
}

/// The token `"Inv "`.
pub open spec fn spec_lit_inv_prefix() -> Seq<u8> {
    seq![73u8, 110u8, 118u8, 32u8]
}

/// Whether that token occurs in `s` at position `i`.
pub fn match_inv_prefix(s: &Vec<u8>, i: usize) -> (b: bool)
    ensures
        b == spec_match_at(s@, i as int, spec_lit_inv_prefix()),
{
    let a: [u8; 4] = [73u8, 110u8, 118u8, 32u8];
    let b = match_at(s, i, &a);
    proof {
        assert(a@ =~= spec_lit_inv_prefix());
    }
    b
}

/// The token `"Ramp"`.
pub open spec fn spec_lit_ramp_word() -> Seq<u8> {
    seq![82u8, 97u8, 109u8, 112u8]
}

/// Whether that token occurs in `s` at position `i`.
pub fn match_ramp_word(s: &Vec<u8>, i: usize) -> (b: bool)
    ensures
        b == spec_match_at(s@, i as int, spec_lit_ramp_word()),
{
    let a: [u8; 4] = [82u8, 97u8, 109u8, 112u8];
    let b = match_at(s, i, &a);
    proof {
        assert(a@ =~= spec_lit_ramp_word());
    }
    b
}

/// The token `" Corner"`.
pub open spec fn spec_lit_corner_suffix() -> Seq<u8> {
    seq![32u8, 67u8, 111u8, 114u8, 110u8, 101u8, 114u8]
}

/// Whether that token occurs in `s` at position `i`.
pub fn match_corner_suffix(s: &Vec<u8>, i: usize) -> (b: bool)
    ensures
        b == spec_match_at(s@, i as int, spec_lit_corner_suffix()),
{
    let a: [u8; 7] = [32u8, 67u8, 111u8, 114u8, 110u8, 101u8, 114u8];
    let b = match_at(s, i, &a);
    proof {
        assert(a@ =~= spec_lit_corner_suffix());
    }
    b
}

/// The token `" Crest "`.
pub open spec fn spec_lit_crest_head() -> Seq<u8> {
    seq![32u8, 67u8, 114u8, 101u8, 115u8, 116u8, 32u8]
}

/// Whether that token occurs in `s` at position `i`.
pub fn match_crest_head(s: &Vec<u8>, i: usize) -> (b: bool)
    ensures
        b == spec_match_at(s@, i as int, spec_lit_crest_head()),
{
    let a: [u8; 7] = [32u8, 67u8, 114u8, 101u8, 115u8, 116u8, 32u8];
    let b = match_at(s, i, &a);
    proof {
        assert(a@ =~= spec_lit_crest_head());
    }
    b
}

/// The token `"End"`.
pub open spec fn spec_lit_end_word() -> Seq<u8> {
    seq![69u8, 110u8, 100u8]
}

/// Whether that token occurs in `s` at position `i`.
pub fn match_end_word(s: &Vec<u8>, i: usize) -> (b: bool)
    ensures
        b == spec_match_at(s@, i as int, spec_lit_end_word()),
{
    let a: [u8; 3] = [69u8, 110u8, 100u8];
    let b = match_at(s, i, &a);
    proof {
        assert(a@ =~= spec_lit_end_word());
    }
    b
}

/// The token `"Corner"`.
pub open spec fn spec_lit_corner_word() -> Seq<u8> {
    seq![67u8, 111u8, 114u8, 110u8, 101u8, 114u8]
}

/// Whether that token occurs in `s` at position `i`.
pub fn match_corner_word(s: &Vec<u8>, i: usize) -> (b: bool)
    ensures
        b == spec_match_at(s@, i as int, spec_lit_corner_word()),
{
    let a: [u8; 6] = [67u8, 111u8, 114u8, 110u8, 101u8, 114u8];
    let b = match_at(s, i, &a);
    proof {
        assert(a@ =~= spec_lit_corner_word());
    }
    b
}

/// The token `"F Tile"`.
pub open spec fn spec_lit_f_tile_tail() -> Seq<u8> {
    seq![70u8, 32u8, 84u8, 105u8, 108u8, 101u8]
}

/// Whether that token occurs in `s` at position `i`.
pub fn match_f_tile_tail(s: &Vec<u8>, i: usize) -> (b: bool)
    ensures
        b == spec_match_at(s@, i as int, spec_lit_f_tile_tail()),
{
    let a: [u8; 6] = [70u8, 32u8, 84u8, 105u8, 108u8, 101u8];
    let b = match_at(s, i, &a);
    proof {
        assert(a@ =~= spec_lit_f_tile_tail());
    }
    b
}

/// The token `" Base"`.
pub open spec fn spec_lit_base_tail() -> Seq<u8> {
    seq![32u8, 66u8, 97u8, 115u8, 101u8]
}

/// Whether that token occurs in `s` at position `i`.
pub fn match_base_tail(s: &Vec<u8>, i: usize) -> (b: bool)
    ensures
        b == spec_match_at(s@, i as int, spec_lit_base_tail()),
{
    let a: [u8; 5] = [32u8, 66u8, 97u8, 115u8, 101u8];
    let b = match_at(s, i, &a);
    proof {
        assert(a@ =~= spec_lit_base_tail());
    }
    b
}

/// The token `" Cube"`.
pub open spec fn spec_lit_cube_tail() -> Seq<u8> {
    seq![32u8, 67u8, 117u8, 98u8, 101u8]
}

/// Whether that token occurs in `s` at position `i`.
pub fn match_cube_tail(s: &Vec<u8>, i: usize) -> (b: bool)
    ensures
        b == spec_match_at(s@, i as int, spec_lit_cube_tail()),
{
    let a: [u8; 5] = [32u8, 67u8, 117u8, 98u8, 101u8];
    let b = match_at(s, i, &a);
    proof {
        assert(a@ =~= spec_lit_cube_tail());
    }
    b
}

/// The token `"Cube"`.
pub open spec fn spec_lit_cube_word() -> Seq<u8> {
    seq![67u8, 117u8, 98u8, 101u8]
}

/// Whether that token occurs in `s` at position `i`.
pub fn match_cube_word(s: &Vec<u8>, i: usize) -> (b: bool)
    ensures
        b == spec_match_at(s@, i as int, spec_lit_cube_word()),
{
    let a: [u8; 4] = [67u8, 117u8, 98u8, 101u8];
    let b = match_at(s, i, &a);
    proof {
        assert(a@ =~= spec_lit_cube_word());
    }
    b
}

/// The token `"CornerA"`.
pub open spec fn spec_lit_corner_a_long() -> Seq<u8> {
    seq![67u8, 111u8, 114u8, 110u8, 101u8, 114u8, 65u8]
}

/// Whether that token occurs in `s` at position `i`.
pub fn match_corner_a_long(s: &Vec<u8>, i: usize) -> (b: bool)
    ensures
        b == spec_match_at(s@, i as int, spec_lit_corner_a_long()),
{
    let a: [u8; 7] = [67u8, 111u8, 114u8, 110u8, 101u8, 114u8, 65u8];
    let b = match_at(s, i, &a);
    proof {
        assert(a@ =~= spec_lit_corner_a_long());
    }
    b
}

/// The token `"CorA"`.
pub open spec fn spec_lit_corner_a_short() -> Seq<u8> {
    seq![67u8, 111u8, 114u8, 65u8]
}

/// Whether that token occurs in `s` at position `i`.
pub fn match_corner_a_short(s: &Vec<u8>, i: usize) -> (b: bool)
    ensures
        b == spec_match_at(s@, i as int, spec_lit_corner_a_short()),
{
    let a: [u8; 4] = [67u8, 111u8, 114u8, 65u8];
    let b = match_at(s, i, &a);
    proof {
        assert(a@ =~= spec_lit_corner_a_short());
    }
    b
}

/// The token `"CornerB"`.
pub open spec fn spec_lit_corner_b_long() -> Seq<u8> {
    seq![67u8, 111u8, 114u8, 110u8, 101u8, 114u8, 66u8]
}

/// Whether that token occurs in `s` at position `i`.
pub fn match_corner_b_long(s: &Vec<u8>, i: usize) -> (b: bool)
    ensures
        b == spec_match_at(s@, i as int, spec_lit_corner_b_long()),
{
    let a: [u8; 7] = [67u8, 111u8, 114u8, 110u8, 101u8, 114u8, 66u8];
    let b = match_at(s, i, &a);
    proof {
        assert(a@ =~= spec_lit_corner_b_long());
    }
    b
}

/// The token `"CorB"`.
pub open spec fn spec_lit_corner_b_short() -> Seq<u8> {
    seq![67u8, 111u8, 114u8, 66u8]
}

/// Whether that token occurs in `s` at position `i`.
pub fn match_corner_b_short(s: &Vec<u8>, i: usize) -> (b: bool)
    ensures
        b == spec_match_at(s@, i as int, spec_lit_corner_b_short()),
{
    let a: [u8; 4] = [67u8, 111u8, 114u8, 66u8];
    let b = match_at(s, i, &a);
    proof {
        assert(a@ =~= spec_lit_corner_b_short());
    }
    b
}

/// The token `"CornerC"`.
pub open spec fn spec_lit_corner_c_long() -> Seq<u8> {
    seq![67u8, 111u8, 114u8, 110u8, 101u8, 114u8, 67u8]
}

/// Whether that token occurs in `s` at position `i`.
pub fn match_corner_c_long(s: &Vec<u8>, i: usize) -> (b: bool)
    ensures
        b == spec_match_at(s@, i as int, spec_lit_corner_c_long()),
{
    let a: [u8; 7] = [67u8, 111u8, 114u8, 110u8, 101u8, 114u8, 67u8];
    let b = match_at(s, i, &a);
    proof {
        assert(a@ =~= spec_lit_corner_c_long());
    }
    b
}

/// The token `"CorC"`.
pub open spec fn spec_lit_corner_c_short() -> Seq<u8> {
    seq![67u8, 111u8, 114u8, 67u8]
}

/// Whether that token occurs in `s` at position `i`.
pub fn match_corner_c_short(s: &Vec<u8>, i: usize) -> (b: bool)
    ensures
        b == spec_match_at(s@, i as int, spec_lit_corner_c_short()),
{
    let a: [u8; 4] = [67u8, 111u8, 114u8, 67u8];
    let b = match_at(s, i, &a);
    proof {
        assert(a@ =~= spec_lit_corner_c_short());
    }
    b
}

/// The token `"CornerD"`.
pub open spec fn spec_lit_corner_d_long() -> Seq<u8> {
    seq![67u8, 111u8, 114u8, 110u8, 101u8, 114u8, 68u8]
}

/// Whether that token occurs in `s` at position `i`.
pub fn match_corner_d_long(s: &Vec<u8>, i: usize) -> (b: bool)
    ensures
        b == spec_match_at(s@, i as int, spec_lit_corner_d_long()),
{
    let a: [u8; 7] = [67u8, 111u8, 114u8, 110u8, 101u8, 114u8, 68u8];
    let b = match_at(s, i, &a);
    proof {
        assert(a@ =~= spec_lit_corner_d_long());
    }
    b
}

/// The token `"CorD"`.
pub open spec fn spec_lit_corner_d_short() -> Seq<u8> {
    seq![67u8, 111u8, 114u8, 68u8]
}

/// Whether that token occurs in `s` at position `i`.
pub fn match_corner_d_short(s: &Vec<u8>, i: usize) -> (b: bool)
    ensures
        b == spec_match_at(s@, i as int, spec_lit_corner_d_short()),
{
    let a: [u8; 4] = [67u8, 111u8, 114u8, 68u8];
    let b = match_at(s, i, &a);
    proof {
        assert(a@ =~= spec_lit_corner_d_short());
    }
    b
}

/// The token `"Wedge"`.
pub open spec fn spec_lit_wedge_word() -> Seq<u8> {
    seq![87u8, 101u8, 100u8, 103u8, 101u8]
}

/// Whether that token occurs in `s` at position `i`.
pub fn match_wedge_word(s: &Vec<u8>, i: usize) -> (b: bool)
    ensures
        b == spec_match_at(s@, i as int, spec_lit_wedge_word()),
{
    let a: [u8; 5] = [87u8, 101u8, 100u8, 103u8, 101u8];
    let b = match_at(s, i, &a);
    proof {
        assert(a@ =~= spec_lit_wedge_word());
    }
    b
}

/// The token `" Inv"`.
pub open spec fn spec_lit_inv_suffix() -> Seq<u8> {
    seq![32u8, 73u8, 110u8, 118u8]
}

/// Whether that token occurs in `s` at position `i`.
pub fn match_inv_suffix(s: &Vec<u8>, i: usize) -> (b: bool)
    ensures
        b == spec_match_at(s@, i as int, spec_lit_inv_suffix()),
{
    let a: [u8; 4] = [32u8, 73u8, 110u8, 118u8];
    let b = match_at(s, i, &a);
    proof {
        assert(a@ =~= spec_lit_inv_suffix());
    }
    b
}

/// The token `" Steep"`.
pub open spec fn spec_lit_steep_suffix() -> Seq<u8> {
    seq![32u8, 83u8, 116u8, 101u8, 101u8, 112u8]
}

/// Whether that token occurs in `s` at position `i`.
pub fn match_steep_suffix(s: &Vec<u8>, i: usize) -> (b: bool)
    ensures
        b == spec_match_at(s@, i as int, spec_lit_steep_suffix()),
{
    let a: [u8; 6] = [32u8, 83u8, 116u8, 101u8, 101u8, 112u8];
    let b = match_at(s, i, &a);
    proof {
        assert(a@ =~= spec_lit_steep_suffix());
    }
    b
}

/// The token `" 3/4h"`.
pub open spec fn spec_lit_three_quarter_suffix() -> Seq<u8> {
    seq![32u8, 51u8, 47u8, 52u8, 104u8]
}

/// Whether that token occurs in `s` at position `i`.
pub fn match_three_quarter_suffix(s: &Vec<u8>, i: usize) -> (b: bool)
    ensures
        b == spec_match_at(s@, i as int, spec_lit_three_quarter_suffix()),
{
    let a: [u8; 5] = [32u8, 51u8, 47u8, 52u8, 104u8];
    let b = match_at(s, i, &a);
    proof {
        assert(a@ =~= spec_lit_three_quarter_suffix());
    }
    b
}

/// The token `" 1/2h"`.
pub open spec fn spec_lit_half_suffix() -> Seq<u8> {
    seq![32u8, 49u8, 47u8, 50u8, 104u8]
}

/// Whether that token occurs in `s` at position `i`.
pub fn match_half_suffix(s: &Vec<u8>, i: usize) -> (b: bool)
    ensures
        b == spec_match_at(s@, i as int, spec_lit_half_suffix()),
{
    let a: [u8; 5] = [32u8, 49u8, 47u8, 50u8, 104u8];
    let b = match_at(s, i, &a);
    proof {
        assert(a@ =~= spec_lit_half_suffix());
    }
    b
}

/// The token `" 1/4h"`.
pub open spec fn spec_lit_quarter_suffix() -> Seq<u8> {
    seq![32u8, 49u8, 47u8, 52u8, 104u8]
}

/// Whether that token occurs in `s` at position `i`.
pub fn match_quarter_suffix(s: &Vec<u8>, i: usize) -> (b: bool)
    ensures
        b == spec_match_at(s@, i as int, spec_lit_quarter_suffix()),
{
    let a: [u8; 5] = [32u8, 49u8, 47u8, 52u8, 104u8];
    let b = match_at(s, i, &a);
    proof {
        assert(a@ =~= spec_lit_quarter_suffix());
    }
    b
}

/// The token `" Arch"`.
pub open spec fn spec_lit_arch_word() -> Seq<u8> {
    seq![32u8, 65u8, 114u8, 99u8, 104u8]
}

/// Whether that token occurs in `s` at position `i`.
pub fn match_arch_word(s: &Vec<u8>, i: usize) -> (b: bool)
    ensures
        b == spec_match_at(s@, i as int, spec_lit_arch_word()),
{
    let a: [u8; 5] = [32u8, 65u8, 114u8, 99u8, 104u8];
    let b = match_at(s, i, &a);
    proof {
        assert(a@ =~= spec_lit_arch_word());
    }
    b
}

/// The token `" Up"`.
pub open spec fn spec_lit_up_suffix() -> Seq<u8> {
    seq![32u8, 85u8, 112u8]
}

/// Whether that token occurs in `s` at position `i`.
pub fn match_up_suffix(s: &Vec<u8>, i: usize) -> (b: bool)
    ensures
        b == spec_match_at(s@, i as int, spec_lit_up_suffix()),
{
    let a: [u8; 3] = [32u8, 85u8, 112u8];
    let b = match_at(s, i, &a);
    proof {
        assert(a@ =~= spec_lit_up_suffix());
    }
    b
}

/// The token `"h Panel "`.
pub open spec fn spec_lit_panel_head() -> Seq<u8> {
    seq![104u8, 32u8, 80u8, 97u8, 110u8, 101u8, 108u8, 32u8]
}

/// Whether that token occurs in `s` at position `i`.
pub fn match_panel_head(s: &Vec<u8>, i: usize) -> (b: bool)
    ensures
        b == spec_match_at(s@, i as int, spec_lit_panel_head()),
{
    let a: [u8; 8] = [104u8, 32u8, 80u8, 97u8, 110u8, 101u8, 108u8, 32u8];
    let b = match_at(s, i, &a);
    proof {
        assert(a@ =~= spec_lit_panel_head());
    }
    b
}

/// The token `"Corner "`.
pub open spec fn spec_lit_corner_then_space() -> Seq<u8> {
    seq![67u8, 111u8, 114u8, 110u8, 101u8, 114u8, 32u8]
}

/// Whether that token occurs in `s` at position `i`.
pub fn match_corner_then_space(s: &Vec<u8>, i: usize) -> (b: bool)
    ensures
        b == spec_match_at(s@, i as int, spec_lit_corner_then_space()),
{
    let a: [u8; 7] = [67u8, 111u8, 114u8, 110u8, 101u8, 114u8, 32u8];
    let b = match_at(s, i, &a);
    proof {
        assert(a@ =~= spec_lit_corner_then_space());
    }
    b
}

/// The token `" Center "`.
pub open spec fn spec_lit_center_head() -> Seq<u8> {
    seq![32u8, 67u8, 101u8, 110u8, 116u8, 101u8, 114u8, 32u8]
}

/// Whether that token occurs in `s` at position `i`.
pub fn match_center_head(s: &Vec<u8>, i: usize) -> (b: bool)
    ensures
        b == spec_match_at(s@, i as int, spec_lit_center_head()),
{
    let a: [u8; 8] = [32u8, 67u8, 101u8, 110u8, 116u8, 101u8, 114u8, 32u8];
    let b = match_at(s, i, &a);
    proof {
        assert(a@ =~= spec_lit_center_head());
    }
    b
}

/// The token `"Diag "`.
pub open spec fn spec_lit_diag_prefix() -> Seq<u8> {
    seq![68u8, 105u8, 97u8, 103u8, 32u8]
}

/// Whether that token occurs in `s` at position `i`.
pub fn match_diag_prefix(s: &Vec<u8>, i: usize) -> (b: bool)
    ensures
        b == spec_match_at(s@, i as int, spec_lit_diag_prefix()),
{
    let a: [u8; 5] = [68u8, 105u8, 97u8, 103u8, 32u8];
    let b = match_at(s, i, &a);
    proof {
        assert(a@ =~= spec_lit_diag_prefix());
    }
    b
}

/// The token `"Ramp 1x"`.
pub open spec fn spec_lit_ramp_one_x() -> Seq<u8> {
    seq![82u8, 97u8, 109u8, 112u8, 32u8, 49u8, 120u8]
}

/// Whether that token occurs in `s` at position `i`.
pub fn match_ramp_one_x(s: &Vec<u8>, i: usize) -> (b: bool)
    ensures
        b == spec_match_at(s@, i as int, spec_lit_ramp_one_x()),
{
    let a: [u8; 7] = [82u8, 97u8, 109u8, 112u8, 32u8, 49u8, 120u8];
    let b = match_at(s, i, &a);
    proof {
        assert(a@ =~= spec_lit_ramp_one_x());
    }
    b
}

/// The token `"1x"`.
pub open spec fn spec_lit_one_x() -> Seq<u8> {
    seq![49u8, 120u8]
}

/// Whether that token occurs in `s` at position `i`.
pub fn match_one_x(s: &Vec<u8>, i: usize) -> (b: bool)
    ensures
        b == spec_match_at(s@, i as int, spec_lit_one_x()),
{
    let a: [u8; 2] = [49u8, 120u8];
    let b = match_at(s, i, &a);
    proof {
        assert(a@ =~= spec_lit_one_x());
    }
    b
}

/// The token `" Log"`.
pub open spec fn spec_lit_log_word() -> Seq<u8> {
    seq![32u8, 76u8, 111u8, 103u8]
}

/// Whether that token occurs in `s` at position `i`.
pub fn match_log_word(s: &Vec<u8>, i: usize) -> (b: bool)
    ensures
        b == spec_match_at(s@, i as int, spec_lit_log_word()),
{
    let a: [u8; 4] = [32u8, 76u8, 111u8, 103u8];
    let b = match_at(s, i, &a);
    proof {
        assert(a@ =~= spec_lit_log_word());
    }
    b
}

/// The token `" Wall"`.
pub open spec fn spec_lit_wall_suffix() -> Seq<u8> {
    seq![32u8, 87u8, 97u8, 108u8, 108u8]
}

/// Whether that token occurs in `s` at position `i`.
pub fn match_wall_suffix(s: &Vec<u8>, i: usize) -> (b: bool)
    ensures
        b == spec_match_at(s@, i as int, spec_lit_wall_suffix()),
{
    let a: [u8; 5] = [32u8, 87u8, 97u8, 108u8, 108u8];
    let b = match_at(s, i, &a);
    proof {
        assert(a@ =~= spec_lit_wall_suffix());
    }
    b
}

/// The print identifier `"1x2f/blank"`.
pub open spec fn spec_blank_print_small() -> Seq<u8> {
    seq![49u8, 120u8, 50u8, 102u8, 47u8, 98u8, 108u8, 97u8, 110u8, 107u8]
}

/// Whether `s` is exactly that print identifier.
pub fn is_blank_print_small(s: &Vec<u8>) -> (b: bool)
    ensures
        b == (s@ == spec_blank_print_small()),
{
    let a: [u8; 10] = [49u8, 120u8, 50u8, 102u8, 47u8, 98u8, 108u8, 97u8, 110u8, 107u8];
    let b = bytes_is(s, &a);
    proof {
        assert(a@ =~= spec_blank_print_small());
    }
    b
}

/// The print identifier `"2x2f/blank"`.
pub open spec fn spec_blank_print_large() -> Seq<u8> {
    seq![50u8, 120u8, 50u8, 102u8, 47u8, 98u8, 108u8, 97u8, 110u8, 107u8]
}

/// Whether `s` is exactly that print identifier.
pub fn is_blank_print_large(s: &Vec<u8>) -> (b: bool)
    ensures
        b == (s@ == spec_blank_print_large()),
{
    let a: [u8; 10] = [50u8, 120u8, 50u8, 102u8, 47u8, 98u8, 108u8, 97u8, 110u8, 107u8];
    let b = bytes_is(s, &a);
    proof {
        assert(a@ =~= spec_blank_print_large());
    }
    b
}

/// The asset name `"B_1x_Octo"`.
pub open spec fn spec_asset_b_1x_octo() -> Seq<u8> {
    seq![66u8, 95u8, 49u8, 120u8, 95u8, 79u8, 99u8, 116u8, 111u8]
}

/// That asset name as an owned byte string.
pub fn asset_b_1x_octo() -> (v: Vec<u8>)
    ensures
        v@ == spec_asset_b_1x_octo(),
{
    let a: [u8; 9] = [66u8, 95u8, 49u8, 120u8, 95u8, 79u8, 99u8, 116u8, 111u8];
    let v = bytes_of(&a);
    proof {
        assert(v@ =~= spec_asset_b_1x_octo());
    }
    v
}

/// The asset name `"B_1x1F_Octo"`.
pub open spec fn spec_asset_b_1x1f_octo() -> Seq<u8> {
    seq![66u8, 95u8, 49u8, 120u8, 49u8, 70u8, 95u8, 79u8, 99u8, 116u8, 111u8]
}

/// That asset name as an owned byte string.
pub fn asset_b_1x1f_octo() -> (v: Vec<u8>)
    ensures
        v@ == spec_asset_b_1x1f_octo(),
{
    let a: [u8; 11] = [66u8, 95u8, 49u8, 120u8, 49u8, 70u8, 95u8, 79u8, 99u8, 116u8, 111u8];
    let v = bytes_of(&a);
    proof {
        assert(v@ =~= spec_asset_b_1x1f_octo());
    }
    v
}

/// The asset name `"PB_DefaultBrick"`.
pub open spec fn spec_asset_default_brick() -> Seq<u8> {
    seq![80u8, 66u8, 95u8, 68u8, 101u8, 102u8, 97u8, 117u8, 108u8, 116u8, 66u8, 114u8, 105u8, 99u8, 107u8]
}

/// That asset name as an owned byte string.
pub fn asset_default_brick() -> (v: Vec<u8>)
    ensures
        v@ == spec_asset_default_brick(),
{
    let a: [u8; 15] = [80u8, 66u8, 95u8, 68u8, 101u8, 102u8, 97u8, 117u8, 108u8, 116u8, 66u8, 114u8, 105u8, 99u8, 107u8];
    let v = bytes_of(&a);
    proof {
        assert(v@ =~= spec_asset_default_brick());
    }
    v
}

/// The asset name `"PB_DefaultTile"`.
pub open spec fn spec_asset_default_tile() -> Seq<u8> {
    seq![80u8, 66u8, 95u8, 68u8, 101u8, 102u8, 97u8, 117u8, 108u8, 116u8, 84u8, 105u8, 108u8, 101u8]
}

/// That asset name as an owned byte string.
pub fn asset_default_tile() -> (v: Vec<u8>)
    ensures
        v@ == spec_asset_default_tile(),
{
    let a: [u8; 14] = [80u8, 66u8, 95u8, 68u8, 101u8, 102u8, 97u8, 117u8, 108u8, 116u8, 84u8, 105u8, 108u8, 101u8];
    let v = bytes_of(&a);
    proof {
        assert(v@ =~= spec_asset_default_tile());
    }
    v
}

/// The asset name `"PB_DefaultSmoothTile"`.
pub open spec fn spec_asset_default_smooth_tile() -> Seq<u8> {
    seq![80u8, 66u8, 95u8, 68u8, 101u8, 102u8, 97u8, 117u8, 108u8, 116u8, 83u8, 109u8, 111u8, 111u8, 116u8, 104u8, 84u8, 105u8, 108u8, 101u8]
}

/// That asset name as an owned byte string.
pub fn asset_default_smooth_tile() -> (v: Vec<u8>)
    ensures
        v@ == spec_asset_default_smooth_tile(),
{
    let a: [u8; 20] = [80u8, 66u8, 95u8, 68u8, 101u8, 102u8, 97u8, 117u8, 108u8, 116u8, 83u8, 109u8, 111u8, 111u8, 116u8, 104u8, 84u8, 105u8, 108u8, 101u8];
    let v = bytes_of(&a);
    proof {
        assert(v@ =~= spec_asset_default_smooth_tile());
    }
    v
}

/// The asset name `"PB_DefaultRamp"`.
pub open spec fn spec_asset_default_ramp() -> Seq<u8> {
    seq![80u8, 66u8, 95u8, 68u8, 101u8, 102u8, 97u8, 117u8, 108u8, 116u8, 82u8, 97u8, 109u8, 112u8]
}

/// That asset name as an owned byte string.
pub fn asset_default_ramp() -> (v: Vec<u8>)
    ensures
        v@ == spec_asset_default_ramp(),
{
    let a: [u8; 14] = [80u8, 66u8, 95u8, 68u8, 101u8, 102u8, 97u8, 117u8, 108u8, 116u8, 82u8, 97u8, 109u8, 112u8];
    let v = bytes_of(&a);
    proof {
        assert(v@ =~= spec_asset_default_ramp());
    }
    v
}

/// The asset name `"PB_DefaultRampInverted"`.
pub open spec fn spec_asset_default_ramp_inverted() -> Seq<u8> {
    seq![80u8, 66u8, 95u8, 68u8, 101u8, 102u8, 97u8, 117u8, 108u8, 116u8, 82u8, 97u8, 109u8, 112u8, 73u8, 110u8, 118u8, 101u8, 114u8, 116u8, 101u8, 100u8]
}

/// That asset name as an owned byte string.
pub fn asset_default_ramp_inverted() -> (v: Vec<u8>)
    ensures
        v@ == spec_asset_default_ramp_inverted(),
{
    let a: [u8; 22] = [80u8, 66u8, 95u8, 68u8, 101u8, 102u8, 97u8, 117u8, 108u8, 116u8, 82u8, 97u8, 109u8, 112u8, 73u8, 110u8, 118u8, 101u8, 114u8, 116u8, 101u8, 100u8];
    let v = bytes_of(&a);
    proof {
        assert(v@ =~= spec_asset_default_ramp_inverted());
    }
    v
}

/// The asset name `"PB_DefaultRampCorner"`.
pub open spec fn spec_asset_default_ramp_corner() -> Seq<u8> {
    seq![80u8, 66u8, 95u8, 68u8, 101u8, 102u8, 97u8, 117u8, 108u8, 116u8, 82u8, 97u8, 109u8, 112u8, 67u8, 111u8, 114u8, 110u8, 101u8, 114u8]
}

/// That asset name as an owned byte string.
pub fn asset_default_ramp_corner() -> (v: Vec<u8>)
    ensures
        v@ == spec_asset_default_ramp_corner(),
{
    let a: [u8; 20] = [80u8, 66u8, 95u8, 68u8, 101u8, 102u8, 97u8, 117u8, 108u8, 116u8, 82u8, 97u8, 109u8, 112u8, 67u8, 111u8, 114u8, 110u8, 101u8, 114u8];
    let v = bytes_of(&a);
    proof {
        assert(v@ =~= spec_asset_default_ramp_corner());
    }
    v
}

/// The asset name `"PB_DefaultRampCornerInverted"`.
pub open spec fn spec_asset_default_ramp_corner_inverted() -> Seq<u8> {
    seq![80u8, 66u8, 95u8, 68u8, 101u8, 102u8, 97u8, 117u8, 108u8, 116u8, 82u8, 97u8, 109u8, 112u8, 67u8, 111u8, 114u8, 110u8, 101u8, 114u8, 73u8, 110u8, 118u8, 101u8, 114u8, 116u8, 101u8, 100u8]
}

/// That asset name as an owned byte string.
pub fn asset_default_ramp_corner_inverted() -> (v: Vec<u8>)
    ensures
        v@ == spec_asset_default_ramp_corner_inverted(),
{
    let a: [u8; 28] = [80u8, 66u8, 95u8, 68u8, 101u8, 102u8, 97u8, 117u8, 108u8, 116u8, 82u8, 97u8, 109u8, 112u8, 67u8, 111u8, 114u8, 110u8, 101u8, 114u8, 73u8, 110u8, 118u8, 101u8, 114u8, 116u8, 101u8, 100u8];
    let v = bytes_of(&a);
    proof {
        assert(v@ =~= spec_asset_default_ramp_corner_inverted());
    }
    v
}

/// The asset name `"PB_DefaultRampInnerCorner"`.
pub open spec fn spec_asset_default_ramp_inner_corner() -> Seq<u8> {
    seq![80u8, 66u8, 95u8, 68u8, 101u8, 102u8, 97u8, 117u8, 108u8, 116u8, 82u8, 97u8, 109u8, 112u8, 73u8, 110u8, 110u8, 101u8, 114u8, 67u8, 111u8, 114u8, 110u8, 101u8, 114u8]
}

/// That asset name as an owned byte string.
pub fn asset_default_ramp_inner_corner() -> (v: Vec<u8>)
    ensures
        v@ == spec_asset_default_ramp_inner_corner(),
{
    let a: [u8; 25] = [80u8, 66u8, 95u8, 68u8, 101u8, 102u8, 97u8, 117u8, 108u8, 116u8, 82u8, 97u8, 109u8, 112u8, 73u8, 110u8, 110u8, 101u8, 114u8, 67u8, 111u8, 114u8, 110u8, 101u8, 114u8];
    let v = bytes_of(&a);
    proof {
        assert(v@ =~= spec_asset_default_ramp_inner_corner());
    }
    v
}

/// The asset name `"PB_DefaultRampInnerCornerInverted"`.
pub open spec fn spec_asset_default_ramp_inner_corner_inverted() -> Seq<u8> {
    seq![80u8, 66u8, 95u8, 68u8, 101u8, 102u8, 97u8, 117u8, 108u8, 116u8, 82u8, 97u8, 109u8, 112u8, 73u8, 110u8, 110u8, 101u8, 114u8, 67u8, 111u8, 114u8, 110u8, 101u8, 114u8, 73u8, 110u8, 118u8, 101u8, 114u8, 116u8, 101u8, 100u8]
}

/// That asset name as an owned byte string.
pub fn asset_default_ramp_inner_corner_inverted() -> (v: Vec<u8>)
    ensures
        v@ == spec_asset_default_ramp_inner_corner_inverted(),
{
    let a: [u8; 33] = [80u8, 66u8, 95u8, 68u8, 101u8, 102u8, 97u8, 117u8, 108u8, 116u8, 82u8, 97u8, 109u8, 112u8, 73u8, 110u8, 110u8, 101u8, 114u8, 67u8, 111u8, 114u8, 110u8, 101u8, 114u8, 73u8, 110u8, 118u8, 101u8, 114u8, 116u8, 101u8, 100u8];
    let v = bytes_of(&a);
    proof {
        assert(v@ =~= spec_asset_default_ramp_inner_corner_inverted());
    }
    v
}

/// The asset name `"PB_DefaultRampCrest"`.
pub open spec fn spec_asset_default_ramp_crest() -> Seq<u8> {
    seq![80u8, 66u8, 95u8, 68u8, 101u8, 102u8, 97u8, 117u8, 108u8, 116u8, 82u8, 97u8, 109u8, 112u8, 67u8, 114u8, 101u8, 115u8, 116u8]
}

/// That asset name as an owned byte string.
pub fn asset_default_ramp_crest() -> (v: Vec<u8>)
    ensures
        v@ == spec_asset_default_ramp_crest(),
{
    let a: [u8; 19] = [80u8, 66u8, 95u8, 68u8, 101u8, 102u8, 97u8, 117u8, 108u8, 116u8, 82u8, 97u8, 109u8, 112u8, 67u8, 114u8, 101u8, 115u8, 116u8];
    let v = bytes_of(&a);
    proof {
        assert(v@ =~= spec_asset_default_ramp_crest());
    }
    v
}

/// The asset name `"PB_DefaultRampCrestEnd"`.
pub open spec fn spec_asset_default_ramp_crest_end() -> Seq<u8> {
    seq![80u8, 66u8, 95u8, 68u8, 101u8, 102u8, 97u8, 117u8, 108u8, 116u8, 82u8, 97u8, 109u8, 112u8, 67u8, 114u8, 101u8, 115u8, 116u8, 69u8, 110u8, 100u8]
}

/// That asset name as an owned byte string.
pub fn asset_default_ramp_crest_end() -> (v: Vec<u8>)
    ensures
        v@ == spec_asset_default_ramp_crest_end(),
{
    let a: [u8; 22] = [80u8, 66u8, 95u8, 68u8, 101u8, 102u8, 97u8, 117u8, 108u8, 116u8, 82u8, 97u8, 109u8, 112u8, 67u8, 114u8, 101u8, 115u8, 116u8, 69u8, 110u8, 100u8];
    let v = bytes_of(&a);
    proof {
        assert(v@ =~= spec_asset_default_ramp_crest_end());
    }
    v
}

/// The asset name `"PB_DefaultRampCrestCorner"`.
pub open spec fn spec_asset_default_ramp_crest_corner() -> Seq<u8> {
    seq![80u8, 66u8, 95u8, 68u8, 101u8, 102u8, 97u8, 117u8, 108u8, 116u8, 82u8, 97u8, 109u8, 112u8, 67u8, 114u8, 101u8, 115u8, 116u8, 67u8, 111u8, 114u8, 110u8, 101u8, 114u8]
}

/// That asset name as an owned byte string.
pub fn asset_default_ramp_crest_corner() -> (v: Vec<u8>)
    ensures
        v@ == spec_asset_default_ramp_crest_corner(),
{
    let a: [u8; 25] = [80u8, 66u8, 95u8, 68u8, 101u8, 102u8, 97u8, 117u8, 108u8, 116u8, 82u8, 97u8, 109u8, 112u8, 67u8, 114u8, 101u8, 115u8, 116u8, 67u8, 111u8, 114u8, 110u8, 101u8, 114u8];
    let v = bytes_of(&a);
    proof {
        assert(v@ =~= spec_asset_default_ramp_crest_corner());
    }
    v
}

/// The asset name `"PB_DefaultMicroBrick"`.
pub open spec fn spec_asset_default_micro_brick() -> Seq<u8> {
    seq![80u8, 66u8, 95u8, 68u8, 101u8, 102u8, 97u8, 117u8, 108u8, 116u8, 77u8, 105u8, 99u8, 114u8, 111u8, 66u8, 114u8, 105u8, 99u8, 107u8]
}

/// That asset name as an owned byte string.
pub fn asset_default_micro_brick() -> (v: Vec<u8>)
    ensures
        v@ == spec_asset_default_micro_brick(),
{
    let a: [u8; 20] = [80u8, 66u8, 95u8, 68u8, 101u8, 102u8, 97u8, 117u8, 108u8, 116u8, 77u8, 105u8, 99u8, 114u8, 111u8, 66u8, 114u8, 105u8, 99u8, 107u8];
    let v = bytes_of(&a);
    proof {
        assert(v@ =~= spec_asset_default_micro_brick());
    }
    v
}

/// The asset name `"PB_DefaultMicroWedge"`.
pub open spec fn spec_asset_default_micro_wedge() -> Seq<u8> {
    seq![80u8, 66u8, 95u8, 68u8, 101u8, 102u8, 97u8, 117u8, 108u8, 116u8, 77u8, 105u8, 99u8, 114u8, 111u8, 87u8, 101u8, 100u8, 103u8, 101u8]
}

/// That asset name as an owned byte string.
pub fn asset_default_micro_wedge() -> (v: Vec<u8>)
    ensures
        v@ == spec_asset_default_micro_wedge(),
{
    let a: [u8; 20] = [80u8, 66u8, 95u8, 68u8, 101u8, 102u8, 97u8, 117u8, 108u8, 116u8, 77u8, 105u8, 99u8, 114u8, 111u8, 87u8, 101u8, 100u8, 103u8, 101u8];
    let v = bytes_of(&a);
    proof {
        assert(v@ =~= spec_asset_default_micro_wedge());
    }
    v
}

/// The asset name `"PB_DefaultMicroWedgeTriangleCorner"`.
pub open spec fn spec_asset_default_micro_wedge_triangle_corner() -> Seq<u8> {
    seq![80u8, 66u8, 95u8, 68u8, 101u8, 102u8, 97u8, 117u8, 108u8, 116u8, 77u8, 105u8, 99u8, 114u8, 111u8, 87u8, 101u8, 100u8, 103u8, 101u8, 84u8, 114u8, 105u8, 97u8, 110u8, 103u8, 108u8, 101u8, 67u8, 111u8, 114u8, 110u8, 101u8, 114u8]
}

/// That asset name as an owned byte string.
pub fn asset_default_micro_wedge_triangle_corner() -> (v: Vec<u8>)
    ensures
        v@ == spec_asset_default_micro_wedge_triangle_corner(),
{
    let a: [u8; 34] = [80u8, 66u8, 95u8, 68u8, 101u8, 102u8, 97u8, 117u8, 108u8, 116u8, 77u8, 105u8, 99u8, 114u8, 111u8, 87u8, 101u8, 100u8, 103u8, 101u8, 84u8, 114u8, 105u8, 97u8, 110u8, 103u8, 108u8, 101u8, 67u8, 111u8, 114u8, 110u8, 101u8, 114u8];
    let v = bytes_of(&a);
    proof {
        assert(v@ =~= spec_asset_default_micro_wedge_triangle_corner());
    }
    v
}

/// The asset name `"PB_DefaultMicroWedgeOuterCorner"`.
pub open spec fn spec_asset_default_micro_wedge_outer_corner() -> Seq<u8> {
    seq![80u8, 66u8, 95u8, 68u8, 101u8, 102u8, 97u8, 117u8, 108u8, 116u8, 77u8, 105u8, 99u8, 114u8, 111u8, 87u8, 101u8, 100u8, 103u8, 101u8, 79u8, 117u8, 116u8, 101u8, 114u8, 67u8, 111u8, 114u8, 110u8, 101u8, 114u8]
}

/// That asset name as an owned byte string.
pub fn asset_default_micro_wedge_outer_corner() -> (v: Vec<u8>)
    ensures
        v@ == spec_asset_default_micro_wedge_outer_corner(),
{
    let a: [u8; 31] = [80u8, 66u8, 95u8, 68u8, 101u8, 102u8, 97u8, 117u8, 108u8, 116u8, 77u8, 105u8, 99u8, 114u8, 111u8, 87u8, 101u8, 100u8, 103u8, 101u8, 79u8, 117u8, 116u8, 101u8, 114u8, 67u8, 111u8, 114u8, 110u8, 101u8, 114u8];
    let v = bytes_of(&a);
    proof {
        assert(v@ =~= spec_asset_default_micro_wedge_outer_corner());
    }
    v
}

/// The asset name `"PB_DefaultMicroWedgeCorner"`.
pub open spec fn spec_asset_default_micro_wedge_corner() -> Seq<u8> {
    seq![80u8, 66u8, 95u8, 68u8, 101u8, 102u8, 97u8, 117u8, 108u8, 116u8, 77u8, 105u8, 99u8, 114u8, 111u8, 87u8, 101u8, 100u8, 103u8, 101u8, 67u8, 111u8, 114u8, 110u8, 101u8, 114u8]
}

/// That asset name as an owned byte string.
pub fn asset_default_micro_wedge_corner() -> (v: Vec<u8>)
    ensures
        v@ == spec_asset_default_micro_wedge_corner(),
{
    let a: [u8; 26] = [80u8, 66u8, 95u8, 68u8, 101u8, 102u8, 97u8, 117u8, 108u8, 116u8, 77u8, 105u8, 99u8, 114u8, 111u8, 87u8, 101u8, 100u8, 103u8, 101u8, 67u8, 111u8, 114u8, 110u8, 101u8, 114u8];
    let v = bytes_of(&a);
    proof {
        assert(v@ =~= spec_asset_default_micro_wedge_corner());
    }
    v
}

/// The asset name `"PB_DefaultMicroWedgeInnerCorner"`.
pub open spec fn spec_asset_default_micro_wedge_inner_corner() -> Seq<u8> {
    seq![80u8, 66u8, 95u8, 68u8, 101u8, 102u8, 97u8, 117u8, 108u8, 116u8, 77u8, 105u8, 99u8, 114u8, 111u8, 87u8, 101u8, 100u8, 103u8, 101u8, 73u8, 110u8, 110u8, 101u8, 114u8, 67u8, 111u8, 114u8, 110u8, 101u8, 114u8]
}

/// That asset name as an owned byte string.
pub fn asset_default_micro_wedge_inner_corner() -> (v: Vec<u8>)
    ensures
        v@ == spec_asset_default_micro_wedge_inner_corner(),
{
    let a: [u8; 31] = [80u8, 66u8, 95u8, 68u8, 101u8, 102u8, 97u8, 117u8, 108u8, 116u8, 77u8, 105u8, 99u8, 114u8, 111u8, 87u8, 101u8, 100u8, 103u8, 101u8, 73u8, 110u8, 110u8, 101u8, 114u8, 67u8, 111u8, 114u8, 110u8, 101u8, 114u8];
    let v = bytes_of(&a);
    proof {
        assert(v@ =~= spec_asset_default_micro_wedge_inner_corner());
    }
    v
}

/// The asset name `"PB_DefaultWedge"`.
pub open spec fn spec_asset_default_wedge() -> Seq<u8> {
    seq![80u8, 66u8, 95u8, 68u8, 101u8, 102u8, 97u8, 117u8, 108u8, 116u8, 87u8, 101u8, 100u8, 103u8, 101u8]
}

/// That asset name as an owned byte string.
pub fn asset_default_wedge() -> (v: Vec<u8>)
    ensures
        v@ == spec_asset_default_wedge(),
{
    let a: [u8; 15] = [80u8, 66u8, 95u8, 68u8, 101u8, 102u8, 97u8, 117u8, 108u8, 116u8, 87u8, 101u8, 100u8, 103u8, 101u8];
    let v = bytes_of(&a);
    proof {
        assert(v@ =~= spec_asset_default_wedge());
    }
    v
}

/// The asset name `"PB_DefaultArch"`.
pub open spec fn spec_asset_default_arch() -> Seq<u8> {
    seq![80u8, 66u8, 95u8, 68u8, 101u8, 102u8, 97u8, 117u8, 108u8, 116u8, 65u8, 114u8, 99u8, 104u8]
}

/// That asset name as an owned byte string.
pub fn asset_default_arch() -> (v: Vec<u8>)
    ensures
        v@ == spec_asset_default_arch(),
{
    let a: [u8; 14] = [80u8, 66u8, 95u8, 68u8, 101u8, 102u8, 97u8, 117u8, 108u8, 116u8, 65u8, 114u8, 99u8, 104u8];
    let v = bytes_of(&a);
    proof {
        assert(v@ =~= spec_asset_default_arch());
    }
    v
}

} // verus!
