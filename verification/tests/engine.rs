use brick_convert::{
    Brick, BrickDesc, Color, ColorMode, ConvertReport, Direction, Resolution, RuleEntry,
    SourceBrick, compose_rotation, convert, resolve, rotate_offset, transform,
};

fn bd(asset: &str) -> BrickDesc {
    BrickDesc::new(asset.as_bytes().to_vec())
}

fn src(name: &str) -> SourceBrick {
    SourceBrick {
        ui_name: name.as_bytes().to_vec(),
        print: Vec::new(),
        position: (0, 0, 0),
        angle: 0,
        color_index: 0,
        color_fx: 0,
        collision: true,
        rendering: true,
    }
}

fn entry(name: &str, bricks: Vec<BrickDesc>) -> RuleEntry {
    RuleEntry { name: name.as_bytes().to_vec(), bricks }
}

fn run(reg: &Vec<RuleEntry>, sources: &Vec<SourceBrick>) -> ConvertReport {
    convert(reg, Vec::new(), sources)
}

fn resolved(name: &str) -> Option<Vec<BrickDesc>> {
    let reg: Vec<RuleEntry> = Vec::new();
    match resolve(&reg, &src(name)) {
        Resolution::Generated(v) => Some(v),
        Resolution::Literal(_) => panic!("empty registry cannot hold {}", name),
        Resolution::Unmapped => None,
    }
}

#[test]
fn rotation_composition_is_mod_four() {
    assert_eq!(compose_rotation(0, 0), 0);
    assert_eq!(compose_rotation(3, 2), 1);
    assert_eq!(compose_rotation(2, 3), 1);
    assert_eq!(compose_rotation(255, 255), 2);
}

#[test]
fn rotation_composition_period_four() {
    for r in 0u8..4 {
        for o in 0u8..4 {
            assert_eq!(compose_rotation(r, o), compose_rotation(r + 4, o));
        }
    }
}

#[test]
fn rotate_four_times_is_identity() {
    for &p in &[(0i32, 0i32), (3, -7), (1000, 42), (i32::MIN, i32::MAX)] {
        assert_eq!(rotate_offset(p, 4), p);
    }
}

#[test]
fn rotate_single_quarter_turn() {
    assert_eq!(rotate_offset((2, 3), 1), (-3, 2));
    assert_eq!(rotate_offset((2, 3), 2), (-2, -3));
    assert_eq!(rotate_offset((2, 3), 3), (3, -2));
}

#[test]
fn interning_is_idempotent_and_dense() {
    let mut t = brick_convert::AssetTable::new();
    let a = b"PB_DefaultBrick".to_vec();
    let b = b"PB_DefaultTile".to_vec();
    let c = b"PB_DefaultWedge".to_vec();
    assert_eq!(t.get_or_insert(&a), 0);
    assert_eq!(t.get_or_insert(&b), 1);
    assert_eq!(t.get_or_insert(&a), 0);
    assert_eq!(t.get_or_insert(&c), 2);
    assert_eq!(t.get_or_insert(&b), 1);
    assert_eq!(t.names.len(), 3);
}

#[test]
fn color_interning_deduplicates_against_seed() {
    let seed = vec![Color::from_rgba(1, 2, 3, 4), Color::from_rgba(9, 9, 9, 9)];
    let mut t = brick_convert::ColorTable::new(seed);
    assert_eq!(t.get_or_insert(Color::from_rgba(9, 9, 9, 9)), 1);
    assert_eq!(t.get_or_insert(Color::from_rgba(7, 7, 7, 7)), 2);
    assert_eq!(t.get_or_insert(Color::from_rgba(7, 7, 7, 7)), 2);
    assert_eq!(t.colors.len(), 3);
}

#[test]
fn priority_objects_precede_deferred() {
    let reg = vec![
        entry("A", vec![bd("a").size((1, 1, 1))]),
        entry("B", vec![bd("b").size((2, 2, 2)).non_priority(true)]),
        entry("C", vec![bd("c").size((3, 3, 3))]),
    ];
    let sources = vec![src("A"), src("B"), src("C")];
    let report = run(&reg, &sources);
    assert_eq!(report.count_success, 3);
    assert_eq!(report.count_failure, 0);
    let sizes: Vec<(u32, u32, u32)> = report.bricks.iter().map(|b| b.size).collect();
    assert_eq!(sizes, vec![(1, 1, 1), (3, 3, 3), (2, 2, 2)]);
}

#[test]
fn invisible_composite_objects_are_deferred() {
    let reg = vec![
        entry("M", vec![bd("m").size((1, 1, 1)).modter(true)]),
        entry("N", vec![bd("n").size((2, 2, 2))]),
    ];
    let mut hidden = src("M");
    hidden.rendering = false;
    let mut plain = src("N");
    plain.rendering = false;
    let report = run(&reg, &vec![hidden, plain]);
    let sizes: Vec<(u32, u32, u32)> = report.bricks.iter().map(|b| b.size).collect();
    assert_eq!(sizes, vec![(2, 2, 2), (1, 1, 1)]);
}

#[test]
fn four_by_four_maps_to_default_brick() {
    let reg: Vec<RuleEntry> = Vec::new();
    let report = run(&reg, &vec![src("4x4")]);
    assert_eq!(report.count_success, 1);
    assert_eq!(report.count_failure, 0);
    assert_eq!(report.bricks.len(), 1);
    let b: &Brick = &report.bricks[0];
    assert_eq!(report.brick_assets[b.asset_name_index], b"PB_DefaultBrick".to_vec());
    assert_eq!(b.size, (20, 20, 6));
    assert_eq!(b.direction, Direction::ZPositive);
    assert!(b.collision);
    assert!(b.visibility);
}

#[test]
fn unrecognized_name_is_counted_by_name() {
    let reg: Vec<RuleEntry> = Vec::new();
    let report = run(&reg, &vec![src("Foobar 9000")]);
    assert_eq!(report.count_success, 0);
    assert_eq!(report.count_failure, 1);
    assert!(report.bricks.is_empty());
    assert_eq!(report.unknown_ui_names.len(), 1);
    assert_eq!(report.unknown_ui_names[0].0, b"Foobar 9000".to_vec());
    assert_eq!(report.unknown_ui_names[0].1, 1);

    let report2 = run(&reg, &vec![src("Foobar 9000"), src("Foobar 9000")]);
    assert_eq!(report2.count_failure, 2);
    assert_eq!(report2.unknown_ui_names.len(), 1);
    assert_eq!(report2.unknown_ui_names[0].1, 2);
}

#[test]
fn microwedge_upright_permutes_size() {
    let desc = bd("w").size((3, 5, 7)).rotation_offset(0).microwedge_rotate(true);
    let b = transform(&src("ignored"), &desc, 0);
    assert_eq!(b.direction, Direction::YPositive);
    assert_eq!(b.size, (7, 3, 5));
    assert_eq!(b.rotation, 0);
}

#[test]
fn microwedge_downward_request_adds_half_turn() {
    let desc = bd("w")
        .size((3, 5, 7))
        .rotation_offset(0)
        .direction_override(Direction::ZNegative)
        .microwedge_rotate(true);
    let b = transform(&src("ignored"), &desc, 0);
    assert_eq!(b.direction, Direction::YPositive);
    assert_eq!(b.size, (7, 3, 5));
    assert_eq!(b.rotation, 2);
}

#[test]
fn lattice_even_rotation_swaps_size() {
    let desc = bd("l").size((3, 5, 7)).rotation_offset(0).lattice_rotate(true);
    let b = transform(&src("ignored"), &desc, 0);
    assert_eq!(b.direction, Direction::YPositive);
    assert_eq!(b.size, (5, 3, 7));
}

#[test]
fn geometry_swaps_axes_and_adds_rotated_offset() {
    let mut s = src("ignored");
    s.position = (100, 200, 300);
    s.angle = 1;
    let desc = bd("g").size((1, 1, 1)).offset((10, 20, 30)).rotation_offset(0);
    let b = transform(&s, &desc, 0);
    // offset (10, 20) rotated one quarter turn is (-20, 10)
    assert_eq!(b.position, (200 - 20, 100 + 10, 300 + 30));
    assert_eq!(b.rotation, 1);
}

#[test]
fn transform_is_periodic_in_the_source_angle() {
    let mut a = src("x");
    a.angle = 1;
    let mut b = src("x");
    b.angle = 5;
    let desc = bd("g").size((2, 3, 4)).offset((10, 20, 30)).rotation_offset(2);
    let desc2 = bd("g").size((2, 3, 4)).offset((10, 20, 30)).rotation_offset(2);
    assert_eq!(transform(&a, &desc, 0), transform(&b, &desc2, 0));
}

#[test]
fn collision_is_stripped_by_nocollide() {
    let desc = bd("c").size((1, 1, 1)).nocollide();
    let b = transform(&src("x"), &desc, 0);
    assert!(!b.collision);
    let mut off = src("x");
    off.collision = false;
    let b2 = transform(&off, &bd("c").size((1, 1, 1)), 0);
    assert!(!b2.collision);
}

#[test]
fn color_effect_selects_material() {
    let mut s = src("x");
    s.color_fx = 3;
    assert_eq!(transform(&s, &bd("m"), 0).material_index, 1);
    s.color_fx = 1;
    assert_eq!(transform(&s, &bd("m"), 0).material_index, 2);
    s.color_fx = 2;
    assert_eq!(transform(&s, &bd("m"), 0).material_index, 2);
    s.color_fx = 0;
    assert_eq!(transform(&s, &bd("m"), 0).material_index, 0);
}

#[test]
fn override_color_is_inline_and_interned() {
    let c = Color::from_rgba(11, 11, 11, 255);
    let reg = vec![entry("Road", vec![bd("r").size((1, 1, 1)).color_override(c)])];
    let report = convert(&reg, vec![Color::from_rgba(0, 0, 0, 0)], &vec![src("Road"), src("Road")]);
    assert_eq!(report.bricks[0].color, ColorMode::Custom(c));
    // interned once, after the seeded palette entry
    assert_eq!(report.colors.len(), 2);
    assert_eq!(report.colors[1], c);
}

#[test]
fn palette_reference_is_kept_without_override() {
    let mut s = src("4x4");
    s.color_index = 7;
    let report = run(&Vec::new(), &vec![s]);
    assert_eq!(report.bricks[0].color, ColorMode::Indexed(7));
}

#[test]
fn literal_registry_takes_priority_over_patterns() {
    let reg = vec![entry("4x4", vec![bd("special").size((9, 9, 9))])];
    let report = run(&reg, &vec![src("4x4")]);
    assert_eq!(report.brick_assets[0], b"special".to_vec());
    assert_eq!(report.bricks[0].size, (9, 9, 9));
}

#[test]
fn grid_variants_parse() {
    let v = resolved("2x4x3").unwrap();
    assert_eq!(v[0].size, (10, 20, 18));
    let v = resolved("1x2F").unwrap();
    assert_eq!(v[0].size, (5, 10, 2));
    let v = resolved("3x3H").unwrap();
    assert_eq!(v[0].size, (15, 15, 4));
    let v = resolved("2x2 Ceiling").unwrap();
    assert_eq!(v[0].direction_override, Some(Direction::ZNegative));
    assert!(resolved("2x2 Nonsense").is_none());
}

#[test]
fn printed_plate_becomes_smooth_tile() {
    let reg: Vec<RuleEntry> = Vec::new();
    let mut s = src("1x2F Print");
    s.print = b"letters/A".to_vec();
    let report = run(&reg, &vec![s]);
    assert_eq!(report.brick_assets[0], b"PB_DefaultSmoothTile".to_vec());
    // a printed plate keeps the source frame instead of the quarter-turn shift
    assert_eq!(report.bricks[0].rotation, 0);

    let mut blank = src("1x2F Print");
    blank.print = b"1x2f/blank".to_vec();
    let report2 = run(&reg, &vec![blank]);
    assert_eq!(report2.brick_assets[0], b"PB_DefaultTile".to_vec());
}

#[test]
fn ramp_variants_parse() {
    let v = resolved("25° Ramp").unwrap();
    assert_eq!(v[0].asset, b"PB_DefaultRamp".to_vec());
    assert_eq!(v[0].size, (15, 15, 6));
    let v = resolved("-45° Ramp").unwrap();
    assert_eq!(v[0].asset, b"PB_DefaultRampInverted".to_vec());
    let v = resolved("45° Ramp 4x").unwrap();
    assert_eq!(v[0].size, (10, 20, 6));
    let v = resolved("72° Ramp Corner").unwrap();
    assert_eq!(v[0].asset, b"PB_DefaultRampCorner".to_vec());
    assert_eq!(v[0].size, (10, 10, 18));
    let v = resolved("80° Inv Ramp Corner").unwrap();
    assert_eq!(v[0].asset, b"PB_DefaultRampInnerCorner".to_vec());
    assert_eq!(v[0].rotation_offset, 1);
}

#[test]
fn inner_ramp_without_corner_is_rejected_not_passed_on() {
    // the ramp shape fits, so the rejection is final: no later rule runs
    let reg: Vec<RuleEntry> = Vec::new();
    let report = run(&reg, &vec![src("45° Inv Ramp")]);
    assert_eq!(report.count_failure, 1);
    assert!(report.bricks.is_empty());
}

#[test]
fn crest_variants_parse() {
    let v = resolved("25° Crest End").unwrap();
    assert_eq!(v[0].asset, b"PB_DefaultRampCrestEnd".to_vec());
    assert_eq!(v[0].size, (10, 5, 4));
    assert_eq!(v[0].offset, (0, 0, -2));
    let v = resolved("45° Crest Corner").unwrap();
    assert_eq!(v[0].asset, b"PB_DefaultRampCrestCorner".to_vec());
    assert_eq!(v[0].size, (10, 10, 6));
    let v = resolved("45° Crest 3x").unwrap();
    assert_eq!(v[0].asset, b"PB_DefaultRampCrest".to_vec());
    assert_eq!(v[0].size, (10, 15, 6));
    assert_eq!(v[0].rotation_offset, 0);
}

#[test]
fn tile_and_base_parse() {
    let v = resolved("4x2F Tile").unwrap();
    assert_eq!(v[0].asset, b"PB_DefaultTile".to_vec());
    assert_eq!(v[0].size, (10, 20, 2));
    let v = resolved("16x32 Base").unwrap();
    assert_eq!(v[0].asset, b"PB_DefaultBrick".to_vec());
    assert_eq!(v[0].size, (80, 160, 2));
}

#[test]
fn cube_parses_with_height_annotation() {
    let v = resolved("2x Cube").unwrap();
    assert_eq!(v[0].size, (10, 10, 10));
    let v = resolved("2x Cube 3H").unwrap();
    assert_eq!(v[0].size, (10, 10, 30));
    assert!(resolved("2x Cube 3H extra").is_none());
}

#[test]
fn modter_shapes_parse() {
    // a bare `Nx Cube` belongs to the anchored cube rule; a height class
    // sends the name on to the terrain rule
    let v = resolved("5x Cube 1/2h").unwrap();
    assert_eq!(v[0].asset, b"PB_DefaultMicroBrick".to_vec());
    assert_eq!(v[0].size, (25, 25, 10));
    assert_eq!(v[0].rotation_offset, 1);
    assert!(v[0].modter);

    let v = resolved("4x Ramp").unwrap();
    assert_eq!(v[0].asset, b"PB_DefaultMicroWedge".to_vec());
    assert!(v[0].microwedge_rotate);
    assert_eq!(v[0].rotation_offset, 3);

    let v = resolved("4x Wedge Steep").unwrap();
    assert_eq!(v[0].size, (20, 20, 40));
    // side four with a non-default height gets one extra quarter turn
    assert_eq!(v[0].rotation_offset, 3);

    let v = resolved("2x Wedge").unwrap();
    assert_eq!(v[0].rotation_offset, 3);

    let v = resolved("8x CornerB 1/2h").unwrap();
    assert_eq!(v[0].asset, b"PB_DefaultMicroWedgeOuterCorner".to_vec());
    assert_eq!(v[0].size, (40, 40, 20));

    let v = resolved("4x Cube Inv.").unwrap();
    assert_eq!(v[0].direction_override, Some(Direction::ZNegative));
    assert!(v[0].inverted_modter_rotate);
    assert_eq!(v[0].rotation_offset, 4);

    let v = resolved("4x Ramp Inv.").unwrap();
    assert_eq!(v[0].direction_override, Some(Direction::ZNegative));
    assert!(!v[0].inverted_modter_rotate);
    assert_eq!(v[0].rotation_offset, 5);

    let v = resolved(" 4x Cube").unwrap();
    assert_eq!(v[0].size, (20, 20, 20));

    let v = resolved("4x CorA 3/4h").unwrap();
    assert_eq!(v[0].asset, b"PB_DefaultMicroWedgeTriangleCorner".to_vec());
    assert_eq!(v[0].size, (20, 20, 15));
}

#[test]
fn arch_parses_with_and_without_height() {
    let v = resolved("1x5 Arch").unwrap();
    assert_eq!(v[0].asset, b"PB_DefaultArch".to_vec());
    assert_eq!(v[0].size, (5, 25, 12));
    assert_eq!(v[0].rotation_offset, 1);
    let v = resolved("1x8 Arch").unwrap();
    assert_eq!(v[0].size, (5, 40, 18));
    let v = resolved("1x12x3 Arch Up").unwrap();
    assert_eq!(v[0].size, (5, 60, 18));
    assert_eq!(v[0].rotation_offset, 2);
    assert_eq!(v[0].direction_override, Some(Direction::ZNegative));
}

#[test]
fn panel_variants_parse() {
    let v = resolved("3h Panel 4x").unwrap();
    assert_eq!(v.len(), 3);
    assert_eq!(v[0].size, (20, 5, 2));
    assert_eq!(v[0].offset, (0, 0, -16));
    assert_eq!(v[1].size, (20, 1, 14));
    assert_eq!(v[2].offset, (0, 0, 16));

    let v = resolved("1h Panel 2x").unwrap();
    assert_eq!(v.len(), 2);

    let v = resolved("2h Panel Corner 3x").unwrap();
    assert_eq!(v.len(), 3);
    assert_eq!(v[2].size, (1, 4, 4));
}

#[test]
fn center_ramp_parses_and_rejects_unknown_angle() {
    let v = resolved("45° Center Ramp 1x").unwrap();
    assert_eq!(v.len(), 3);
    assert_eq!(v[0].asset, b"PB_DefaultBrick".to_vec());
    assert_eq!(v[1].asset, b"PB_DefaultWedge".to_vec());
    assert_eq!(v[1].offset, (-10, 0, 0));
    assert_eq!(v[2].offset, (10, 0, 0));

    let v = resolved("-18° Center Diag Ramp 1x").unwrap();
    assert_eq!(v[0].direction_override, Some(Direction::ZNegative));
    assert!(v[1].inverted_wedge_rotate);

    // a syntactic match with an unknown angle is rejected outright
    let reg: Vec<RuleEntry> = Vec::new();
    let report = run(&reg, &vec![src("30° Center Ramp 1x")]);
    assert_eq!(report.count_failure, 1);
}

#[test]
fn log_stacks_octo_bricks() {
    let v = resolved("1x2 Log").unwrap();
    assert_eq!(v.len(), 6);
    assert_eq!(v[0].asset, b"B_1x1F_Octo".to_vec());
    assert_eq!(v[0].offset, (-5, 0, -4));
    assert_eq!(v[3].offset, (5, 0, -4));

    let v = resolved("1x1 Log Wall").unwrap();
    assert_eq!(v.len(), 6);
    assert_eq!(v[0].asset, b"B_1x_Octo".to_vec());
    assert_eq!(v[0].offset, (0, 0, -25));
    assert_eq!(v[5].offset, (0, 0, 25));
}

#[test]
fn modter_leading_inverted_marker_alone() {
    let v = resolved("4x Cube Inv").unwrap();
    assert_eq!(v[0].direction_override, Some(Direction::ZNegative));
    assert!(v[0].inverted_modter_rotate);
    assert_eq!(v[0].rotation_offset, 4);
}

#[test]
fn tall_printed_brick_stays_a_brick() {
    let v = resolved("2x2x6 Print").unwrap();
    assert_eq!(v[0].asset, b"PB_DefaultBrick".to_vec());
    assert_eq!(v[0].size, (10, 10, 36));
    assert_eq!(v[0].rotation_offset, 0);
}

#[test]
fn ramp_with_print_suffix_parses() {
    let v = resolved("45° Ramp Print").unwrap();
    assert_eq!(v[0].asset, b"PB_DefaultRamp".to_vec());
    assert_eq!(v[0].size, (10, 10, 6));
}

#[test]
fn panel_needs_single_digit_height() {
    assert!(resolved("12h Panel 4x").is_none());
}

#[test]
fn arch_matches_at_earliest_position() {
    let v = resolved("Brick 2x3 Arch").unwrap();
    assert_eq!(v[0].size, (10, 15, 6));
}

#[test]
fn oversized_numbers_reject_the_name() {
    let reg: Vec<RuleEntry> = Vec::new();
    let report = run(&reg, &vec![src("4294967295x2")]);
    assert_eq!(report.count_failure, 1);
    let report2 = run(&reg, &vec![src("99999999999999999999x2")]);
    assert_eq!(report2.count_failure, 1);
}

#[test]
fn grid_lowercase_variants_parse() {
    let v = resolved("2x2f").unwrap();
    assert_eq!(v[0].size, (10, 10, 2));
    let v = resolved("2x2h").unwrap();
    assert_eq!(v[0].size, (10, 10, 4));
}

#[test]
fn ramp_without_space_after_degree_sign() {
    let v = resolved("18°Ramp").unwrap();
    assert_eq!(v[0].size, (20, 20, 6));
    let v = resolved("-65° Ramp").unwrap();
    assert_eq!(v[0].asset, b"PB_DefaultRampInverted".to_vec());
    assert_eq!(v[0].size, (10, 10, 12));
}

#[test]
fn modter_combined_inverted_and_steep() {
    let v = resolved("4x Wedge Inv Steep").unwrap();
    assert_eq!(v[0].direction_override, Some(Direction::ZNegative));
    assert!(v[0].inverted_modter_rotate);
    assert_eq!(v[0].size, (20, 20, 40));
    // base 2, inverted non-slope adds 3, non-default height on side 4 adds 1
    assert_eq!(v[0].rotation_offset, 6);
}

#[test]
fn unanchored_rules_ignore_trailing_text() {
    let v = resolved("45° Crest 12x trailing words").unwrap();
    assert_eq!(v[0].size, (10, 60, 6));
    let v = resolved("45° Center Ramp 1x Plus").unwrap();
    assert_eq!(v.len(), 3);
    let v = resolved("1x3 Log Cabin").unwrap();
    assert_eq!(v.len(), 9);
}

#[test]
fn counters_account_for_every_record() {
    let reg = vec![entry("A", vec![bd("a")])];
    let sources = vec![src("A"), src("nope"), src("A"), src("zzz"), src("4x4")];
    let report = run(&reg, &sources);
    assert_eq!(report.count_success + report.count_failure, sources.len());
}

#[test]
fn deferred_report_totals_match() {
    let reg = vec![
        entry("P", vec![bd("p").size((1, 1, 1)), bd("q").size((2, 2, 2)).non_priority(true)]),
    ];
    let report = run(&reg, &vec![src("P"), src("Zzz")]);
    assert_eq!(report.count_success, 1);
    assert_eq!(report.count_failure, 1);
    assert_eq!(report.bricks.len(), 2);
    assert_eq!(report.bricks[0].size, (1, 1, 1));
    assert_eq!(report.bricks[1].size, (2, 2, 2));
}
