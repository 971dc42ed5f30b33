use heat_loss::calculate_heat_loss;
use heat_loss::compute_specific_heat_loss;
use heat_loss::delta_t_c;
use heat_loss::evaluate;
use heat_loss::insulation_r_value_si;
use heat_loss::resolve_envelope;
use heat_loss::roof_material;
use heat_loss::wall_material;
use heat_loss::CalculationInput;
use heat_loss::Envelope;
use heat_loss::Exact;
use heat_loss::MaterialProperties;
use heat_loss::ValidationError;
use heat_loss::U256;

fn example() -> CalculationInput {
    CalculationInput {
        sqft_roof: 1_800_000,
        sqft_walls: 1_500_000,
        roof_material_type: "asphalt".to_string(),
        wall_material_type: "wood".to_string(),
        ambient_temp_f: 50_000,
        t_inside_f: 70_000,
        duration_hours: 24,
        insulation_r_value: "R13-R15".to_string(),
        air_changes_per_hour: 500,
        window_area_sqft: 500_000,
        window_type: "double".to_string(),
        electricity_cost_per_kwh: 120,
    }
}

fn wide_to_f64(w: &U256) -> f64 {
    (w.hi as f64) * 340282366920938463463374607431768211456.0 + (w.lo as f64)
}

fn to_f64(e: &Exact) -> f64 {
    let magnitude = wide_to_f64(&e.numerator) / wide_to_f64(&e.denominator);
    if e.negative {
        -magnitude
    } else {
        magnitude
    }
}

fn small(x: u128) -> U256 {
    U256 { hi: 0, lo: x }
}

/// The calculation in binary floating point, step by step.
fn in_floats(
    sqft_roof: f64,
    sqft_walls: f64,
    roof: (f64, f64),
    wall: (f64, f64),
    ambient_temp_f: f64,
    t_inside_f: f64,
    duration_hours: u64,
    price: f64,
) -> (f64, f64) {
    let delta = (t_inside_f - ambient_temp_f) / 1.8;
    let insulation = 14.0 * 0.176110;
    let q_roof = sqft_roof * 0.092903 * delta / (roof.1 / roof.0 + insulation);
    let q_walls = sqft_walls * 0.092903 * delta / (wall.1 / wall.0 + insulation);
    let joules = (q_roof + q_walls) * duration_hours as f64 * 3600.0;
    let kwh = joules / 3_600_000.0;
    (kwh * price, kwh)
}

#[test]
fn example_energy_and_cost() {
    let result = compute_specific_heat_loss(&example()).unwrap();
    let (cost, kwh) = in_floats(1800.0, 1500.0, (0.2, 0.005), (0.12, 0.1), 50.0, 70.0, 24, 0.12);
    assert!((to_f64(&result.q_total_kwh) - kwh).abs() < 1e-9);
    assert!((to_f64(&result.total_cost) - cost).abs() < 1e-9);
    assert!((to_f64(&result.q_total_kwh) - 29.16994467250483).abs() < 1e-9);
    assert!((to_f64(&result.total_cost) - 3.5003933607005795).abs() < 1e-9);
}

#[test]
fn example_exact_fractions() {
    let result = compute_specific_heat_loss(&example()).unwrap();
    assert_eq!(
        result.q_total_kwh,
        Exact {
            negative: false,
            numerator: small(51_766_466_062_809_600_000_000_000_000),
            denominator: small(1_774_650_814_185_600_000_000_000_000),
        }
    );
    assert_eq!(
        result.total_cost,
        Exact {
            negative: false,
            numerator: small(6_211_975_927_537_152_000_000_000_000_000),
            denominator: small(1_774_650_814_185_600_000_000_000_000_000),
        }
    );
}

#[test]
fn example_delta_t_c() {
    let delta = delta_t_c(70_000, 50_000);
    assert_eq!(
        delta,
        Exact { negative: false, numerator: small(20_000), denominator: small(1_800) }
    );
    assert!((to_f64(&delta) - (70.0 - 50.0) / 1.8).abs() < 1e-9);
    assert!((to_f64(&delta) - 11.11111111111111).abs() < 1e-9);
}

#[test]
fn delta_t_c_below_zero() {
    let delta = delta_t_c(-40_000, 32_000);
    assert_eq!(
        delta,
        Exact { negative: true, numerator: small(72_000), denominator: small(1_800) }
    );
    assert_eq!(to_f64(&delta), -40.0);
}

#[test]
fn delta_t_c_of_equal_temperatures_is_unsigned_zero() {
    let delta = delta_t_c(68_500, 68_500);
    assert_eq!(delta, Exact { negative: false, numerator: small(0), denominator: small(1_800) });
}

#[test]
fn delta_t_c_at_the_ends_of_the_range() {
    let up = delta_t_c(i32::MAX, i32::MIN);
    assert_eq!(
        up,
        Exact { negative: false, numerator: small(4_294_967_295), denominator: small(1_800) }
    );
    let down = delta_t_c(i32::MIN, i32::MAX);
    assert_eq!(
        down,
        Exact { negative: true, numerator: small(4_294_967_295), denominator: small(1_800) }
    );
}

#[test]
fn example_insulation_r_value_si() {
    let r = insulation_r_value_si("R13-R15");
    assert_eq!(r, Some(2_465_540));
    assert!((r.unwrap() as f64 / 1e6 - 14.0 * 0.176110).abs() < 1e-9);
    assert!((r.unwrap() as f64 / 1e6 - 2.46554).abs() < 1e-9);
}

#[test]
fn unknown_insulation_labels() {
    assert_eq!(insulation_r_value_si("R19"), None);
    assert_eq!(insulation_r_value_si(""), None);
    assert_eq!(insulation_r_value_si("r13-r15"), None);
    assert_eq!(insulation_r_value_si("R13-R15 "), None);
}

#[test]
fn roof_materials() {
    assert_eq!(
        roof_material("asphalt"),
        Some(MaterialProperties { thermal_conductivity: 200, thickness: 5 })
    );
    assert_eq!(
        roof_material("wood"),
        Some(MaterialProperties { thermal_conductivity: 80, thickness: 10 })
    );
    assert_eq!(roof_material("slate"), None);
    assert_eq!(roof_material("Asphalt"), None);
    assert_eq!(roof_material(""), None);
}

#[test]
fn wall_materials() {
    assert_eq!(
        wall_material("wood"),
        Some(MaterialProperties { thermal_conductivity: 120, thickness: 100 })
    );
    assert_eq!(wall_material("asphalt"), None);
    assert_eq!(wall_material("brick"), None);
    assert_eq!(wall_material(""), None);
}

#[test]
fn same_input_same_result() {
    let first = compute_specific_heat_loss(&example());
    let second = compute_specific_heat_loss(&example());
    assert_eq!(first, second);
    let copy = example().clone();
    assert_eq!(compute_specific_heat_loss(&copy), first);
}

#[test]
fn unread_fields_do_not_matter() {
    let mut other = example();
    other.air_changes_per_hour = 0;
    other.window_area_sqft = 1;
    other.window_type = "single".to_string();
    assert_eq!(compute_specific_heat_loss(&other), compute_specific_heat_loss(&example()));
}

#[test]
fn unknown_roof_material_is_rejected() {
    let mut input = example();
    input.roof_material_type = "slate".to_string();
    assert_eq!(compute_specific_heat_loss(&input), Err(ValidationError::InvalidRoofMaterial));
    input.roof_material_type = String::new();
    assert_eq!(compute_specific_heat_loss(&input), Err(ValidationError::InvalidRoofMaterial));
}

#[test]
fn unknown_wall_material_is_rejected() {
    let mut input = example();
    input.wall_material_type = "asphalt".to_string();
    assert_eq!(compute_specific_heat_loss(&input), Err(ValidationError::InvalidWallMaterial));
    input.roof_material_type = "wood".to_string();
    input.wall_material_type = "brick".to_string();
    assert_eq!(compute_specific_heat_loss(&input), Err(ValidationError::InvalidWallMaterial));
}

#[test]
fn unknown_insulation_rating_is_rejected() {
    let mut input = example();
    input.insulation_r_value = "R19".to_string();
    assert_eq!(compute_specific_heat_loss(&input), Err(ValidationError::InvalidInsulationRating));
}

#[test]
fn the_first_unknown_name_is_reported() {
    let mut input = example();
    input.roof_material_type = "slate".to_string();
    input.wall_material_type = "brick".to_string();
    input.insulation_r_value = "R19".to_string();
    assert_eq!(compute_specific_heat_loss(&input), Err(ValidationError::InvalidRoofMaterial));
    input.roof_material_type = "asphalt".to_string();
    assert_eq!(compute_specific_heat_loss(&input), Err(ValidationError::InvalidWallMaterial));
    input.wall_material_type = "wood".to_string();
    assert_eq!(compute_specific_heat_loss(&input), Err(ValidationError::InvalidInsulationRating));
    input.insulation_r_value = "R13-R15".to_string();
    assert!(compute_specific_heat_loss(&input).is_ok());
}

#[test]
fn error_messages() {
    assert_eq!(ValidationError::InvalidRoofMaterial.message(), "Invalid roof material type");
    assert_eq!(ValidationError::InvalidWallMaterial.message(), "Invalid wall material type");
    assert_eq!(ValidationError::InvalidInsulationRating.message(), "Invalid insulation R-value");
}

#[test]
fn resolve_envelope_of_the_example() {
    assert_eq!(
        resolve_envelope(&example()),
        Ok(Envelope {
            roof: MaterialProperties { thermal_conductivity: 200, thickness: 5 },
            wall: MaterialProperties { thermal_conductivity: 120, thickness: 100 },
            insulation_r_value_si: 2_465_540,
        })
    );
}

#[test]
fn resolve_envelope_with_a_wooden_roof() {
    let mut input = example();
    input.roof_material_type = "wood".to_string();
    assert_eq!(
        resolve_envelope(&input),
        Ok(Envelope {
            roof: MaterialProperties { thermal_conductivity: 80, thickness: 10 },
            wall: MaterialProperties { thermal_conductivity: 120, thickness: 100 },
            insulation_r_value_si: 2_465_540,
        })
    );
}

#[test]
fn resolve_envelope_errors() {
    let mut input = example();
    input.insulation_r_value = "none".to_string();
    assert_eq!(resolve_envelope(&input), Err(ValidationError::InvalidInsulationRating));
    input.wall_material_type = "stone".to_string();
    assert_eq!(resolve_envelope(&input), Err(ValidationError::InvalidWallMaterial));
    input.roof_material_type = "thatch".to_string();
    assert_eq!(resolve_envelope(&input), Err(ValidationError::InvalidRoofMaterial));
}

#[test]
fn wooden_roof_energy_and_cost() {
    let mut input = example();
    input.roof_material_type = "wood".to_string();
    let result = compute_specific_heat_loss(&input).unwrap();
    assert_eq!(
        result.q_total_kwh,
        Exact {
            negative: false,
            numerator: small(21_027_659_193_123_840_000_000_000_000),
            denominator: small(738_362_591_274_240_000_000_000_000),
        }
    );
    assert_eq!(
        result.total_cost,
        Exact {
            negative: false,
            numerator: small(2_523_319_103_174_860_800_000_000_000_000),
            denominator: small(738_362_591_274_240_000_000_000_000_000),
        }
    );
    let (cost, kwh) = in_floats(1800.0, 1500.0, (0.08, 0.01), (0.12, 0.1), 50.0, 70.0, 24, 0.12);
    assert!((to_f64(&result.q_total_kwh) - kwh).abs() < 1e-9);
    assert!((to_f64(&result.total_cost) - cost).abs() < 1e-9);
}

#[test]
fn heat_loss_through_the_example_roof() {
    let asphalt = roof_material("asphalt").unwrap();
    let q = calculate_heat_loss(1_800_000, 70_000, 50_000, &asphalt, 2_465_540);
    assert_eq!(
        q,
        Exact {
            negative: false,
            numerator: small(3_344_508_000_000_000_000),
            denominator: small(4_482_972_000_000_000),
        }
    );
    let area_m2 = 1800.0 * 0.092903;
    let delta = 20.0 / 1.8;
    let expected = area_m2 * delta / (0.005 / 0.2 + 2.46554);
    assert!((to_f64(&q) - expected).abs() < 1e-9);
    assert!((to_f64(&q) - 746.0470420069544).abs() < 1e-9);
}

#[test]
fn heat_loss_through_the_example_walls() {
    let wood = wall_material("wood").unwrap();
    let q = calculate_heat_loss(1_500_000, 70_000, 50_000, &wood, 2_465_540);
    assert_eq!(
        q,
        Exact {
            negative: false,
            numerator: small(1_672_254_000_000_000_000),
            denominator: small(3_562_783_200_000_000),
        }
    );
    assert!((to_f64(&q) - 469.36731934741357).abs() < 1e-9);
}

#[test]
fn heat_loss_without_insulation() {
    let material = MaterialProperties { thermal_conductivity: 1_000, thickness: 1_000 };
    let q = calculate_heat_loss(1_000, 1_800, 0, &material, 0);
    assert_eq!(
        q,
        Exact {
            negative: false,
            numerator: small(836_127_000_000_000),
            denominator: small(9_000_000_000_000_000),
        }
    );
    assert!((to_f64(&q) - 0.092903).abs() < 1e-12);
}

#[test]
fn heat_loss_into_a_colder_room() {
    let asphalt = roof_material("asphalt").unwrap();
    let q = calculate_heat_loss(1_800_000, 50_000, 70_000, &asphalt, 2_465_540);
    assert_eq!(
        q,
        Exact {
            negative: true,
            numerator: small(3_344_508_000_000_000_000),
            denominator: small(4_482_972_000_000_000),
        }
    );
}

#[test]
fn heat_loss_through_no_surface() {
    let asphalt = roof_material("asphalt").unwrap();
    let q = calculate_heat_loss(0, 50_000, 70_000, &asphalt, 2_465_540);
    assert_eq!(
        q,
        Exact { negative: false, numerator: small(0), denominator: small(4_482_972_000_000_000) }
    );
}

#[test]
fn longer_duration_loses_more() {
    let mut input = example();
    let day = compute_specific_heat_loss(&input).unwrap();
    input.duration_hours = 25;
    let longer = compute_specific_heat_loss(&input).unwrap();
    assert_eq!(day.q_total_kwh.denominator, longer.q_total_kwh.denominator);
    assert_eq!(day.total_cost.denominator, longer.total_cost.denominator);
    assert!(!day.q_total_kwh.negative && !longer.q_total_kwh.negative);
    assert!(day.q_total_kwh.numerator.lo < longer.q_total_kwh.numerator.lo);
    assert!(day.total_cost.numerator.lo < longer.total_cost.numerator.lo);
    assert_eq!(day.q_total_kwh.numerator.hi, 0);
    assert_eq!(longer.q_total_kwh.numerator.hi, 0);
    assert!(to_f64(&day.q_total_kwh) < to_f64(&longer.q_total_kwh));
    assert!(to_f64(&day.total_cost) < to_f64(&longer.total_cost));
}

#[test]
fn twice_the_duration_twice_the_energy() {
    let mut input = example();
    input.duration_hours = 48;
    let two_days = compute_specific_heat_loss(&input).unwrap();
    assert_eq!(two_days.q_total_kwh.numerator, small(2 * 51_766_466_062_809_600_000_000_000_000));
    assert_eq!(two_days.q_total_kwh.denominator, small(1_774_650_814_185_600_000_000_000_000));
}

#[test]
fn higher_price_costs_more_for_the_same_energy() {
    let mut input = example();
    let base = compute_specific_heat_loss(&input).unwrap();
    input.electricity_cost_per_kwh = 121;
    let dearer = compute_specific_heat_loss(&input).unwrap();
    assert_eq!(base.q_total_kwh, dearer.q_total_kwh);
    assert_eq!(base.total_cost.denominator, dearer.total_cost.denominator);
    assert!(base.total_cost.numerator.lo < dearer.total_cost.numerator.lo);
    assert!(to_f64(&base.total_cost) < to_f64(&dearer.total_cost));
}

#[test]
fn free_electricity_costs_nothing() {
    let mut input = example();
    input.electricity_cost_per_kwh = 0;
    let result = compute_specific_heat_loss(&input).unwrap();
    assert!(!result.total_cost.negative);
    assert_eq!(result.total_cost.numerator, small(0));
    assert_eq!(result.q_total_kwh.numerator, small(51_766_466_062_809_600_000_000_000_000));
}

#[test]
fn swapped_temperatures_change_the_sign() {
    let mut input = example();
    let outward = compute_specific_heat_loss(&input).unwrap();
    input.ambient_temp_f = 70_000;
    input.t_inside_f = 50_000;
    let inward = compute_specific_heat_loss(&input).unwrap();
    assert!(inward.q_total_kwh.negative);
    assert!(inward.total_cost.negative);
    assert_eq!(inward.q_total_kwh.numerator, outward.q_total_kwh.numerator);
    assert_eq!(inward.q_total_kwh.denominator, outward.q_total_kwh.denominator);
    assert_eq!(inward.total_cost.numerator, outward.total_cost.numerator);
    assert_eq!(inward.total_cost.denominator, outward.total_cost.denominator);
    assert_eq!(to_f64(&inward.q_total_kwh), -to_f64(&outward.q_total_kwh));
    assert_eq!(to_f64(&inward.total_cost), -to_f64(&outward.total_cost));
    assert_eq!(delta_t_c(50_000, 70_000).numerator, delta_t_c(70_000, 50_000).numerator);
    assert!(delta_t_c(50_000, 70_000).negative);
}

#[test]
fn zero_duration_is_zero_energy_and_cost() {
    let mut input = example();
    input.duration_hours = 0;
    let result = compute_specific_heat_loss(&input).unwrap();
    assert_eq!(result.q_total_kwh.numerator, small(0));
    assert_eq!(result.total_cost.numerator, small(0));
    assert!(!result.q_total_kwh.negative);
    assert!(!result.total_cost.negative);
    assert_eq!(to_f64(&result.q_total_kwh), 0.0);
    assert_eq!(to_f64(&result.total_cost), 0.0);
    input.ambient_temp_f = 90_000;
    let warm = compute_specific_heat_loss(&input).unwrap();
    assert_eq!(warm, result);
}

#[test]
fn equal_temperatures_lose_nothing() {
    let mut input = example();
    input.ambient_temp_f = input.t_inside_f;
    let result = compute_specific_heat_loss(&input).unwrap();
    assert_eq!(result.q_total_kwh.numerator, small(0));
    assert_eq!(result.total_cost.numerator, small(0));
    assert!(!result.q_total_kwh.negative);
}

#[test]
fn no_surface_loses_nothing() {
    let mut input = example();
    input.sqft_roof = 0;
    input.sqft_walls = 0;
    input.t_inside_f = 10_000;
    let result = compute_specific_heat_loss(&input).unwrap();
    assert_eq!(result.q_total_kwh.numerator, small(0));
    assert!(!result.q_total_kwh.negative);
    assert!(!result.total_cost.negative);
}

#[test]
fn largest_inputs() {
    let mut input = example();
    input.sqft_roof = u32::MAX;
    input.sqft_walls = u32::MAX;
    input.ambient_temp_f = i32::MIN;
    input.t_inside_f = i32::MAX;
    input.duration_hours = u64::MAX;
    input.electricity_cost_per_kwh = u32::MAX;
    let result = compute_specific_heat_loss(&input).unwrap();
    assert_eq!(
        result.q_total_kwh,
        Exact {
            negative: false,
            numerator: U256 {
                hi: 64_542_463_998_745_073,
                lo: 38_906_367_139_386_366_605_018_546_069_097_843_712,
            },
            denominator: small(1_774_650_814_185_600_000_000_000_000),
        }
    );
    assert_eq!(
        result.total_cost,
        Exact {
            negative: false,
            numerator: U256 {
                hi: 277_207_772_013_325_010_068_454_926,
                lo: 303_757_196_412_926_645_708_058_422_781_627_167_744,
            },
            denominator: small(1_774_650_814_185_600_000_000_000_000_000),
        }
    );
    input.ambient_temp_f = i32::MAX;
    input.t_inside_f = i32::MIN;
    let negated = compute_specific_heat_loss(&input).unwrap();
    assert!(negated.q_total_kwh.negative && negated.total_cost.negative);
    assert_eq!(negated.q_total_kwh.numerator, result.q_total_kwh.numerator);
    assert_eq!(negated.total_cost.numerator, result.total_cost.numerator);
}

#[test]
fn evaluate_with_the_largest_envelope() {
    let mut input = example();
    input.sqft_roof = u32::MAX;
    input.sqft_walls = u32::MAX;
    input.ambient_temp_f = i32::MIN;
    input.t_inside_f = i32::MAX;
    input.duration_hours = u64::MAX;
    input.electricity_cost_per_kwh = u32::MAX;
    let most = MaterialProperties { thermal_conductivity: u16::MAX, thickness: u16::MAX };
    let envelope = Envelope { roof: most, wall: most, insulation_r_value_si: u32::MAX };
    let result = evaluate(&input, &envelope);
    assert_eq!(
        result.q_total_kwh,
        Exact {
            negative: false,
            numerator: U256 {
                hi: 17_141_045_673_119_469_857_553_811,
                lo: 304_554_710_980_657_056_186_173_309_819_440_684_934,
            },
            denominator: U256 { hi: 2, lo: 32_799_037_869_492_122_191_871_360_761_463_577_088 },
        }
    );
    assert_eq!(
        result.total_cost,
        Exact {
            negative: false,
            numerator: U256 {
                hi: 73_620_230_568_149_383_665_931_930_791_632_124,
                lo: 473_038_103_201_154_110_254_524_258_578_243_706,
            },
            denominator: U256 {
                hi: 2_096,
                lo: 131_930_645_082_029_699_387_398_448_013_828_788_224,
            },
        }
    );
}

#[test]
fn evaluate_agrees_with_compute() {
    let input = example();
    let envelope = resolve_envelope(&input).unwrap();
    assert_eq!(Ok(evaluate(&input, &envelope)), compute_specific_heat_loss(&input));
}

#[test]
fn longer_duration_gains_more_when_it_is_warmer_outside() {
    let mut input = example();
    input.ambient_temp_f = 70_000;
    input.t_inside_f = 50_000;
    let day = compute_specific_heat_loss(&input).unwrap();
    input.duration_hours = 25;
    let longer = compute_specific_heat_loss(&input).unwrap();
    assert!(day.q_total_kwh.negative && longer.q_total_kwh.negative);
    assert!(day.q_total_kwh.numerator.lo < longer.q_total_kwh.numerator.lo);
    assert!(to_f64(&day.q_total_kwh) > to_f64(&longer.q_total_kwh));
    assert!(to_f64(&day.total_cost) > to_f64(&longer.total_cost));
}

#[test]
fn higher_price_of_nothing_is_nothing() {
    let mut input = example();
    input.duration_hours = 0;
    let base = compute_specific_heat_loss(&input).unwrap();
    input.electricity_cost_per_kwh = 1_000_000;
    let dearer = compute_specific_heat_loss(&input).unwrap();
    assert_eq!(base.total_cost, dearer.total_cost);
    assert_eq!(base.q_total_kwh, dearer.q_total_kwh);
}

#[test]
fn one_hour_at_one_per_kwh_costs_the_energy() {
    let mut input = example();
    input.duration_hours = 1;
    input.electricity_cost_per_kwh = 1_000;
    let result = compute_specific_heat_loss(&input).unwrap();
    assert_eq!(to_f64(&result.total_cost), to_f64(&result.q_total_kwh));
    let watts = 746.0470420069544 + 469.36731934741357;
    assert!((to_f64(&result.q_total_kwh) - watts / 1000.0).abs() < 1e-12);
}
