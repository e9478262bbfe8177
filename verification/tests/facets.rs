use xsd_parser::interpreter::variant_builder::{BuilderContext, ContentMode, TypeMode, VariantBuilder};
use xsd_parser::interpreter::error::InterpreterError;
use xsd_parser::models::ident::{Name, NamespaceId, SchemaId, TypeIdent};
use xsd_parser::models::meta::{
    Constrains, FormChoiceType, MetaTypeVariant, MetaTypes, SimpleMeta, ValueBound, WhiteSpace,
};
use xsd_parser::models::schema::Facet;
use xsd_parser::renderer::validation::{
    plan_validate_str, plan_validate_value, MaxLengthCheck, MinLengthCheck, RangeCheck,
    StrValidation, ValueValidation,
};

fn context() -> BuilderContext {
    BuilderContext {
        types: MetaTypes::new(),
        current_ns: NamespaceId(2),
        element_form_default: FormChoiceType::Qualified,
        schema_id: SchemaId(1),
        next_content_id: 1,
    }
}

/// Builds a simple type restricting `base` by the facets `facets` and returns its constrains.
fn restrict(base: &str, facets: Vec<Facet>, is_hex_binary: bool) -> Constrains {
    let mut ctx = context();
    let mut builder = VariantBuilder::new();
    builder.type_mode = TypeMode::Simple;
    builder.content_mode = ContentMode::Simple;
    builder.variant = Some(MetaTypeVariant::SimpleType(SimpleMeta::new(TypeIdent::new(
        Name::from_str(base),
    ))));
    for f in &facets {
        builder.apply_facet(&mut ctx, f, is_hex_binary).unwrap();
    }
    match builder.variant {
        Some(MetaTypeVariant::SimpleType(s)) => s.constrains,
        _ => panic!("expected a simple type"),
    }
}

fn negative_decimal() -> Constrains {
    restrict(
        "decimal",
        vec![
            Facet::MinInclusive("-999999999.99".to_string()),
            Facet::MaxExclusive("0".to_string()),
            Facet::FractionDigits("2".to_string()),
        ],
        false,
    )
}

fn positive_decimal() -> Constrains {
    restrict(
        "decimal",
        vec![
            Facet::MinExclusive("0".to_string()),
            Facet::MaxInclusive("999999999.99".to_string()),
            Facet::FractionDigits("2".to_string()),
        ],
        false,
    )
}

fn restricted_string() -> Constrains {
    restrict(
        "string",
        vec![
            Facet::WhiteSpace("collapse".to_string()),
            Facet::Pattern("[A-Z][a-z]{4,9}".to_string()),
            Facet::MinLength("5".to_string()),
            Facet::MaxLength("10".to_string()),
        ],
        false,
    )
}

fn nonce_type() -> Constrains {
    restrict("hexBinary", vec![Facet::Length("16".to_string())], true)
}

/// Runs the range checks of `plan` on `value` as the rendered `validate_value` does.
fn check_range(plan: &ValueValidation, value: f64) -> Result<(), String> {
    for check in [&plan.range_start, &plan.range_end].into_iter().flatten() {
        match check {
            RangeCheck::LessThan(b) if value < b.parse::<f64>().unwrap() => {
                return Err(format!("LessThan({b})"))
            }
            RangeCheck::LessEqualThan(b) if value <= b.parse::<f64>().unwrap() => {
                return Err(format!("LessEqualThan({b})"))
            }
            RangeCheck::GraterThan(b) if value > b.parse::<f64>().unwrap() => {
                return Err(format!("GraterThan({b})"))
            }
            RangeCheck::GraterEqualThan(b) if value >= b.parse::<f64>().unwrap() => {
                return Err(format!("GraterEqualThan({b})"))
            }
            _ => {}
        }
    }
    Ok(())
}

/// Runs the length checks of `plan` on a value of length `len` as the rendered
/// `validate_value` does.
fn check_length(plan: &ValueValidation, len: usize) -> Result<(), String> {
    match plan.min_length {
        Some(MinLengthCheck::IsEmpty) if len == 0 => return Err("MinLength(1)".to_string()),
        Some(MinLengthCheck::LenLessThan { min, factor }) if len < min * factor => {
            return Err(format!("MinLength({min})"))
        }
        _ => {}
    }
    match plan.max_length {
        Some(MaxLengthCheck::NotEmpty) if len != 0 => return Err("MaxLength(0)".to_string()),
        Some(MaxLengthCheck::LenGreaterThan { max, factor }) if len > max * factor => {
            return Err(format!("MaxLength({max})"))
        }
        _ => {}
    }
    Ok(())
}

/// Runs the digit checks of `plan` on the textual value `s`.
fn check_digits(plan: &StrValidation, s: &str) -> Result<(), String> {
    if let Some(max) = plan.fraction_digits {
        let fraction = s.split_once('.').map(|(_, f)| f.len()).unwrap_or(0);
        if fraction > max {
            return Err(format!("FractionDigits({max})"));
        }
    }
    Ok(())
}

#[test]
fn read_quick_xml() {
    // The values of the example document, as they are read and validated.
    let negative = negative_decimal();
    let str_plan = plan_validate_str(&negative).unwrap();
    let value_plan = plan_validate_value(&negative).unwrap();
    assert_eq!(check_digits(&str_plan, "-1234.56"), Ok(()));
    assert_eq!(check_range(&value_plan, -1234.56_f64), Ok(()));

    let positive = positive_decimal();
    let str_plan = plan_validate_str(&positive).unwrap();
    let value_plan = plan_validate_value(&positive).unwrap();
    assert_eq!(check_digits(&str_plan, "0.01"), Ok(()));
    assert_eq!(check_range(&value_plan, 0.01_f64), Ok(()));

    let restricted = restricted_string();
    assert!(matches!(restricted.whitespace, WhiteSpace::Collapse));
    let str_plan = plan_validate_str(&restricted).unwrap();
    assert_eq!(str_plan.patterns.len(), 1);
    assert_eq!(str_plan.patterns[0].0, "[A-Z][a-z]{4,9}");
    assert_eq!(str_plan.patterns[0].1, "^(?:[A-Z][a-z]{4,9})$");
    let value_plan = plan_validate_value(&restricted).unwrap();
    assert_eq!(check_length(&value_plan, "Abcdef".len()), Ok(()));

    let nonce = nonce_type();
    assert!(plan_validate_str(&nonce).is_none());
    let value_plan = plan_validate_value(&nonce).unwrap();
    assert_eq!(check_length(&value_plan, "a1f3e8b2c9d4f6e7a2b3c4d5e6f7a8b9".len()), Ok(()));
}

#[test]
fn write_quick_xml() {
    // The values that are written; constructing them runs `validate_value`.
    let negative = plan_validate_value(&negative_decimal()).unwrap();
    assert_eq!(check_range(&negative, -1234.56_f64), Ok(()));
    let positive = plan_validate_value(&positive_decimal()).unwrap();
    assert_eq!(check_range(&positive, 0.011_f64), Ok(()));
    let restricted = plan_validate_value(&restricted_string()).unwrap();
    assert_eq!(check_length(&restricted, String::from("Abcdef").len()), Ok(()));
    let nonce = plan_validate_value(&nonce_type()).unwrap();
    assert_eq!(
        check_length(&nonce, String::from("a1f3e8b2c9d4f6e7a2b3c4d5e6f7a8b9").len()),
        Ok(())
    );
}

#[test]
fn facet_plans_match_rendered_checks() {
    let negative = plan_validate_value(&negative_decimal()).unwrap();
    assert!(matches!(&negative.range_start, Some(RangeCheck::LessThan(b)) if b == "-999999999.99"));
    assert!(matches!(&negative.range_end, Some(RangeCheck::GraterEqualThan(b)) if b == "0"));
    assert_eq!(check_range(&negative, 0.0), Err("GraterEqualThan(0)".to_string()));
    assert_eq!(
        check_range(&negative, -1_000_000_000.0),
        Err("LessThan(-999999999.99)".to_string())
    );

    let positive = plan_validate_value(&positive_decimal()).unwrap();
    assert!(matches!(&positive.range_start, Some(RangeCheck::LessEqualThan(b)) if b == "0"));
    assert!(matches!(&positive.range_end, Some(RangeCheck::GraterThan(b)) if b == "999999999.99"));
    assert_eq!(check_range(&positive, 0.0), Err("LessEqualThan(0)".to_string()));

    let str_plan = plan_validate_str(&positive_decimal()).unwrap();
    assert_eq!(str_plan.fraction_digits, Some(2));
    assert_eq!(check_digits(&str_plan, "0.011"), Err("FractionDigits(2)".to_string()));

    let restricted = plan_validate_value(&restricted_string()).unwrap();
    assert_eq!(restricted.min_length, Some(MinLengthCheck::LenLessThan { min: 5, factor: 1 }));
    assert_eq!(restricted.max_length, Some(MaxLengthCheck::LenGreaterThan { max: 10, factor: 1 }));
    assert_eq!(check_length(&restricted, 4), Err("MinLength(5)".to_string()));
    assert_eq!(check_length(&restricted, 11), Err("MaxLength(10)".to_string()));

    let nonce = plan_validate_value(&nonce_type()).unwrap();
    assert_eq!(nonce.min_length, Some(MinLengthCheck::LenLessThan { min: 16, factor: 2 }));
    assert_eq!(nonce.max_length, Some(MaxLengthCheck::LenGreaterThan { max: 16, factor: 2 }));
    assert_eq!(check_length(&nonce, 31), Err("MinLength(16)".to_string()));
}

#[test]
fn invalid_facet_values_are_refused() {
    let mut ctx = context();
    let mut builder = VariantBuilder::new();
    builder.type_mode = TypeMode::Simple;
    builder.variant = Some(MetaTypeVariant::SimpleType(SimpleMeta::new(TypeIdent::new(
        Name::from_str("string"),
    ))));
    assert!(builder.apply_facet(&mut ctx, &Facet::MinLength("five".to_string()), false).is_err());
    assert!(builder.apply_facet(&mut ctx, &Facet::WhiteSpace("keep".to_string()), false).is_err());
    assert!(builder.apply_facet(&mut ctx, &Facet::WhiteSpace("PRESERVE".to_string()), false).is_ok());
    assert!(builder.apply_facet(&mut ctx, &Facet::Assertion("$value > 0".to_string()), false).is_ok());
    match &builder.variant {
        Some(MetaTypeVariant::SimpleType(s)) => {
            assert!(s.constrains.min_length.is_none());
            assert!(matches!(s.constrains.whitespace, WhiteSpace::Preserve));
            assert!(matches!(s.constrains.range.start, ValueBound::Unbounded));
        }
        _ => panic!("expected a simple type"),
    }
}

#[test]
fn invalid_facet_error_holds_the_facet() {
    let mut ctx = context();
    let mut builder = VariantBuilder::new();
    builder.type_mode = TypeMode::Simple;
    builder.variant = Some(MetaTypeVariant::SimpleType(SimpleMeta::new(TypeIdent::new(
        Name::from_str("string"),
    ))));
    let r = builder.apply_simple_type_facet(&mut ctx, &Facet::TotalDigits("-1".to_string()), false);
    assert!(matches!(r, Err(InterpreterError::InvalidFacet(Facet::TotalDigits(v))) if v == "-1"));
    let r = builder.apply_facet(&mut ctx, &Facet::WhiteSpace("keep".to_string()), false);
    assert!(matches!(r, Err(InterpreterError::InvalidFacet(Facet::WhiteSpace(v))) if v == "keep"));
    assert!(builder.apply_simple_type_facet(&mut ctx, &Facet::WhiteSpace("COLLAPSE".to_string()), false).is_ok());
}
