use zephyrus::parse::{parse, ArgType, Direction, Narrow, ParseError, Parsed};
use zephyrus::value::{ChannelId, GenericId, OptionType, RoleId, UserId, Value};

fn narrowed(target: Narrow, value: i64) -> Result<Parsed, ParseError> {
    parse(&ArgType::Narrowed(target), Some(&Value::Integer(value)))
}

#[test]
fn i8_accepts_its_maximum() {
    assert_eq!(narrowed(Narrow::I8, 127), Ok(Parsed::I8(127)));
}

#[test]
fn i8_rejects_above_its_maximum() {
    assert_eq!(
        narrowed(Narrow::I8, 128),
        Err(ParseError::RangeError(Narrow::I8, Direction::AboveMax))
    );
}

#[test]
fn i8_rejects_below_its_minimum() {
    assert_eq!(
        narrowed(Narrow::I8, -129),
        Err(ParseError::RangeError(Narrow::I8, Direction::BelowMin))
    );
}

#[test]
fn i8_accepts_its_minimum() {
    assert_eq!(narrowed(Narrow::I8, -128), Ok(Parsed::I8(-128)));
}

#[test]
fn optional_integer_against_a_string_is_absent() {
    let ty = ArgType::Optional(Box::new(ArgType::Integer));
    let value = Value::String("seven".to_string());
    assert_eq!(parse(&ty, Some(&value)), Ok(Parsed::Optional(None)));
}

#[test]
fn optional_integer_against_an_integer_is_present() {
    let ty = ArgType::Optional(Box::new(ArgType::Integer));
    assert_eq!(
        parse(&ty, Some(&Value::Integer(7))),
        Ok(Parsed::Optional(Some(Box::new(Parsed::I64(7)))))
    );
}

#[test]
fn optional_integer_against_nothing_is_absent() {
    let ty = ArgType::Optional(Box::new(ArgType::Integer));
    assert_eq!(parse(&ty, None), Ok(Parsed::Optional(None)));
}

#[test]
fn fallible_integer_against_a_malformed_value_wraps_the_error() {
    let ty = ArgType::Fallible(Box::new(ArgType::Integer));
    let value = Value::Boolean(true);
    assert_eq!(
        parse(&ty, Some(&value)),
        Ok(Parsed::Fallible(Err(ParseError::TypeMismatch(OptionType::Integer))))
    );
}

#[test]
fn fallible_integer_against_an_integer_wraps_the_value() {
    let ty = ArgType::Fallible(Box::new(ArgType::Integer));
    assert_eq!(
        parse(&ty, Some(&Value::Integer(-3))),
        Ok(Parsed::Fallible(Ok(Box::new(Parsed::I64(-3)))))
    );
}

#[test]
fn fallible_narrowed_wraps_the_range_error() {
    let ty = ArgType::Fallible(Box::new(ArgType::Narrowed(Narrow::U16)));
    assert_eq!(
        parse(&ty, Some(&Value::Integer(65536))),
        Ok(Parsed::Fallible(Err(ParseError::RangeError(Narrow::U16, Direction::AboveMax))))
    );
}

#[test]
fn plain_types_accept_their_own_variant() {
    assert_eq!(
        parse(&ArgType::String, Some(&Value::String("hello".to_string()))),
        Ok(Parsed::String("hello".to_string()))
    );
    assert_eq!(parse(&ArgType::Integer, Some(&Value::Integer(i64::MIN))), Ok(Parsed::I64(i64::MIN)));
    assert_eq!(parse(&ArgType::Boolean, Some(&Value::Boolean(true))), Ok(Parsed::Bool(true)));
    assert_eq!(
        parse(&ArgType::Number, Some(&Value::Number(1.5f64.to_bits()))),
        Ok(Parsed::F64(1.5f64.to_bits()))
    );
    assert_eq!(
        parse(&ArgType::Channel, Some(&Value::Channel(ChannelId(11)))),
        Ok(Parsed::Channel(ChannelId(11)))
    );
    assert_eq!(parse(&ArgType::User, Some(&Value::User(UserId(12)))), Ok(Parsed::User(UserId(12))));
    assert_eq!(parse(&ArgType::Role, Some(&Value::Role(RoleId(13)))), Ok(Parsed::Role(RoleId(13))));
    assert_eq!(
        parse(&ArgType::Mentionable, Some(&Value::Mentionable(GenericId(14)))),
        Ok(Parsed::Mentionable(GenericId(14)))
    );
}

#[test]
fn plain_types_reject_other_variants_and_absence() {
    let wrong = Value::Boolean(false);
    let cases = [
        (ArgType::String, OptionType::String),
        (ArgType::Integer, OptionType::Integer),
        (ArgType::Unsigned, OptionType::Integer),
        (ArgType::Number, OptionType::Number),
        (ArgType::Channel, OptionType::Channel),
        (ArgType::User, OptionType::User),
        (ArgType::Role, OptionType::Role),
        (ArgType::Mentionable, OptionType::Mentionable),
        (ArgType::Narrowed(Narrow::I16), OptionType::Integer),
        (ArgType::Narrowed(Narrow::U32), OptionType::Integer),
        (ArgType::Narrowed(Narrow::F32), OptionType::Number),
    ];
    for (ty, expected) in cases {
        assert_eq!(parse(&ty, Some(&wrong)), Err(ParseError::TypeMismatch(expected)));
        assert_eq!(parse(&ty, None), Err(ParseError::TypeMismatch(expected)));
    }
    assert_eq!(
        parse(&ArgType::Boolean, Some(&Value::Integer(1))),
        Err(ParseError::TypeMismatch(OptionType::Boolean))
    );
    assert_eq!(parse(&ArgType::Boolean, None), Err(ParseError::TypeMismatch(OptionType::Boolean)));
}

#[test]
fn user_id_is_not_a_mentionable() {
    assert_eq!(
        parse(&ArgType::Mentionable, Some(&Value::User(UserId(1)))),
        Err(ParseError::TypeMismatch(OptionType::Mentionable))
    );
}

#[test]
fn unsigned_keeps_the_bits_of_a_negative_integer() {
    assert_eq!(parse(&ArgType::Unsigned, Some(&Value::Integer(-1))), Ok(Parsed::U64(u64::MAX)));
    assert_eq!(
        parse(&ArgType::Unsigned, Some(&Value::Integer(i64::MIN))),
        Ok(Parsed::U64(1u64 << 63))
    );
    assert_eq!(parse(&ArgType::Unsigned, Some(&Value::Integer(42))), Ok(Parsed::U64(42)));
    assert_eq!(zephyrus::parse::to_unsigned(-2), (-2i64) as u64);
}

#[test]
fn negative_integer_is_above_the_range_of_u8() {
    assert_eq!(
        narrowed(Narrow::U8, -1),
        Err(ParseError::RangeError(Narrow::U8, Direction::AboveMax))
    );
}

#[test]
fn narrowed_integers_at_their_bounds() {
    assert_eq!(narrowed(Narrow::I16, 32767), Ok(Parsed::I16(32767)));
    assert_eq!(narrowed(Narrow::I16, -32768), Ok(Parsed::I16(-32768)));
    assert_eq!(
        narrowed(Narrow::I16, 32768),
        Err(ParseError::RangeError(Narrow::I16, Direction::AboveMax))
    );
    assert_eq!(
        narrowed(Narrow::I16, -32769),
        Err(ParseError::RangeError(Narrow::I16, Direction::BelowMin))
    );
    assert_eq!(narrowed(Narrow::I32, 2147483647), Ok(Parsed::I32(i32::MAX)));
    assert_eq!(
        narrowed(Narrow::I32, 2147483648),
        Err(ParseError::RangeError(Narrow::I32, Direction::AboveMax))
    );
    assert_eq!(
        narrowed(Narrow::I32, -2147483649),
        Err(ParseError::RangeError(Narrow::I32, Direction::BelowMin))
    );
    assert_eq!(narrowed(Narrow::U8, 255), Ok(Parsed::U8(255)));
    assert_eq!(narrowed(Narrow::U8, 0), Ok(Parsed::U8(0)));
    assert_eq!(
        narrowed(Narrow::U8, 256),
        Err(ParseError::RangeError(Narrow::U8, Direction::AboveMax))
    );
    assert_eq!(narrowed(Narrow::U16, 65535), Ok(Parsed::U16(65535)));
    assert_eq!(narrowed(Narrow::U32, 4294967295), Ok(Parsed::U32(u32::MAX)));
    assert_eq!(
        narrowed(Narrow::U32, 4294967296),
        Err(ParseError::RangeError(Narrow::U32, Direction::AboveMax))
    );
}

#[test]
fn wide_integers_take_every_value() {
    assert_eq!(narrowed(Narrow::I128, i64::MAX), Ok(Parsed::I128(i64::MAX as i128)));
    assert_eq!(narrowed(Narrow::I128, i64::MIN), Ok(Parsed::I128(i64::MIN as i128)));
    assert_eq!(narrowed(Narrow::I128, 0), Ok(Parsed::I128(0)));
    assert_eq!(narrowed(Narrow::U128, -1), Ok(Parsed::U128(u64::MAX as u128)));
    assert_eq!(narrowed(Narrow::U128, 5), Ok(Parsed::U128(5)));
}

#[test]
fn pointer_sized_integers_follow_the_machine() {
    assert_eq!(narrowed(Narrow::Isize, -5), Ok(Parsed::Isize(-5)));
    assert_eq!(narrowed(Narrow::Usize, 5), Ok(Parsed::Usize(5)));
    let wide = i64::MAX;
    if (isize::MAX as i128) < (wide as i128) {
        assert_eq!(
            narrowed(Narrow::Isize, wide),
            Err(ParseError::RangeError(Narrow::Isize, Direction::AboveMax))
        );
    } else {
        assert_eq!(narrowed(Narrow::Isize, wide), Ok(Parsed::Isize(wide as isize)));
    }
}

fn as_f32(value: f64) -> Result<Parsed, ParseError> {
    parse(&ArgType::Narrowed(Narrow::F32), Some(&Value::Number(value.to_bits())))
}

fn expected_f32(value: f64) -> Result<Parsed, ParseError> {
    if value > f32::MAX as f64 {
        Err(ParseError::RangeError(Narrow::F32, Direction::AboveMax))
    } else if value < f32::MIN as f64 {
        Err(ParseError::RangeError(Narrow::F32, Direction::BelowMin))
    } else {
        Ok(Parsed::F32(value.to_bits()))
    }
}

#[test]
fn f32_range_check_agrees_with_float_comparison() {
    let samples = [
        0.0,
        -0.0,
        1.5,
        -1.5,
        f32::MAX as f64,
        f32::MIN as f64,
        f64::from_bits((f32::MAX as f64).to_bits() + 1),
        -f64::from_bits((f32::MAX as f64).to_bits() + 1),
        1e39,
        -1e39,
        f64::MAX,
        f64::MIN,
        f64::INFINITY,
        f64::NEG_INFINITY,
        f64::NAN,
        -f64::NAN,
        f64::MIN_POSITIVE,
        5e-324,
    ];
    for value in samples {
        assert_eq!(as_f32(value), expected_f32(value), "for {value}");
    }
}

#[test]
fn f32_exact_outcomes() {
    assert_eq!(as_f32(2.5), Ok(Parsed::F32(0x4004_0000_0000_0000)));
    assert_eq!(as_f32(1e39), Err(ParseError::RangeError(Narrow::F32, Direction::AboveMax)));
    assert_eq!(as_f32(-1e39), Err(ParseError::RangeError(Narrow::F32, Direction::BelowMin)));
    assert_eq!(zephyrus::parse::F32_MAX_BITS, (f32::MAX as f64).to_bits());
    assert_eq!(zephyrus::parse::INFINITY_BITS, f64::INFINITY.to_bits());
    assert_eq!(zephyrus::parse::SIGN_BIT, (-0.0f64).to_bits());
}

#[test]
fn required_and_wire_type_of_declared_types() {
    assert!(ArgType::String.is_required());
    assert!(!ArgType::Optional(Box::new(ArgType::String)).is_required());
    assert!(ArgType::Fallible(Box::new(ArgType::String)).is_required());
    assert!(!ArgType::Fallible(Box::new(ArgType::Optional(Box::new(ArgType::String)))).is_required());
    assert_eq!(ArgType::Optional(Box::new(ArgType::User)).option_type(), OptionType::User);
    assert_eq!(ArgType::Fallible(Box::new(ArgType::Role)).option_type(), OptionType::Role);
    assert_eq!(ArgType::Unsigned.option_type(), OptionType::Integer);
    assert_eq!(ArgType::Narrowed(Narrow::I8).option_type(), OptionType::Integer);
    assert_eq!(ArgType::Narrowed(Narrow::Usize).option_type(), OptionType::Integer);
    assert_eq!(ArgType::Narrowed(Narrow::F32).option_type(), OptionType::Number);
    assert_eq!(ArgType::Number.option_type(), OptionType::Number);
}
