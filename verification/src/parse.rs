//! Turning an untyped option value into the typed argument a command declares.

use crate::value::{ChannelId, GenericId, OptionType, RoleId, UserId, Value};
use vstd::prelude::*;
use vstd::string::StringExecFns;

verus! {

/// A numeric type narrower or wider than the 64-bit type it is parsed through.
#[derive(Clone, Copy, Debug, PartialEq, Eq, Structural)]
pub enum Narrow {
    I8,
    I16,
    I32,
    I128,
    Isize,
    U8,
    U16,
    U32,
    U128,
    Usize,
    F32,
}

/// On which side a value left the range of its target type.
#[derive(Clone, Copy, Debug, PartialEq, Eq, Structural)]
pub enum Direction {
    AboveMax,
    BelowMin,
}

/// Why an argument could not be parsed.
#[derive(Clone, Copy, Debug, PartialEq, Eq, Structural)]
pub enum ParseError {
    /// The value is missing or is not of the wire-level type named here.
    TypeMismatch(OptionType),
    /// The value does not fit the numeric type named here.
    RangeError(Narrow, Direction),
    /// Options were left over after every declared argument had taken its own.
    StructureMismatch,
}

/// The type a command declares for one of its arguments.
#[derive(Debug, PartialEq)]
pub enum ArgType {
    String,
    /// `i64`.
    Integer,
    /// `u64`, read from the signed wire integer by reinterpreting its bits.
    Unsigned,
    /// `f64`.
    Number,
    Boolean,
    Channel,
    User,
    Role,
    Mentionable,
    /// A numeric type parsed through its 64-bit counterpart and range-checked.
    Narrowed(Narrow),
    /// An argument that may be left out.
    Optional(Box<ArgType>),
    /// An argument whose parse failure is handed to the command.
    Fallible(Box<ArgType>),
}

/// A typed argument.
#[derive(Debug, PartialEq)]
pub enum Parsed {
    String(String),
    I64(i64),
    U64(u64),
    /// An `f64`, held as its IEEE 754 bit pattern.
    F64(u64),
    Bool(bool),
    Channel(ChannelId),
    User(UserId),
    Role(RoleId),
    Mentionable(GenericId),
    I8(i8),
    I16(i16),
    I32(i32),
    I128(i128),
    Isize(isize),
    U8(u8),
    U16(u16),
    U32(u32),
    U128(u128),
    Usize(usize),
    /// The bit pattern of an `f64` that lies in the range of `f32`, or is not
    /// a number; rounding it to `f32` is left to the caller.
    F32(u64),
    Optional(Option<Box<Parsed>>),
    Fallible(Result<Box<Parsed>, ParseError>),
}

/// The unsigned integer with the same 64 bits as `i`.
pub open spec fn reinterpret(i: i64) -> u64 {
    if i >= 0 {
        i as u64
    } else {
        (i + 0x1_0000_0000_0000_0000) as u64
    }
}

/// The bit pattern of the largest finite `f32`, as an `f64`.
pub const F32_MAX_BITS: u64 = 0x47EF_FFFF_E000_0000;

/// The bit pattern of positive infinity, as an `f64`; every larger magnitude
/// is not a number.
pub const INFINITY_BITS: u64 = 0x7FF0_0000_0000_0000;

/// The lowest bit pattern with the sign bit set.
pub const SIGN_BIT: u64 = 0x8000_0000_0000_0000;

/// The bit pattern of an `f64` without its sign bit. Among numbers, a larger
/// magnitude has a larger pattern.
pub open spec fn magnitude(bits: u64) -> int {
    if bits >= SIGN_BIT {
        bits - SIGN_BIT
    } else {
        bits as int
    }
}

/// Whether the `f64` with this bit pattern is a number whose magnitude is
/// larger than that of every finite `f32`.
pub open spec fn beyond_f32(bits: u64) -> bool {
    F32_MAX_BITS < magnitude(bits) <= INFINITY_BITS
}

impl Narrow {
    /// Whether values of this type are parsed through `i64`.
    pub open spec fn is_signed(self) -> bool {
        self is I8 || self is I16 || self is I32 || self is I128 || self is Isize
    }

    /// Whether values of this type are parsed through `u64`.
    pub open spec fn is_unsigned(self) -> bool {
        self is U8 || self is U16 || self is U32 || self is U128 || self is Usize
    }

    /// The least value of an integer type.
    pub open spec fn min(self) -> int {
        match self {
            Narrow::I8 => i8::MIN as int,
            Narrow::I16 => i16::MIN as int,
            Narrow::I32 => i32::MIN as int,
            Narrow::I128 => i128::MIN as int,
            Narrow::Isize => isize::MIN as int,
            _ => 0,
        }
    }

    /// The greatest value of an integer type.
    pub open spec fn max(self) -> int {
        match self {
            Narrow::I8 => i8::MAX as int,
            Narrow::I16 => i16::MAX as int,
            Narrow::I32 => i32::MAX as int,
            Narrow::I128 => i128::MAX as int,
            Narrow::Isize => isize::MAX as int,
            Narrow::U8 => u8::MAX as int,
            Narrow::U16 => u16::MAX as int,
            Narrow::U32 => u32::MAX as int,
            Narrow::U128 => u128::MAX as int,
            Narrow::Usize => usize::MAX as int,
            Narrow::F32 => 0,
        }
    }

    /// The integer `v`, which lies in the range of this type, as a value of
    /// this type.
    pub open spec fn cast(self, v: int) -> Parsed {
        match self {
            Narrow::I8 => Parsed::I8(v as i8),
            Narrow::I16 => Parsed::I16(v as i16),
            Narrow::I32 => Parsed::I32(v as i32),
            Narrow::I128 => Parsed::I128(v as i128),
            Narrow::Isize => Parsed::Isize(v as isize),
            Narrow::U8 => Parsed::U8(v as u8),
            Narrow::U16 => Parsed::U16(v as u16),
            Narrow::U32 => Parsed::U32(v as u32),
            Narrow::U128 => Parsed::U128(v as u128),
            Narrow::Usize => Parsed::Usize(v as usize),
            Narrow::F32 => Parsed::F32(v as u64),
        }
    }

    /// What checking the integer `v` against the range of this type gives.
    pub open spec fn check(self, v: int) -> Result<Parsed, ParseError> {
        if v > self.max() {
            Err(ParseError::RangeError(self, Direction::AboveMax))
        } else if v < self.min() {
            Err(ParseError::RangeError(self, Direction::BelowMin))
        } else {
            Ok(self.cast(v))
        }
    }

    /// What checking the `f64` with the given bit pattern against the range of
    /// `f32` gives.
    pub open spec fn check_number(bits: u64) -> Result<Parsed, ParseError> {
        if beyond_f32(bits) {
            if bits >= SIGN_BIT {
                Err(ParseError::RangeError(Narrow::F32, Direction::BelowMin))
            } else {
                Err(ParseError::RangeError(Narrow::F32, Direction::AboveMax))
            }
        } else {
            Ok(Parsed::F32(bits))
        }
    }
}

/// What parsing `raw` as a narrowed numeric type gives: the value is parsed
/// through the 64-bit type and then held against the range of the target.
pub open spec fn narrowed(target: Narrow, raw: Option<&Value>) -> Result<Parsed, ParseError> {
    if target is F32 {
        match raw {
            Some(Value::Number(bits)) => Narrow::check_number(*bits),
            _ => Err(ParseError::TypeMismatch(OptionType::Number)),
        }
    } else {
        match raw {
            Some(Value::Integer(i)) => if target.is_signed() {
                target.check(*i as int)
            } else {
                target.check(reinterpret(*i) as int)
            },
            _ => Err(ParseError::TypeMismatch(OptionType::Integer)),
        }
    }
}

/// What parsing `raw` as an argument of type `ty` gives.
///
/// A plain type accepts its own variant and nothing else, an absent value
/// included. An optional argument turns every failure of its inner type into
/// an absent argument. A fallible argument wraps both outcomes of its inner
/// type into a success.
pub open spec fn parsed(ty: ArgType, raw: Option<&Value>) -> Result<Parsed, ParseError>
    decreases ty,
{
    match ty {
        ArgType::String => match raw {
            Some(Value::String(s)) => Ok(Parsed::String(*s)),
            _ => Err(ParseError::TypeMismatch(OptionType::String)),
        },
        ArgType::Integer => match raw {
            Some(Value::Integer(i)) => Ok(Parsed::I64(*i)),
            _ => Err(ParseError::TypeMismatch(OptionType::Integer)),
        },
        ArgType::Unsigned => match raw {
            Some(Value::Integer(i)) => Ok(Parsed::U64(reinterpret(*i))),
            _ => Err(ParseError::TypeMismatch(OptionType::Integer)),
        },
        ArgType::Number => match raw {
            Some(Value::Number(bits)) => Ok(Parsed::F64(*bits)),
            _ => Err(ParseError::TypeMismatch(OptionType::Number)),
        },
        ArgType::Boolean => match raw {
            Some(Value::Boolean(b)) => Ok(Parsed::Bool(*b)),
            _ => Err(ParseError::TypeMismatch(OptionType::Boolean)),
        },
        ArgType::Channel => match raw {
            Some(Value::Channel(id)) => Ok(Parsed::Channel(*id)),
            _ => Err(ParseError::TypeMismatch(OptionType::Channel)),
        },
        ArgType::User => match raw {
            Some(Value::User(id)) => Ok(Parsed::User(*id)),
            _ => Err(ParseError::TypeMismatch(OptionType::User)),
        },
        ArgType::Role => match raw {
            Some(Value::Role(id)) => Ok(Parsed::Role(*id)),
            _ => Err(ParseError::TypeMismatch(OptionType::Role)),
        },
        ArgType::Mentionable => match raw {
            Some(Value::Mentionable(id)) => Ok(Parsed::Mentionable(*id)),
            _ => Err(ParseError::TypeMismatch(OptionType::Mentionable)),
        },
        ArgType::Narrowed(target) => narrowed(target, raw),
        ArgType::Optional(inner) => match parsed(*inner, raw) {
            Ok(value) => Ok(Parsed::Optional(Some(Box::new(value)))),
            Err(_) => Ok(Parsed::Optional(None)),
        },
        ArgType::Fallible(inner) => match parsed(*inner, raw) {
            Ok(value) => Ok(Parsed::Fallible(Ok(Box::new(value)))),
            Err(error) => Ok(Parsed::Fallible(Err(error))),
        },
    }
}

impl Narrow {
    /// The name of this type.
    pub open spec fn label(self) -> Seq<char> {
        match self {
            Narrow::I8 => "i8"@,
            Narrow::I16 => "i16"@,
            Narrow::I32 => "i32"@,
            Narrow::I128 => "i128"@,
            Narrow::Isize => "isize"@,
            Narrow::U8 => "u8"@,
            Narrow::U16 => "u16"@,
            Narrow::U32 => "u32"@,
            Narrow::U128 => "u128"@,
            Narrow::Usize => "usize"@,
            Narrow::F32 => "f32"@,
        }
    }

    /// The name of this type.
    pub fn name(&self) -> (r: &'static str)
        ensures
            r@ == self.label(),
    {
        match self {
            Narrow::I8 => "i8",
            Narrow::I16 => "i16",
            Narrow::I32 => "i32",
            Narrow::I128 => "i128",
            Narrow::Isize => "isize",
            Narrow::U8 => "u8",
            Narrow::U16 => "u16",
            Narrow::U32 => "u32",
            Narrow::U128 => "u128",
            Narrow::Usize => "usize",
            Narrow::F32 => "f32",
        }
    }
}

impl ParseError {
    /// The text that describes this error.
    pub open spec fn text(self) -> Seq<char> {
        match self {
            ParseError::TypeMismatch(expected) => expected.label() + " expected"@,
            ParseError::RangeError(target, direction) => "Failed to parse to "@ + target.label()
                + ": the value is "@ + (match direction {
                Direction::AboveMax => "greater"@,
                Direction::BelowMin => "less"@,
            }) + " than "@ + target.label() + "'s range of values"@,
            ParseError::StructureMismatch => "Too many arguments received"@,
        }
    }

    /// Describes this error: the kind that was expected, the type and the side
    /// of its range that a number missed, or that too many options came.
    pub fn message(&self) -> (r: String)
        ensures
            r@ == self.text(),
    {
        match self {
            ParseError::TypeMismatch(expected) => {
                let mut text = String::from_str(expected.name());
                text.append(" expected");
                text
            },
            ParseError::RangeError(target, direction) => {
                let mut text = String::from_str("Failed to parse to ");
                text.append(target.name());
                text.append(": the value is ");
                match direction {
                    Direction::AboveMax => text.append("greater"),
                    Direction::BelowMin => text.append("less"),
                }
                text.append(" than ");
                text.append(target.name());
                text.append("'s range of values");
                text
            },
            ParseError::StructureMismatch => String::from_str("Too many arguments received"),
        }
    }
}

impl ArgType {
    /// Whether an argument of this type has to be given: an optional argument
    /// does not, and a fallible one has to where its inner type has to.
    pub open spec fn required(self) -> bool
        decreases self,
    {
        match self {
            ArgType::Optional(_) => false,
            ArgType::Fallible(inner) => inner.required(),
            _ => true,
        }
    }

    /// The wire-level type that is advertised for an argument of this type.
    /// A narrowed type has that of the 64-bit type it is parsed through, and
    /// a wrapper has that of its inner type.
    pub open spec fn wire_type(self) -> OptionType
        decreases self,
    {
        match self {
            ArgType::String => OptionType::String,
            ArgType::Integer => OptionType::Integer,
            ArgType::Unsigned => OptionType::Integer,
            ArgType::Number => OptionType::Number,
            ArgType::Boolean => OptionType::Boolean,
            ArgType::Channel => OptionType::Channel,
            ArgType::User => OptionType::User,
            ArgType::Role => OptionType::Role,
            ArgType::Mentionable => OptionType::Mentionable,
            ArgType::Narrowed(target) => if target is F32 {
                OptionType::Number
            } else {
                OptionType::Integer
            },
            ArgType::Optional(inner) => inner.wire_type(),
            ArgType::Fallible(inner) => inner.wire_type(),
        }
    }

    /// Whether an argument of this type has to be given.
    pub fn is_required(&self) -> (r: bool)
        ensures
            r == self.required(),
        decreases self,
    {
        match self {
            ArgType::Optional(_) => false,
            ArgType::Fallible(inner) => inner.is_required(),
            _ => true,
        }
    }

    /// The wire-level type that is advertised for an argument of this type.
    pub fn option_type(&self) -> (r: OptionType)
        ensures
            r == self.wire_type(),
        decreases self,
    {
        match self {
            ArgType::String => OptionType::String,
            ArgType::Integer => OptionType::Integer,
            ArgType::Unsigned => OptionType::Integer,
            ArgType::Number => OptionType::Number,
            ArgType::Boolean => OptionType::Boolean,
            ArgType::Channel => OptionType::Channel,
            ArgType::User => OptionType::User,
            ArgType::Role => OptionType::Role,
            ArgType::Mentionable => OptionType::Mentionable,
            ArgType::Narrowed(target) => match target {
                Narrow::F32 => OptionType::Number,
                _ => OptionType::Integer,
            },
            ArgType::Optional(inner) => inner.option_type(),
            ArgType::Fallible(inner) => inner.option_type(),
        }
    }
}

/// Reads the signed wire integer as an unsigned one, keeping its bits.
pub fn to_unsigned(i: i64) -> (r: u64)
    ensures
        r == reinterpret(i),
{
    if i >= 0 {
        i as u64
    } else {
        u64::MAX - ((-(i + 1)) as u64)
    }
}

/// Holds a signed integer against the range of a type parsed through `i64`.
fn narrow_signed(target: Narrow, i: i64) -> (r: Result<Parsed, ParseError>)
    requires
        target.is_signed(),
    ensures
        r == target.check(i as int),
{
    let above = Err(ParseError::RangeError(target, Direction::AboveMax));
    let below = Err(ParseError::RangeError(target, Direction::BelowMin));
    match target {
        Narrow::I8 => if i > i8::MAX as i64 {
            above
        } else if i < i8::MIN as i64 {
            below
        } else {
            Ok(Parsed::I8(i as i8))
        },
        Narrow::I16 => if i > i16::MAX as i64 {
            above
        } else if i < i16::MIN as i64 {
            below
        } else {
            Ok(Parsed::I16(i as i16))
        },
        Narrow::I32 => if i > i32::MAX as i64 {
            above
        } else if i < i32::MIN as i64 {
            below
        } else {
            Ok(Parsed::I32(i as i32))
        },
        Narrow::Isize => if i > isize::MAX as i64 {
            above
        } else if i < isize::MIN as i64 {
            below
        } else {
            Ok(Parsed::Isize(i as isize))
        },
        _ => Ok(Parsed::I128(i as i128)),
    }
}

/// Holds an unsigned integer against the range of a type parsed through `u64`.
fn narrow_unsigned(target: Narrow, u: u64) -> (r: Result<Parsed, ParseError>)
    requires
        target.is_unsigned(),
    ensures
        r == target.check(u as int),
{
    let above = Err(ParseError::RangeError(target, Direction::AboveMax));
    match target {
        Narrow::U8 => if u > u8::MAX as u64 {
            above
        } else {
            Ok(Parsed::U8(u as u8))
        },
        Narrow::U16 => if u > u16::MAX as u64 {
            above
        } else {
            Ok(Parsed::U16(u as u16))
        },
        Narrow::U32 => if u > u32::MAX as u64 {
            above
        } else {
            Ok(Parsed::U32(u as u32))
        },
        Narrow::Usize => if u > usize::MAX as u64 {
            above
        } else {
            Ok(Parsed::Usize(u as usize))
        },
        _ => Ok(Parsed::U128(u as u128)),
    }
}

/// Holds the `f64` with the given bit pattern against the range of `f32`.
fn narrow_number(bits: u64) -> (r: Result<Parsed, ParseError>)
    ensures
        r == Narrow::check_number(bits),
{
    let negative = bits >= SIGN_BIT;
    let magnitude = if negative {
        bits - SIGN_BIT
    } else {
        bits
    };
    if F32_MAX_BITS < magnitude && magnitude <= INFINITY_BITS {
        if negative {
            Err(ParseError::RangeError(Narrow::F32, Direction::BelowMin))
        } else {
            Err(ParseError::RangeError(Narrow::F32, Direction::AboveMax))
        }
    } else {
        Ok(Parsed::F32(bits))
    }
}

/// Parses `raw` as a narrowed numeric type.
fn parse_narrowed(target: Narrow, raw: Option<&Value>) -> (r: Result<Parsed, ParseError>)
    ensures
        r == narrowed(target, raw),
{
    match target {
        Narrow::F32 => match raw {
            Some(Value::Number(bits)) => narrow_number(*bits),
            _ => Err(ParseError::TypeMismatch(OptionType::Number)),
        },
        Narrow::I8 | Narrow::I16 | Narrow::I32 | Narrow::I128 | Narrow::Isize => match raw {
            Some(Value::Integer(i)) => narrow_signed(target, *i),
            _ => Err(ParseError::TypeMismatch(OptionType::Integer)),
        },
        _ => match raw {
            Some(Value::Integer(i)) => narrow_unsigned(target, to_unsigned(*i)),
            _ => Err(ParseError::TypeMismatch(OptionType::Integer)),
        },
    }
}

/// Parses `raw`, the value given for an argument or nothing where none was
/// given, as an argument of type `ty`.
pub fn parse(ty: &ArgType, raw: Option<&Value>) -> (r: Result<Parsed, ParseError>)
    ensures
        r == parsed(*ty, raw),
        (*ty is Optional || *ty is Fallible) ==> r is Ok,
    decreases ty,
{
    match ty {
        ArgType::String => match raw {
            Some(Value::String(s)) => Ok(Parsed::String(s.clone())),
            _ => Err(ParseError::TypeMismatch(OptionType::String)),
        },
        ArgType::Integer => match raw {
            Some(Value::Integer(i)) => Ok(Parsed::I64(*i)),
            _ => Err(ParseError::TypeMismatch(OptionType::Integer)),
        },
        ArgType::Unsigned => match raw {
            Some(Value::Integer(i)) => Ok(Parsed::U64(to_unsigned(*i))),
            _ => Err(ParseError::TypeMismatch(OptionType::Integer)),
        },
        ArgType::Number => match raw {
            Some(Value::Number(bits)) => Ok(Parsed::F64(*bits)),
            _ => Err(ParseError::TypeMismatch(OptionType::Number)),
        },
        ArgType::Boolean => match raw {
            Some(Value::Boolean(b)) => Ok(Parsed::Bool(*b)),
            _ => Err(ParseError::TypeMismatch(OptionType::Boolean)),
        },
        ArgType::Channel => match raw {
            Some(Value::Channel(id)) => Ok(Parsed::Channel(*id)),
            _ => Err(ParseError::TypeMismatch(OptionType::Channel)),
        },
        ArgType::User => match raw {
            Some(Value::User(id)) => Ok(Parsed::User(*id)),
            _ => Err(ParseError::TypeMismatch(OptionType::User)),
        },
        ArgType::Role => match raw {
            Some(Value::Role(id)) => Ok(Parsed::Role(*id)),
            _ => Err(ParseError::TypeMismatch(OptionType::Role)),
        },
        ArgType::Mentionable => match raw {
            Some(Value::Mentionable(id)) => Ok(Parsed::Mentionable(*id)),
            _ => Err(ParseError::TypeMismatch(OptionType::Mentionable)),
        },
        ArgType::Narrowed(target) => parse_narrowed(*target, raw),
        ArgType::Optional(inner) => match parse(&**inner, raw) {
            Ok(value) => Ok(Parsed::Optional(Some(Box::new(value)))),
            Err(_) => Ok(Parsed::Optional(None)),
        },
        ArgType::Fallible(inner) => match parse(&**inner, raw) {
            Ok(value) => Ok(Parsed::Fallible(Ok(Box::new(value)))),
            Err(error) => Ok(Parsed::Fallible(Err(error))),
        },
    }
}

/// An 8-bit signed argument takes the integers from -128 to 127 and no
/// others: a larger one is above its range and a smaller one below it.
pub proof fn lemma_i8_range(v: i64)
    ensures
        parsed(ArgType::Narrowed(Narrow::I8), Some(&Value::Integer(v))) == (if v > 127 {
            Err::<Parsed, ParseError>(ParseError::RangeError(Narrow::I8, Direction::AboveMax))
        } else if v < -128 {
            Err(ParseError::RangeError(Narrow::I8, Direction::BelowMin))
        } else {
            Ok(Parsed::I8(v as i8))
        }),
{
}

/// A narrowed integer type takes a wire integer exactly when the integer, read
/// as signed for a signed type and as unsigned for an unsigned one, lies
/// between the least and the greatest value of the type.
pub proof fn lemma_narrowed_range(target: Narrow, v: i64)
    requires
        !(target is F32),
    ensures
        ({
            let read = if target.is_signed() {
                v as int
            } else {
                reinterpret(v) as int
            };
            parsed(ArgType::Narrowed(target), Some(&Value::Integer(v))) is Ok <==> target.min()
                <= read <= target.max()
        }),
{
}

/// Parsing an optional argument never fails: where the inner type fails on a
/// value, or on its absence, the argument is absent.
pub proof fn lemma_optional_never_fails(inner: ArgType, raw: Option<&Value>)
    ensures
        parsed(ArgType::Optional(Box::new(inner)), raw) is Ok,
        parsed(inner, raw) is Err ==> parsed(ArgType::Optional(Box::new(inner)), raw) == Ok::<
            Parsed,
            ParseError,
        >(Parsed::Optional(None)),
        ArgType::Optional(Box::new(inner)).required() == false,
        ArgType::Optional(Box::new(inner)).wire_type() == inner.wire_type(),
{
}

/// Parsing a fallible argument always succeeds: a failure of the inner type
/// is wrapped into the success, not handed on.
pub proof fn lemma_fallible_always_succeeds(inner: ArgType, raw: Option<&Value>)
    ensures
        parsed(ArgType::Fallible(Box::new(inner)), raw) is Ok,
        parsed(inner, raw) matches Err(error) ==> parsed(ArgType::Fallible(Box::new(inner)), raw)
            == Ok::<Parsed, ParseError>(Parsed::Fallible(Err(error))),
        ArgType::Fallible(Box::new(inner)).required() == inner.required(),
        ArgType::Fallible(Box::new(inner)).wire_type() == inner.wire_type(),
{
}

} // verus!
