use vstd::prelude::*;
use vstd::string::StringExecFns;

use crate::errors::ValueError;
use crate::types::Type;
use crate::u256::{u256_int, u256_max, U256};

verus! {

broadcast use vstd::group_vstd_default;

/// A primitive value: the flat layer under composite cells. A range
/// holds its two numeric endpoints and its declared inner type.
#[derive(Debug)]
pub enum Value {
    Null,
    U8(u8),
    U16(u16),
    U32(u32),
    U64(u64),
    U128(u128),
    U256(U256),
    String(String),
    Boolean(bool),
    Range(Box<Value>, Box<Value>, Type),
}

/// The mathematical shape of a primitive value: strings are character
/// sequences and the 256-bit width is an unbounded integer.
pub enum ValueV {
    Null,
    U8(u8),
    U16(u16),
    U32(u32),
    U64(u64),
    U128(u128),
    U256(int),
    Str(Seq<char>),
    Bool(bool),
    Range(Box<ValueV>, Box<ValueV>, Type),
}

/// The model of a primitive value.
pub open spec fn value_view(v: Value) -> ValueV
    decreases v,
{
    match v {
        Value::Null => ValueV::Null,
        Value::U8(n) => ValueV::U8(n),
        Value::U16(n) => ValueV::U16(n),
        Value::U32(n) => ValueV::U32(n),
        Value::U64(n) => ValueV::U64(n),
        Value::U128(n) => ValueV::U128(n),
        Value::U256(n) => ValueV::U256(u256_int(n)),
        Value::String(s) => ValueV::Str(s@),
        Value::Boolean(b) => ValueV::Bool(b),
        Value::Range(start, end, t) => ValueV::Range(
            Box::new(value_view(*start)),
            Box::new(value_view(*end)),
            t,
        ),
    }
}

impl View for Value {
    type V = ValueV;

    open spec fn view(&self) -> ValueV {
        value_view(*self)
    }
}

/// Clone for Value, written by hand so that verified code knows the
/// clone equals the original.
impl Clone for Value {
    fn clone(&self) -> (r: Self)
        ensures
            r == *self,
        decreases self,
    {
        match self {
            Value::Null => Value::Null,
            Value::U8(n) => Value::U8(*n),
            Value::U16(n) => Value::U16(*n),
            Value::U32(n) => Value::U32(*n),
            Value::U64(n) => Value::U64(*n),
            Value::U128(n) => Value::U128(*n),
            Value::U256(n) => Value::U256(*n),
            Value::String(s) => Value::String(s.clone()),
            Value::Boolean(b) => Value::Boolean(*b),
            Value::Range(start, end, t) => Value::Range(
                Box::new((**start).clone()),
                Box::new((**end).clone()),
                t.clone(),
            ),
        }
    }
}

/// The numeric content of a value, for the values that have one.
pub open spec fn numeric_of(v: ValueV) -> Option<int> {
    match v {
        ValueV::U8(n) => Some(n as int),
        ValueV::U16(n) => Some(n as int),
        ValueV::U32(n) => Some(n as int),
        ValueV::U64(n) => Some(n as int),
        ValueV::U128(n) => Some(n as int),
        ValueV::U256(n) => Some(n),
        _ => None,
    }
}

/// The numeric source of a cast: numbers cast as themselves and
/// booleans cast as one or zero.
pub open spec fn cast_source_of(v: ValueV) -> Option<int> {
    match v {
        ValueV::Bool(b) => Some(if b { 1int } else { 0int }),
        _ => numeric_of(v),
    }
}

/// The type of a primitive value, when it has one: null has none, and a
/// range's type is built from its declared inner type.
pub open spec fn spec_type_of(v: ValueV) -> Option<Type> {
    match v {
        ValueV::Null => None,
        ValueV::U8(_) => Some(Type::U8),
        ValueV::U16(_) => Some(Type::U16),
        ValueV::U32(_) => Some(Type::U32),
        ValueV::U64(_) => Some(Type::U64),
        ValueV::U128(_) => Some(Type::U128),
        ValueV::U256(_) => Some(Type::U256),
        ValueV::Str(_) => Some(Type::String),
        ValueV::Bool(_) => Some(Type::Bool),
        ValueV::Range(_, _, t) => Some(Type::Range(Box::new(t))),
    }
}

/// The largest value each numeric type holds.
pub open spec fn spec_type_max(t: Type) -> int {
    match t {
        Type::U8 => u8::MAX as int,
        Type::U16 => u16::MAX as int,
        Type::U32 => u32::MAX as int,
        Type::U64 => u64::MAX as int,
        Type::U128 => u128::MAX as int,
        Type::U256 => u256_max(),
        _ => 0,
    }
}

/// The decimal digit characters.
pub open spec fn spec_digit(d: int) -> char {
    if d == 0 {
        '0'
    } else if d == 1 {
        '1'
    } else if d == 2 {
        '2'
    } else if d == 3 {
        '3'
    } else if d == 4 {
        '4'
    } else if d == 5 {
        '5'
    } else if d == 6 {
        '6'
    } else if d == 7 {
        '7'
    } else if d == 8 {
        '8'
    } else {
        '9'
    }
}

/// The decimal rendering of a nonnegative integer, most significant
/// digit first.
pub open spec fn spec_decimal(n: int) -> Seq<char>
    decreases n,
{
    if n < 10 {
        seq![spec_digit(n)]
    } else {
        spec_decimal(n / 10).push(spec_digit(n % 10))
    }
}

/// The decimal rendering of a boolean or null keyword, and of a string
/// as itself: what `cast_to_string` returns.
pub open spec fn spec_value_string(v: ValueV) -> Option<Seq<char>> {
    match v {
        ValueV::Null => Some("null"@),
        ValueV::Bool(b) => Some(if b { "true"@ } else { "false"@ }),
        ValueV::Str(s) => Some(s),
        ValueV::Range(_, _, _) => None,
        _ => Some(spec_decimal(numeric_of(v).unwrap())),
    }
}

/// One decimal digit as a string.
fn digit_string(d: u8) -> (r: String)
    requires
        d < 10,
    ensures
        r@ =~= seq![spec_digit(d as int)],
{
    match d {
        0 => {
            proof {
                reveal_strlit("0");
            }
            "0".to_owned()
        },
        1 => {
            proof {
                reveal_strlit("1");
            }
            "1".to_owned()
        },
        2 => {
            proof {
                reveal_strlit("2");
            }
            "2".to_owned()
        },
        3 => {
            proof {
                reveal_strlit("3");
            }
            "3".to_owned()
        },
        4 => {
            proof {
                reveal_strlit("4");
            }
            "4".to_owned()
        },
        5 => {
            proof {
                reveal_strlit("5");
            }
            "5".to_owned()
        },
        6 => {
            proof {
                reveal_strlit("6");
            }
            "6".to_owned()
        },
        7 => {
            proof {
                reveal_strlit("7");
            }
            "7".to_owned()
        },
        8 => {
            proof {
                reveal_strlit("8");
            }
            "8".to_owned()
        },
        _ => {
            proof {
                reveal_strlit("9");
            }
            "9".to_owned()
        },
    }
}

/// Renders a 64-bit value in decimal.
pub fn decimal_u64(n: u64) -> (r: String)
    ensures
        r@ == spec_decimal(n as int),
    decreases n,
{
    if n < 10 {
        digit_string(n as u8)
    } else {
        let mut s = decimal_u64(n / 10);
        let d = digit_string((n % 10) as u8);
        s.append(d.as_str());
        proof {
            assert(s@ =~= spec_decimal(n as int));
        }
        s
    }
}

/// Renders a 128-bit value in decimal.
pub fn decimal_u128(n: u128) -> (r: String)
    ensures
        r@ == spec_decimal(n as int),
    decreases n,
{
    if n < 10 {
        digit_string(n as u8)
    } else {
        let mut s = decimal_u128(n / 10);
        let d = digit_string((n % 10) as u8);
        s.append(d.as_str());
        proof {
            assert(s@ =~= spec_decimal(n as int));
        }
        s
    }
}

/// Renders a 256-bit value in decimal.
pub fn decimal_u256(n: U256) -> (r: String)
    ensures
        r@ == spec_decimal(u256_int(n)),
    decreases u256_int(n),
{
    let (q, d) = n.divmod10();
    if q.is_zero() {
        proof {
            assert(u256_int(n) == d) by (nonlinear_arith)
                requires
                    u256_int(q) * 10 + d == u256_int(n),
                    u256_int(q) == 0,
            ;
        }
        digit_string(d)
    } else {
        proof {
            assert(u256_int(q) == u256_int(n) / 10 && d == u256_int(n) % 10 && u256_int(q)
                < u256_int(n) && u256_int(n) >= 10) by (nonlinear_arith)
                requires
                    u256_int(q) * 10 + d == u256_int(n),
                    0 <= d < 10,
                    u256_int(q) > 0,
            ;
        }
        let mut s = decimal_u256(q);
        let ds = digit_string(d);
        s.append(ds.as_str());
        proof {
            assert(s@ =~= spec_decimal(u256_int(n)));
        }
        s
    }
}

impl Value {
    /// Whether the value is null.
    pub fn is_null(&self) -> (r: bool)
        ensures
            r == (self@ is Null),
    {
        match self {
            Value::Null => true,
            _ => false,
        }
    }

    /// Whether the value is a number.
    pub fn is_number(&self) -> (r: bool)
        ensures
            r == (numeric_of(self@) is Some),
    {
        match self {
            Value::U8(_) | Value::U16(_) | Value::U32(_) | Value::U64(_) | Value::U128(_)
            | Value::U256(_) => true,
            _ => false,
        }
    }

    /// The type of the value, or a fault for null.
    pub fn get_type(&self) -> (r: Result<Type, ValueError>)
        ensures
            match r {
                Ok(t) => spec_type_of(self@) == Some(t),
                Err(e) => self@ is Null && e == ValueError::InvalidValueType,
            },
    {
        match self {
            Value::Null => Err(ValueError::InvalidValueType),
            Value::U8(_) => Ok(Type::U8),
            Value::U16(_) => Ok(Type::U16),
            Value::U32(_) => Ok(Type::U32),
            Value::U64(_) => Ok(Type::U64),
            Value::U128(_) => Ok(Type::U128),
            Value::U256(_) => Ok(Type::U256),
            Value::String(_) => Ok(Type::String),
            Value::Boolean(_) => Ok(Type::Bool),
            Value::Range(_, _, t) => Ok(Type::Range(Box::new(t.clone()))),
        }
    }

    /// Reads the endpoints and inner type of a range.
    pub fn as_range(&self) -> (r: Result<(&Value, &Value, &Type), ValueError>)
        ensures
            match r {
                Ok((start, end, t)) => self@ == ValueV::Range(
                    Box::new(start@),
                    Box::new(end@),
                    *t,
                ),
                Err(e) => !(self@ is Range) && e == ValueError::InvalidValueType,
            },
    {
        match self {
            Value::Range(start, end, t) => Ok((&**start, &**end, t)),
            _ => Err(ValueError::InvalidValueType),
        }
    }

    /// Takes the endpoints and inner type out of a range.
    pub fn to_range(self) -> (r: Result<(Value, Value, Type), ValueError>)
        ensures
            match r {
                Ok((start, end, t)) => self@ == ValueV::Range(
                    Box::new(start@),
                    Box::new(end@),
                    t,
                ),
                Err(e) => !(self@ is Range) && e == ValueError::InvalidValueType,
            },
    {
        match self {
            Value::Range(start, end, t) => Ok((*start, *end, t)),
            _ => Err(ValueError::InvalidValueType),
        }
    }

    /// Adds one to a numeric value; overflow past the type's width and
    /// non-numbers are faults.
    pub fn increment(&mut self) -> (r: Result<(), ValueError>)
        ensures
            match r {
                Ok(()) => {
                    &&& numeric_of((*old(self))@) matches Some(n)
                    &&& numeric_of((*final(self))@) == Some(n + 1)
                    &&& spec_type_of((*final(self))@) == spec_type_of((*old(self))@)
                },
                Err(e) => {
                    &&& *final(self) == *old(self)
                    &&& match numeric_of((*old(self))@) {
                        Some(n) => n == spec_type_max(spec_type_of((*old(self))@).unwrap()) && e
                            == ValueError::IntegerOverflow,
                        None => e == ValueError::OperationNotNumberType,
                    }
                },
            },
    {
        match self {
            Value::U8(n) => {
                if *n < u8::MAX {
                    *n = *n + 1;
                    Ok(())
                } else {
                    Err(ValueError::IntegerOverflow)
                }
            },
            Value::U16(n) => {
                if *n < u16::MAX {
                    *n = *n + 1;
                    Ok(())
                } else {
                    Err(ValueError::IntegerOverflow)
                }
            },
            Value::U32(n) => {
                if *n < u32::MAX {
                    *n = *n + 1;
                    Ok(())
                } else {
                    Err(ValueError::IntegerOverflow)
                }
            },
            Value::U64(n) => {
                if *n < u64::MAX {
                    *n = *n + 1;
                    Ok(())
                } else {
                    Err(ValueError::IntegerOverflow)
                }
            },
            Value::U128(n) => {
                if *n < u128::MAX {
                    *n = *n + 1;
                    Ok(())
                } else {
                    Err(ValueError::IntegerOverflow)
                }
            },
            Value::U256(n) => {
                match n.increment() {
                    Some(v) => {
                        *n = v;
                        Ok(())
                    },
                    None => Err(ValueError::IntegerOverflow),
                }
            },
            _ => Err(ValueError::OperationNotNumberType),
        }
    }

    /// Subtracts one from a numeric value; underflow below zero and
    /// non-numbers are faults.
    pub fn decrement(&mut self) -> (r: Result<(), ValueError>)
        ensures
            match r {
                Ok(()) => {
                    &&& numeric_of((*old(self))@) matches Some(n)
                    &&& numeric_of((*final(self))@) == Some(n - 1)
                    &&& spec_type_of((*final(self))@) == spec_type_of((*old(self))@)
                },
                Err(e) => {
                    &&& *final(self) == *old(self)
                    &&& match numeric_of((*old(self))@) {
                        Some(n) => n == 0 && e == ValueError::IntegerOverflow,
                        None => e == ValueError::OperationNotNumberType,
                    }
                },
            },
    {
        match self {
            Value::U8(n) => {
                if *n > 0 {
                    *n = *n - 1;
                    Ok(())
                } else {
                    Err(ValueError::IntegerOverflow)
                }
            },
            Value::U16(n) => {
                if *n > 0 {
                    *n = *n - 1;
                    Ok(())
                } else {
                    Err(ValueError::IntegerOverflow)
                }
            },
            Value::U32(n) => {
                if *n > 0 {
                    *n = *n - 1;
                    Ok(())
                } else {
                    Err(ValueError::IntegerOverflow)
                }
            },
            Value::U64(n) => {
                if *n > 0 {
                    *n = *n - 1;
                    Ok(())
                } else {
                    Err(ValueError::IntegerOverflow)
                }
            },
            Value::U128(n) => {
                if *n > 0 {
                    *n = *n - 1;
                    Ok(())
                } else {
                    Err(ValueError::IntegerOverflow)
                }
            },
            Value::U256(n) => {
                if n.is_zero() {
                    Err(ValueError::IntegerOverflow)
                } else {
                    decrement_u256(n)
                }
            },
            _ => Err(ValueError::OperationNotNumberType),
        }
    }

    /// Casts to a string: null and booleans become their keywords,
    /// numbers their decimal rendering, strings themselves; a range is
    /// not string-castable here.
    pub fn cast_to_string(self) -> (r: Result<String, ValueError>)
        ensures
            match r {
                Ok(s) => spec_value_string(self@) == Some(s@),
                Err(e) => spec_value_string(self@) is None && e == ValueError::InvalidCastType,
            },
    {
        match self {
            Value::Null => {
                proof {
                    reveal_strlit("null");
                }
                Ok("null".to_owned())
            },
            Value::Boolean(b) => {
                proof {
                    reveal_strlit("true");
                    reveal_strlit("false");
                }
                if b {
                    Ok("true".to_owned())
                } else {
                    Ok("false".to_owned())
                }
            },
            Value::String(s) => Ok(s),
            Value::U8(n) => Ok(decimal_u64(n as u64)),
            Value::U16(n) => Ok(decimal_u64(n as u64)),
            Value::U32(n) => Ok(decimal_u64(n as u64)),
            Value::U64(n) => Ok(decimal_u64(n)),
            Value::U128(n) => Ok(decimal_u128(n)),
            Value::U256(n) => Ok(decimal_u256(n)),
            Value::Range(_, _, _) => Err(ValueError::InvalidCastType),
        }
    }

    /// Casts to a boolean; only booleans qualify.
    pub fn cast_to_bool(self) -> (r: Result<bool, ValueError>)
        ensures
            match r {
                Ok(b) => self@ == ValueV::Bool(b),
                Err(e) => !(self@ is Bool) && e == ValueError::InvalidCastType,
            },
    {
        match self {
            Value::Boolean(b) => Ok(b),
            _ => Err(ValueError::InvalidCastType),
        }
    }

    /// Casts to a u8 when the numeric or boolean content fits.
    pub fn checked_cast_to_u8(self) -> (r: Result<u8, ValueError>)
        ensures
            match r {
                Ok(n) => cast_source_of(self@) == Some(n as int),
                Err(e) => match cast_source_of(self@) {
                    Some(n) => n > u8::MAX && e == ValueError::CastOverflow,
                    None => e == ValueError::InvalidCastType,
                },
            },
    {
        match self.to_cast_source_u256() {
            Ok(v) => {
                match v.to_u64() {
                    Some(n) if n <= u8::MAX as u64 => Ok(n as u8),
                    _ => Err(ValueError::CastOverflow),
                }
            },
            Err(e) => Err(e),
        }
    }

    /// Casts to a u16 when the numeric or boolean content fits.
    pub fn checked_cast_to_u16(self) -> (r: Result<u16, ValueError>)
        ensures
            match r {
                Ok(n) => cast_source_of(self@) == Some(n as int),
                Err(e) => match cast_source_of(self@) {
                    Some(n) => n > u16::MAX && e == ValueError::CastOverflow,
                    None => e == ValueError::InvalidCastType,
                },
            },
    {
        match self.to_cast_source_u256() {
            Ok(v) => {
                match v.to_u64() {
                    Some(n) if n <= u16::MAX as u64 => Ok(n as u16),
                    _ => Err(ValueError::CastOverflow),
                }
            },
            Err(e) => Err(e),
        }
    }

    /// Casts to a u32 when the numeric or boolean content fits.
    pub fn checked_cast_to_u32(self) -> (r: Result<u32, ValueError>)
        ensures
            match r {
                Ok(n) => cast_source_of(self@) == Some(n as int),
                Err(e) => match cast_source_of(self@) {
                    Some(n) => n > u32::MAX && e == ValueError::CastOverflow,
                    None => e == ValueError::InvalidCastType,
                },
            },
    {
        match self.to_cast_source_u256() {
            Ok(v) => {
                match v.to_u64() {
                    Some(n) if n <= u32::MAX as u64 => Ok(n as u32),
                    _ => Err(ValueError::CastOverflow),
                }
            },
            Err(e) => Err(e),
        }
    }

    /// Casts to a u64 when the numeric or boolean content fits.
    pub fn checked_cast_to_u64(self) -> (r: Result<u64, ValueError>)
        ensures
            match r {
                Ok(n) => cast_source_of(self@) == Some(n as int),
                Err(e) => match cast_source_of(self@) {
                    Some(n) => n > u64::MAX && e == ValueError::CastOverflow,
                    None => e == ValueError::InvalidCastType,
                },
            },
    {
        match self.to_cast_source_u256() {
            Ok(v) => {
                match v.to_u64() {
                    Some(n) => Ok(n),
                    None => Err(ValueError::CastOverflow),
                }
            },
            Err(e) => Err(e),
        }
    }

    /// Casts to a u128 when the numeric or boolean content fits.
    pub fn checked_cast_to_u128(self) -> (r: Result<u128, ValueError>)
        ensures
            match r {
                Ok(n) => cast_source_of(self@) == Some(n as int),
                Err(e) => match cast_source_of(self@) {
                    Some(n) => n > u128::MAX && e == ValueError::CastOverflow,
                    None => e == ValueError::InvalidCastType,
                },
            },
    {
        match self.to_cast_source_u256() {
            Ok(v) => {
                match v.to_u128() {
                    Some(n) => Ok(n),
                    None => Err(ValueError::CastOverflow),
                }
            },
            Err(e) => Err(e),
        }
    }

    /// Casts to a 256-bit value; every numeric or boolean content fits.
    pub fn checked_cast_to_u256(self) -> (r: Result<U256, ValueError>)
        ensures
            match r {
                Ok(n) => cast_source_of(self@) == Some(u256_int(n)),
                Err(e) => cast_source_of(self@) is None && e == ValueError::InvalidCastType,
            },
    {
        self.to_cast_source_u256()
    }

    /// Widens the numeric or boolean content to 256 bits.
    fn to_cast_source_u256(self) -> (r: Result<U256, ValueError>)
        ensures
            match r {
                Ok(n) => cast_source_of(self@) == Some(u256_int(n)),
                Err(e) => cast_source_of(self@) is None && e == ValueError::InvalidCastType,
            },
    {
        match self {
            Value::U8(n) => Ok(U256::from_u64(n as u64)),
            Value::U16(n) => Ok(U256::from_u64(n as u64)),
            Value::U32(n) => Ok(U256::from_u64(n as u64)),
            Value::U64(n) => Ok(U256::from_u64(n)),
            Value::U128(n) => Ok(U256::from_u128(n)),
            Value::U256(n) => Ok(n),
            Value::Boolean(b) => Ok(
                if b {
                    U256::from_u64(1)
                } else {
                    U256::from_u64(0)
                },
            ),
            _ => Err(ValueError::InvalidCastType),
        }
    }
}

/// Truncates the numeric or boolean content of a cast source to the
/// low bits of the target width.
pub open spec fn spec_truncated(v: ValueV, width: int) -> Option<int> {
    match cast_source_of(v) {
        Some(n) => Some(n % width),
        None => None,
    }
}

impl Value {
    /// Casts to a u8, keeping the low eight bits.
    pub fn cast_to_u8(self) -> (r: Result<u8, ValueError>)
        ensures
            match r {
                Ok(n) => spec_truncated(self@, 0x100) == Some(n as int),
                Err(e) => cast_source_of(self@) is None && e == ValueError::InvalidCastType,
            },
    {
        match self.to_cast_source_u256() {
            Ok(v) => {
                proof {
                    crate::u256::lemma_truncate(v);
                }
                Ok((v.w0 % 0x100) as u8)
            },
            Err(e) => Err(e),
        }
    }

    /// Casts to a u16, keeping the low sixteen bits.
    pub fn cast_to_u16(self) -> (r: Result<u16, ValueError>)
        ensures
            match r {
                Ok(n) => spec_truncated(self@, 0x1_0000) == Some(n as int),
                Err(e) => cast_source_of(self@) is None && e == ValueError::InvalidCastType,
            },
    {
        match self.to_cast_source_u256() {
            Ok(v) => {
                proof {
                    crate::u256::lemma_truncate(v);
                }
                Ok((v.w0 % 0x1_0000) as u16)
            },
            Err(e) => Err(e),
        }
    }

    /// Casts to a u32, keeping the low thirty-two bits.
    pub fn cast_to_u32(self) -> (r: Result<u32, ValueError>)
        ensures
            match r {
                Ok(n) => spec_truncated(self@, 0x1_0000_0000) == Some(n as int),
                Err(e) => cast_source_of(self@) is None && e == ValueError::InvalidCastType,
            },
    {
        match self.to_cast_source_u256() {
            Ok(v) => {
                proof {
                    crate::u256::lemma_truncate(v);
                }
                Ok((v.w0 % 0x1_0000_0000) as u32)
            },
            Err(e) => Err(e),
        }
    }

    /// Casts to a u64, keeping the low sixty-four bits.
    pub fn cast_to_u64(self) -> (r: Result<u64, ValueError>)
        ensures
            match r {
                Ok(n) => spec_truncated(self@, 0x1_0000_0000_0000_0000) == Some(n as int),
                Err(e) => cast_source_of(self@) is None && e == ValueError::InvalidCastType,
            },
    {
        match self.to_cast_source_u256() {
            Ok(v) => {
                proof {
                    crate::u256::lemma_truncate(v);
                }
                Ok(v.w0)
            },
            Err(e) => Err(e),
        }
    }

    /// Casts to a u128, keeping the low hundred and twenty-eight bits.
    pub fn cast_to_u128(self) -> (r: Result<u128, ValueError>)
        ensures
            match r {
                Ok(n) => spec_truncated(self@, crate::u256::pow128())
                    == Some(n as int),
                Err(e) => cast_source_of(self@) is None && e == ValueError::InvalidCastType,
            },
    {
        match self.to_cast_source_u256() {
            Ok(v) => {
                proof {
                    crate::u256::lemma_truncate(v);
                }
                Ok(v.w0 as u128 + (v.w1 as u128) * 0x1_0000_0000_0000_0000)
            },
            Err(e) => Err(e),
        }
    }

    /// Casts to a 256-bit value; nothing is truncated.
    pub fn cast_to_u256(self) -> (r: Result<U256, ValueError>)
        ensures
            match r {
                Ok(n) => cast_source_of(self@) == Some(u256_int(n)),
                Err(e) => cast_source_of(self@) is None && e == ValueError::InvalidCastType,
            },
    {
        self.to_cast_source_u256()
    }

    /// Casts to the given primitive target type; composite targets are
    /// not primitive casts.
    pub fn checked_cast_to_primitive(self, expected: &Type) -> (r: Result<Value, ValueError>)
        ensures
            (match r {
                Ok(v) => Ok(v@),
                Err(e) => Err(e),
            }) == spec_checked_cast_value(self@, *expected),
    {
        match expected {
            Type::U8 => match self.checked_cast_to_u8() {
                Ok(n) => Ok(Value::U8(n)),
                Err(e) => Err(e),
            },
            Type::U16 => match self.checked_cast_to_u16() {
                Ok(n) => Ok(Value::U16(n)),
                Err(e) => Err(e),
            },
            Type::U32 => match self.checked_cast_to_u32() {
                Ok(n) => Ok(Value::U32(n)),
                Err(e) => Err(e),
            },
            Type::U64 => match self.checked_cast_to_u64() {
                Ok(n) => Ok(Value::U64(n)),
                Err(e) => Err(e),
            },
            Type::U128 => match self.checked_cast_to_u128() {
                Ok(n) => Ok(Value::U128(n)),
                Err(e) => Err(e),
            },
            Type::U256 => match self.checked_cast_to_u256() {
                Ok(n) => Ok(Value::U256(n)),
                Err(e) => Err(e),
            },
            Type::String => match self.cast_to_string() {
                Ok(s) => Ok(Value::String(s)),
                Err(e) => Err(e),
            },
            Type::Bool => match self.cast_to_bool() {
                Ok(b) => Ok(Value::Boolean(b)),
                Err(e) => Err(e),
            },
            _ => Err(ValueError::InvalidCastType),
        }
    }
}

/// What a checked primitive cast returns: the numeric content when it
/// fits the target, the rendering for strings, the boolean itself, and
/// a fault otherwise.
pub open spec fn spec_checked_cast_value(v: ValueV, t: Type) -> Result<ValueV, ValueError> {
    match t {
        Type::U8 => match cast_source_of(v) {
            Some(n) => if n <= u8::MAX {
                Ok(ValueV::U8(n as u8))
            } else {
                Err(ValueError::CastOverflow)
            },
            None => Err(ValueError::InvalidCastType),
        },
        Type::U16 => match cast_source_of(v) {
            Some(n) => if n <= u16::MAX {
                Ok(ValueV::U16(n as u16))
            } else {
                Err(ValueError::CastOverflow)
            },
            None => Err(ValueError::InvalidCastType),
        },
        Type::U32 => match cast_source_of(v) {
            Some(n) => if n <= u32::MAX {
                Ok(ValueV::U32(n as u32))
            } else {
                Err(ValueError::CastOverflow)
            },
            None => Err(ValueError::InvalidCastType),
        },
        Type::U64 => match cast_source_of(v) {
            Some(n) => if n <= u64::MAX {
                Ok(ValueV::U64(n as u64))
            } else {
                Err(ValueError::CastOverflow)
            },
            None => Err(ValueError::InvalidCastType),
        },
        Type::U128 => match cast_source_of(v) {
            Some(n) => if n <= u128::MAX {
                Ok(ValueV::U128(n as u128))
            } else {
                Err(ValueError::CastOverflow)
            },
            None => Err(ValueError::InvalidCastType),
        },
        Type::U256 => match cast_source_of(v) {
            Some(n) => Ok(ValueV::U256(n)),
            None => Err(ValueError::InvalidCastType),
        },
        Type::String => match spec_value_string(v) {
            Some(s) => Ok(ValueV::Str(s)),
            None => Err(ValueError::InvalidCastType),
        },
        Type::Bool => match v {
            ValueV::Bool(b) => Ok(ValueV::Bool(b)),
            _ => Err(ValueError::InvalidCastType),
        },
        _ => Err(ValueError::InvalidCastType),
    }
}

impl Type {
    /// The type of a primitive value: null has none, and an empty or
    /// mixed composite would have none either.
    pub fn from_value(value: &Value) -> (r: Option<Type>)
        ensures
            match r {
                Some(t) => spec_type_of(value@) == Some(t),
                None => value@ is Null,
            },
    {
        match value.get_type() {
            Ok(t) => Some(t),
            Err(_) => None,
        }
    }
}

impl Value {
    /// Whether this number is below another number of the same type.
    pub fn lt_same_type(&self, other: &Value) -> (r: Result<bool, ValueError>)
        ensures
            match r {
                Ok(b) => {
                    &&& numeric_of(self@) matches Some(n)
                    &&& numeric_of(other@) matches Some(m)
                    &&& spec_type_of(self@) == spec_type_of(other@)
                    &&& b == (n < m)
                },
                Err(e) => {
                    &&& (numeric_of(self@) is None || numeric_of(other@) is None || spec_type_of(
                        self@,
                    ) != spec_type_of(other@))
                    &&& e == ValueError::OperationNotNumberType
                },
            },
    {
        match (self, other) {
            (Value::U8(a), Value::U8(b)) => Ok(*a < *b),
            (Value::U16(a), Value::U16(b)) => Ok(*a < *b),
            (Value::U32(a), Value::U32(b)) => Ok(*a < *b),
            (Value::U64(a), Value::U64(b)) => Ok(*a < *b),
            (Value::U128(a), Value::U128(b)) => Ok(*a < *b),
            (Value::U256(a), Value::U256(b)) => Ok(a.lt(b)),
            _ => Err(ValueError::OperationNotNumberType),
        }
    }
}

/// Subtracts one from a nonzero 256-bit value in place.
fn decrement_u256(n: &mut U256) -> (r: Result<(), ValueError>)
    requires
        u256_int(*old(n)) > 0,
    ensures
        r is Ok,
        u256_int(*final(n)) == u256_int(*old(n)) - 1,
{
    if n.w0 > 0 {
        n.w0 = n.w0 - 1;
    } else if n.w1 > 0 {
        n.w0 = u64::MAX;
        n.w1 = n.w1 - 1;
    } else if n.w2 > 0 {
        n.w0 = u64::MAX;
        n.w1 = u64::MAX;
        n.w2 = n.w2 - 1;
    } else {
        proof {
            assert(n.w3 > 0) by (nonlinear_arith)
                requires
                    u256_int(*n) > 0,
                    n.w0 == 0,
                    n.w1 == 0,
                    n.w2 == 0,
                    0 <= n.w3,
            ;
        }
        n.w0 = u64::MAX;
        n.w1 = u64::MAX;
        n.w2 = u64::MAX;
        n.w3 = n.w3 - 1;
    }
    Ok(())
}

/// What an arithmetic opcode computes over the numeric contents of two
/// values of one type: checked arithmetic, a division-by-zero fault, an
/// overflow fault past the type's width, and a type-mismatch fault.
pub open spec fn spec_arith(
    op: crate::module::OpCode,
    a: ValueV,
    b: ValueV,
) -> Result<int, crate::errors::VMError> {
    match (numeric_of(a), numeric_of(b)) {
        (Some(x), Some(y)) => {
            if spec_type_of(a) != spec_type_of(b) {
                Err(crate::errors::VMError::ValueError(ValueError::OperationNotNumberType))
            } else {
                let out = match op {
                    crate::module::OpCode::Add => Ok(x + y),
                    crate::module::OpCode::Sub => Ok(x - y),
                    crate::module::OpCode::Mul => Ok(x * y),
                    crate::module::OpCode::Div => if y == 0 {
                        Err(crate::errors::VMError::DivisionByZero)
                    } else {
                        Ok(x / y)
                    },
                    crate::module::OpCode::Mod => if y == 0 {
                        Err(crate::errors::VMError::DivisionByZero)
                    } else {
                        Ok(x % y)
                    },
                    _ => Err(crate::errors::VMError::InvalidOpCode),
                };
                match out {
                    Ok(n) => if 0 <= n <= spec_type_max(spec_type_of(a).unwrap()) {
                        Ok(n)
                    } else {
                        Err(crate::errors::VMError::ValueError(ValueError::IntegerOverflow))
                    },
                    Err(e) => Err(e),
                }
            }
        },
        _ => Err(crate::errors::VMError::ValueError(ValueError::OperationNotNumberType)),
    }
}

/// Runs a binary opcode on two primitive values: checked arithmetic on
/// numbers of one type, boolean connectives, equality over the values'
/// models, and order over numbers of one type. The arithmetic on
/// 256-bit values is not provided here; such operands fault.
pub fn binary_value_op(op: crate::module::OpCode, a: Value, b: Value) -> (r: Result<
    Value,
    crate::errors::VMError,
>)
    ensures
        (op == crate::module::OpCode::Add || op == crate::module::OpCode::Sub || op
            == crate::module::OpCode::Mul || op == crate::module::OpCode::Div || op
            == crate::module::OpCode::Mod) && !(a@ is U256) ==> (match r {
            Ok(v) => spec_arith(op, a@, b@) matches Ok(n) && numeric_of(v@) == Some(n)
                && spec_type_of(v@) == spec_type_of(a@),
            Err(e) => spec_arith(op, a@, b@) == Err::<int, _>(e),
        }),
        op == crate::module::OpCode::Eq ==> (match r {
            Ok(v) => v@ == ValueV::Bool(a@ == b@),
            Err(_) => true,
        }),
        op == crate::module::OpCode::Lt ==> (match r {
            Ok(v) => {
                &&& numeric_of(a@) matches Some(x)
                &&& numeric_of(b@) matches Some(y)
                &&& v@ == ValueV::Bool(x < y)
            },
            Err(_) => true,
        }),
        r matches Err(e) ==> e != crate::errors::VMError::OutOfGas && !(e
            is Validation) && e != crate::errors::VMError::Terminated,
{
    match op {
        crate::module::OpCode::Add | crate::module::OpCode::Sub | crate::module::OpCode::Mul
            | crate::module::OpCode::Div | crate::module::OpCode::Mod => arith_value_op(op, a, b),
        crate::module::OpCode::And => match (a, b) {
            (Value::Boolean(x), Value::Boolean(y)) => Ok(Value::Boolean(x && y)),
            _ => Err(crate::errors::VMError::ValueError(ValueError::InvalidValueType)),
        },
        crate::module::OpCode::Or => match (a, b) {
            (Value::Boolean(x), Value::Boolean(y)) => Ok(Value::Boolean(x || y)),
            _ => Err(crate::errors::VMError::ValueError(ValueError::InvalidValueType)),
        },
        crate::module::OpCode::Eq => {
            let e = crate::value_type::values_equal(&a, &b);
            Ok(Value::Boolean(e))
        },
        crate::module::OpCode::Ne => {
            let e = crate::value_type::values_equal(&a, &b);
            Ok(Value::Boolean(!e))
        },
        crate::module::OpCode::Lt => match a.lt_same_type(&b) {
            Ok(x) => Ok(Value::Boolean(x)),
            Err(e) => Err(crate::errors::VMError::ValueError(e)),
        },
        crate::module::OpCode::Gt => match b.lt_same_type(&a) {
            Ok(x) => Ok(Value::Boolean(x)),
            Err(e) => Err(crate::errors::VMError::ValueError(e)),
        },
        crate::module::OpCode::Le => match b.lt_same_type(&a) {
            Ok(x) => Ok(Value::Boolean(!x)),
            Err(e) => Err(crate::errors::VMError::ValueError(e)),
        },
        crate::module::OpCode::Ge => match a.lt_same_type(&b) {
            Ok(x) => Ok(Value::Boolean(!x)),
            Err(e) => Err(crate::errors::VMError::ValueError(e)),
        },
        crate::module::OpCode::Shl | crate::module::OpCode::Shr => shift_value_op(op, a, b),
        crate::module::OpCode::BitAnd | crate::module::OpCode::BitOr
            | crate::module::OpCode::BitXor => bitwise_value_op(op, a, b),
        _ => Err(crate::errors::VMError::InvalidOpCode),
    }
}

/// Checked same-type arithmetic on two primitive numbers.
fn arith_value_op(op: crate::module::OpCode, a: Value, b: Value) -> (r: Result<
    Value,
    crate::errors::VMError,
>)
    requires
        op == crate::module::OpCode::Add || op == crate::module::OpCode::Sub || op
            == crate::module::OpCode::Mul || op == crate::module::OpCode::Div || op
            == crate::module::OpCode::Mod,
    ensures
        !(a@ is U256) ==> (match r {
            Ok(v) => spec_arith(op, a@, b@) matches Ok(n) && numeric_of(v@) == Some(n)
                && spec_type_of(v@) == spec_type_of(a@),
            Err(e) => spec_arith(op, a@, b@) == Err::<int, _>(e),
        }),
        r matches Err(e) ==> e != crate::errors::VMError::OutOfGas && !(e
            is Validation) && e != crate::errors::VMError::Terminated,
{
    match (a, b) {
        (Value::U8(x), Value::U8(y)) => match arith_u128(op, x as u128, y as u128, u8::MAX as u128) {
            Ok(n) => Ok(Value::U8(n as u8)),
            Err(e) => Err(e),
        },
        (Value::U16(x), Value::U16(y)) => match arith_u128(
            op,
            x as u128,
            y as u128,
            u16::MAX as u128,
        ) {
            Ok(n) => Ok(Value::U16(n as u16)),
            Err(e) => Err(e),
        },
        (Value::U32(x), Value::U32(y)) => match arith_u128(
            op,
            x as u128,
            y as u128,
            u32::MAX as u128,
        ) {
            Ok(n) => Ok(Value::U32(n as u32)),
            Err(e) => Err(e),
        },
        (Value::U64(x), Value::U64(y)) => match arith_u128(
            op,
            x as u128,
            y as u128,
            u64::MAX as u128,
        ) {
            Ok(n) => Ok(Value::U64(n as u64)),
            Err(e) => Err(e),
        },
        (Value::U128(x), Value::U128(y)) => match arith_u128_full(op, x, y) {
            Ok(n) => Ok(Value::U128(n)),
            Err(e) => Err(e),
        },
        _ => Err(crate::errors::VMError::ValueError(ValueError::OperationNotNumberType)),
    }
}

/// Checked arithmetic in 128 bits against a narrower bound.
fn arith_u128(op: crate::module::OpCode, x: u128, y: u128, bound: u128) -> (r: Result<
    u128,
    crate::errors::VMError,
>)
    requires
        op == crate::module::OpCode::Add || op == crate::module::OpCode::Sub || op
            == crate::module::OpCode::Mul || op == crate::module::OpCode::Div || op
            == crate::module::OpCode::Mod,
        x <= bound,
        y <= bound,
        bound <= u64::MAX,
    ensures
        match r {
            Ok(n) => n <= bound && match op {
                crate::module::OpCode::Add => n == x + y,
                crate::module::OpCode::Sub => n == x - y,
                crate::module::OpCode::Mul => n == x * y,
                crate::module::OpCode::Div => y != 0 && n == x as int / y as int,
                crate::module::OpCode::Mod => y != 0 && n == x as int % y as int,
                _ => false,
            },
            Err(e) => match op {
                crate::module::OpCode::Add => x + y > bound && e == crate::errors::VMError::ValueError(
                    ValueError::IntegerOverflow,
                ),
                crate::module::OpCode::Sub => x < y && e == crate::errors::VMError::ValueError(
                    ValueError::IntegerOverflow,
                ),
                crate::module::OpCode::Mul => x * y > bound && e
                    == crate::errors::VMError::ValueError(ValueError::IntegerOverflow),
                crate::module::OpCode::Div => y == 0 && e == crate::errors::VMError::DivisionByZero,
                crate::module::OpCode::Mod => y == 0 && e == crate::errors::VMError::DivisionByZero,
                _ => false,
            },
        },
{
    match op {
        crate::module::OpCode::Add => {
            let n = x + y;
            if n > bound {
                Err(crate::errors::VMError::ValueError(ValueError::IntegerOverflow))
            } else {
                Ok(n)
            }
        },
        crate::module::OpCode::Sub => {
            if x < y {
                Err(crate::errors::VMError::ValueError(ValueError::IntegerOverflow))
            } else {
                Ok(x - y)
            }
        },
        crate::module::OpCode::Mul => {
            proof {
                assert(x * y <= u64::MAX * u64::MAX) by (nonlinear_arith)
                    requires
                        x <= u64::MAX,
                        y <= u64::MAX,
                ;
            }
            let n = x * y;
            if n > bound {
                Err(crate::errors::VMError::ValueError(ValueError::IntegerOverflow))
            } else {
                Ok(n)
            }
        },
        crate::module::OpCode::Div => {
            if y == 0 {
                Err(crate::errors::VMError::DivisionByZero)
            } else {
                proof {
                    assert(x / y <= x) by (nonlinear_arith)
                        requires
                            y > 0,
                            x >= 0,
                    ;
                }
                Ok(x / y)
            }
        },
        crate::module::OpCode::Mod => {
            if y == 0 {
                Err(crate::errors::VMError::DivisionByZero)
            } else {
                proof {
                    assert(x % y <= x) by (nonlinear_arith)
                        requires
                            y > 0,
                            x >= 0,
                    ;
                }
                Ok(x % y)
            }
        },
        _ => Err(crate::errors::VMError::InvalidOpCode),
    }
}

/// Checked arithmetic over the full 128-bit width.
fn arith_u128_full(op: crate::module::OpCode, x: u128, y: u128) -> (r: Result<
    u128,
    crate::errors::VMError,
>)
    requires
        op == crate::module::OpCode::Add || op == crate::module::OpCode::Sub || op
            == crate::module::OpCode::Mul || op == crate::module::OpCode::Div || op
            == crate::module::OpCode::Mod,
    ensures
        match r {
            Ok(n) => match op {
                crate::module::OpCode::Add => n == x + y,
                crate::module::OpCode::Sub => n == x - y,
                crate::module::OpCode::Mul => n == x * y,
                crate::module::OpCode::Div => y != 0 && n == x as int / y as int,
                crate::module::OpCode::Mod => y != 0 && n == x as int % y as int,
                _ => false,
            },
            Err(e) => match op {
                crate::module::OpCode::Add => x + y > u128::MAX && e
                    == crate::errors::VMError::ValueError(ValueError::IntegerOverflow),
                crate::module::OpCode::Sub => x < y && e == crate::errors::VMError::ValueError(
                    ValueError::IntegerOverflow,
                ),
                crate::module::OpCode::Mul => x * y > u128::MAX && e
                    == crate::errors::VMError::ValueError(ValueError::IntegerOverflow),
                crate::module::OpCode::Div => y == 0 && e == crate::errors::VMError::DivisionByZero,
                crate::module::OpCode::Mod => y == 0 && e == crate::errors::VMError::DivisionByZero,
                _ => false,
            },
        },
{
    match op {
        crate::module::OpCode::Add => match x.checked_add(y) {
            Some(n) => Ok(n),
            None => Err(crate::errors::VMError::ValueError(ValueError::IntegerOverflow)),
        },
        crate::module::OpCode::Sub => match x.checked_sub(y) {
            Some(n) => Ok(n),
            None => Err(crate::errors::VMError::ValueError(ValueError::IntegerOverflow)),
        },
        crate::module::OpCode::Mul => match x.checked_mul(y) {
            Some(n) => Ok(n),
            None => Err(crate::errors::VMError::ValueError(ValueError::IntegerOverflow)),
        },
        crate::module::OpCode::Div => {
            if y == 0 {
                Err(crate::errors::VMError::DivisionByZero)
            } else {
                proof {
                    assert(x / y <= x) by (nonlinear_arith)
                        requires
                            y > 0,
                            x >= 0,
                    ;
                }
                Ok(x / y)
            }
        },
        crate::module::OpCode::Mod => {
            if y == 0 {
                Err(crate::errors::VMError::DivisionByZero)
            } else {
                proof {
                    assert(x % y <= x) by (nonlinear_arith)
                        requires
                            y > 0,
                            x >= 0,
                    ;
                }
                Ok(x % y)
            }
        },
        _ => Err(crate::errors::VMError::InvalidOpCode),
    }
}

/// Same-type shifts on integers; a shift by the type's width or more
/// overflows.
fn shift_value_op(op: crate::module::OpCode, a: Value, b: Value) -> (r: Result<
    Value,
    crate::errors::VMError,
>)
    requires
        op == crate::module::OpCode::Shl || op == crate::module::OpCode::Shr,
    ensures
        r matches Err(e) ==> e != crate::errors::VMError::OutOfGas && !(e
            is Validation) && e != crate::errors::VMError::Terminated,
{
    let amount: u32 = match b {
        Value::U8(n) => n as u32,
        Value::U16(n) => n as u32,
        Value::U32(n) => n,
        Value::U64(n) => if n > u32::MAX as u64 {
            return Err(crate::errors::VMError::ValueError(ValueError::IntegerOverflow));
        } else {
            n as u32
        },
        _ => {
            return Err(crate::errors::VMError::ValueError(ValueError::OperationNotNumberType));
        },
    };
    let shl = match op {
        crate::module::OpCode::Shl => true,
        _ => false,
    };
    match a {
        Value::U8(x) => {
            if amount >= 8 {
                return Err(crate::errors::VMError::ValueError(ValueError::IntegerOverflow));
            }
            Ok(Value::U8(if shl { x << (amount as u8) } else { x >> (amount as u8) }))
        },
        Value::U16(x) => {
            if amount >= 16 {
                return Err(crate::errors::VMError::ValueError(ValueError::IntegerOverflow));
            }
            Ok(Value::U16(if shl { x << (amount as u16) } else { x >> (amount as u16) }))
        },
        Value::U32(x) => {
            if amount >= 32 {
                return Err(crate::errors::VMError::ValueError(ValueError::IntegerOverflow));
            }
            Ok(Value::U32(if shl { x << amount } else { x >> amount }))
        },
        Value::U64(x) => {
            if amount >= 64 {
                return Err(crate::errors::VMError::ValueError(ValueError::IntegerOverflow));
            }
            Ok(Value::U64(if shl { x << (amount as u64) } else { x >> (amount as u64) }))
        },
        Value::U128(x) => {
            if amount >= 128 {
                return Err(crate::errors::VMError::ValueError(ValueError::IntegerOverflow));
            }
            Ok(Value::U128(if shl { x << (amount as u128) } else { x >> (amount as u128) }))
        },
        _ => Err(crate::errors::VMError::ValueError(ValueError::OperationNotNumberType)),
    }
}

/// Same-type bitwise connectives on integers.
fn bitwise_value_op(op: crate::module::OpCode, a: Value, b: Value) -> (r: Result<
    Value,
    crate::errors::VMError,
>)
    requires
        op == crate::module::OpCode::BitAnd || op == crate::module::OpCode::BitOr || op
            == crate::module::OpCode::BitXor,
    ensures
        r matches Err(e) ==> e != crate::errors::VMError::OutOfGas && !(e
            is Validation) && e != crate::errors::VMError::Terminated,
{
    match (a, b) {
        (Value::U8(x), Value::U8(y)) => Ok(
            Value::U8(
                match op {
                    crate::module::OpCode::BitAnd => x & y,
                    crate::module::OpCode::BitOr => x | y,
                    _ => x ^ y,
                },
            ),
        ),
        (Value::U16(x), Value::U16(y)) => Ok(
            Value::U16(
                match op {
                    crate::module::OpCode::BitAnd => x & y,
                    crate::module::OpCode::BitOr => x | y,
                    _ => x ^ y,
                },
            ),
        ),
        (Value::U32(x), Value::U32(y)) => Ok(
            Value::U32(
                match op {
                    crate::module::OpCode::BitAnd => x & y,
                    crate::module::OpCode::BitOr => x | y,
                    _ => x ^ y,
                },
            ),
        ),
        (Value::U64(x), Value::U64(y)) => Ok(
            Value::U64(
                match op {
                    crate::module::OpCode::BitAnd => x & y,
                    crate::module::OpCode::BitOr => x | y,
                    _ => x ^ y,
                },
            ),
        ),
        (Value::U128(x), Value::U128(y)) => Ok(
            Value::U128(
                match op {
                    crate::module::OpCode::BitAnd => x & y,
                    crate::module::OpCode::BitOr => x | y,
                    _ => x ^ y,
                },
            ),
        ),
        _ => Err(crate::errors::VMError::ValueError(ValueError::OperationNotNumberType)),
    }
}

/// Casting a number to its own type gives the number back, and keeping
/// only the bits of its own width changes nothing: a cast to the same
/// width is the identity.
pub proof fn lemma_cast_same_width_identity(v: ValueV)
    requires
        numeric_of(v) matches Some(n),
        0 <= numeric_of(v).unwrap() <= spec_type_max(spec_type_of(v).unwrap()),
    ensures
        spec_checked_cast_value(v, spec_type_of(v).unwrap()) == Ok::<ValueV, ValueError>(v),
        v is U8 ==> spec_truncated(v, 0x100) == numeric_of(v),
        v is U16 ==> spec_truncated(v, 0x1_0000) == numeric_of(v),
        v is U32 ==> spec_truncated(v, 0x1_0000_0000) == numeric_of(v),
        v is U64 ==> spec_truncated(v, 0x1_0000_0000_0000_0000) == numeric_of(v),
        v is U128 ==> spec_truncated(v, crate::u256::pow128()) == numeric_of(v),
{
    match v {
        ValueV::U8(n) => {
            assert(n as int % 0x100int == n as int);
        },
        ValueV::U16(n) => {
            assert(n as int % 0x1_0000int == n as int);
        },
        ValueV::U32(n) => {
            assert(n as int % 0x1_0000_0000int == n as int);
        },
        ValueV::U64(n) => {
            assert(n as int % 0x1_0000_0000_0000_0000int == n as int);
        },
        ValueV::U128(n) => {
            assert(crate::u256::pow128() > 0) by (nonlinear_arith);
            assert(n as int % crate::u256::pow128() == n as int) by (nonlinear_arith)
                requires
                    0 <= (n as int) && (n as int) < crate::u256::pow128(),
            ;
        },
        _ => {},
    }
}

} // verus!
