use vstd::prelude::*;
use vstd::string::StringExecFns;

verus! {

broadcast use vstd::group_vstd_default;

/// A type of the scripting language. Primitive types carry nothing,
/// composite types carry their inner types, and struct / enum types
/// carry the identifier of their schema in the module or environment.
#[derive(Debug, Eq, Hash)]
pub enum Type {
    /// Accepts any type.
    Any,
    /// A generic placeholder; the byte is its position.
    T(u8),
    U8,
    U16,
    U32,
    U64,
    U128,
    U256,
    String,
    Bool,
    Struct(u16),
    Enum(u16),
    Array(Box<Type>),
    Optional(Box<Type>),
    Range(Box<Type>),
    Mapping(Box<Type>, Box<Type>),
}

/// The declared shape of a struct: its ordered field types.
#[derive(Clone, Debug, PartialEq, Eq)]
pub struct StructSchema {
    pub fields: Vec<Type>,
}

/// One variant of an enum: its ordered field types.
#[derive(Clone, Debug, PartialEq, Eq)]
pub struct EnumVariant {
    pub fields: Vec<Type>,
}

/// The declared shape of an enum: its ordered variants.
#[derive(Clone, Debug, PartialEq, Eq)]
pub struct EnumSchema {
    pub variants: Vec<EnumVariant>,
}

/// The field types of a list of variants, in order.
pub open spec fn variants_view(variants: Seq<EnumVariant>) -> Seq<Seq<Type>>
    decreases variants,
{
    Seq::new(
        variants.len(),
        |i: int|
            if 0 <= i < variants.len() {
                variants[i].fields@
            } else {
                Seq::empty()
            },
    )
}

impl View for StructSchema {
    type V = Seq<Type>;

    open spec fn view(&self) -> Seq<Type> {
        self.fields@
    }
}

impl View for EnumVariant {
    type V = Seq<Type>;

    open spec fn view(&self) -> Seq<Type> {
        self.fields@
    }
}

impl View for EnumSchema {
    type V = Seq<Seq<Type>>;

    open spec fn view(&self) -> Seq<Seq<Type>> {
        variants_view(self.variants@)
    }
}

/// Identifies one variant of one enum schema.
#[derive(Clone, Copy, Debug, PartialEq, Eq, Structural)]
pub struct EnumValueId {
    pub enum_id: u16,
    pub variant_id: u8,
}

/// What `is_compatible_with` means: `Any` and generic placeholders unify
/// with anything, composites recurse, and other types must be equal.
pub open spec fn spec_compatible(a: Type, b: Type) -> bool
    decreases b, a,
{
    match b {
        Type::Range(inner) => match a {
            Type::Range(inner2) => spec_compatible(*inner2, *inner),
            _ => false,
        },
        Type::Any => true,
        Type::T(_) => true,
        Type::Array(sub_type) => match a {
            Type::Array(sub) => spec_compatible(*sub, *sub_type),
            _ => a == b || spec_compatible(a, *sub_type),
        },
        Type::Optional(sub_type) => match a {
            Type::Optional(sub) => spec_compatible(*sub, *sub_type),
            _ => a == b || spec_compatible(a, *sub_type),
        },
        Type::Mapping(k, v) => match a {
            Type::Mapping(k2, v2) => spec_compatible(*k2, *k) && spec_compatible(*v2, *v),
            _ => false,
        },
        o => o == a || spec_is_generic(a),
    }
}

pub open spec fn spec_is_generic(t: Type) -> bool {
    t is T || t is Any
}

pub open spec fn spec_is_number_type(t: Type) -> bool {
    ||| t is U8
    ||| t is U16
    ||| t is U32
    ||| t is U64
    ||| t is U128
    ||| t is U256
}

/// What `is_castable_to` means: integers cast across every integer width
/// and to strings; booleans cast to integers and strings.
pub open spec fn spec_castable(a: Type, b: Type) -> bool {
    match a {
        Type::Bool => spec_is_number_type(b) || b is String,
        _ => {
            &&& spec_is_number_type(a)
            &&& (spec_is_number_type(b) || b is String)
            &&& a != b
        },
    }
}

/// What `is_castable_to_no_loss` means: strictly widening integer casts.
pub open spec fn spec_castable_no_loss(a: Type, b: Type) -> bool {
    &&& spec_is_number_type(a)
    &&& spec_is_number_type(b)
    &&& spec_width_of(a) < spec_width_of(b)
}

/// Byte width of a numeric primitive type.
pub open spec fn spec_width_of(t: Type) -> nat {
    match t {
        Type::U8 => 1,
        Type::U16 => 2,
        Type::U32 => 4,
        Type::U64 => 8,
        Type::U128 => 16,
        Type::U256 => 32,
        _ => 0,
    }
}

/// The stable one-byte tag of each primitive type.
pub open spec fn spec_primitive_byte(t: Type) -> Option<u8> {
    match t {
        Type::U8 => Some(0u8),
        Type::U16 => Some(1u8),
        Type::U32 => Some(2u8),
        Type::U64 => Some(3u8),
        Type::U128 => Some(4u8),
        Type::U256 => Some(5u8),
        Type::Bool => Some(6u8),
        Type::String => Some(7u8),
        _ => None,
    }
}

impl Type {
    /// Decodes the one-byte tag of a primitive type; bytes past the
    /// last tag decode to nothing.
    pub fn primitive_type_from_byte(byte: u8) -> (r: Option<Type>)
        ensures
            match r {
                Some(t) => spec_primitive_byte(t) == Some(byte),
                None => byte > 7,
            },
    {
        match byte {
            0 => Some(Type::U8),
            1 => Some(Type::U16),
            2 => Some(Type::U32),
            3 => Some(Type::U64),
            4 => Some(Type::U128),
            5 => Some(Type::U256),
            6 => Some(Type::Bool),
            7 => Some(Type::String),
            _ => None,
        }
    }

    /// The one-byte tag of this type, for primitive types only.
    pub fn primitive_byte(&self) -> (r: Option<u8>)
        ensures
            r == spec_primitive_byte(*self),
    {
        match self {
            Type::U8 => Some(0),
            Type::U16 => Some(1),
            Type::U32 => Some(2),
            Type::U64 => Some(3),
            Type::U128 => Some(4),
            Type::U256 => Some(5),
            Type::Bool => Some(6),
            Type::String => Some(7),
            _ => None,
        }
    }

    /// Whether the type carries an inner type.
    pub fn has_inner_type(&self) -> (r: bool)
        ensures
            r == (self is Array || self is Optional || self is Range || self is Mapping),
    {
        match self {
            Type::Array(_) | Type::Optional(_) | Type::Range(_) | Type::Mapping(_, _) => true,
            _ => false,
        }
    }

    /// Whether the type is primitive (has a one-byte tag).
    pub fn is_primitive(&self) -> (r: bool)
        ensures
            r == (spec_primitive_byte(*self) is Some),
    {
        let b = self.primitive_byte();
        b.is_some()
    }

    /// The inner type of an array, optional or range; any other type is
    /// its own inner type.
    pub fn get_inner_type(&self) -> (r: &Type)
        ensures
            *r == match *self {
                Type::Array(t) => *t,
                Type::Optional(t) => *t,
                Type::Range(t) => *t,
                _ => *self,
            },
    {
        match self {
            Type::Array(t) => t,
            Type::Optional(t) => t,
            Type::Range(t) => t,
            _ => self,
        }
    }

    /// The type standing at a generic position: position 0 is the key or
    /// element type, position 1 is a map's value type.
    pub fn get_generic_type(&self, id: u8) -> (r: Option<&Type>)
        ensures
            match r {
                Some(t) => match *self {
                    Type::Mapping(k, v) => (id == 0 && *t == *k) || (id == 1 && *t == *v),
                    Type::Array(inner) => id == 0 && *t == *inner,
                    Type::Optional(inner) => id == 0 && *t == *inner,
                    Type::Range(inner) => id == 0 && *t == *inner,
                    _ => false,
                },
                None => match *self {
                    Type::Mapping(_, _) => id > 1,
                    Type::Array(_) | Type::Optional(_) | Type::Range(_) => id != 0,
                    _ => true,
                },
            },
    {
        match id {
            0 => match self {
                Type::Mapping(key, _) => Some(key),
                Type::Array(inner) => Some(inner),
                Type::Optional(inner) => Some(inner),
                Type::Range(inner) => Some(inner),
                _ => None,
            },
            1 => match self {
                Type::Mapping(_, value) => Some(value),
                _ => None,
            },
            _ => None,
        }
    }

    /// Whether a null value inhabits the type.
    pub fn allow_null(&self) -> (r: bool)
        ensures
            r == (self is Optional),
    {
        match self {
            Type::Optional(_) => true,
            _ => false,
        }
    }

    /// Whether the type is a generic placeholder.
    pub fn is_generic(&self) -> (r: bool)
        ensures
            r == spec_is_generic(*self),
    {
        match self {
            Type::T(_) | Type::Any => true,
            _ => false,
        }
    }

    /// Structural compatibility with another type.
    pub fn is_compatible_with(&self, other: &Type) -> (r: bool)
        ensures
            r == spec_compatible(*self, *other),
        decreases other, self,
    {
        match other {
            Type::Range(inner) => match self {
                Type::Range(inner2) => (&**inner2).is_compatible_with(&**inner),
                _ => false,
            },
            Type::Any | Type::T(_) => true,
            Type::Array(sub_type) => match self {
                Type::Array(sub) => (&**sub).is_compatible_with(&**sub_type),
                _ => self.eq(other) || self.is_compatible_with(&**sub_type),
            },
            Type::Optional(sub_type) => match self {
                Type::Optional(sub) => (&**sub).is_compatible_with(&**sub_type),
                _ => self.eq(other) || self.is_compatible_with(&**sub_type),
            },
            Type::Mapping(k, v) => match self {
                Type::Mapping(k2, v2) => (&**k2).is_compatible_with(&**k) && (&**v2)
                    .is_compatible_with(&**v),
                _ => false,
            },
            o => o.eq(self) || self.is_generic(),
        }
    }

    /// Whether a value of this type can be cast to `other` at all.
    pub fn is_castable_to(&self, other: &Type) -> (r: bool)
        ensures
            r == spec_castable(*self, *other),
    {
        match self {
            Type::U8 => match other {
                Type::U16 | Type::U32 | Type::U64 | Type::U128 | Type::U256 | Type::String => true,
                _ => false,
            },
            Type::U16 => match other {
                Type::U8 | Type::U32 | Type::U64 | Type::U128 | Type::U256 | Type::String => true,
                _ => false,
            },
            Type::U32 => match other {
                Type::U8 | Type::U16 | Type::U64 | Type::U128 | Type::U256 | Type::String => true,
                _ => false,
            },
            Type::U64 => match other {
                Type::U8 | Type::U16 | Type::U32 | Type::U128 | Type::U256 | Type::String => true,
                _ => false,
            },
            Type::U128 => match other {
                Type::U8 | Type::U16 | Type::U32 | Type::U64 | Type::U256 | Type::String => true,
                _ => false,
            },
            Type::U256 => match other {
                Type::U8 | Type::U16 | Type::U32 | Type::U64 | Type::U128 | Type::String => true,
                _ => false,
            },
            Type::Bool => match other {
                Type::U8 | Type::U16 | Type::U32 | Type::U64 | Type::U128 | Type::U256
                | Type::String => true,
                _ => false,
            },
            _ => false,
        }
    }

    /// Whether a cast to `other` can never lose information.
    pub fn is_castable_to_no_loss(&self, other: &Type) -> (r: bool)
        ensures
            r == spec_castable_no_loss(*self, *other),
    {
        match self {
            Type::U8 => match other {
                Type::U16 | Type::U32 | Type::U64 | Type::U128 | Type::U256 => true,
                _ => false,
            },
            Type::U16 => match other {
                Type::U32 | Type::U64 | Type::U128 | Type::U256 => true,
                _ => false,
            },
            Type::U32 => match other {
                Type::U64 | Type::U128 | Type::U256 => true,
                _ => false,
            },
            Type::U64 => match other {
                Type::U128 | Type::U256 => true,
                _ => false,
            },
            Type::U128 => match other {
                Type::U256 => true,
                _ => false,
            },
            _ => false,
        }
    }

    /// Whether values of this type can be iterated.
    pub fn is_iterable(&self) -> (r: bool)
        ensures
            r == (self is Array || self is Range),
    {
        match self {
            Type::Array(_) => true,
            Type::Range(_) => true,
            _ => false,
        }
    }

    pub fn is_array(&self) -> (r: bool)
        ensures
            r == (self is Array),
    {
        match self {
            Type::Array(_) => true,
            _ => false,
        }
    }

    pub fn is_struct(&self) -> (r: bool)
        ensures
            r == (self is Struct),
    {
        match self {
            Type::Struct(_) => true,
            _ => false,
        }
    }

    pub fn is_number(&self) -> (r: bool)
        ensures
            r == spec_is_number_type(*self),
    {
        match self {
            Type::U8 | Type::U16 | Type::U32 | Type::U64 | Type::U128 | Type::U256 => true,
            _ => false,
        }
    }

    pub fn is_optional(&self) -> (r: bool)
        ensures
            r == (self is Optional),
    {
        match self {
            Type::Optional(_) => true,
            _ => false,
        }
    }

    /// A readable rendering of the type, as source code would write it.
    pub fn describe(&self) -> String
        decreases self,
    {
        match self {
            Type::Any => "any".to_owned(),
            Type::T(_) => "T".to_owned(),
            Type::U8 => "u8".to_owned(),
            Type::U16 => "u16".to_owned(),
            Type::U32 => "u32".to_owned(),
            Type::U64 => "u64".to_owned(),
            Type::U128 => "u128".to_owned(),
            Type::U256 => "u256".to_owned(),
            Type::String => "string".to_owned(),
            Type::Bool => "bool".to_owned(),
            Type::Struct(_) => "struct".to_owned(),
            Type::Enum(_) => "enum".to_owned(),
            Type::Array(t) => {
                let mut s = t.describe();
                s.append("[]");
                s
            },
            Type::Optional(t) => {
                let mut s = "optional<".to_owned();
                let inner = t.describe();
                s.append(inner.as_str());
                s.append(">");
                s
            },
            Type::Range(t) => {
                let mut s = "range<".to_owned();
                let inner = t.describe();
                s.append(inner.as_str());
                s.append(">");
                s
            },
            Type::Mapping(k, v) => {
                let mut s = "map<".to_owned();
                let ks = k.describe();
                s.append(ks.as_str());
                s.append(", ");
                let vs = v.describe();
                s.append(vs.as_str());
                s.append(">");
                s
            },
        }
    }
}

/// Clone for Type, written by hand so that verified code knows the
/// clone equals the original.
impl Clone for Type {
    fn clone(&self) -> (r: Self)
        ensures
            r == *self,
        decreases self,
    {
        match self {
            Type::Any => Type::Any,
            Type::T(n) => Type::T(*n),
            Type::U8 => Type::U8,
            Type::U16 => Type::U16,
            Type::U32 => Type::U32,
            Type::U64 => Type::U64,
            Type::U128 => Type::U128,
            Type::U256 => Type::U256,
            Type::String => Type::String,
            Type::Bool => Type::Bool,
            Type::Struct(id) => Type::Struct(*id),
            Type::Enum(id) => Type::Enum(*id),
            Type::Array(t) => Type::Array(Box::new((**t).clone())),
            Type::Optional(t) => Type::Optional(Box::new((**t).clone())),
            Type::Range(t) => Type::Range(Box::new((**t).clone())),
            Type::Mapping(k, v) => Type::Mapping(Box::new((**k).clone()), Box::new((**v).clone())),
        }
    }
}

/// PartialEq for Type, written by hand so that verified code can rely
/// on `eq` deciding structural equality.
impl PartialEq for Type {
    fn eq(&self, other: &Type) -> (r: bool)
        ensures
            r == (self == other),
        decreases self,
    {
        match (self, other) {
            (Type::Any, Type::Any) => true,
            (Type::T(a), Type::T(b)) => a == b,
            (Type::U8, Type::U8) => true,
            (Type::U16, Type::U16) => true,
            (Type::U32, Type::U32) => true,
            (Type::U64, Type::U64) => true,
            (Type::U128, Type::U128) => true,
            (Type::U256, Type::U256) => true,
            (Type::String, Type::String) => true,
            (Type::Bool, Type::Bool) => true,
            (Type::Struct(a), Type::Struct(b)) => a == b,
            (Type::Enum(a), Type::Enum(b)) => a == b,
            (Type::Array(a), Type::Array(b)) => (&**a).eq(&**b),
            (Type::Optional(a), Type::Optional(b)) => (&**a).eq(&**b),
            (Type::Range(a), Type::Range(b)) => (&**a).eq(&**b),
            (Type::Mapping(ka, va), Type::Mapping(kb, vb)) => (&**ka).eq(&**kb) && (&**va).eq(
                &**vb,
            ),
            _ => false,
        }
    }
}

impl vstd::std_specs::cmp::PartialEqSpecImpl for Type {
    open spec fn obeys_eq_spec() -> bool {
        true
    }

    open spec fn eq_spec(&self, other: &Type) -> bool {
        self == other
    }
}

/// The compatibility relation is reflexive: every type is compatible
/// with itself.
pub proof fn lemma_compatible_reflexive(t: Type)
    ensures
        spec_compatible(t, t),
    decreases t,
{
    match t {
        Type::Array(inner) => lemma_compatible_reflexive(*inner),
        Type::Optional(inner) => lemma_compatible_reflexive(*inner),
        Type::Range(inner) => lemma_compatible_reflexive(*inner),
        Type::Mapping(k, v) => {
            lemma_compatible_reflexive(*k);
            lemma_compatible_reflexive(*v);
        },
        _ => {},
    }
}

/// The compatibility relation is closed under composite structure:
/// compatible inner types make compatible arrays, optionals, ranges,
/// and maps.
pub proof fn lemma_compatible_composite(a: Type, b: Type, k: Type, v: Type)
    requires
        spec_compatible(a, b),
        spec_compatible(k, v),
    ensures
        spec_compatible(Type::Array(Box::new(a)), Type::Array(Box::new(b))),
        spec_compatible(Type::Optional(Box::new(a)), Type::Optional(Box::new(b))),
        spec_compatible(Type::Range(Box::new(a)), Type::Range(Box::new(b))),
        spec_compatible(
            Type::Mapping(Box::new(k), Box::new(a)),
            Type::Mapping(Box::new(v), Box::new(b)),
        ),
{
}

} // verus!
