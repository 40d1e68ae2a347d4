use vstd::prelude::*;

use crate::errors::ValueError;
use crate::types::{EnumValueId, Type};
use crate::u256::{u256_int, U256};
use crate::values::{numeric_of, spec_type_of, value_view, Value, ValueV};

verus! {

broadcast use vstd::group_vstd_default;

/// A plain composite value: the form constants take in a module, and
/// the form map keys take at runtime. Children are held inline; no
/// sharing is possible in this layer.
#[derive(Debug)]
pub enum ValueType {
    /// A primitive value.
    Default(Value),
    /// Struct fields in declaration order, and the struct's id.
    Struct(Vec<ValueType>, u16),
    /// Array elements in index order.
    Array(Vec<ValueType>),
    /// An optional, present or empty.
    Optional(Option<Box<ValueType>>),
    /// Map entries in insertion order; keys are unique and never maps.
    Mapping(Vec<(ValueType, ValueType)>),
    /// Enum variant fields in declaration order, and the variant id.
    Enum(Vec<ValueType>, EnumValueId),
}

/// The mathematical shape of a plain composite value.
pub enum CellV {
    Prim(ValueV),
    Struct(Seq<CellV>, u16),
    Array(Seq<CellV>),
    Optional(Option<Box<CellV>>),
    Mapping(Seq<(CellV, CellV)>),
    Enum(Seq<CellV>, EnumValueId),
}

/// The model of a plain composite value.
pub open spec fn cell_view(c: ValueType) -> CellV
    decreases c,
{
    match c {
        ValueType::Default(v) => CellV::Prim(value_view(v)),
        ValueType::Struct(fields, id) => CellV::Struct(cells_view(fields@), id),
        ValueType::Array(elems) => CellV::Array(cells_view(elems@)),
        ValueType::Optional(o) => match o {
            Some(b) => CellV::Optional(Some(Box::new(cell_view(*b)))),
            None => CellV::Optional(None),
        },
        ValueType::Mapping(entries) => CellV::Mapping(pairs_view(entries@)),
        ValueType::Enum(fields, id) => CellV::Enum(cells_view(fields@), id),
    }
}

/// The models of a sequence of plain values, in order.
pub open spec fn cells_view(elems: Seq<ValueType>) -> Seq<CellV>
    decreases elems,
{
    Seq::new(
        elems.len(),
        |i: int|
            if 0 <= i < elems.len() {
                cell_view(elems[i])
            } else {
                CellV::Optional(None)
            },
    )
}

/// The models of a sequence of key-value pairs, in order.
pub open spec fn pairs_view(entries: Seq<(ValueType, ValueType)>) -> Seq<(CellV, CellV)>
    decreases entries,
{
    Seq::new(
        entries.len(),
        |i: int|
            if 0 <= i < entries.len() {
                (cell_view(entries[i].0), cell_view(entries[i].1))
            } else {
                (CellV::Optional(None), CellV::Optional(None))
            },
    )
}

impl View for ValueType {
    type V = CellV;

    open spec fn view(&self) -> CellV {
        cell_view(*self)
    }
}

/// Structural equality of two plain values, decided recursively.
pub fn cells_equal(a: &ValueType, b: &ValueType) -> (r: bool)
    ensures
        r == (a@ == b@),
    decreases a,
{
    match (a, b) {
        (ValueType::Default(x), ValueType::Default(y)) => values_equal(x, y),
        (ValueType::Struct(x, xid), ValueType::Struct(y, yid)) => {
            if *xid != *yid {
                return false;
            }
            if x.len() != y.len() {
                assert(cells_view(x@).len() != cells_view(y@).len());
                return false;
            }
            let mut i: usize = 0;
            while i < x.len()
                invariant
                    *a == ValueType::Struct(*x, *xid),
                    *b == ValueType::Struct(*y, *yid),
                    x.len() == y.len(),
                    i <= x.len(),
                    forall|j: int| 0 <= j < i ==> cell_view(x@[j]) == cell_view(y@[j]),
                decreases x.len() - i,
            {
                proof {
                    assert(decreases_to!(*a => a->Struct_0));
                    assert(decreases_to!(*x => x@[i as int]));
                }
                if !cells_equal(&x[i], &y[i]) {
                    assert(cells_view(x@)[i as int] != cells_view(y@)[i as int]);
                    return false;
                }
                i += 1;
            }
            assert(cells_view(x@) =~= cells_view(y@));
            true
        },
        (ValueType::Array(x), ValueType::Array(y)) => {
            if x.len() != y.len() {
                assert(cells_view(x@).len() != cells_view(y@).len());
                return false;
            }
            let mut i: usize = 0;
            while i < x.len()
                invariant
                    *a == ValueType::Array(*x),
                    *b == ValueType::Array(*y),
                    x.len() == y.len(),
                    i <= x.len(),
                    forall|j: int| 0 <= j < i ==> cell_view(x@[j]) == cell_view(y@[j]),
                decreases x.len() - i,
            {
                proof {
                    assert(decreases_to!(*a => a->Array_0));
                    assert(decreases_to!(*x => x@[i as int]));
                }
                if !cells_equal(&x[i], &y[i]) {
                    assert(cells_view(x@)[i as int] != cells_view(y@)[i as int]);
                    return false;
                }
                i += 1;
            }
            assert(cells_view(x@) =~= cells_view(y@));
            true
        },
        (ValueType::Optional(x), ValueType::Optional(y)) => match (x, y) {
            (None, None) => true,
            (Some(bx), Some(by)) => cells_equal(&*bx, &*by),
            _ => false,
        },
        (ValueType::Enum(x, xid), ValueType::Enum(y, yid)) => {
            if xid.enum_id != yid.enum_id || xid.variant_id != yid.variant_id {
                return false;
            }
            if x.len() != y.len() {
                assert(cells_view(x@).len() != cells_view(y@).len());
                return false;
            }
            let mut i: usize = 0;
            while i < x.len()
                invariant
                    *a == ValueType::Enum(*x, *xid),
                    *b == ValueType::Enum(*y, *yid),
                    x.len() == y.len(),
                    i <= x.len(),
                    forall|j: int| 0 <= j < i ==> cell_view(x@[j]) == cell_view(y@[j]),
                decreases x.len() - i,
            {
                proof {
                    assert(decreases_to!(*a => a->Enum_0));
                    assert(decreases_to!(*x => x@[i as int]));
                }
                if !cells_equal(&x[i], &y[i]) {
                    assert(cells_view(x@)[i as int] != cells_view(y@)[i as int]);
                    return false;
                }
                i += 1;
            }
            assert(cells_view(x@) =~= cells_view(y@));
            true
        },
        (ValueType::Mapping(x), ValueType::Mapping(y)) => {
            if x.len() != y.len() {
                assert(pairs_view(x@).len() != pairs_view(y@).len());
                return false;
            }
            let mut i: usize = 0;
            while i < x.len()
                invariant
                    *a == ValueType::Mapping(*x),
                    *b == ValueType::Mapping(*y),
                    x.len() == y.len(),
                    i <= x.len(),
                    forall|j: int|
                        0 <= j < i ==> cell_view(x@[j].0) == cell_view(y@[j].0) && cell_view(
                            x@[j].1,
                        ) == cell_view(y@[j].1),
                decreases x.len() - i,
            {
                proof {
                    assert(decreases_to!(*a => a->Mapping_0));
                    assert(decreases_to!(*x => x@[i as int]));
                    assert(decreases_to!(x@[i as int] => x@[i as int].0));
                    assert(decreases_to!(x@[i as int] => x@[i as int].1));
                }
                if !cells_equal(&x[i].0, &y[i].0) {
                    assert(pairs_view(x@)[i as int] != pairs_view(y@)[i as int]);
                    return false;
                }
                if !cells_equal(&x[i].1, &y[i].1) {
                    assert(pairs_view(x@)[i as int] != pairs_view(y@)[i as int]);
                    return false;
                }
                i += 1;
            }
            assert(pairs_view(x@) =~= pairs_view(y@));
            true
        },
        _ => {
            false
        },
    }
}

/// Structural equality of two primitive values.
pub fn values_equal(a: &Value, b: &Value) -> (r: bool)
    ensures
        r == (a@ == b@),
    decreases a,
{
    match (a, b) {
        (Value::Null, Value::Null) => true,
        (Value::U8(x), Value::U8(y)) => x == y,
        (Value::U16(x), Value::U16(y)) => x == y,
        (Value::U32(x), Value::U32(y)) => x == y,
        (Value::U64(x), Value::U64(y)) => x == y,
        (Value::U128(x), Value::U128(y)) => x == y,
        (Value::U256(x), Value::U256(y)) => {
            proof {
                crate::u256::lemma_value_injective(*x, *y);
            }
            x.w0 == y.w0 && x.w1 == y.w1 && x.w2 == y.w2 && x.w3 == y.w3
        },
        (Value::String(x), Value::String(y)) => x.eq(y),
        (Value::Boolean(x), Value::Boolean(y)) => x == y,
        (Value::Range(xs, xe, xt), Value::Range(ys, ye, yt)) => values_equal(&*xs, &*ys)
            && values_equal(&*xe, &*ye) && xt.eq(yt),
        _ => false,
    }
}


/// Whether map entries carry pairwise distinct keys.
pub open spec fn spec_keys_unique(entries: Seq<(CellV, CellV)>) -> bool {
    forall|i: int, j: int| 0 <= i < j < entries.len() ==> entries[i].0 != entries[j].0
}

/// Whether a key occurs among map entries.
pub open spec fn spec_has_key(entries: Seq<(CellV, CellV)>, key: CellV) -> bool {
    exists|i: int| 0 <= i < entries.len() && entries[i].0 == key
}

/// Looks a key up in map entries.
pub fn map_get<'a>(entries: &'a Vec<(ValueType, ValueType)>, key: &ValueType) -> (r: Option<
    &'a ValueType,
>)
    ensures
        match r {
            Some(v) => exists|i: int|
                0 <= i < entries@.len() && #[trigger] pairs_view(entries@)[i] == (key@, v@),
            None => !spec_has_key(pairs_view(entries@), key@),
        },
{
    let mut i: usize = 0;
    while i < entries.len()
        invariant
            i <= entries.len(),
            forall|j: int| 0 <= j < i ==> #[trigger] pairs_view(entries@)[j].0 != key@,
        decreases entries.len() - i,
    {
        if cells_equal(&entries[i].0, key) {
            assert(pairs_view(entries@)[i as int] == (key@, entries@[i as int].1@));
            return Some(&entries[i].1);
        }
        i += 1;
    }
    None
}

/// Writes a key into map entries: an existing entry for the key keeps
/// its place and takes the new value, a new key goes to the end.
pub fn map_insert(entries: &mut Vec<(ValueType, ValueType)>, key: ValueType, value: ValueType)
    ensures
        spec_keys_unique(pairs_view(old(entries)@)) && spec_has_key(
            pairs_view(old(entries)@),
            key@,
        ) ==> {
            &&& pairs_view(final(entries)@).len() == pairs_view(old(entries)@).len()
            &&& forall|j: int|
                0 <= j < pairs_view(old(entries)@).len() ==> #[trigger] pairs_view(
                    final(entries)@,
                )[j] == if pairs_view(old(entries)@)[j].0 == key@ {
                    (key@, value@)
                } else {
                    pairs_view(old(entries)@)[j]
                }
        },
        !spec_has_key(pairs_view(old(entries)@), key@) ==> pairs_view(final(entries)@)
            =~= pairs_view(old(entries)@).push((key@, value@)),
        spec_keys_unique(pairs_view(old(entries)@)) ==> spec_keys_unique(
            pairs_view(final(entries)@),
        ),
        spec_has_key(pairs_view(final(entries)@), key@),
{
    let mut i: usize = 0;
    while i < entries.len()
        invariant
            i <= entries.len(),
            *entries == *old(entries),
            forall|j: int| 0 <= j < i ==> #[trigger] pairs_view(entries@)[j].0 != key@,
        decreases entries.len() - i,
    {
        if cells_equal(&entries[i].0, &key) {
            assert(pairs_view(entries@)[i as int].0 == key@);
            let ghost idx = i as int;
            entries[i] = (key, value);
            proof {
                assert(forall|j: int|
                    0 <= j < pairs_view(old(entries)@).len() && j != idx ==> #[trigger] pairs_view(
                        entries@,
                    )[j] == pairs_view(old(entries)@)[j]);
                assert(pairs_view(entries@)[idx] == (key@, value@));
                assert(spec_keys_unique(pairs_view(old(entries)@)) ==> forall|j: int|
                    0 <= j < pairs_view(old(entries)@).len() && j != idx
                        ==> #[trigger] pairs_view(old(entries)@)[j].0 != key@);
                assert(forall|j: int|
                    0 <= j < pairs_view(entries@).len() ==> #[trigger] pairs_view(entries@)[j].0
                        == if j == idx {
                        key@
                    } else {
                        pairs_view(old(entries)@)[j].0
                    });
                assert(spec_keys_unique(pairs_view(old(entries)@)) ==> spec_keys_unique(
                    pairs_view(entries@),
                ));
            }
            return ;
        }
        i += 1;
    }
    entries.push((key, value));
    proof {
        assert(pairs_view(entries@) =~= pairs_view(old(entries)@).push((key@, value@)));
        assert(pairs_view(entries@)[pairs_view(entries@).len() - 1] == (key@, value@));
        assert(forall|j: int|
            0 <= j < pairs_view(old(entries)@).len() ==> #[trigger] pairs_view(old(entries)@)[j].0
                != key@);
    }
}

/// Clone for plain values, written by hand so that the clone is known
/// to carry the same model.
impl Clone for ValueType {
    fn clone(&self) -> (r: Self)
        ensures
            r@ == self@,
        decreases self,
    {
        match self {
            ValueType::Default(v) => ValueType::Default(v.clone()),
            ValueType::Struct(fields, id) => ValueType::Struct(clone_cells(fields), *id),
            ValueType::Array(elems) => ValueType::Array(clone_cells(elems)),
            ValueType::Optional(o) => match o {
                Some(b) => ValueType::Optional(Some(Box::new((**b).clone()))),
                None => ValueType::Optional(None),
            },
            ValueType::Mapping(entries) => {
                let mut out: Vec<(ValueType, ValueType)> = Vec::new();
                let mut i: usize = 0;
                while i < entries.len()
                    invariant
                        *self == ValueType::Mapping(*entries),
                        i <= entries.len(),
                        pairs_view(out@) =~= pairs_view(entries@).take(i as int),
                    decreases entries.len() - i,
                {
                    proof {
                        assert(decreases_to!(*self => self->Mapping_0));
                        assert(decreases_to!(*entries => entries@[i as int]));
                        assert(decreases_to!(entries@[i as int] => entries@[i as int].0));
                        assert(decreases_to!(entries@[i as int] => entries@[i as int].1));
                    }
                    let k = entries[i].0.clone();
                    let v = entries[i].1.clone();
                    proof {
                        assert(k@ == cell_view(entries@[i as int].0));
                        assert(v@ == cell_view(entries@[i as int].1));
                        assert(pairs_view(out@).len() == out@.len());
                    }
                    let ghost prev = out@;
                    out.push((k, v));
                    proof {
                        assert(out@ == prev.push((k, v)));
                        assert(out@.len() == i + 1);
                        assert(out@[i as int] == (k, v));
                        assert(pairs_view(out@)[i as int] == (k@, v@));
                        assert(forall|j: int|
                            0 <= j < i ==> #[trigger] pairs_view(out@)[j] == pairs_view(prev)[j]);
                        assert(pairs_view(out@) =~= pairs_view(entries@).take(i + 1));
                    }
                    i += 1;
                }
                proof {
                    assert(pairs_view(entries@).take(entries@.len() as int) =~= pairs_view(
                        entries@,
                    ));
                }
                ValueType::Mapping(out)
            },
            ValueType::Enum(fields, id) => ValueType::Enum(clone_cells(fields), *id),
        }
    }
}

/// Clones a list of plain values element by element.
fn clone_cells(elems: &Vec<ValueType>) -> (r: Vec<ValueType>)
    ensures
        cells_view(r@) =~= cells_view(elems@),
    decreases elems,
{
    let mut out: Vec<ValueType> = Vec::new();
    let mut i: usize = 0;
    while i < elems.len()
        invariant
            i <= elems.len(),
            cells_view(out@) =~= cells_view(elems@).take(i as int),
        decreases elems.len() - i,
    {
        proof {
            assert(decreases_to!(*elems => elems@[i as int]));
        }
        let c = elems[i].clone();
        proof {
            assert(c@ == cell_view(elems@[i as int]));
        }
        let ghost prev = out@;
        proof {
            assert(cells_view(prev).len() == prev.len());
            assert(prev.len() == i);
        }
        out.push(c);
        proof {
            assert(out@.len() == i + 1);
            assert(cell_view(out@[i as int]) == cell_view(elems@[i as int]));
            assert(forall|j: int|
                0 <= j < i ==> #[trigger] cells_view(out@)[j] == cells_view(prev)[j]);
            assert(cells_view(out@) =~= cells_view(elems@).take(i + 1));
        }
        i += 1;
    }
    proof {
        assert(cells_view(elems@).take(elems@.len() as int) =~= cells_view(elems@));
    }
    out
}

/// PartialEq for plain values decides equality of the models.
impl PartialEq for ValueType {
    fn eq(&self, other: &ValueType) -> (r: bool)
        ensures
            r == (self@ == other@),
    {
        cells_equal(self, other)
    }
}

impl vstd::std_specs::cmp::PartialEqSpecImpl for ValueType {
    open spec fn obeys_eq_spec() -> bool {
        true
    }

    open spec fn eq_spec(&self, other: &ValueType) -> bool {
        self@ == other@
    }
}


/// What a checked cast of a plain value to a possibly composite
/// primitive target returns: optionals accept null and unwrap, ranges
/// cast both endpoints, and primitive targets cast the inner value.
pub open spec fn spec_checked_cast_cell(c: CellV, t: Type) -> Result<CellV, ValueError>
    decreases t,
{
    match t {
        Type::Optional(inner) => if c == CellV::Prim(ValueV::Null) {
            Ok(CellV::Optional(None))
        } else {
            spec_checked_cast_cell(c, *inner)
        },
        Type::Range(inner) => match c {
            CellV::Prim(ValueV::Range(start, end, _)) => match (
                crate::values::spec_checked_cast_value(*start, *inner),
                crate::values::spec_checked_cast_value(*end, *inner),
            ) {
                (Ok(s2), Ok(e2)) => Ok(
                    CellV::Prim(ValueV::Range(Box::new(s2), Box::new(e2), *inner)),
                ),
                (Err(e), _) => Err(e),
                (_, Err(e)) => Err(e),
            },
            CellV::Prim(_) => Err(ValueError::InvalidValueType),
            _ => Err(ValueError::InvalidValueType),
        },
        Type::U8 | Type::U16 | Type::U32 | Type::U64 | Type::U128 | Type::U256 | Type::String
            | Type::Bool => match c {
            CellV::Prim(v) => match crate::values::spec_checked_cast_value(v, t) {
                Ok(v2) => Ok(CellV::Prim(v2)),
                Err(e) => Err(e),
            },
            _ => Err(ValueError::InvalidValueType),
        },
        _ => Err(ValueError::InvalidCastType),
    }
}

impl ValueType {
    /// Whether the value is the null primitive.
    pub fn is_null(&self) -> (r: bool)
        ensures
            r == (self@ == CellV::Prim(ValueV::Null)),
    {
        match self {
            ValueType::Default(Value::Null) => true,
            _ => false,
        }
    }

    /// Whether the value is a string.
    pub fn is_string(&self) -> (r: bool)
        ensures
            r == (self@ matches CellV::Prim(v) && v is Str),
    {
        match self {
            ValueType::Default(Value::String(_)) => true,
            _ => false,
        }
    }

    /// Whether the value is a map.
    pub fn is_map(&self) -> (r: bool)
        ensures
            r == (self@ is Mapping),
    {
        match self {
            ValueType::Mapping(_) => true,
            _ => false,
        }
    }

    /// Reads a u8.
    pub fn as_u8(&self) -> (r: Result<u8, ValueError>)
        ensures
            match r {
                Ok(n) => self@ == CellV::Prim(ValueV::U8(n)),
                Err(e) => !(self@ matches CellV::Prim(v) && v is U8) && e
                    == ValueError::InvalidValueType,
            },
    {
        match self {
            ValueType::Default(Value::U8(n)) => Ok(*n),
            _ => Err(ValueError::InvalidValueType),
        }
    }

    /// Reads a u16.
    pub fn as_u16(&self) -> (r: Result<u16, ValueError>)
        ensures
            match r {
                Ok(n) => self@ == CellV::Prim(ValueV::U16(n)),
                Err(e) => !(self@ matches CellV::Prim(v) && v is U16) && e
                    == ValueError::InvalidValueType,
            },
    {
        match self {
            ValueType::Default(Value::U16(n)) => Ok(*n),
            _ => Err(ValueError::InvalidValueType),
        }
    }

    /// Reads a u32.
    pub fn as_u32(&self) -> (r: Result<u32, ValueError>)
        ensures
            match r {
                Ok(n) => self@ == CellV::Prim(ValueV::U32(n)),
                Err(e) => !(self@ matches CellV::Prim(v) && v is U32) && e
                    == ValueError::InvalidValueType,
            },
    {
        match self {
            ValueType::Default(Value::U32(n)) => Ok(*n),
            _ => Err(ValueError::InvalidValueType),
        }
    }

    /// Reads a u64.
    pub fn as_u64(&self) -> (r: Result<u64, ValueError>)
        ensures
            match r {
                Ok(n) => self@ == CellV::Prim(ValueV::U64(n)),
                Err(e) => !(self@ matches CellV::Prim(v) && v is U64) && e
                    == ValueError::InvalidValueType,
            },
    {
        match self {
            ValueType::Default(Value::U64(n)) => Ok(*n),
            _ => Err(ValueError::InvalidValueType),
        }
    }

    /// Reads a u128.
    pub fn as_u128(&self) -> (r: Result<u128, ValueError>)
        ensures
            match r {
                Ok(n) => self@ == CellV::Prim(ValueV::U128(n)),
                Err(e) => !(self@ matches CellV::Prim(v) && v is U128) && e
                    == ValueError::InvalidValueType,
            },
    {
        match self {
            ValueType::Default(Value::U128(n)) => Ok(*n),
            _ => Err(ValueError::InvalidValueType),
        }
    }

    /// Reads a 256-bit value.
    pub fn as_u256(&self) -> (r: Result<U256, ValueError>)
        ensures
            match r {
                Ok(n) => self@ == CellV::Prim(ValueV::U256(u256_int(n))),
                Err(e) => !(self@ matches CellV::Prim(v) && v is U256) && e
                    == ValueError::InvalidValueType,
            },
    {
        match self {
            ValueType::Default(Value::U256(n)) => Ok(*n),
            _ => Err(ValueError::InvalidValueType),
        }
    }

    /// Reads a string.
    pub fn as_string(&self) -> (r: Result<&String, ValueError>)
        ensures
            match r {
                Ok(sr) => self@ == CellV::Prim(ValueV::Str(sr@)),
                Err(e) => !(self@ matches CellV::Prim(v) && v is Str) && e
                    == ValueError::InvalidValueType,
            },
    {
        match self {
            ValueType::Default(Value::String(sr)) => Ok(sr),
            _ => Err(ValueError::InvalidValueType),
        }
    }

    /// Reads a boolean.
    pub fn as_bool(&self) -> (r: Result<bool, ValueError>)
        ensures
            match r {
                Ok(b) => self@ == CellV::Prim(ValueV::Bool(b)),
                Err(e) => !(self@ matches CellV::Prim(v) && v is Bool) && e
                    == ValueError::InvalidValueType,
            },
    {
        match self {
            ValueType::Default(Value::Boolean(b)) => Ok(*b),
            _ => Err(ValueError::InvalidValueType),
        }
    }

    /// Reads the entries of a map.
    pub fn as_map(&self) -> (r: Result<&Vec<(ValueType, ValueType)>, ValueError>)
        ensures
            match r {
                Ok(m) => self@ == CellV::Mapping(pairs_view(m@)),
                Err(e) => !(self@ is Mapping) && e == ValueError::ExpectedStruct,
            },
    {
        match self {
            ValueType::Mapping(m) => Ok(m),
            _ => Err(ValueError::ExpectedStruct),
        }
    }

    /// Borrows the entries of a map for writing.
    pub fn as_mut_map(&mut self) -> (r: &mut Vec<(ValueType, ValueType)>)
        requires
            *old(self) is Mapping,
        ensures
            *r == (*old(self))->Mapping_0,
            *final(self) == ValueType::Mapping(*final(r)),
    {
        match self {
            ValueType::Mapping(m) => m,
            _ => unreached(),
        }
    }

    /// Reads the elements of an array.
    pub fn as_vec(&self) -> (r: Result<&Vec<ValueType>, ValueError>)
        ensures
            match r {
                Ok(m) => self@ == CellV::Array(cells_view(m@)),
                Err(e) => !(self@ is Array) && e == ValueError::InvalidValueType,
            },
    {
        match self {
            ValueType::Array(m) => Ok(m),
            _ => Err(ValueError::InvalidValueType),
        }
    }

    /// Borrows the elements of an array for writing.
    pub fn as_mut_vec(&mut self) -> (r: &mut Vec<ValueType>)
        requires
            *old(self) is Array,
        ensures
            *r == (*old(self))->Array_0,
            *final(self) == ValueType::Array(*final(r)),
    {
        match self {
            ValueType::Array(m) => m,
            _ => unreached(),
        }
    }

    /// Reads an optional: null and empty optionals read as nothing. The
    /// expected type names what the caller wanted; the result does not
    /// depend on it.
    pub fn as_optional(&self, expected: &Type) -> (r: Result<Option<&ValueType>, ValueError>)
        ensures
            match r {
                Ok(o) => match o {
                    Some(inner) => self@ == CellV::Optional(Some(Box::new(inner@))),
                    None => self@ == CellV::Prim(ValueV::Null) || self@ == CellV::Optional(None),
                },
                Err(e) => {
                    &&& !(self@ is Optional)
                    &&& self@ != CellV::Prim(ValueV::Null)
                    &&& e == ValueError::InvalidValueType
                },
            },
    {
        let _ = expected;
        match self {
            ValueType::Default(Value::Null) => Ok(None),
            ValueType::Optional(o) => match o {
                Some(b) => Ok(Some(&**b)),
                None => Ok(None),
            },
            _ => Err(ValueError::InvalidValueType),
        }
    }

    /// Takes the content out of a present optional, leaving it empty;
    /// an empty optional is a fault, as is any other shape.
    pub fn take_from_optional(&mut self, expected: &Type) -> (r: Result<ValueType, ValueError>)
        ensures
            match r {
                Ok(inner) => {
                    &&& (*old(self))@ == CellV::Optional(Some(Box::new(inner@)))
                    &&& (*final(self))@ == CellV::Optional(None)
                },
                Err(e) => {
                    &&& *final(self) == *old(self)
                    &&& if (*old(self))@ == CellV::Optional(None) {
                        e == ValueError::OptionalIsNull
                    } else {
                        !((*old(self))@ is Optional) && e == ValueError::InvalidValueType
                    }
                },
            },
    {
        let _ = expected;
        match self {
            ValueType::Optional(o) => match o.take() {
                Some(b) => Ok(*b),
                None => Err(ValueError::OptionalIsNull),
            },
            _ => Err(ValueError::InvalidValueType),
        }
    }

    /// Takes the content of an optional, leaving it empty.
    pub fn take_optional(&mut self) -> (r: Result<Option<ValueType>, ValueError>)
        ensures
            match r {
                Ok(o) => match o {
                    Some(inner) => {
                        &&& (*old(self))@ == CellV::Optional(Some(Box::new(inner@)))
                        &&& (*final(self))@ == CellV::Optional(None)
                    },
                    None => (*old(self))@ == CellV::Optional(None) && *final(self) == *old(self),
                },
                Err(e) => {
                    &&& *final(self) == *old(self)
                    &&& !((*old(self))@ is Optional)
                    &&& e == ValueError::InvalidValueType
                },
            },
    {
        match self {
            ValueType::Optional(o) => match o.take() {
                Some(b) => Ok(Some(*b)),
                None => Ok(None),
            },
            _ => Err(ValueError::InvalidValueType),
        }
    }

    /// Takes a u8.
    pub fn to_u8(self) -> (r: Result<u8, ValueError>)
        ensures
            match r {
                Ok(n) => self@ == CellV::Prim(ValueV::U8(n)),
                Err(e) => !(self@ matches CellV::Prim(v) && v is U8) && e
                    == ValueError::InvalidValueType,
            },
    {
        match self {
            ValueType::Default(Value::U8(n)) => Ok(n),
            _ => Err(ValueError::InvalidValueType),
        }
    }

    /// Takes a u16.
    pub fn to_u16(self) -> (r: Result<u16, ValueError>)
        ensures
            match r {
                Ok(n) => self@ == CellV::Prim(ValueV::U16(n)),
                Err(e) => !(self@ matches CellV::Prim(v) && v is U16) && e
                    == ValueError::InvalidValueType,
            },
    {
        match self {
            ValueType::Default(Value::U16(n)) => Ok(n),
            _ => Err(ValueError::InvalidValueType),
        }
    }

    /// Takes a u32.
    pub fn to_u32(self) -> (r: Result<u32, ValueError>)
        ensures
            match r {
                Ok(n) => self@ == CellV::Prim(ValueV::U32(n)),
                Err(e) => !(self@ matches CellV::Prim(v) && v is U32) && e
                    == ValueError::InvalidValueType,
            },
    {
        match self {
            ValueType::Default(Value::U32(n)) => Ok(n),
            _ => Err(ValueError::InvalidValueType),
        }
    }

    /// Takes a u64.
    pub fn to_u64(self) -> (r: Result<u64, ValueError>)
        ensures
            match r {
                Ok(n) => self@ == CellV::Prim(ValueV::U64(n)),
                Err(e) => !(self@ matches CellV::Prim(v) && v is U64) && e
                    == ValueError::InvalidValueType,
            },
    {
        match self {
            ValueType::Default(Value::U64(n)) => Ok(n),
            _ => Err(ValueError::InvalidValueType),
        }
    }

    /// Takes a u128.
    pub fn to_u128(self) -> (r: Result<u128, ValueError>)
        ensures
            match r {
                Ok(n) => self@ == CellV::Prim(ValueV::U128(n)),
                Err(e) => !(self@ matches CellV::Prim(v) && v is U128) && e
                    == ValueError::InvalidValueType,
            },
    {
        match self {
            ValueType::Default(Value::U128(n)) => Ok(n),
            _ => Err(ValueError::InvalidValueType),
        }
    }

    /// Takes a 256-bit value.
    pub fn to_u256(self) -> (r: Result<U256, ValueError>)
        ensures
            match r {
                Ok(n) => self@ == CellV::Prim(ValueV::U256(u256_int(n))),
                Err(e) => !(self@ matches CellV::Prim(v) && v is U256) && e
                    == ValueError::InvalidValueType,
            },
    {
        match self {
            ValueType::Default(Value::U256(n)) => Ok(n),
            _ => Err(ValueError::InvalidValueType),
        }
    }

    /// Takes a string.
    pub fn to_string(self) -> (r: Result<String, ValueError>)
        ensures
            match r {
                Ok(sr) => self@ == CellV::Prim(ValueV::Str(sr@)),
                Err(e) => !(self@ matches CellV::Prim(v) && v is Str) && e
                    == ValueError::InvalidValueType,
            },
    {
        match self {
            ValueType::Default(Value::String(sr)) => Ok(sr),
            _ => Err(ValueError::InvalidValueType),
        }
    }

    /// Takes a boolean.
    pub fn to_bool(self) -> (r: Result<bool, ValueError>)
        ensures
            match r {
                Ok(b) => self@ == CellV::Prim(ValueV::Bool(b)),
                Err(e) => !(self@ matches CellV::Prim(v) && v is Bool) && e
                    == ValueError::InvalidValueType,
            },
    {
        match self {
            ValueType::Default(Value::Boolean(b)) => Ok(b),
            _ => Err(ValueError::InvalidValueType),
        }
    }

    /// Takes the fields of a struct.
    pub fn to_map(self) -> (r: Result<Vec<ValueType>, ValueError>)
        ensures
            match r {
                Ok(fields) => self@ matches CellV::Struct(f, _) && f == cells_view(fields@),
                Err(e) => !(self@ is Struct) && e == ValueError::ExpectedStruct,
            },
    {
        match self {
            ValueType::Struct(fields, _) => Ok(fields),
            _ => Err(ValueError::ExpectedStruct),
        }
    }

    /// Takes the elements of an array.
    pub fn to_vec(self) -> (r: Result<Vec<ValueType>, ValueError>)
        ensures
            match r {
                Ok(elems) => self@ == CellV::Array(cells_view(elems@)),
                Err(e) => !(self@ is Array) && e == ValueError::InvalidValueType,
            },
    {
        match self {
            ValueType::Array(elems) => Ok(elems),
            _ => Err(ValueError::InvalidValueType),
        }
    }

    /// Takes the children of an array or struct.
    pub fn to_sub_vec(self) -> (r: Result<Vec<ValueType>, ValueError>)
        ensures
            match r {
                Ok(elems) => self@ == CellV::Array(cells_view(elems@)) || (self@ matches
                CellV::Struct(f, _) && f == cells_view(elems@)),
                Err(e) => !(self@ is Array) && !(self@ is Struct) && e == ValueError::SubValue,
            },
    {
        match self {
            ValueType::Array(elems) => Ok(elems),
            ValueType::Struct(fields, _) => Ok(fields),
            _ => Err(ValueError::SubValue),
        }
    }

    /// Reads the children of an array or struct.
    pub fn as_sub_vec(&self) -> (r: Result<&Vec<ValueType>, ValueError>)
        ensures
            match r {
                Ok(elems) => self@ == CellV::Array(cells_view(elems@)) || (self@ matches
                CellV::Struct(f, _) && f == cells_view(elems@)),
                Err(e) => !(self@ is Array) && !(self@ is Struct) && e == ValueError::SubValue,
            },
    {
        match self {
            ValueType::Array(elems) => Ok(elems),
            ValueType::Struct(fields, _) => Ok(fields),
            _ => Err(ValueError::SubValue),
        }
    }

    /// Borrows the children of an array or struct for writing.
    pub fn as_mut_sub_vec(&mut self) -> (r: &mut Vec<ValueType>)
        requires
            *old(self) is Array || *old(self) is Struct,
        ensures
            *old(self) is Array ==> *r == (*old(self))->Array_0 && *final(self) == ValueType::Array(
                *final(r),
            ),
            *old(self) is Struct ==> *r == (*old(self))->Struct_0 && *final(self)
                == ValueType::Struct(*final(r), (*old(self))->Struct_1),
    {
        match self {
            ValueType::Array(elems) => elems,
            ValueType::Struct(fields, _) => fields,
            _ => unreached(),
        }
    }

    /// Reads the endpoints and inner type of a range.
    pub fn as_range(&self) -> (r: Result<(&Value, &Value, &Type), ValueError>)
        ensures
            match r {
                Ok((start, end, t)) => self@ == CellV::Prim(
                    ValueV::Range(Box::new(start@), Box::new(end@), *t),
                ),
                Err(e) => !(self@ matches CellV::Prim(v) && v is Range) && e
                    == ValueError::InvalidValueType,
            },
    {
        match self {
            ValueType::Default(v) => v.as_range(),
            _ => Err(ValueError::InvalidValueType),
        }
    }

    /// Takes the endpoints and inner type of a range.
    pub fn to_range(self) -> (r: Result<(Value, Value, Type), ValueError>)
        ensures
            match r {
                Ok((start, end, t)) => self@ == CellV::Prim(
                    ValueV::Range(Box::new(start@), Box::new(end@), t),
                ),
                Err(e) => !(self@ matches CellV::Prim(v) && v is Range) && e
                    == ValueError::InvalidValueType,
            },
    {
        match self {
            ValueType::Default(v) => v.to_range(),
            _ => Err(ValueError::InvalidValueType),
        }
    }

    /// Whether the value is a primitive number.
    pub fn is_number(&self) -> (r: bool)
        ensures
            r == (self@ matches CellV::Prim(v) && numeric_of(v) is Some),
    {
        match self {
            ValueType::Default(v) => v.is_number(),
            _ => false,
        }
    }

    /// Adds one to a primitive number in place.
    pub fn increment(&mut self) -> (r: Result<(), ValueError>)
        ensures
            match r {
                Ok(()) => {
                    &&& (*old(self))@ matches CellV::Prim(v)
                    &&& (*final(self))@ matches CellV::Prim(w)
                    &&& numeric_of(v) matches Some(n)
                    &&& numeric_of(w) == Some(n + 1)
                    &&& spec_type_of(w) == spec_type_of(v)
                },
                Err(e) => {
                    &&& *final(self) == *old(self)
                    &&& match (*old(self))@ {
                        CellV::Prim(v) => match numeric_of(v) {
                            Some(n) => n == crate::values::spec_type_max(
                                spec_type_of(v).unwrap(),
                            ) && e == ValueError::IntegerOverflow,
                            None => e == ValueError::OperationNotNumberType,
                        },
                        _ => e == ValueError::OperationNotNumberType,
                    }
                },
            },
    {
        match self {
            ValueType::Default(v) => match v.increment() {
                Ok(()) => Ok(()),
                Err(crate::errors::ValueError::IntegerOverflow) => Err(
                    ValueError::IntegerOverflow,
                ),
                Err(_) => Err(ValueError::OperationNotNumberType),
            },
            _ => Err(ValueError::OperationNotNumberType),
        }
    }

    /// Subtracts one from a primitive number in place.
    pub fn decrement(&mut self) -> (r: Result<(), ValueError>)
        ensures
            match r {
                Ok(()) => {
                    &&& (*old(self))@ matches CellV::Prim(v)
                    &&& (*final(self))@ matches CellV::Prim(w)
                    &&& numeric_of(v) matches Some(n)
                    &&& numeric_of(w) == Some(n - 1)
                    &&& spec_type_of(w) == spec_type_of(v)
                },
                Err(e) => {
                    &&& *final(self) == *old(self)
                    &&& match (*old(self))@ {
                        CellV::Prim(v) => match numeric_of(v) {
                            Some(n) => n == 0 && e == ValueError::IntegerOverflow,
                            None => e == ValueError::OperationNotNumberType,
                        },
                        _ => e == ValueError::OperationNotNumberType,
                    }
                },
            },
    {
        match self {
            ValueType::Default(v) => match v.decrement() {
                Ok(()) => Ok(()),
                Err(crate::errors::ValueError::IntegerOverflow) => Err(
                    ValueError::IntegerOverflow,
                ),
                Err(_) => Err(ValueError::OperationNotNumberType),
            },
            _ => Err(ValueError::OperationNotNumberType),
        }
    }

    /// Casts a primitive value to a string.
    pub fn cast_to_string(self) -> (r: Result<String, ValueError>)
        ensures
            match r {
                Ok(sr) => self@ matches CellV::Prim(v) && crate::values::spec_value_string(v)
                    == Some(sr@),
                Err(e) => e == ValueError::InvalidCastType && match self@ {
                    CellV::Prim(v) => crate::values::spec_value_string(v) is None,
                    _ => true,
                },
            },
    {
        match self {
            ValueType::Default(v) => v.cast_to_string(),
            _ => Err(ValueError::InvalidCastType),
        }
    }

    /// Casts in place to the expected primitive type; a fault leaves
    /// a null value behind, as the content was already consumed.
    pub fn mut_checked_cast_to_primitive_type(&mut self, expected: &Type) -> (r: Result<
        (),
        ValueError,
    >)
        ensures
            match r {
                Ok(()) => spec_checked_cast_cell((*old(self))@, *expected) == Ok::<_, ValueError>(
                    (*final(self))@,
                ),
                Err(e) => spec_checked_cast_cell((*old(self))@, *expected) == Err::<CellV, _>(e)
                    && (*final(self))@ == CellV::Prim(ValueV::Null),
            },
    {
        let mut taken = ValueType::Default(Value::Null);
        core::mem::swap(self, &mut taken);
        match taken.checked_cast_to_primitive_type(expected) {
            Ok(v) => {
                *self = v;
                Ok(())
            },
            Err(e) => Err(e),
        }
    }

    /// Casts to the expected primitive type without loss: optionals
    /// accept null, ranges cast both endpoints, and numeric, string and
    /// boolean targets cast the primitive content.
    pub fn checked_cast_to_primitive_type(self, expected: &Type) -> (r: Result<Self, ValueError>)
        ensures
            (match r {
                Ok(c) => Ok(c@),
                Err(e) => Err(e),
            }) == spec_checked_cast_cell(self@, *expected),
        decreases expected,
    {
        match expected {
            Type::Optional(inner) => {
                if self.is_null() {
                    Ok(ValueType::Optional(None))
                } else {
                    self.checked_cast_to_primitive_type(&**inner)
                }
            },
            Type::Range(inner) => {
                match self.to_range() {
                    Ok((start, end, _)) => {
                        let start2 = match start.checked_cast_to_primitive(&**inner) {
                            Ok(v) => v,
                            Err(e) => {
                                return Err(e);
                            },
                        };
                        let end2 = match end.checked_cast_to_primitive(&**inner) {
                            Ok(v) => v,
                            Err(e) => {
                                return Err(e);
                            },
                        };
                        Ok(
                            ValueType::Default(
                                Value::Range(Box::new(start2), Box::new(end2), (**inner).clone()),
                            ),
                        )
                    },
                    Err(e) => Err(e),
                }
            },
            Type::U8 | Type::U16 | Type::U32 | Type::U64 | Type::U128 | Type::U256 | Type::String
                | Type::Bool => match self {
                ValueType::Default(v) => match v.checked_cast_to_primitive(expected) {
                    Ok(v2) => Ok(ValueType::Default(v2)),
                    Err(e) => Err(e),
                },
                _ => Err(ValueError::InvalidValueType),
            },
            _ => Err(ValueError::InvalidCastType),
        }
    }

    /// Casts to a u8 when the content fits.
    pub fn checked_cast_to_u8(self) -> (r: Result<u8, ValueError>)
        ensures
            match r {
                Ok(n) => self@ matches CellV::Prim(v) && crate::values::cast_source_of(v) == Some(
                    n as int,
                ),
                Err(e) => match self@ {
                    CellV::Prim(v) => match crate::values::cast_source_of(v) {
                        Some(n) => n > u8::MAX && e == ValueError::CastOverflow,
                        None => e == ValueError::InvalidCastType,
                    },
                    _ => e == ValueError::InvalidValueType,
                },
            },
    {
        match self {
            ValueType::Default(v) => v.checked_cast_to_u8(),
            _ => Err(ValueError::InvalidValueType),
        }
    }

    /// Casts to a u16 when the content fits.
    pub fn checked_cast_to_u16(self) -> (r: Result<u16, ValueError>)
        ensures
            match r {
                Ok(n) => self@ matches CellV::Prim(v) && crate::values::cast_source_of(v) == Some(
                    n as int,
                ),
                Err(e) => match self@ {
                    CellV::Prim(v) => match crate::values::cast_source_of(v) {
                        Some(n) => n > u16::MAX && e == ValueError::CastOverflow,
                        None => e == ValueError::InvalidCastType,
                    },
                    _ => e == ValueError::InvalidValueType,
                },
            },
    {
        match self {
            ValueType::Default(v) => v.checked_cast_to_u16(),
            _ => Err(ValueError::InvalidValueType),
        }
    }

    /// Casts to a u32 when the content fits.
    pub fn checked_cast_to_u32(self) -> (r: Result<u32, ValueError>)
        ensures
            match r {
                Ok(n) => self@ matches CellV::Prim(v) && crate::values::cast_source_of(v) == Some(
                    n as int,
                ),
                Err(e) => match self@ {
                    CellV::Prim(v) => match crate::values::cast_source_of(v) {
                        Some(n) => n > u32::MAX && e == ValueError::CastOverflow,
                        None => e == ValueError::InvalidCastType,
                    },
                    _ => e == ValueError::InvalidValueType,
                },
            },
    {
        match self {
            ValueType::Default(v) => v.checked_cast_to_u32(),
            _ => Err(ValueError::InvalidValueType),
        }
    }

    /// Casts to a u64 when the content fits.
    pub fn checked_cast_to_u64(self) -> (r: Result<u64, ValueError>)
        ensures
            match r {
                Ok(n) => self@ matches CellV::Prim(v) && crate::values::cast_source_of(v) == Some(
                    n as int,
                ),
                Err(e) => match self@ {
                    CellV::Prim(v) => match crate::values::cast_source_of(v) {
                        Some(n) => n > u64::MAX && e == ValueError::CastOverflow,
                        None => e == ValueError::InvalidCastType,
                    },
                    _ => e == ValueError::InvalidValueType,
                },
            },
    {
        match self {
            ValueType::Default(v) => v.checked_cast_to_u64(),
            _ => Err(ValueError::InvalidValueType),
        }
    }

    /// Casts to a u128 when the content fits.
    pub fn checked_cast_to_u128(self) -> (r: Result<u128, ValueError>)
        ensures
            match r {
                Ok(n) => self@ matches CellV::Prim(v) && crate::values::cast_source_of(v) == Some(
                    n as int,
                ),
                Err(e) => match self@ {
                    CellV::Prim(v) => match crate::values::cast_source_of(v) {
                        Some(n) => n > u128::MAX && e == ValueError::CastOverflow,
                        None => e == ValueError::InvalidCastType,
                    },
                    _ => e == ValueError::InvalidValueType,
                },
            },
    {
        match self {
            ValueType::Default(v) => v.checked_cast_to_u128(),
            _ => Err(ValueError::InvalidValueType),
        }
    }

    /// Casts to a 256-bit value; every numeric or boolean content fits.
    pub fn checked_cast_to_u256(self) -> (r: Result<U256, ValueError>)
        ensures
            match r {
                Ok(n) => self@ matches CellV::Prim(v) && crate::values::cast_source_of(v) == Some(
                    u256_int(n),
                ),
                Err(e) => match self@ {
                    CellV::Prim(v) => crate::values::cast_source_of(v) is None && e
                        == ValueError::InvalidCastType,
                    _ => e == ValueError::InvalidValueType,
                },
            },
    {
        match self {
            ValueType::Default(v) => v.checked_cast_to_u256(),
            _ => Err(ValueError::InvalidValueType),
        }
    }

    /// Casts to a boolean; only a boolean content qualifies.
    pub fn cast_to_bool(self) -> (r: Result<bool, ValueError>)
        ensures
            match r {
                Ok(b) => self@ == CellV::Prim(ValueV::Bool(b)),
                Err(e) => match self@ {
                    CellV::Prim(v) => !(v is Bool) && e == ValueError::InvalidCastType,
                    _ => e == ValueError::InvalidValueType,
                },
            },
    {
        match self {
            ValueType::Default(v) => v.cast_to_bool(),
            _ => Err(ValueError::InvalidValueType),
        }
    }

    /// Casts to a u8, keeping the low eight bits.
    pub fn cast_to_u8(self) -> (r: Result<u8, ValueError>)
        ensures
            match r {
                Ok(n) => self@ matches CellV::Prim(v) && crate::values::spec_truncated(v, 0x100)
                    == Some(n as int),
                Err(e) => match self@ {
                    CellV::Prim(v) => crate::values::cast_source_of(v) is None && e
                        == ValueError::InvalidCastType,
                    _ => e == ValueError::InvalidValueType,
                },
            },
    {
        match self {
            ValueType::Default(v) => v.cast_to_u8(),
            _ => Err(ValueError::InvalidValueType),
        }
    }

    /// Casts to a u16, keeping the low sixteen bits.
    pub fn cast_to_u16(self) -> (r: Result<u16, ValueError>)
        ensures
            match r {
                Ok(n) => self@ matches CellV::Prim(v) && crate::values::spec_truncated(v, 0x1_0000)
                    == Some(n as int),
                Err(e) => match self@ {
                    CellV::Prim(v) => crate::values::cast_source_of(v) is None && e
                        == ValueError::InvalidCastType,
                    _ => e == ValueError::InvalidValueType,
                },
            },
    {
        match self {
            ValueType::Default(v) => v.cast_to_u16(),
            _ => Err(ValueError::InvalidValueType),
        }
    }

    /// Casts to a u32, keeping the low thirty-two bits.
    pub fn cast_to_u32(self) -> (r: Result<u32, ValueError>)
        ensures
            match r {
                Ok(n) => self@ matches CellV::Prim(v) && crate::values::spec_truncated(
                    v,
                    0x1_0000_0000,
                ) == Some(n as int),
                Err(e) => match self@ {
                    CellV::Prim(v) => crate::values::cast_source_of(v) is None && e
                        == ValueError::InvalidCastType,
                    _ => e == ValueError::InvalidValueType,
                },
            },
    {
        match self {
            ValueType::Default(v) => v.cast_to_u32(),
            _ => Err(ValueError::InvalidValueType),
        }
    }

    /// Casts to a u64, keeping the low sixty-four bits.
    pub fn cast_to_u64(self) -> (r: Result<u64, ValueError>)
        ensures
            match r {
                Ok(n) => self@ matches CellV::Prim(v) && crate::values::spec_truncated(
                    v,
                    0x1_0000_0000_0000_0000,
                ) == Some(n as int),
                Err(e) => match self@ {
                    CellV::Prim(v) => crate::values::cast_source_of(v) is None && e
                        == ValueError::InvalidCastType,
                    _ => e == ValueError::InvalidValueType,
                },
            },
    {
        match self {
            ValueType::Default(v) => v.cast_to_u64(),
            _ => Err(ValueError::InvalidValueType),
        }
    }

    /// Casts to a u128, keeping the low hundred and twenty-eight bits.
    pub fn cast_to_u128(self) -> (r: Result<u128, ValueError>)
        ensures
            match r {
                Ok(n) => self@ matches CellV::Prim(v) && crate::values::spec_truncated(
                    v,
                    crate::u256::pow128(),
                ) == Some(n as int),
                Err(e) => match self@ {
                    CellV::Prim(v) => crate::values::cast_source_of(v) is None && e
                        == ValueError::InvalidCastType,
                    _ => e == ValueError::InvalidValueType,
                },
            },
    {
        match self {
            ValueType::Default(v) => v.cast_to_u128(),
            _ => Err(ValueError::InvalidValueType),
        }
    }

    /// Casts to a 256-bit value; nothing is truncated.
    pub fn cast_to_u256(self) -> (r: Result<U256, ValueError>)
        ensures
            match r {
                Ok(n) => self@ matches CellV::Prim(v) && crate::values::cast_source_of(v) == Some(
                    u256_int(n),
                ),
                Err(e) => match self@ {
                    CellV::Prim(v) => crate::values::cast_source_of(v) is None && e
                        == ValueError::InvalidCastType,
                    _ => e == ValueError::InvalidValueType,
                },
            },
    {
        match self {
            ValueType::Default(v) => v.cast_to_u256(),
            _ => Err(ValueError::InvalidValueType),
        }
    }

    /// Reads the primitive content.
    pub fn as_value(&self) -> (r: Result<&Value, ValueError>)
        ensures
            match r {
                Ok(v) => self@ == CellV::Prim(v@),
                Err(e) => !(self@ is Prim) && e == ValueError::InvalidValueType,
            },
    {
        match self {
            ValueType::Default(v) => Ok(v),
            _ => Err(ValueError::InvalidValueType),
        }
    }

    /// Takes the primitive content.
    pub fn into_value(self) -> (r: Result<Value, ValueError>)
        ensures
            match r {
                Ok(v) => self@ == CellV::Prim(v@),
                Err(e) => !(self@ is Prim) && e == ValueError::InvalidValueType,
            },
    {
        match self {
            ValueType::Default(v) => Ok(v),
            _ => Err(ValueError::InvalidValueType),
        }
    }
}

} // verus!
