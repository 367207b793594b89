use vstd::prelude::*;

verus! {

/// A primitive runtime value. Floating-point values are carried as their
/// IEEE-754 bit patterns: the adapter moves them, it never computes with them.
#[derive(Clone, Copy, Debug, PartialEq, Eq, Structural)]
pub enum Primitives {
    Byte(i8),
    Integer(i32),
    UInteger(u32),
    Long(i64),
    ULong(u64),
    ULLong(u128),
    Float(u32),
    Double(u64),
}

/// A runtime value of the query engine.
#[derive(Debug)]
pub enum Object {
    Primitive(Primitives),
    String(String),
    Vector(Vec<Object>),
    Blob(Vec<u8>),
    Null,
    /// A key-value map or a date, for which the store has no property type.
    Other,
}

/// A property value of the graph store.
#[derive(Clone, Debug)]
pub enum Property {
    Char(u8),
    Int(i32),
    Long(i64),
    Float(u32),
    Double(u64),
    String(String),
    Bytes(Vec<u8>),
    ListInt(Vec<i32>),
    ListLong(Vec<i64>),
    ListFloat(Vec<u32>),
    ListDouble(Vec<u64>),
    ListString(Vec<String>),
    ListBytes(Vec<Vec<u8>>),
    Null,
    Unknown,
}

/// The family of values that decides the store's list type of a vector.
#[derive(Clone, Copy, Debug, PartialEq, Eq, Structural)]
pub enum Family {
    Int,
    Long,
    WideLong,
    Float,
    Double,
    Str,
    Bytes,
    Null,
    Other,
}

pub open spec fn family(o: Object) -> Family {
    match o {
        Object::Primitive(Primitives::Byte(_)) => Family::Int,
        Object::Primitive(Primitives::Integer(_)) => Family::Int,
        Object::Primitive(Primitives::UInteger(_)) => Family::Long,
        Object::Primitive(Primitives::Long(_)) => Family::Long,
        Object::Primitive(Primitives::ULong(_)) => Family::Long,
        Object::Primitive(Primitives::ULLong(_)) => Family::WideLong,
        Object::Primitive(Primitives::Float(_)) => Family::Float,
        Object::Primitive(Primitives::Double(_)) => Family::Double,
        Object::String(_) => Family::Str,
        Object::Blob(_) => Family::Bytes,
        Object::Null => Family::Null,
        _ => Family::Other,
    }
}

/// A value of the 32-bit integer family, widened or cast to `i32`.
pub open spec fn int_of(o: Object) -> i32 {
    match o {
        Object::Primitive(Primitives::Byte(b)) => b as i32,
        Object::Primitive(Primitives::Integer(i)) => i,
        _ => 0,
    }
}

/// A value of the 64-bit integer families, cast to `i64`.
pub open spec fn long_of(o: Object) -> i64 {
    match o {
        Object::Primitive(Primitives::Long(i)) => i,
        Object::Primitive(Primitives::UInteger(i)) => i as i64,
        Object::Primitive(Primitives::ULong(i)) => i as i64,
        Object::Primitive(Primitives::ULLong(i)) => i as i64,
        _ => 0,
    }
}

pub open spec fn float_of(o: Object) -> u32 {
    match o {
        Object::Primitive(Primitives::Float(f)) => f,
        _ => 0,
    }
}

pub open spec fn double_of(o: Object) -> u64 {
    match o {
        Object::Primitive(Primitives::Double(f)) => f,
        _ => 0,
    }
}

pub open spec fn str_of(o: Object) -> Seq<char> {
    match o {
        Object::String(s) => s@,
        _ => Seq::empty(),
    }
}

pub open spec fn bytes_of(o: Object) -> Seq<u8> {
    match o {
        Object::Blob(b) => b@,
        _ => Seq::empty(),
    }
}

/// The store property of a primitive value: bytes become chars, unsigned
/// 32-bit integers are widened to longs, unsigned 64- and 128-bit integers are
/// cast to longs, floats keep their bits.
pub open spec fn primitive_property(p: Primitives, r: Property) -> bool {
    match p {
        Primitives::Byte(b) => r == Property::Char(b as u8),
        Primitives::Integer(i) => r == Property::Int(i),
        Primitives::UInteger(i) => r == Property::Long(i as i64),
        Primitives::Long(i) => r == Property::Long(i),
        Primitives::ULong(i) => r == Property::Long(i as i64),
        Primitives::ULLong(i) => r == Property::Long(i as i64),
        Primitives::Float(f) => r == Property::Float(f),
        Primitives::Double(f) => r == Property::Double(f),
    }
}

/// The store property of a vector: the first element's family picks the list
/// type and every element is encoded in it. An empty vector is null; a vector
/// that mixes families, or whose first element has no list type, is unknown.
pub open spec fn list_property(v: Seq<Object>, r: Property) -> bool {
    if v.len() == 0 {
        r is Null
    } else if family(v[0]) == Family::Null {
        r is Null
    } else if family(v[0]) == Family::Other || exists|i: int|
        0 <= i < v.len() && family(#[trigger] v[i]) != family(v[0]) {
        r is Unknown
    } else {
        match family(v[0]) {
            Family::Int => r matches Property::ListInt(xs) && xs@ == v.map_values(|o| int_of(o)),
            Family::Long => r matches Property::ListLong(xs) && xs@ == v.map_values(|o| long_of(o)),
            Family::WideLong => r matches Property::ListLong(xs) && xs@ == v.map_values(
                |o| long_of(o),
            ),
            Family::Float => r matches Property::ListFloat(xs) && xs@ == v.map_values(
                |o| float_of(o),
            ),
            Family::Double => r matches Property::ListDouble(xs) && xs@ == v.map_values(
                |o| double_of(o),
            ),
            Family::Str => r matches Property::ListString(xs) && xs@.len() == v.len() && forall|
                i: int,
            | 0 <= i < v.len() ==> #[trigger] xs@[i]@ == str_of(v[i]),
            Family::Bytes => r matches Property::ListBytes(xs) && xs@.len() == v.len() && forall|
                i: int,
            | 0 <= i < v.len() ==> #[trigger] xs@[i]@ == bytes_of(v[i]),
            _ => false,
        }
    }
}

/// The store property that a runtime value is encoded to.
pub open spec fn encoded_property(o: Object, r: Property) -> bool {
    match o {
        Object::Primitive(p) => primitive_property(p, r),
        Object::String(s) => r matches Property::String(t) && t@ == s@,
        Object::Vector(v) => list_property(v@, r),
        Object::Blob(b) => r matches Property::Bytes(c) && c@ == b@,
        Object::Null => r is Null,
        Object::Other => r is Unknown,
    }
}

fn copy_bytes(b: &Vec<u8>) -> (r: Vec<u8>)
    ensures
        r@ == b@,
{
    let mut out: Vec<u8> = Vec::new();
    let mut i: usize = 0;
    while i < b.len()
        invariant
            i <= b.len(),
            out@ == b@.take(i as int),
        decreases b.len() - i,
    {
        out.push(b[i]);
        i += 1;
        assert(out@ =~= b@.take(i as int));
    }
    assert(b@.take(b.len() as int) =~= b@);
    out
}

fn family_of(o: &Object) -> (r: Family)
    ensures
        r == family(*o),
{
    match o {
        Object::Primitive(Primitives::Byte(_)) => Family::Int,
        Object::Primitive(Primitives::Integer(_)) => Family::Int,
        Object::Primitive(Primitives::UInteger(_)) => Family::Long,
        Object::Primitive(Primitives::Long(_)) => Family::Long,
        Object::Primitive(Primitives::ULong(_)) => Family::Long,
        Object::Primitive(Primitives::ULLong(_)) => Family::WideLong,
        Object::Primitive(Primitives::Float(_)) => Family::Float,
        Object::Primitive(Primitives::Double(_)) => Family::Double,
        Object::String(_) => Family::Str,
        Object::Blob(_) => Family::Bytes,
        Object::Null => Family::Null,
        Object::Other | Object::Vector(_) => Family::Other,
    }
}

fn encode_list(v: &Vec<Object>) -> (r: Property)
    ensures
        list_property(v@, r),
{
    if v.len() == 0 {
        return Property::Null;
    }
    let first = family_of(&v[0]);
    if first == Family::Null {
        return Property::Null;
    }
    if first == Family::Other {
        return Property::Unknown;
    }
    let mut k: usize = 0;
    while k < v.len()
        invariant
            k <= v.len(),
            first == family(v@[0]),
            first != Family::Null,
            first != Family::Other,
            forall|i: int| 0 <= i < k ==> family(#[trigger] v@[i]) == first,
        decreases v.len() - k,
    {
        if family_of(&v[k]) != first {
            assert(exists|i: int| 0 <= i < v@.len() && family(#[trigger] v@[i]) != family(v@[0]));
            return Property::Unknown;
        }
        k += 1;
    }
    assert(!exists|i: int| 0 <= i < v@.len() && family(#[trigger] v@[i]) != family(v@[0]));
    match first {
        Family::Int => {
            let mut xs: Vec<i32> = Vec::new();
            let mut i: usize = 0;
            while i < v.len()
                invariant
                    i <= v.len(),
                    xs@ == v@.take(i as int).map_values(|o| int_of(o)),
                decreases v.len() - i,
            {
                let x: i32 = match &v[i] {
                    Object::Primitive(Primitives::Byte(b)) => *b as i32,
                    Object::Primitive(Primitives::Integer(n)) => *n,
                    _ => 0,
                };
                xs.push(x);
                i += 1;
                assert(xs@ =~= v@.take(i as int).map_values(|o| int_of(o)));
            }
            assert(v@.take(v.len() as int) =~= v@);
            Property::ListInt(xs)
        },
        Family::Long | Family::WideLong => {
            let mut xs: Vec<i64> = Vec::new();
            let mut i: usize = 0;
            while i < v.len()
                invariant
                    i <= v.len(),
                    xs@ == v@.take(i as int).map_values(|o| long_of(o)),
                decreases v.len() - i,
            {
                let x: i64 = match &v[i] {
                    Object::Primitive(Primitives::Long(n)) => *n,
                    Object::Primitive(Primitives::UInteger(n)) => *n as i64,
                    Object::Primitive(Primitives::ULong(n)) => #[verifier::truncate] (*n as i64),
                    Object::Primitive(Primitives::ULLong(n)) => #[verifier::truncate] (*n as i64),
                    _ => 0,
                };
                xs.push(x);
                i += 1;
                assert(xs@ =~= v@.take(i as int).map_values(|o| long_of(o)));
            }
            assert(v@.take(v.len() as int) =~= v@);
            Property::ListLong(xs)
        },
        Family::Float => {
            let mut xs: Vec<u32> = Vec::new();
            let mut i: usize = 0;
            while i < v.len()
                invariant
                    i <= v.len(),
                    xs@ == v@.take(i as int).map_values(|o| float_of(o)),
                decreases v.len() - i,
            {
                let x: u32 = match &v[i] {
                    Object::Primitive(Primitives::Float(f)) => *f,
                    _ => 0,
                };
                xs.push(x);
                i += 1;
                assert(xs@ =~= v@.take(i as int).map_values(|o| float_of(o)));
            }
            assert(v@.take(v.len() as int) =~= v@);
            Property::ListFloat(xs)
        },
        Family::Double => {
            let mut xs: Vec<u64> = Vec::new();
            let mut i: usize = 0;
            while i < v.len()
                invariant
                    i <= v.len(),
                    xs@ == v@.take(i as int).map_values(|o| double_of(o)),
                decreases v.len() - i,
            {
                let x: u64 = match &v[i] {
                    Object::Primitive(Primitives::Double(f)) => *f,
                    _ => 0,
                };
                xs.push(x);
                i += 1;
                assert(xs@ =~= v@.take(i as int).map_values(|o| double_of(o)));
            }
            assert(v@.take(v.len() as int) =~= v@);
            Property::ListDouble(xs)
        },
        Family::Str => {
            let mut xs: Vec<String> = Vec::new();
            let mut i: usize = 0;
            while i < v.len()
                invariant
                    i <= v.len(),
                    xs@.len() == i,
                    forall|j: int| 0 <= j < i ==> #[trigger] xs@[j]@ == str_of(v@[j]),
                decreases v.len() - i,
            {
                let x: String = match &v[i] {
                    Object::String(s) => s.clone(),
                    _ => String::new(),
                };
                xs.push(x);
                i += 1;
            }
            Property::ListString(xs)
        },
        _ => {
            let mut xs: Vec<Vec<u8>> = Vec::new();
            let mut i: usize = 0;
            while i < v.len()
                invariant
                    i <= v.len(),
                    xs@.len() == i,
                    forall|j: int| 0 <= j < i ==> #[trigger] xs@[j]@ == bytes_of(v@[j]),
                decreases v.len() - i,
            {
                let x: Vec<u8> = match &v[i] {
                    Object::Blob(b) => copy_bytes(b),
                    _ => Vec::new(),
                };
                xs.push(x);
                i += 1;
            }
            Property::ListBytes(xs)
        },
    }
}

/// Encodes a runtime value as a store property.
pub fn encode_store_prop_val(prop_val: Object) -> (r: Property)
    ensures
        encoded_property(prop_val, r),
{
    encode_property(&prop_val)
}

/// Encodes a runtime value as a store property, copying what it holds.
pub fn encode_property(prop_val: &Object) -> (r: Property)
    ensures
        encoded_property(*prop_val, r),
{
    match prop_val {
        Object::Primitive(p) => match p {
            Primitives::Byte(b) => Property::Char(#[verifier::truncate] (*b as u8)),
            Primitives::Integer(i) => Property::Int(*i),
            Primitives::UInteger(i) => Property::Long(*i as i64),
            Primitives::Long(i) => Property::Long(*i),
            Primitives::ULong(i) => Property::Long(#[verifier::truncate] (*i as i64)),
            Primitives::ULLong(i) => Property::Long(#[verifier::truncate] (*i as i64)),
            Primitives::Float(f) => Property::Float(*f),
            Primitives::Double(f) => Property::Double(*f),
        },
        Object::String(s) => Property::String(s.clone()),
        Object::Vector(v) => encode_list(v),
        Object::Blob(b) => Property::Bytes(copy_bytes(b)),
        Object::Null => Property::Null,
        Object::Other => Property::Unknown,
    }
}

} // verus!
