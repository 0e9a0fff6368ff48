//! The generic structured value that key objects are decoded from and encoded
//! into, with the spec functions that read it.

use vstd::prelude::*;

verus! {

/// Simple values of the structured value model.
#[derive(Clone, Copy, Debug, PartialEq, Eq, Structural)]
pub enum SimpleValue {
    FalseValue,
    TrueValue,
    NullValue,
    Undefined,
}

/// A generic structured value.
#[derive(Debug)]
pub enum Value {
    /// An unsigned integer.
    Unsigned(u64),
    /// The negative integer `-1 - n`.
    Negative(u64),
    ByteString(Vec<u8>),
    TextString(String),
    Array(Vec<Value>),
    /// Ordered key/value pairs; keys are not required to be unique.
    Mapping(Vec<(Value, Value)>),
    Simple(SimpleValue),
}

/// What a value holds, all the way down: byte and text strings by their
/// contents, arrays and maps by the views of their elements.
pub ghost enum ValueView {
    Unsigned(u64),
    Negative(u64),
    ByteString(Seq<u8>),
    TextString(Seq<char>),
    Array(Seq<ValueView>),
    Mapping(Seq<(ValueView, ValueView)>),
    Simple(SimpleValue),
}

/// The view of a value.
pub open spec fn deep(v: Value) -> ValueView
    decreases v,
{
    match v {
        Value::Unsigned(u) => ValueView::Unsigned(u),
        Value::Negative(n) => ValueView::Negative(n),
        Value::ByteString(b) => ValueView::ByteString(b@),
        Value::TextString(t) => ValueView::TextString(t@),
        Value::Array(a) => ValueView::Array(
            Seq::new(
                a.len() as nat,
                |i: int|
                    if 0 <= i < a.len() {
                        deep(a[i])
                    } else {
                        ValueView::Simple(SimpleValue::Undefined)
                    },
            ),
        ),
        Value::Mapping(m) => ValueView::Mapping(
            Seq::new(
                m.len() as nat,
                |i: int|
                    if 0 <= i < m.len() {
                        (deep(m[i].0), deep(m[i].1))
                    } else {
                        (ValueView::Simple(SimpleValue::Undefined), ValueView::Simple(SimpleValue::Undefined))
                    },
            ),
        ),
        Value::Simple(s) => ValueView::Simple(s),
    }
}

/// The kinds of structured value, as named in type-mismatch errors.
#[derive(Clone, Copy, Debug, PartialEq, Eq, Structural)]
pub enum Shape {
    Unsigned,
    Negative,
    ByteString,
    TextString,
    Array,
    Mapping,
    Simple,
    /// An integer or a text string, the shape of a label.
    IntOrText,
}

/// The shape of a value.
pub open spec fn shape_of(v: Value) -> Shape {
    match v {
        Value::Unsigned(_) => Shape::Unsigned,
        Value::Negative(_) => Shape::Negative,
        Value::ByteString(_) => Shape::ByteString,
        Value::TextString(_) => Shape::TextString,
        Value::Array(_) => Shape::Array,
        Value::Mapping(_) => Shape::Mapping,
        Value::Simple(_) => Shape::Simple,
    }
}

/// The integer a value holds, if it is an integer.
pub open spec fn int_of(v: Value) -> Option<int> {
    match v {
        Value::Unsigned(u) => Some(u as int),
        Value::Negative(n) => Some(-1 - n),
        _ => None,
    }
}

/// The bytes a value holds, if it is a byte string.
pub open spec fn bytes_of(v: Value) -> Option<Seq<u8>> {
    match v {
        Value::ByteString(b) => Some(b@),
        _ => None,
    }
}

/// Whether two strings hold the same characters.
pub(crate) fn same_text(a: &String, b: &String) -> (r: bool)
    ensures
        r == (a@ == b@),
{
    let sa = a.as_str();
    let sb = b.as_str();
    let n = sa.unicode_len();
    if n != sb.unicode_len() {
        return false;
    }
    let mut i: usize = 0;
    while i < n
        invariant
            sa@ == a@,
            sb@ == b@,
            n == a@.len(),
            n == b@.len(),
            i <= n,
            forall|j: int| 0 <= j < i ==> a@[j] == b@[j],
        decreases n - i,
    {
        if sa.get_char(i) != sb.get_char(i) {
            assert(a@[i as int] != b@[i as int]);
            return false;
        }
        i = i + 1;
    }
    assert(a@ =~= b@);
    true
}

/// Whether two byte strings hold the same bytes.
pub(crate) fn same_bytes(a: &Vec<u8>, b: &Vec<u8>) -> (r: bool)
    ensures
        r == (a@ == b@),
{
    if a.len() != b.len() {
        return false;
    }
    let mut i: usize = 0;
    while i < a.len()
        invariant
            a@.len() == b@.len(),
            i <= a@.len(),
            forall|j: int| 0 <= j < i ==> a@[j] == b@[j],
        decreases a.len() - i,
    {
        if a[i] != b[i] {
            return false;
        }
        i = i + 1;
    }
    assert(a@ =~= b@);
    true
}

/// A copy of a byte string.
fn copy_bytes(b: &Vec<u8>) -> (r: Vec<u8>)
    ensures
        r@ == b@,
{
    let mut r: Vec<u8> = Vec::new();
    let mut i: usize = 0;
    while i < b.len()
        invariant
            i <= b@.len(),
            r@ == b@.take(i as int),
        decreases b.len() - i,
    {
        r.push(b[i]);
        i = i + 1;
        assert(r@ =~= b@.take(i as int));
    }
    assert(b@.take(i as int) =~= b@);
    r
}

/// Whether two values hold the same thing, all the way down.
pub fn value_eq(a: &Value, b: &Value) -> (r: bool)
    ensures
        r == (deep(*a) == deep(*b)),
    decreases *a,
{
    match (a, b) {
        (Value::Unsigned(x), Value::Unsigned(y)) => *x == *y,
        (Value::Negative(x), Value::Negative(y)) => *x == *y,
        (Value::ByteString(x), Value::ByteString(y)) => same_bytes(x, y),
        (Value::TextString(x), Value::TextString(y)) => same_text(x, y),
        (Value::Array(x), Value::Array(y)) => {
            if x.len() != y.len() {
                assert(deep(*a)->Array_0.len() != deep(*b)->Array_0.len());
                return false;
            }
            let mut i: usize = 0;
            while i < x.len()
                invariant
                    *a == Value::Array(*x),
                    *b == Value::Array(*y),
                    x@.len() == y@.len(),
                    i <= x@.len(),
                    forall|j: int| 0 <= j < i ==> deep(x@[j]) == deep(y@[j]),
                decreases x.len() - i,
            {
                if !value_eq(&x[i], &y[i]) {
                    assert(deep(*a)->Array_0[i as int] != deep(*b)->Array_0[i as int]);
                    return false;
                }
                i = i + 1;
            }
            assert(deep(*a)->Array_0 =~= deep(*b)->Array_0);
            true
        },
        (Value::Mapping(x), Value::Mapping(y)) => {
            if x.len() != y.len() {
                assert(deep(*a)->Mapping_0.len() != deep(*b)->Mapping_0.len());
                return false;
            }
            let mut i: usize = 0;
            while i < x.len()
                invariant
                    *a == Value::Mapping(*x),
                    *b == Value::Mapping(*y),
                    x@.len() == y@.len(),
                    i <= x@.len(),
                    forall|j: int|
                        0 <= j < i ==> deep(x@[j].0) == deep(y@[j].0) && deep(x@[j].1) == deep(
                            y@[j].1,
                        ),
                decreases x.len() - i,
            {
                if !value_eq(&x[i].0, &y[i].0) || !value_eq(&x[i].1, &y[i].1) {
                    assert(deep(*a)->Mapping_0[i as int] != deep(*b)->Mapping_0[i as int]);
                    return false;
                }
                i = i + 1;
            }
            assert(deep(*a)->Mapping_0 =~= deep(*b)->Mapping_0);
            true
        },
        (Value::Simple(x), Value::Simple(y)) => *x == *y,
        _ => false,
    }
}

/// A copy of a value.
pub fn clone_value(v: &Value) -> (r: Value)
    ensures
        deep(r) == deep(*v),
    decreases *v,
{
    match v {
        Value::Unsigned(u) => Value::Unsigned(*u),
        Value::Negative(n) => Value::Negative(*n),
        Value::ByteString(b) => Value::ByteString(copy_bytes(b)),
        Value::TextString(t) => Value::TextString(t.clone()),
        Value::Array(x) => {
            let mut out: Vec<Value> = Vec::new();
            let mut i: usize = 0;
            while i < x.len()
                invariant
                    *v == Value::Array(*x),
                    i <= x@.len(),
                    out@.len() == i,
                    forall|j: int| 0 <= j < i ==> deep(out@[j]) == deep(x@[j]),
                decreases x.len() - i,
            {
                proof {
                    vstd::std_specs::vec::axiom_vec_index_decreases(*x, i as int);
                    assert(decreases_to!(*v => v->Array_0));
                }
                out.push(clone_value(&x[i]));
                i = i + 1;
            }
            let r = Value::Array(out);
            assert(deep(r)->Array_0 =~= deep(*v)->Array_0);
            r
        },
        Value::Mapping(x) => {
            let mut out: Vec<(Value, Value)> = Vec::new();
            let mut i: usize = 0;
            while i < x.len()
                invariant
                    *v == Value::Mapping(*x),
                    i <= x@.len(),
                    out@.len() == i,
                    forall|j: int|
                        0 <= j < i ==> deep(out@[j].0) == deep(x@[j].0) && deep(out@[j].1) == deep(
                            x@[j].1,
                        ),
                decreases x.len() - i,
            {
                proof {
                    vstd::std_specs::vec::axiom_vec_index_decreases(*x, i as int);
                    assert(decreases_to!(*v => v->Mapping_0));
                    assert(decreases_to!(x@[i as int] => x@[i as int].0));
                    assert(decreases_to!(x@[i as int] => x@[i as int].1));
                }
                out.push((clone_value(&x[i].0), clone_value(&x[i].1)));
                i = i + 1;
            }
            let r = Value::Mapping(out);
            assert(deep(r)->Mapping_0 =~= deep(*v)->Mapping_0);
            r
        },
        Value::Simple(s) => Value::Simple(*s),
    }
}

impl Clone for Value {
    /// A copy of the value, equal to it all the way down.
    fn clone(&self) -> (r: Self)
        ensures
            deep(r) == deep(*self),
    {
        clone_value(self)
    }
}

/// Two values are equal when they hold the same thing all the way down.
impl PartialEq for Value {
    fn eq(&self, other: &Value) -> (r: bool) {
        value_eq(self, other)
    }
}

impl vstd::std_specs::cmp::PartialEqSpecImpl for Value {
    open spec fn obeys_eq_spec() -> bool {
        true
    }

    open spec fn eq_spec(&self, other: &Value) -> bool {
        deep(*self) == deep(*other)
    }
}

impl Eq for Value {
}

impl Value {
    /// The shape of this value.
    pub fn shape(&self) -> (r: Shape)
        ensures
            r == shape_of(*self),
    {
        match self {
            Value::Unsigned(_) => Shape::Unsigned,
            Value::Negative(_) => Shape::Negative,
            Value::ByteString(_) => Shape::ByteString,
            Value::TextString(_) => Shape::TextString,
            Value::Array(_) => Shape::Array,
            Value::Mapping(_) => Shape::Mapping,
            Value::Simple(_) => Shape::Simple,
        }
    }

    /// The integer value `i`.
    pub fn from_i64(i: i64) -> (r: Value)
        ensures
            int_of(r) == Some(i as int),
    {
        if i >= 0 {
            Value::Unsigned(i as u64)
        } else {
            Value::Negative((-1 - i) as u64)
        }
    }

    /// The integer this value holds, if it is an integer.
    pub fn as_integer(&self) -> (r: Option<i128>)
        ensures
            r matches Some(i) ==> int_of(*self) == Some(i as int),
            r is None ==> int_of(*self) is None,
    {
        match self {
            Value::Unsigned(u) => Some(*u as i128),
            Value::Negative(n) => Some(-1 - (*n as i128)),
            _ => None,
        }
    }
}

} // verus!
