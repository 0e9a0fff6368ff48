//! Labels, and fields that hold either a registry constant or a raw value.

use crate::cbor::{Shape, Value, int_of, same_text, shape_of};
use crate::error::CoseError;
use crate::iana;
use crate::iana::EnumI128;
use vstd::prelude::*;

verus! {

/// What a label or an extensible field stands for on the wire: an integer or
/// a text string.
pub ghost enum LabelView {
    Int(int),
    Text(Seq<char>),
}

/// The label that a value stands for, if it is an integer or a text string.
pub open spec fn label_of(v: Value) -> Option<LabelView> {
    match v {
        Value::Unsigned(u) => Some(LabelView::Int(u as int)),
        Value::Negative(n) => Some(LabelView::Int(-1 - n)),
        Value::TextString(s) => Some(LabelView::Text(s@)),
        _ => None,
    }
}

/// The outcome of decoding a value into a label: integers must fit in an
/// `i64`, and any other shape than integer or text is refused.
pub open spec fn label_from_value(v: Value) -> Result<LabelView, CoseError> {
    match v {
        Value::Unsigned(u) => if u <= i64::MAX {
            Ok(LabelView::Int(u as int))
        } else {
            Err(CoseError::OutOfRangeInteger)
        },
        Value::Negative(n) => if n <= i64::MAX {
            Ok(LabelView::Int(-1 - n))
        } else {
            Err(CoseError::OutOfRangeInteger)
        },
        Value::TextString(s) => Ok(LabelView::Text(s@)),
        _ => Err(CoseError::UnexpectedType(shape_of(v), Shape::IntOrText)),
    }
}

/// A generic map key: an integer or a text string.
#[derive(Clone, Debug, PartialEq, Eq)]
pub enum Label {
    Int(i64),
    Text(String),
}

impl View for Label {
    type V = LabelView;

    open spec fn view(&self) -> LabelView {
        match self {
            Label::Int(i) => LabelView::Int(*i as int),
            Label::Text(s) => LabelView::Text(s@),
        }
    }
}

impl Label {
    /// Decodes a label from an integer or text value.
    pub fn from_cbor_value(value: Value) -> (r: Result<Label, CoseError>)
        ensures
            match r {
                Ok(l) => label_from_value(value) == Ok::<LabelView, CoseError>(l@),
                Err(e) => label_from_value(value) == Err::<LabelView, CoseError>(e),
            },
    {
        match value {
            Value::Unsigned(u) => if u <= i64::MAX as u64 {
                Ok(Label::Int(u as i64))
            } else {
                Err(CoseError::OutOfRangeInteger)
            },
            Value::Negative(n) => if n <= i64::MAX as u64 {
                Ok(Label::Int(-1 - (n as i64)))
            } else {
                Err(CoseError::OutOfRangeInteger)
            },
            Value::TextString(s) => Ok(Label::Text(s)),
            v => Err(CoseError::UnexpectedType(v.shape(), Shape::IntOrText)),
        }
    }

    /// Whether two labels are the same integer or the same text.
    pub fn same_label(&self, other: &Label) -> (r: bool)
        ensures
            r == (self@ == other@),
    {
        match (self, other) {
            (Label::Int(i), Label::Int(j)) => *i == *j,
            (Label::Text(s), Label::Text(t)) => same_text(s, t),
            _ => false,
        }
    }

    /// Encodes a label as an integer or text value; this cannot fail.
    pub fn to_cbor_value(self) -> (r: Result<Value, CoseError>)
        ensures
            r matches Ok(v) && label_of(v) == Some(self@),
    {
        Ok(self.to_value())
    }

    /// Encodes a label as an integer or text value.
    pub fn to_value(self) -> (r: Value)
        ensures
            label_of(r) == Some(self@),
    {
        match self {
            Label::Int(i) => Value::from_i64(i),
            Label::Text(s) => Value::TextString(s),
        }
    }
}

/// A field that holds either a constant of the registry `R` or a raw integer
/// or text value that `R` does not assign.
#[derive(Clone, Debug)]
pub enum RegisteredLabel<R> {
    Assigned(R),
    Int(i64),
    Text(String),
}

/// Key type.
pub type KeyType = RegisteredLabel<iana::KeyType>;

/// Key operation.
pub type KeyOperation = RegisteredLabel<iana::KeyOperation>;

/// Algorithm identifier.
pub type Algorithm = RegisteredLabel<iana::Algorithm>;

/// Two fields are the same when they have the same wire value.
impl<R: EnumI128> View for RegisteredLabel<R> {
    type V = LabelView;

    open spec fn view(&self) -> LabelView {
        match self {
            RegisteredLabel::Assigned(c) => LabelView::Int(c.spec_value()),
            RegisteredLabel::Int(i) => LabelView::Int(*i as int),
            RegisteredLabel::Text(s) => LabelView::Text(s@),
        }
    }
}

impl<R: EnumI128> RegisteredLabel<R> {
    /// A raw integer is only used for values that the registry does not assign.
    pub open spec fn is_canonical(&self) -> bool {
        self matches RegisteredLabel::Int(i) ==> R::spec_lookup(i as int) is None
    }

    /// Decodes a field: an integer that the registry assigns becomes the
    /// registry constant, any other integer or text is kept as it is.
    pub fn from_cbor_value(value: Value) -> (r: Result<Self, CoseError>)
        ensures
            match r {
                Ok(l) => label_from_value(value) == Ok::<LabelView, CoseError>(l@)
                    && l.is_canonical(),
                Err(e) => label_from_value(value) == Err::<LabelView, CoseError>(e),
            },
            int_of(value) matches Some(i) ==> (R::spec_lookup(i) is None && i64::MIN <= i
                <= i64::MAX ==> r == Ok::<Self, CoseError>(RegisteredLabel::Int(i as i64))),
    {
        match value.as_integer() {
            Some(i) => {
                match R::from_i128(i) {
                    Some(c) => {
                        proof {
                            R::lemma_value_lookup(i as int);
                            R::lemma_value_range(c);
                        }
                        Ok(RegisteredLabel::Assigned(c))
                    },
                    None => if i64::MIN as i128 <= i && i <= i64::MAX as i128 {
                        Ok(RegisteredLabel::Int(i as i64))
                    } else {
                        Err(CoseError::OutOfRangeInteger)
                    },
                }
            },
            None => match value {
                Value::TextString(s) => Ok(RegisteredLabel::Text(s)),
                v => Err(CoseError::UnexpectedType(v.shape(), Shape::IntOrText)),
            },
        }
    }

    /// Encodes a field as its registry integer, or as the raw value it holds;
    /// this cannot fail.
    pub fn to_cbor_value(self) -> (r: Result<Value, CoseError>)
        ensures
            r matches Ok(v) && label_of(v) == Some(self@),
    {
        Ok(self.to_value())
    }

    /// Encodes a field as its registry integer, or as the raw value it holds.
    pub fn to_value(self) -> (r: Value)
        ensures
            label_of(r) == Some(self@),
    {
        match self {
            RegisteredLabel::Assigned(c) => {
                proof {
                    R::lemma_value_range(c);
                }
                Value::from_i64(c.to_i128() as i64)
            },
            RegisteredLabel::Int(i) => Value::from_i64(i),
            RegisteredLabel::Text(s) => Value::TextString(s),
        }
    }
}

impl<R: EnumI128> RegisteredLabel<R> {
    /// The integer of a field that is not text.
    fn integer(&self) -> (r: i128)
        requires
            !(self is Text),
        ensures
            self@ == LabelView::Int(r as int),
    {
        match self {
            RegisteredLabel::Assigned(c) => c.to_i128(),
            RegisteredLabel::Int(i) => *i as i128,
            RegisteredLabel::Text(_) => 0,
        }
    }

    /// Whether two fields have the same wire value.
    pub fn same_wire_value(&self, other: &Self) -> (r: bool)
        ensures
            r == (self@ == other@),
    {
        match (self, other) {
            (RegisteredLabel::Text(s), RegisteredLabel::Text(t)) => same_text(s, t),
            (RegisteredLabel::Text(_), _) => false,
            (_, RegisteredLabel::Text(_)) => false,
            _ => self.integer() == other.integer(),
        }
    }
}

/// Two fields are equal when they would encode to the same value.
impl<R: EnumI128> PartialEq for RegisteredLabel<R> {
    fn eq(&self, other: &Self) -> (r: bool) {
        self.same_wire_value(other)
    }
}

impl<R: EnumI128> vstd::std_specs::cmp::PartialEqSpecImpl for RegisteredLabel<R> {
    open spec fn obeys_eq_spec() -> bool {
        true
    }

    open spec fn eq_spec(&self, other: &Self) -> bool {
        self@ == other@
    }
}

impl<R: EnumI128> Eq for RegisteredLabel<R> {
}

impl Default for RegisteredLabel<iana::KeyType> {
    /// The reserved key type, which stands for "no key type yet".
    fn default() -> (r: Self)
        ensures
            r == RegisteredLabel::Assigned(iana::KeyType::Reserved),
    {
        RegisteredLabel::Assigned(iana::KeyType::Reserved)
    }
}

} // verus!
