//! COSE_Key functionality.

use crate::cbor::{Shape, Value, ValueView, bytes_of, deep, same_bytes, shape_of, value_eq};
use crate::error::CoseError;
use crate::iana;
use crate::iana::{EnumI128, KeyParameter};
use crate::label::{
    Algorithm, KeyOperation, KeyType, Label, LabelView, RegisteredLabel, label_from_value, label_of,
};
use vstd::prelude::*;

verus! {

/// Structure representing a cryptographic key.
///
/// ```cddl
///  COSE_Key = {
///      1 => tstr / int,          ; kty
///      ? 2 => bstr,              ; kid
///      ? 3 => tstr / int,        ; alg
///      ? 4 => [+ (tstr / int) ], ; key_ops
///      ? 5 => bstr,              ; Base IV
///      * label => values
///  }
///  ```
#[derive(Clone, Debug)]
pub struct CoseKey {
    /// Key type identification.
    pub kty: KeyType,
    /// Key identification.
    pub key_id: Vec<u8>,
    /// Key use restriction to this algorithm.
    pub alg: Option<Algorithm>,
    /// Restrict set of possible operations; each operation occurs once.
    /// Encoding keeps the order of insertion, equality ignores it.
    pub key_ops: Vec<KeyOperation>,
    /// Base IV to be xor-ed with partial IVs.
    pub base_iv: Vec<u8>,
    /// Any additional parameter (label,value) pairs.  If duplicate labels are present,
    /// encoding of the whole map will fail downstream.
    pub params: Vec<(Label, Value)>,
}

/// A key object as its wire values: extensible fields and labels by the
/// integer or text they stand for, byte strings by their bytes.
pub ghost struct CoseKeyView {
    pub kty: LabelView,
    pub key_id: Seq<u8>,
    pub alg: Option<LabelView>,
    pub key_ops: Seq<LabelView>,
    pub base_iv: Seq<u8>,
    pub params: Seq<(LabelView, Value)>,
}

/// Key operations by their wire values.
pub open spec fn ops_view(ops: Seq<KeyOperation>) -> Seq<LabelView> {
    ops.map_values(|op: KeyOperation| op@)
}

/// Parameters with their labels by wire value.
pub open spec fn params_view(params: Seq<(Label, Value)>) -> Seq<(LabelView, Value)> {
    params.map_values(|p: (Label, Value)| (p.0@, p.1))
}

impl View for CoseKey {
    type V = CoseKeyView;

    open spec fn view(&self) -> CoseKeyView {
        CoseKeyView {
            kty: self.kty@,
            key_id: self.key_id@,
            alg: match self.alg {
                Some(a) => Some(a@),
                None => None,
            },
            key_ops: ops_view(self.key_ops@),
            base_iv: self.base_iv@,
            params: params_view(self.params@),
        }
    }
}

/// Parameters with their values viewed all the way down.
pub open spec fn params_deep(params: Seq<(LabelView, Value)>) -> Seq<(LabelView, ValueView)> {
    params.map_values(|p: (LabelView, Value)| (p.0, deep(p.1)))
}

impl CoseKeyView {
    /// Whether two key objects are the same key: the order of the key
    /// operations does not matter, that of the parameters does.
    pub open spec fn same_key(self, other: CoseKeyView) -> bool {
        &&& self.kty == other.kty
        &&& self.key_id == other.key_id
        &&& self.alg == other.alg
        &&& self.key_ops.to_set() == other.key_ops.to_set()
        &&& self.base_iv == other.base_iv
        &&& params_deep(self.params) == params_deep(other.params)
    }
}


/// The wire value of the reserved key type, which stands for "absent".
pub open spec fn reserved_kty() -> LabelView {
    LabelView::Int(iana::KeyType::Reserved.spec_value())
}

/// The key object that decoding starts from: reserved key type, all else empty.
pub open spec fn empty_key() -> CoseKeyView {
    CoseKeyView {
        kty: reserved_kty(),
        key_id: Seq::empty(),
        alg: None,
        key_ops: Seq::empty(),
        base_iv: Seq::empty(),
        params: Seq::empty(),
    }
}

/// Which fixed field of a key object a map label selects, if any.
pub open spec fn fixed_field(label: Value) -> Option<KeyParameter> {
    match label {
        Value::Unsigned(u) => match KeyParameter::spec_lookup(u as int) {
            Some(KeyParameter::Reserved) => None,
            p => p,
        },
        _ => None,
    }
}

/// Decoding a byte-string field, which must be present and non-empty.
pub open spec fn bytes_field(value: Value) -> Result<Seq<u8>, CoseError> {
    match value {
        Value::ByteString(b) => if b@.len() == 0 {
            Err(CoseError::EmptyByteString)
        } else {
            Ok(b@)
        },
        _ => Err(CoseError::UnexpectedType(shape_of(value), Shape::ByteString)),
    }
}

/// Adding the operations of an array, in order, to those already known: each
/// one must decode and must not be known yet.
pub open spec fn add_ops(known: Seq<LabelView>, ops: Seq<Value>) -> Result<Seq<LabelView>, CoseError>
    decreases ops.len(),
{
    if ops.len() == 0 {
        Ok(known)
    } else {
        match add_ops(known, ops.drop_last()) {
            Err(e) => Err(e),
            Ok(s) => match label_from_value(ops.last()) {
                Err(e) => Err(e),
                Ok(op) => if s.contains(op) {
                    Err(CoseError::RepeatedArrayEntry)
                } else {
                    Ok(s.push(op))
                },
            },
        }
    }
}

/// The effect of one map entry on the key object decoded so far.
pub open spec fn decode_entry(k: CoseKeyView, label: Value, value: Value) -> Result<CoseKeyView, CoseError> {
    match fixed_field(label) {
        Some(KeyParameter::Kty) => match label_from_value(value) {
            Ok(t) => Ok(CoseKeyView { kty: t, ..k }),
            Err(e) => Err(e),
        },
        Some(KeyParameter::Kid) => match bytes_field(value) {
            Ok(b) => Ok(CoseKeyView { key_id: b, ..k }),
            Err(e) => Err(e),
        },
        Some(KeyParameter::Alg) => match label_from_value(value) {
            Ok(a) => Ok(CoseKeyView { alg: Some(a), ..k }),
            Err(e) => Err(e),
        },
        Some(KeyParameter::KeyOps) => match value {
            Value::Array(a) => if a@.len() == 0 {
                Err(CoseError::EmptyArray)
            } else {
                match add_ops(k.key_ops, a@) {
                    Ok(ops) => Ok(CoseKeyView { key_ops: ops, ..k }),
                    Err(e) => Err(e),
                }
            },
            _ => Err(CoseError::UnexpectedType(shape_of(value), Shape::Array)),
        },
        Some(KeyParameter::BaseIv) => match bytes_field(value) {
            Ok(b) => Ok(CoseKeyView { base_iv: b, ..k }),
            Err(e) => Err(e),
        },
        _ => match label_from_value(label) {
            Ok(l) => Ok(CoseKeyView { params: k.params.push((l, value)), ..k }),
            Err(e) => Err(e),
        },
    }
}

/// The map entries applied in wire order to the empty key object; the first
/// failure ends decoding.
pub open spec fn decode_entries(m: Seq<(Value, Value)>) -> Result<CoseKeyView, CoseError>
    decreases m.len(),
{
    if m.len() == 0 {
        Ok(empty_key())
    } else {
        match decode_entries(m.drop_last()) {
            Ok(k) => decode_entry(k, m.last().0, m.last().1),
            Err(e) => Err(e),
        }
    }
}

/// The outcome of decoding a value into a key object: it must be a map, its
/// entries must decode, and it must give a key type.
pub open spec fn decode_key(v: Value) -> Result<CoseKeyView, CoseError> {
    match v {
        Value::Mapping(m) => match decode_entries(m@) {
            Ok(k) => if k.kty == reserved_kty() {
                Err(CoseError::MissingKeyType)
            } else {
                Ok(k)
            },
            Err(e) => Err(e),
        },
        _ => Err(CoseError::UnexpectedType(shape_of(v), Shape::Mapping)),
    }
}

/// The fixed fields that encoding emits for a key, in the order it emits
/// them: the key type always, each other field only when it is non-empty or
/// present.
pub open spec fn emitted_fields(k: CoseKeyView) -> Seq<KeyParameter> {
    seq![KeyParameter::Kty]
        + (if k.key_id.len() > 0 { seq![KeyParameter::Kid] } else { Seq::empty() })
        + (if k.alg is Some { seq![KeyParameter::Alg] } else { Seq::empty() })
        + (if k.key_ops.len() > 0 { seq![KeyParameter::KeyOps] } else { Seq::empty() })
        + (if k.base_iv.len() > 0 { seq![KeyParameter::BaseIv] } else { Seq::empty() })
}

/// The label value of a fixed field.
pub open spec fn field_label(f: KeyParameter) -> Value {
    Value::Unsigned(f.spec_value() as u64)
}

/// Whether `v` is the encoding of the field `f` of `k`.
pub open spec fn field_encoded(k: CoseKeyView, f: KeyParameter, v: Value) -> bool {
    match f {
        KeyParameter::Kty => label_of(v) == Some(k.kty),
        KeyParameter::Kid => bytes_of(v) == Some(k.key_id),
        KeyParameter::Alg => k.alg is Some && label_of(v) == Some(k.alg->0),
        KeyParameter::KeyOps => ops_encoded(k.key_ops, v),
        KeyParameter::BaseIv => bytes_of(v) == Some(k.base_iv),
        KeyParameter::Reserved => false,
    }
}

/// Whether `v` is an array holding the encodings of `ops`, in order.
pub open spec fn ops_encoded(ops: Seq<LabelView>, v: Value) -> bool {
    &&& v is Array
    &&& v->Array_0@.len() == ops.len()
    &&& forall|i: int| 0 <= i < ops.len() ==> label_of(#[trigger] v->Array_0@[i]) == Some(ops[i])
}

/// Whether the map entries `m` are the encoding of `k`: first the emitted
/// fixed fields in canonical order, then every parameter in its stored order.
pub open spec fn is_encoding(k: CoseKeyView, m: Seq<(Value, Value)>) -> bool {
    let fields = emitted_fields(k);
    let n = fields.len() as int;
    &&& m.len() == n + k.params.len()
    &&& forall|i: int|
        0 <= i < n ==> #[trigger] m[i].0 == field_label(fields[i]) && field_encoded(k, fields[i], m[i].1)
    &&& forall|j: int|
        0 <= j < k.params.len() ==> label_of(#[trigger] m[n + j].0) == Some(k.params[j].0) && m[n + j].1
            == k.params[j].1
}

/// Whether an integer label fits in an `i64`, as every decoded label does.
pub open spec fn label_in_range(l: LabelView) -> bool {
    l matches LabelView::Int(i) ==> i64::MIN <= i <= i64::MAX
}

/// Whether a label is that of one of the fixed fields.
pub open spec fn is_fixed_label(l: LabelView) -> bool {
    l matches LabelView::Int(i) && KeyParameter::spec_lookup(i) matches Some(p) && p
        != KeyParameter::Reserved
}

impl CoseKeyView {
    /// A valid key object has a key type, each operation once, labels that fit
    /// in an `i64`, and no parameter under the label of a fixed field.
    pub open spec fn is_valid(self) -> bool {
        &&& self.kty != reserved_kty()
        &&& label_in_range(self.kty)
        &&& (self.alg matches Some(a) ==> label_in_range(a))
        &&& self.key_ops.no_duplicates()
        &&& forall|i: int| 0 <= i < self.key_ops.len() ==> label_in_range(#[trigger] self.key_ops[i])
        &&& forall|j: int|
            0 <= j < self.params.len() ==> label_in_range(#[trigger] self.params[j].0)
                && !is_fixed_label(self.params[j].0)
    }
}

/// The key decoded from the first `j` entries of the encoding of `k`.
spec fn partial_key(k: CoseKeyView, j: int) -> CoseKeyView {
    let pos_alg = 1 + if k.key_id.len() > 0 { 1int } else { 0 };
    let pos_ops = pos_alg + if k.alg is Some { 1int } else { 0 };
    let pos_iv = pos_ops + if k.key_ops.len() > 0 { 1int } else { 0 };
    let n = emitted_fields(k).len() as int;
    CoseKeyView {
        kty: if j > 0 { k.kty } else { reserved_kty() },
        key_id: if j > 1 { k.key_id } else { Seq::empty() },
        alg: if j > pos_alg { k.alg } else { None },
        key_ops: if j > pos_ops { k.key_ops } else { Seq::empty() },
        base_iv: if j > pos_iv { k.base_iv } else { Seq::empty() },
        params: if j > n { k.params.take(j - n) } else { Seq::empty() },
    }
}

proof fn lemma_label_decodes(v: Value, l: LabelView)
    requires
        label_of(v) == Some(l),
        label_in_range(l),
    ensures
        label_from_value(v) == Ok::<LabelView, CoseError>(l),
{
}

proof fn lemma_ops_decode(a: Seq<Value>, ops: Seq<LabelView>)
    requires
        a.len() == ops.len(),
        forall|i: int| 0 <= i < a.len() ==> label_of(#[trigger] a[i]) == Some(ops[i]),
        forall|i: int| 0 <= i < ops.len() ==> label_in_range(#[trigger] ops[i]),
        ops.no_duplicates(),
    ensures
        add_ops(Seq::empty(), a) == Ok::<Seq<LabelView>, CoseError>(ops),
    decreases a.len(),
{
    if a.len() == 0 {
        assert(ops =~= Seq::empty());
    } else {
        let last = ops.len() - 1;
        assert(label_of(a[last]) == Some(ops[last]));
        assert(ops.drop_last().no_duplicates());
        lemma_ops_decode(a.drop_last(), ops.drop_last());
        lemma_label_decodes(a.last(), ops[last]);
        assert(!ops.drop_last().contains(ops[last]));
        assert(ops.drop_last().push(ops[last]) =~= ops);
    }
}

proof fn lemma_fixed_label(f: KeyParameter)
    requires
        f != KeyParameter::Reserved,
    ensures
        fixed_field(field_label(f)) == Some(f),
{
    KeyParameter::lemma_lookup_value(f);
}

proof fn lemma_param_label(v: Value, l: LabelView)
    requires
        label_of(v) == Some(l),
        label_in_range(l),
        !is_fixed_label(l),
    ensures
        fixed_field(v) is None,
        label_from_value(v) == Ok::<LabelView, CoseError>(l),
{
}

/// An absent field of a key object is the empty sequence itself.
proof fn lemma_absent_fields_empty(k: CoseKeyView)
    ensures
        k.key_id.len() == 0 ==> k.key_id == Seq::<u8>::empty(),
        k.key_ops.len() == 0 ==> k.key_ops == Seq::<LabelView>::empty(),
        k.base_iv.len() == 0 ==> k.base_iv == Seq::<u8>::empty(),
        k.params.take(0) == Seq::<(LabelView, Value)>::empty(),
{
    if k.key_id.len() == 0 {
        assert(k.key_id =~= Seq::<u8>::empty());
    }
    if k.key_ops.len() == 0 {
        assert(k.key_ops =~= Seq::<LabelView>::empty());
    }
    if k.base_iv.len() == 0 {
        assert(k.base_iv =~= Seq::<u8>::empty());
    }
    assert(k.params.take(0) =~= Seq::<(LabelView, Value)>::empty());
}

proof fn lemma_partial_step(k: CoseKeyView, m: Seq<(Value, Value)>, j: int)
    requires
        k.is_valid(),
        is_encoding(k, m),
        0 <= j < m.len(),
    ensures
        decode_entry(partial_key(k, j), m[j].0, m[j].1) == Ok::<CoseKeyView, CoseError>(
            partial_key(k, j + 1),
        ),
{
    let fields = emitted_fields(k);
    let n = fields.len() as int;
    let has_kid = k.key_id.len() > 0;
    let has_alg = k.alg is Some;
    let has_ops = k.key_ops.len() > 0;
    let has_iv = k.base_iv.len() > 0;
    let pos_alg = 1 + if has_kid { 1int } else { 0 };
    let pos_ops = pos_alg + if has_alg { 1int } else { 0 };
    let pos_iv = pos_ops + if has_ops { 1int } else { 0 };
    assert(n == pos_iv + if has_iv { 1int } else { 0 });
    let before = partial_key(k, j);
    let after = partial_key(k, j + 1);
    lemma_absent_fields_empty(k);
    if j < n {
        let f = fields[j];
        assert(m[j].0 == field_label(f) && field_encoded(k, f, m[j].1));
        if j == 0 {
            assert(f == KeyParameter::Kty);
        } else if has_kid && j == 1 {
            assert(f == KeyParameter::Kid);
        } else if has_alg && j == pos_alg {
            assert(f == KeyParameter::Alg);
        } else if has_ops && j == pos_ops {
            assert(f == KeyParameter::KeyOps);
        } else {
            assert(has_iv && j == pos_iv);
            assert(f == KeyParameter::BaseIv);
        }
        lemma_fixed_label(f);
        let v = m[j].1;
        match f {
            KeyParameter::Kty => {
                lemma_label_decodes(v, k.kty);
                assert(after == CoseKeyView { kty: k.kty, ..before });
            },
            KeyParameter::Kid => {
                assert(after == CoseKeyView { key_id: k.key_id, ..before });
            },
            KeyParameter::Alg => {
                lemma_label_decodes(v, k.alg->0);
                assert(after == CoseKeyView { alg: k.alg, ..before });
            },
            KeyParameter::KeyOps => {
                lemma_ops_decode(v->Array_0@, k.key_ops);
                assert(after == CoseKeyView { key_ops: k.key_ops, ..before });
            },
            KeyParameter::BaseIv => {
                assert(after == CoseKeyView { base_iv: k.base_iv, ..before });
            },
            KeyParameter::Reserved => {},
        }
    } else {
        let p = j - n;
        assert(label_of(m[n + p].0) == Some(k.params[p].0) && m[n + p].1 == k.params[p].1);
        lemma_param_label(m[j].0, k.params[p].0);
        assert(k.params.take(p).push(k.params[p]) =~= k.params.take(p + 1));
        assert(after == CoseKeyView { params: before.params.push((k.params[p].0, m[j].1)), ..before });
    }
}

proof fn lemma_partial_prefix(k: CoseKeyView, m: Seq<(Value, Value)>, j: int)
    requires
        k.is_valid(),
        is_encoding(k, m),
        0 <= j <= m.len(),
    ensures
        decode_entries(m.take(j)) == Ok::<CoseKeyView, CoseError>(partial_key(k, j)),
    decreases j,
{
    if j == 0 {
        assert(partial_key(k, 0) == empty_key());
    } else {
        lemma_partial_prefix(k, m, j - 1);
        assert(m.take(j).drop_last() =~= m.take(j - 1));
        lemma_partial_step(k, m, j - 1);
    }
}

/// Decoding the encoding of a valid key object gives that key object back.
pub proof fn lemma_round_trip(k: CoseKeyView, v: Value)
    requires
        k.is_valid(),
        v is Mapping,
        is_encoding(k, v->Mapping_0@),
    ensures
        decode_key(v) == Ok::<CoseKeyView, CoseError>(k),
{
    let m = v->Mapping_0@;
    lemma_partial_prefix(k, m, m.len() as int);
    assert(m.take(m.len() as int) =~= m);
    let n = emitted_fields(k).len() as int;
    assert(k.params.take(m.len() - n) =~= k.params);
    lemma_absent_fields_empty(k);
    assert(partial_key(k, m.len() as int) == k);
}

pub(crate) proof fn lemma_entries_error_persists(m: Seq<(Value, Value)>, j: int)
    requires
        0 <= j <= m.len(),
        decode_entries(m.take(j)) is Err,
    ensures
        decode_entries(m) == decode_entries(m.take(j)),
    decreases m.len() - j,
{
    if j < m.len() {
        assert(m.take(j + 1).drop_last() =~= m.take(j));
        lemma_entries_error_persists(m, j + 1);
    } else {
        assert(m.take(j) =~= m);
    }
}

pub(crate) proof fn lemma_ops_error_persists(known: Seq<LabelView>, ops: Seq<Value>, j: int)
    requires
        0 <= j <= ops.len(),
        add_ops(known, ops.take(j)) is Err,
    ensures
        add_ops(known, ops) == add_ops(known, ops.take(j)),
    decreases ops.len() - j,
{
    if j < ops.len() {
        assert(ops.take(j + 1).drop_last() =~= ops.take(j));
        lemma_ops_error_persists(known, ops, j + 1);
    } else {
        assert(ops.take(j) =~= ops);
    }
}

/// Whether a list of key operations holds one with the wire value of `op`.
pub(crate) fn contains_op(ops: &Vec<KeyOperation>, op: &KeyOperation) -> (r: bool)
    ensures
        r == ops_view(ops@).contains(op@),
{
    let mut i: usize = 0;
    while i < ops.len()
        invariant
            i <= ops@.len(),
            forall|j: int| 0 <= j < i ==> ops@[j]@ != op@,
        decreases ops.len() - i,
    {
        if ops[i].same_wire_value(op) {
            assert(ops_view(ops@)[i as int] == op@);
            return true;
        }
        i = i + 1;
    }
    assert(!ops_view(ops@).contains(op@)) by {
        if ops_view(ops@).contains(op@) {
            let j = choose|j: int| 0 <= j < ops_view(ops@).len() && ops_view(ops@)[j] == op@;
            assert(ops@[j]@ == op@);
        }
    }
    false
}


/// The fixed field that a map label selects, if any.
fn fixed_field_of(label: &Value) -> (r: Option<KeyParameter>)
    ensures
        r == fixed_field(*label),
{
    match label {
        Value::Unsigned(u) => match KeyParameter::from_i128(*u as i128) {
            Some(KeyParameter::Reserved) => None,
            p => p,
        },
        _ => None,
    }
}

/// Decodes a byte-string field, which must be non-empty.
fn decode_bytes_field(value: Value) -> (r: Result<Vec<u8>, CoseError>)
    ensures
        match r {
            Ok(b) => bytes_field(value) == Ok::<Seq<u8>, CoseError>(b@),
            Err(e) => bytes_field(value) == Err::<Seq<u8>, CoseError>(e),
        },
{
    match value {
        Value::ByteString(v) => {
            if v.len() == 0 {
                return Err(CoseError::EmptyByteString);
            }
            Ok(v)
        },
        v => Err(CoseError::UnexpectedType(v.shape(), Shape::ByteString)),
    }
}

/// The label value of a fixed field.
fn field_label_value(f: KeyParameter) -> (r: Value)
    ensures
        r == field_label(f),
{
    Value::Unsigned(f.to_i128() as u64)
}

/// Encodes key operations as an array, in order.
fn encode_ops(ops: Vec<KeyOperation>) -> (r: Value)
    ensures
        ops_encoded(ops_view(ops@), r),
{
    let ghost ov = ops_view(ops@);
    let mut arr: Vec<Value> = Vec::new();
    for op in it: ops.into_iter()
        invariant
            it.seq() == ops@,
            ov == ops_view(ops@),
            arr@.len() == it.index(),
            forall|i: int| 0 <= i < it.index() ==> label_of(#[trigger] arr@[i]) == Some(ov[i]),
    {
        arr.push(op.to_value());
    }
    Value::Array(arr)
}

/// Whether every operation of `a` is among those of `b`.
fn ops_within(a: &Vec<KeyOperation>, b: &Vec<KeyOperation>) -> (r: bool)
    ensures
        r == forall|x: LabelView| ops_view(a@).contains(x) ==> ops_view(b@).contains(x),
{
    let mut i: usize = 0;
    while i < a.len()
        invariant
            i <= a@.len(),
            forall|j: int| 0 <= j < i ==> ops_view(b@).contains(#[trigger] a@[j]@),
        decreases a.len() - i,
    {
        if !contains_op(b, &a[i]) {
            assert(ops_view(a@)[i as int] == a@[i as int]@);
            return false;
        }
        i = i + 1;
    }
    assert forall|x: LabelView| ops_view(a@).contains(x) implies ops_view(b@).contains(x) by {
        let j = choose|j: int| 0 <= j < ops_view(a@).len() && ops_view(a@)[j] == x;
        assert(a@[j]@ == x);
    }
    true
}

/// Whether two parameter lists hold the same labels and values, in order.
fn same_params(a: &Vec<(Label, Value)>, b: &Vec<(Label, Value)>) -> (r: bool)
    ensures
        r == (params_deep(params_view(a@)) == params_deep(params_view(b@))),
{
    if a.len() != b.len() {
        assert(params_deep(params_view(a@)).len() != params_deep(params_view(b@)).len());
        return false;
    }
    let mut i: usize = 0;
    while i < a.len()
        invariant
            a@.len() == b@.len(),
            i <= a@.len(),
            forall|j: int|
                0 <= j < i ==> (#[trigger] a@[j]).0@ == b@[j].0@ && deep(a@[j].1) == deep(b@[j].1),
        decreases a.len() - i,
    {
        if !a[i].0.same_label(&b[i].0) || !value_eq(&a[i].1, &b[i].1) {
            assert(params_deep(params_view(a@))[i as int] != params_deep(params_view(b@))[i as int]);
            return false;
        }
        i = i + 1;
    }
    assert(params_deep(params_view(a@)) =~= params_deep(params_view(b@)));
    true
}

/// Two keys are equal when they are the same key, whatever the order of
/// their key operations.
impl PartialEq for CoseKey {
    fn eq(&self, other: &CoseKey) -> (r: bool) {
        let alg_same = match (&self.alg, &other.alg) {
            (Some(a), Some(b)) => a.same_wire_value(b),
            (None, None) => true,
            _ => false,
        };
        let ops_same = ops_within(&self.key_ops, &other.key_ops) && ops_within(
            &other.key_ops,
            &self.key_ops,
        );
        proof {
            if ops_same {
                assert(self@.key_ops.to_set() =~= other@.key_ops.to_set());
            } else if self@.key_ops.to_set() == other@.key_ops.to_set() {
                assert forall|x: LabelView| self@.key_ops.contains(x) <==> other@.key_ops.contains(x) by {
                    assert(self@.key_ops.to_set().contains(x) == other@.key_ops.to_set().contains(x));
                }
            }
        }
        self.kty.same_wire_value(&other.kty) && same_bytes(&self.key_id, &other.key_id) && alg_same
            && ops_same && same_bytes(&self.base_iv, &other.base_iv) && same_params(
            &self.params,
            &other.params,
        )
    }
}

impl vstd::std_specs::cmp::PartialEqSpecImpl for CoseKey {
    open spec fn obeys_eq_spec() -> bool {
        true
    }

    open spec fn eq_spec(&self, other: &CoseKey) -> bool {
        self@.same_key(other@)
    }
}

impl Eq for CoseKey {
}


impl Default for CoseKey {
    /// The key object with the reserved key type and every other field empty.
    fn default() -> (r: Self)
        ensures
            r@ == empty_key(),
    {
        let r = CoseKey {
            kty: KeyType::default(),
            key_id: Vec::new(),
            alg: None,
            key_ops: Vec::new(),
            base_iv: Vec::new(),
            params: Vec::new(),
        };
        assert(ops_view(r.key_ops@) =~= Seq::empty());
        assert(params_view(r.params@) =~= Seq::empty());
        r
    }
}

impl CoseKey {
    /// Adds the operations of a decoded array to this key's operations,
    /// refusing an operation that is already present.
    fn add_key_ops(&mut self, ops: Vec<Value>) -> (r: Result<(), CoseError>)
        ensures
            match add_ops(old(self)@.key_ops, ops@) {
                Ok(s) => r is Ok && final(self)@ == CoseKeyView { key_ops: s, ..old(self)@ },
                Err(e) => r == Err::<(), CoseError>(e),
            },
    {
        let ghost before = (*self)@;
        let ghost arr = ops@;
        for op in it: ops.into_iter()
            invariant
                it.seq() == arr,
                arr == ops@,
                before == old(self)@,
                add_ops(before.key_ops, arr.take(it.index())) == Ok::<Seq<LabelView>, CoseError>(
                    (*self)@.key_ops,
                ),
                (*self)@ == (CoseKeyView { key_ops: (*self)@.key_ops, ..before }),
        {
            let ghost i = it.index();
            let ghost raw = op;
            assert(arr.take(i + 1).drop_last() =~= arr.take(i));
            assert(arr.take(i + 1).last() == raw);
            let op = match KeyOperation::from_cbor_value(op) {
                Ok(o) => o,
                Err(e) => {
                    proof {
                        assert(add_ops(before.key_ops, arr.take(i + 1)) == Err::<Seq<LabelView>, CoseError>(e));
                        lemma_ops_error_persists(before.key_ops, arr, i + 1);
                    }
                    return Err(e);
                },
            };
            if contains_op(&self.key_ops, &op) {
                proof {
                    lemma_ops_error_persists(before.key_ops, arr, i + 1);
                }
                return Err(CoseError::RepeatedArrayEntry);
            }
            let ghost prev = self.key_ops@;
            let ghost v = op@;
            self.key_ops.push(op);
            assert(ops_view(self.key_ops@) =~= ops_view(prev).push(v));
        }
        assert(arr.take(arr.len() as int) =~= arr);
        Ok(())
    }

    /// Applies one map entry to the key decoded so far.
    fn apply_entry(&mut self, label: Value, value: Value) -> (r: Result<(), CoseError>)
        ensures
            match decode_entry(old(self)@, label, value) {
                Ok(k) => r is Ok && final(self)@ == k,
                Err(e) => r == Err::<(), CoseError>(e),
            },
    {
        match fixed_field_of(&label) {
            Some(KeyParameter::Kty) => match KeyType::from_cbor_value(value) {
                Ok(t) => self.kty = t,
                Err(e) => return Err(e),
            },
            Some(KeyParameter::Kid) => match decode_bytes_field(value) {
                Ok(b) => self.key_id = b,
                Err(e) => return Err(e),
            },
            Some(KeyParameter::Alg) => match Algorithm::from_cbor_value(value) {
                Ok(a) => self.alg = Some(a),
                Err(e) => return Err(e),
            },
            Some(KeyParameter::KeyOps) => match value {
                Value::Array(ops) => {
                    if ops.len() == 0 {
                        return Err(CoseError::EmptyArray);
                    }
                    match self.add_key_ops(ops) {
                        Ok(()) => {},
                        Err(e) => return Err(e),
                    }
                },
                v => return Err(CoseError::UnexpectedType(v.shape(), Shape::Array)),
            },
            Some(KeyParameter::BaseIv) => match decode_bytes_field(value) {
                Ok(b) => self.base_iv = b,
                Err(e) => return Err(e),
            },
            _ => {
                let ghost v = value;
                match Label::from_cbor_value(label) {
                    Ok(l) => {
                        let ghost prev = self.params@;
                        let ghost lv = l@;
                        self.params.push((l, value));
                        assert(params_view(self.params@) =~= params_view(prev).push((lv, v)));
                    },
                    Err(e) => return Err(e),
                }
            },
        }
        Ok(())
    }

    /// Decodes a key object from a map value.
    ///
    /// The fixed labels 1 to 5 fill the key type, identifier, algorithm,
    /// operations and base IV; every other entry becomes a parameter, in wire
    /// order.  The first entry that does not decode ends decoding with its
    /// error; a map without a key type is refused.
    pub fn from_cbor_value(value: Value) -> (r: Result<CoseKey, CoseError>)
        ensures
            match r {
                Ok(k) => decode_key(value) == Ok::<CoseKeyView, CoseError>(k@),
                Err(e) => decode_key(value) == Err::<CoseKeyView, CoseError>(e),
            },
    {
        let m = match value {
            Value::Mapping(m) => m,
            v => return Err(CoseError::UnexpectedType(v.shape(), Shape::Mapping)),
        };
        let ghost entries = m@;
        let mut key = CoseKey::default();
        for entry in it: m.into_iter()
            invariant
                it.seq() == entries,
                value == Value::Mapping(m),
                entries == m@,
                decode_entries(entries.take(it.index())) == Ok::<CoseKeyView, CoseError>(key@),
        {
            let ghost i = it.index();
            assert(entries.take(i + 1).drop_last() =~= entries.take(i));
            assert(entries.take(i + 1).last() == entry);
            let (label, item) = entry;
            match key.apply_entry(label, item) {
                Ok(()) => {},
                Err(e) => {
                    proof {
                        lemma_entries_error_persists(entries, i + 1);
                    }
                    return Err(e);
                },
            }
        }
        assert(entries.take(entries.len() as int) =~= entries);
        let absent = match &key.kty {
            RegisteredLabel::Assigned(c) => c.to_i128() == 0,
            RegisteredLabel::Int(i) => *i == 0,
            RegisteredLabel::Text(_) => false,
        };
        if absent {
            return Err(CoseError::MissingKeyType);
        }
        Ok(key)
    }

    /// Encodes the key object as a map: the key type first, then the
    /// identifier, algorithm, operations and base IV where they are non-empty
    /// or present, then the parameters in their stored order.  This cannot
    /// fail; labels that repeat are left for the map's encoder to refuse.
    pub fn to_cbor_value(self) -> (r: Result<Value, CoseError>)
        ensures
            r matches Ok(Value::Mapping(m)) && is_encoding(self@, m@),
    {
        let ghost k = self@;
        let ghost fields = emitted_fields(k);
        let CoseKey { kty, key_id, alg, key_ops, base_iv, params } = self;
        let mut map: Vec<(Value, Value)> = Vec::new();
        let ghost mut emitted: Seq<KeyParameter> = Seq::empty();
        map.push((field_label_value(KeyParameter::Kty), kty.to_value()));
        proof {
            emitted = emitted.push(KeyParameter::Kty);
        }
        if key_id.len() > 0 {
            map.push((field_label_value(KeyParameter::Kid), Value::ByteString(key_id)));
            proof {
                emitted = emitted.push(KeyParameter::Kid);
            }
        }
        match alg {
            Some(a) => {
                map.push((field_label_value(KeyParameter::Alg), a.to_value()));
                proof {
                    emitted = emitted.push(KeyParameter::Alg);
                }
            },
            None => {},
        }
        if key_ops.len() > 0 {
            let arr = encode_ops(key_ops);
            map.push((field_label_value(KeyParameter::KeyOps), arr));
            proof {
                emitted = emitted.push(KeyParameter::KeyOps);
            }
        }
        if base_iv.len() > 0 {
            map.push((field_label_value(KeyParameter::BaseIv), Value::ByteString(base_iv)));
            proof {
                emitted = emitted.push(KeyParameter::BaseIv);
            }
        }
        assert(emitted =~= fields);
        let ghost n = fields.len() as int;
        let ghost head = map@;
        let ghost ps = params@;
        let ghost pv = params_view(ps);
        for entry in it: params.into_iter()
            invariant
                it.seq() == ps,
                pv == k.params,
                pv == params_view(ps),
                n == fields.len(),
                head.len() == n,
                map@.len() == n + it.index(),
                forall|i: int| 0 <= i < n ==> #[trigger] map@[i] == head[i],
                forall|i: int|
                    0 <= i < n ==> #[trigger] head[i].0 == field_label(fields[i]) && field_encoded(
                        k,
                        fields[i],
                        head[i].1,
                    ),
                forall|j: int|
                    0 <= j < it.index() ==> label_of(#[trigger] map@[n + j].0) == Some(pv[j].0)
                        && map@[n + j].1 == pv[j].1,
        {
            let (label, value) = entry;
            map.push((label.to_value(), value));
        }
        Ok(Value::Mapping(map))
    }
}

/// A collection of [`CoseKey`] objects.
#[derive(Clone, Debug, PartialEq, Eq)]
pub struct CoseKeySet(pub Vec<CoseKey>);

impl View for CoseKeySet {
    type V = Seq<CoseKeyView>;

    open spec fn view(&self) -> Seq<CoseKeyView> {
        self.0@.map_values(|k: CoseKey| k@)
    }
}

/// The array elements decoded in order as key objects; the first failure
/// ends decoding.
pub open spec fn decode_keys(a: Seq<Value>) -> Result<Seq<CoseKeyView>, CoseError>
    decreases a.len(),
{
    if a.len() == 0 {
        Ok(Seq::empty())
    } else {
        match decode_keys(a.drop_last()) {
            Err(e) => Err(e),
            Ok(ks) => match decode_key(a.last()) {
                Ok(k) => Ok(ks.push(k)),
                Err(e) => Err(e),
            },
        }
    }
}

/// The outcome of decoding a value into a key set: it must be an array of
/// key objects.
pub open spec fn decode_key_set(v: Value) -> Result<Seq<CoseKeyView>, CoseError> {
    match v {
        Value::Array(a) => decode_keys(a@),
        _ => Err(CoseError::UnexpectedType(shape_of(v), Shape::Array)),
    }
}

proof fn lemma_keys_error_persists(a: Seq<Value>, j: int)
    requires
        0 <= j <= a.len(),
        decode_keys(a.take(j)) is Err,
    ensures
        decode_keys(a) == decode_keys(a.take(j)),
    decreases a.len() - j,
{
    if j < a.len() {
        assert(a.take(j + 1).drop_last() =~= a.take(j));
        lemma_keys_error_persists(a, j + 1);
    } else {
        assert(a.take(j) =~= a);
    }
}

proof fn lemma_keys_prefix(ks: Seq<CoseKeyView>, a: Seq<Value>, j: int)
    requires
        0 <= j <= a.len(),
        a.len() == ks.len(),
        forall|i: int| 0 <= i < ks.len() ==> (#[trigger] ks[i]).is_valid(),
        forall|i: int|
            0 <= i < a.len() ==> (#[trigger] a[i] is Mapping) && is_encoding(ks[i], a[i]->Mapping_0@),
    ensures
        decode_keys(a.take(j)) == Ok::<Seq<CoseKeyView>, CoseError>(ks.take(j)),
    decreases j,
{
    if j == 0 {
        assert(ks.take(0) =~= Seq::<CoseKeyView>::empty());
    } else {
        lemma_keys_prefix(ks, a, j - 1);
        assert(a.take(j).drop_last() =~= a.take(j - 1));
        assert(a.take(j).last() == a[j - 1]);
        assert(ks[j - 1].is_valid());
        assert(a[j - 1] is Mapping);
        lemma_round_trip(ks[j - 1], a[j - 1]);
        assert(ks.take(j - 1).push(ks[j - 1]) =~= ks.take(j));
    }
}

/// Decoding the encodings of valid key objects, as an array, gives those key
/// objects back in order.
pub proof fn lemma_key_set_round_trip(ks: Seq<CoseKeyView>, v: Value)
    requires
        forall|i: int| 0 <= i < ks.len() ==> (#[trigger] ks[i]).is_valid(),
        v is Array,
        v->Array_0@.len() == ks.len(),
        forall|i: int|
            0 <= i < ks.len() ==> (#[trigger] v->Array_0@[i] is Mapping) && is_encoding(
                ks[i],
                v->Array_0@[i]->Mapping_0@,
            ),
    ensures
        decode_key_set(v) == Ok::<Seq<CoseKeyView>, CoseError>(ks),
{
    let a = v->Array_0@;
    lemma_keys_prefix(ks, a, a.len() as int);
    assert(a.take(a.len() as int) =~= a);
    assert(ks.take(ks.len() as int) =~= ks);
}

impl Default for CoseKeySet {
    /// The empty key set.
    fn default() -> (r: Self)
        ensures
            r@ == Seq::<CoseKeyView>::empty(),
    {
        let r = CoseKeySet(Vec::new());
        assert(r@ =~= Seq::<CoseKeyView>::empty());
        r
    }
}

impl CoseKeySet {
    /// Decodes an array of key objects, failing with the error of the first
    /// element that does not decode.
    pub fn from_cbor_value(value: Value) -> (r: Result<CoseKeySet, CoseError>)
        ensures
            match r {
                Ok(s) => decode_key_set(value) == Ok::<Seq<CoseKeyView>, CoseError>(s@),
                Err(e) => decode_key_set(value) == Err::<Seq<CoseKeyView>, CoseError>(e),
            },
    {
        let a = match value {
            Value::Array(a) => a,
            v => return Err(CoseError::UnexpectedType(v.shape(), Shape::Array)),
        };
        let ghost items = a@;
        let mut keys: Vec<CoseKey> = Vec::new();
        assert(keys@.map_values(|k: CoseKey| k@) =~= Seq::empty());
        assert(items.take(0) =~= Seq::empty());
        for v in it: a.into_iter()
            invariant
                it.seq() == items,
                value == Value::Array(a),
                items == a@,
                decode_keys(items.take(it.index())) == Ok::<Seq<CoseKeyView>, CoseError>(
                    keys@.map_values(|k: CoseKey| k@),
                ),
        {
            let ghost i = it.index();
            assert(items.take(i + 1).drop_last() =~= items.take(i));
            assert(items.take(i + 1).last() == v);
            match CoseKey::from_cbor_value(v) {
                Ok(k) => {
                    let ghost prev = keys@;
                    let ghost kv = k@;
                    keys.push(k);
                    assert(keys@.map_values(|k: CoseKey| k@) =~= prev.map_values(|k: CoseKey| k@).push(kv));
                },
                Err(e) => {
                    proof {
                        lemma_keys_error_persists(items, i + 1);
                    }
                    return Err(e);
                },
            }
        }
        assert(items.take(items.len() as int) =~= items);
        Ok(CoseKeySet(keys))
    }

    /// Encodes the key set as an array of key objects, in order; this cannot
    /// fail.
    pub fn to_cbor_value(self) -> (r: Result<Value, CoseError>)
        ensures
            r matches Ok(Value::Array(a)) && a@.len() == self@.len() && forall|i: int|
                0 <= i < a@.len() ==> (#[trigger] a@[i] is Mapping) && is_encoding(
                    self@[i],
                    a@[i]->Mapping_0@,
                ),
    {
        let ghost ks = self@;
        let ghost orig = self.0@;
        let mut arr: Vec<Value> = Vec::new();
        for k in it: self.0.into_iter()
            invariant
                it.seq() == orig,
                ks == orig.map_values(|k: CoseKey| k@),
                arr@.len() == it.index(),
                forall|i: int|
                    0 <= i < it.index() ==> (#[trigger] arr@[i] is Mapping) && is_encoding(
                        ks[i],
                        arr@[i]->Mapping_0@,
                    ),
        {
            match k.to_cbor_value() {
                Ok(v) => arr.push(v),
                Err(e) => return Err(e),
            }
        }
        Ok(Value::Array(arr))
    }
}

} // verus!
