//! Laws of key object decoding: what every map that breaks a field rule
//! decodes to.

use crate::cbor::{Value, bytes_of, deep};
use crate::error::CoseError;
use crate::iana::KeyParameter;
use crate::key::{
    CoseKeyView, emitted_fields, field_encoded, is_encoding, is_fixed_label, label_in_range, add_ops, decode_entries, decode_entry, decode_key, fixed_field,
    lemma_entries_error_persists, lemma_ops_error_persists, reserved_kty,
};
use crate::label::{LabelView, label_from_value, label_of};
use vstd::prelude::*;

verus! {

/// The key type label.
pub open spec fn kty_label() -> Value {
    Value::Unsigned(1)
}

proof fn lemma_no_kty_prefix(m: Seq<(Value, Value)>, j: int)
    requires
        0 <= j <= m.len(),
        forall|i: int| 0 <= i < m.len() ==> (#[trigger] m[i]).0 != kty_label(),
    ensures
        decode_entries(m.take(j)) matches Ok(k) ==> k.kty == reserved_kty(),
    decreases j,
{
    if j > 0 {
        lemma_no_kty_prefix(m, j - 1);
        assert(m.take(j).drop_last() =~= m.take(j - 1));
        assert(m.take(j).last() == m[j - 1]);
        assert(fixed_field(m[j - 1].0) != Some(KeyParameter::Kty));
    }
}

/// A map without the key type label never decodes; when its entries decode,
/// the error is the missing key type.
pub proof fn lemma_missing_kty(v: Value)
    requires
        v is Mapping,
        forall|i: int| 0 <= i < v->Mapping_0@.len() ==> (#[trigger] v->Mapping_0@[i]).0 != kty_label(),
    ensures
        decode_key(v) is Err,
        decode_entries(v->Mapping_0@) is Ok ==> decode_key(v) == Err::<CoseKeyView, CoseError>(
            CoseError::MissingKeyType,
        ),
{
    let m = v->Mapping_0@;
    lemma_no_kty_prefix(m, m.len() as int);
    assert(m.take(m.len() as int) =~= m);
}

/// If the entry at `i` fails to decode on every key decoded before it, the
/// whole map fails to decode.
proof fn lemma_entry_fails(v: Value, i: int)
    requires
        v is Mapping,
        0 <= i < v->Mapping_0@.len(),
        forall|k: CoseKeyView|
            #[trigger] decode_entry(k, v->Mapping_0@[i].0, v->Mapping_0@[i].1) is Err,
    ensures
        decode_key(v) is Err,
{
    let m = v->Mapping_0@;
    assert(m.take(i + 1).drop_last() =~= m.take(i));
    assert(m.take(i + 1).last() == m[i]);
    if decode_entries(m.take(i)) is Err {
        lemma_entries_error_persists(m, i);
    } else {
        let k = decode_entries(m.take(i))->Ok_0;
        assert(decode_entry(k, m[i].0, m[i].1) is Err);
        lemma_entries_error_persists(m, i + 1);
    }
}

/// A map whose key identifier (label 2) or base IV (label 5) is an empty
/// byte string never decodes.
pub proof fn lemma_empty_bytes_rejected(v: Value, i: int)
    requires
        v is Mapping,
        0 <= i < v->Mapping_0@.len(),
        v->Mapping_0@[i].0 == Value::Unsigned(2) || v->Mapping_0@[i].0 == Value::Unsigned(5),
        bytes_of(v->Mapping_0@[i].1) == Some(Seq::<u8>::empty()),
    ensures
        decode_key(v) is Err,
{
    let e = v->Mapping_0@[i];
    assert(fixed_field(e.0) == Some(KeyParameter::Kid) || fixed_field(e.0) == Some(
        KeyParameter::BaseIv,
    ));
    lemma_entry_fails(v, i);
}

/// A map with an empty key operations array (label 4) never decodes; when
/// the entries before it decode, the error is the empty array.
pub proof fn lemma_empty_key_ops_rejected(v: Value, i: int)
    requires
        v is Mapping,
        0 <= i < v->Mapping_0@.len(),
        v->Mapping_0@[i].0 == Value::Unsigned(4),
        v->Mapping_0@[i].1 is Array,
        v->Mapping_0@[i].1->Array_0@.len() == 0,
    ensures
        decode_key(v) is Err,
        decode_entries(v->Mapping_0@.take(i)) is Ok ==> decode_key(v) == Err::<CoseKeyView, CoseError>(
            CoseError::EmptyArray,
        ),
{
    let m = v->Mapping_0@;
    let e = m[i];
    assert(fixed_field(e.0) == Some(KeyParameter::KeyOps));
    assert(m.take(i + 1).drop_last() =~= m.take(i));
    assert(m.take(i + 1).last() == m[i]);
    if decode_entries(m.take(i)) is Err {
        lemma_entries_error_persists(m, i);
    } else {
        let k = decode_entries(m.take(i))->Ok_0;
        assert(decode_entry(k, e.0, e.1) == Err::<CoseKeyView, CoseError>(CoseError::EmptyArray));
        lemma_entries_error_persists(m, i + 1);
    }
}

proof fn lemma_ops_prefix_known(known: Seq<LabelView>, a: Seq<Value>, j: int)
    requires
        0 <= j <= a.len(),
        add_ops(known, a.take(j)) is Ok,
    ensures
        forall|t: int|
            0 <= t < j ==> #[trigger] label_from_value(a[t]) is Ok && add_ops(
                known,
                a.take(j),
            )->Ok_0.contains(label_from_value(a[t])->Ok_0),
    decreases j,
{
    if j > 0 {
        assert(a.take(j).drop_last() =~= a.take(j - 1));
        assert(a.take(j).last() == a[j - 1]);
        lemma_ops_prefix_known(known, a, j - 1);
        let s = add_ops(known, a.take(j - 1))->Ok_0;
        let l = label_from_value(a[j - 1])->Ok_0;
        assert forall|t: int| 0 <= t < j implies #[trigger] label_from_value(a[t]) is Ok && s.push(
            l,
        ).contains(label_from_value(a[t])->Ok_0) by {
            if t < j - 1 {
                let w = label_from_value(a[t])->Ok_0;
                let x = choose|x: int| 0 <= x < s.len() && s[x] == w;
                assert(s.push(l)[x] == w);
            } else {
                assert(s.push(l)[s.len() as int] == l);
            }
        }
    }
}

proof fn lemma_ops_errors_repeated(known: Seq<LabelView>, a: Seq<Value>)
    requires
        forall|t: int| 0 <= t < a.len() ==> #[trigger] label_from_value(a[t]) is Ok,
    ensures
        add_ops(known, a) is Err ==> add_ops(known, a) == Err::<Seq<LabelView>, CoseError>(
            CoseError::RepeatedArrayEntry,
        ),
    decreases a.len(),
{
    if a.len() > 0 {
        lemma_ops_errors_repeated(known, a.drop_last());
        assert(label_from_value(a[a.len() - 1]) is Ok);
    }
}

/// A map whose key operations entry (label 4) holds the same operation twice
/// never decodes; when everything before that entry decodes and every
/// operation in it decodes, the error is the repeated entry.
pub proof fn lemma_repeated_key_op_rejected(v: Value, i: int, p: int, q: int)
    requires
        v is Mapping,
        0 <= i < v->Mapping_0@.len(),
        v->Mapping_0@[i].0 == Value::Unsigned(4),
        v->Mapping_0@[i].1 is Array,
        0 <= p < q < v->Mapping_0@[i].1->Array_0@.len(),
        label_of(v->Mapping_0@[i].1->Array_0@[p]) is Some,
        label_of(v->Mapping_0@[i].1->Array_0@[p]) == label_of(v->Mapping_0@[i].1->Array_0@[q]),
    ensures
        decode_key(v) is Err,
        decode_entries(v->Mapping_0@.take(i)) is Ok && (forall|t: int|
            0 <= t < v->Mapping_0@[i].1->Array_0@.len() ==> #[trigger] label_from_value(
                v->Mapping_0@[i].1->Array_0@[t],
            ) is Ok) ==> decode_key(v) == Err::<CoseKeyView, CoseError>(
            CoseError::RepeatedArrayEntry,
        ),
{
    let m = v->Mapping_0@;
    let e = m[i];
    let a = e.1->Array_0@;
    assert(fixed_field(e.0) == Some(KeyParameter::KeyOps));
    assert(label_from_value(a[p]) == label_from_value(a[q]));
    assert(m.take(i + 1).drop_last() =~= m.take(i));
    assert(m.take(i + 1).last() == m[i]);
    if decode_entries(m.take(i)) is Err {
        lemma_entries_error_persists(m, i);
    } else {
        let k = decode_entries(m.take(i))->Ok_0;
        assert(a.take(q + 1).drop_last() =~= a.take(q));
        assert(a.take(q + 1).last() == a[q]);
        if add_ops(k.key_ops, a.take(q)) is Ok {
            lemma_ops_prefix_known(k.key_ops, a, q);
        }
        assert(add_ops(k.key_ops, a.take(q + 1)) is Err);
        lemma_ops_error_persists(k.key_ops, a, q + 1);
        if forall|t: int| 0 <= t < a.len() ==> #[trigger] label_from_value(a[t]) is Ok {
            lemma_ops_errors_repeated(k.key_ops, a);
        }
        assert(decode_entry(k, e.0, e.1) == Err::<CoseKeyView, CoseError>(
            add_ops(k.key_ops, a)->Err_0,
        ));
        lemma_entries_error_persists(m, i + 1);
    }
}

proof fn lemma_add_ops_valid(known: Seq<LabelView>, a: Seq<Value>)
    requires
        known.no_duplicates(),
        forall|i: int| 0 <= i < known.len() ==> label_in_range(#[trigger] known[i]),
    ensures
        add_ops(known, a) matches Ok(s) ==> s.no_duplicates() && forall|i: int|
            0 <= i < s.len() ==> label_in_range(#[trigger] s[i]),
    decreases a.len(),
{
    if a.len() > 0 {
        lemma_add_ops_valid(known, a.drop_last());
    }
}

proof fn lemma_decoded_prefix_valid(m: Seq<(Value, Value)>, j: int)
    requires
        0 <= j <= m.len(),
    ensures
        decode_entries(m.take(j)) matches Ok(k) ==> {
            &&& label_in_range(k.kty)
            &&& (k.alg matches Some(a) ==> label_in_range(a))
            &&& k.key_ops.no_duplicates()
            &&& forall|i: int| 0 <= i < k.key_ops.len() ==> label_in_range(#[trigger] k.key_ops[i])
            &&& forall|i: int|
                0 <= i < k.params.len() ==> label_in_range(#[trigger] k.params[i].0)
                    && !is_fixed_label(k.params[i].0)
        },
    decreases j,
{
    if j > 0 {
        lemma_decoded_prefix_valid(m, j - 1);
        assert(m.take(j).drop_last() =~= m.take(j - 1));
        if decode_entries(m.take(j - 1)) is Ok {
            let k = decode_entries(m.take(j - 1))->Ok_0;
            let e = m.take(j).last();
            if e.1 is Array {
                lemma_add_ops_valid(k.key_ops, e.1->Array_0@);
            }
        }
    } else {
        assert(m.take(0) =~= Seq::<(Value, Value)>::empty());
    }
}

/// Every key object that decoding produces is valid, so it is one that
/// decodes back from its own encoding.
pub proof fn lemma_decoded_is_valid(v: Value)
    ensures
        decode_key(v) matches Ok(k) ==> k.is_valid(),
{
    if v is Mapping {
        let m = v->Mapping_0@;
        lemma_decoded_prefix_valid(m, m.len() as int);
        assert(m.take(m.len() as int) =~= m);
    }
}

proof fn lemma_same_label_same_value(a: Value, b: Value)
    requires
        label_of(a) is Some,
        label_of(a) == label_of(b),
    ensures
        deep(a) == deep(b),
{
    match (a, b) {
        (Value::TextString(s), Value::TextString(t)) => {},
        _ => {},
    }
}

proof fn lemma_same_field_same_value(k: CoseKeyView, f: KeyParameter, a: Value, b: Value)
    requires
        field_encoded(k, f, a),
        field_encoded(k, f, b),
    ensures
        deep(a) == deep(b),
{
    match f {
        KeyParameter::Kty => lemma_same_label_same_value(a, b),
        KeyParameter::Alg => lemma_same_label_same_value(a, b),
        KeyParameter::KeyOps => {
            let x = a->Array_0@;
            let y = b->Array_0@;
            assert forall|i: int| 0 <= i < x.len() implies deep(x[i]) == deep(y[i]) by {
                lemma_same_label_same_value(x[i], y[i]);
            }
            assert(deep(a)->Array_0 =~= deep(b)->Array_0);
        },
        _ => {},
    }
}

/// Encoding does not depend on how the parameters are ordered beyond their
/// own order: two keys that differ only by a reordering of their parameters
/// encode to maps of the same length that start with the key type, hold the
/// same fixed fields, and then hold the parameter entries reordered the
/// same way.
pub proof fn lemma_encoding_fixed_order(
    k1: CoseKeyView,
    k2: CoseKeyView,
    perm: Seq<int>,
    m1: Seq<(Value, Value)>,
    m2: Seq<(Value, Value)>,
)
    requires
        k2 == (CoseKeyView { params: k2.params, ..k1 }),
        k1.params.len() == k2.params.len(),
        perm.len() == k2.params.len(),
        forall|j: int|
            0 <= j < perm.len() ==> 0 <= #[trigger] perm[j] < k1.params.len() && k2.params[j]
                == k1.params[perm[j]],
        is_encoding(k1, m1),
        is_encoding(k2, m2),
    ensures
        m1.len() == m2.len(),
        m1[0].0 == kty_label(),
        m2[0].0 == kty_label(),
        forall|i: int|
            0 <= i < emitted_fields(k1).len() ==> (#[trigger] m1[i]).0 == m2[i].0 && deep(m1[i].1)
                == deep(m2[i].1),
        forall|j: int|
            0 <= j < perm.len() ==> label_of(#[trigger] m2[emitted_fields(k1).len() + j].0) == label_of(
                m1[emitted_fields(k1).len() + perm[j]].0,
            ) && m2[emitted_fields(k1).len() + j].1 == m1[emitted_fields(k1).len() + perm[j]].1,
{
    let fields = emitted_fields(k1);
    let n = fields.len() as int;
    assert(emitted_fields(k2) == fields);
    assert(fields[0] == KeyParameter::Kty);
    assert forall|i: int| 0 <= i < n implies (#[trigger] m1[i]).0 == m2[i].0 && deep(m1[i].1) == deep(
        m2[i].1,
    ) by {
        let e1 = m1[i].0;
        let e2 = m2[i].0;
        assert(e1 == crate::key::field_label(fields[i]) && field_encoded(k1, fields[i], m1[i].1));
        assert(e2 == crate::key::field_label(fields[i]) && field_encoded(k2, fields[i], m2[i].1));
        assert(field_encoded(k1, fields[i], m2[i].1) == field_encoded(k2, fields[i], m2[i].1));
        lemma_same_field_same_value(k1, fields[i], m1[i].1, m2[i].1);
    }
    assert forall|j: int| 0 <= j < perm.len() implies label_of(#[trigger] m2[n + j].0) == label_of(
        m1[n + perm[j]].0,
    ) && m2[n + j].1 == m1[n + perm[j]].1 by {
        let p = perm[j];
        assert(label_of(m2[n + j].0) == Some(k2.params[j].0));
        assert(label_of(m1[n + p].0) == Some(k1.params[p].0));
    }
}

} // verus!
