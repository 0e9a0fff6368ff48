//! Guarded construction of key objects.

use crate::cbor::{SimpleValue, Value, bytes_of, int_of};
use crate::iana;
use crate::iana::{EnumI128, KeyParameter};
use crate::key::{CoseKey, CoseKeyView, empty_key, ops_view, params_view};
use crate::label::{KeyOperation, Label, LabelView, RegisteredLabel};
use vstd::prelude::*;

verus! {

/// Builder for [`CoseKey`] objects.
#[derive(Debug)]
pub struct CoseKeyBuilder(CoseKey);

impl View for CoseKeyBuilder {
    type V = CoseKeyView;

    closed spec fn view(&self) -> CoseKeyView {
        self.0@
    }
}

/// The wire label of a registry constant.
pub open spec fn const_label<R: EnumI128>(c: R) -> LabelView {
    LabelView::Int(c.spec_value())
}

/// The integer label of a registry constant.
fn int_label<R: EnumI128>(c: R) -> (r: Label)
    ensures
        r@ == const_label(c),
{
    proof {
        R::lemma_value_range(c);
    }
    Label::Int(c.to_i128() as i64)
}

/// The integer value of a registry constant.
fn int_value<R: EnumI128>(c: R) -> (r: Value)
    ensures
        int_of(r) == Some(c.spec_value()),
{
    proof {
        R::lemma_value_range(c);
    }
    Value::from_i64(c.to_i128() as i64)
}

/// Whether `params` are the public parameters of an elliptic curve key:
/// the curve, the `x` coordinate, then a third value under the `y` label.
pub open spec fn ec2_public_params(
    params: Seq<(LabelView, Value)>,
    curve: iana::EllipticCurve,
    x: Seq<u8>,
) -> bool {
    &&& params.len() >= 3
    &&& params[0].0 == const_label(iana::Ec2KeyParameter::Crv)
    &&& int_of(params[0].1) == Some(curve.spec_value())
    &&& params[1].0 == const_label(iana::Ec2KeyParameter::X)
    &&& bytes_of(params[1].1) == Some(x)
    &&& params[2].0 == const_label(iana::Ec2KeyParameter::Y)
}

/// Whether a key object has the given type and parameters and every other
/// field empty.
pub open spec fn typed_key(k: CoseKeyView, kty: iana::KeyType, n: nat) -> bool {
    &&& k.kty == const_label(kty)
    &&& k.key_id.len() == 0
    &&& k.alg is None
    &&& k.key_ops.len() == 0
    &&& k.base_iv.len() == 0
    &&& k.params.len() == n
}

impl Default for CoseKeyBuilder {
    /// The same builder as [`CoseKeyBuilder::new`].
    fn default() -> (r: Self)
        ensures
            r@ == empty_key(),
    {
        CoseKeyBuilder(CoseKey::default())
    }
}

impl CoseKeyBuilder {
    /// A builder for the key object with the reserved key type and every other
    /// field empty.
    pub fn new() -> (r: Self)
        ensures
            r@ == empty_key(),
    {
        CoseKeyBuilder(CoseKey::default())
    }

    /// The key object built.
    pub fn build(self) -> (r: CoseKey)
        ensures
            r@ == self@,
    {
        self.0
    }

    /// Sets the key identifier; an empty one is left out when encoding.
    pub fn key_id(self, key_id: Vec<u8>) -> (r: Self)
        ensures
            r@ == (CoseKeyView { key_id: key_id@, ..self@ }),
            self@.is_valid() ==> r@.is_valid(),
    {
        let mut b = self;
        b.0.key_id = key_id;
        b
    }

    /// Sets the base IV; an empty one is left out when encoding.
    pub fn base_iv(self, base_iv: Vec<u8>) -> (r: Self)
        ensures
            r@ == (CoseKeyView { base_iv: base_iv@, ..self@ }),
            self@.is_valid() ==> r@.is_valid(),
    {
        let mut b = self;
        b.0.base_iv = base_iv;
        b
    }

    /// A key of the given type with the given parameters.
    fn typed(kty: iana::KeyType, params: Vec<(Label, Value)>) -> (r: Self)
        ensures
            typed_key(r@, kty, params@.len()),
            r@.params == params_view(params@),
    {
        let r = CoseKeyBuilder(
            CoseKey {
                kty: RegisteredLabel::Assigned(kty),
                key_id: Vec::new(),
                alg: None,
                key_ops: Vec::new(),
                base_iv: Vec::new(),
                params,
            },
        );
        assert(ops_view(r.0.key_ops@) =~= Seq::empty());
        r
    }

    /// Constructor for an elliptic curve public key specified by `x` and `y` coordinates.
    pub fn new_ec2_pub_key(curve: iana::EllipticCurve, x: Vec<u8>, y: Vec<u8>) -> (r: Self)
        ensures
            typed_key(r@, iana::KeyType::EC2, 3),
            ec2_public_params(r@.params, curve, x@),
            bytes_of(r@.params[2].1) == Some(y@),
            r@.is_valid(),
    {
        let mut params: Vec<(Label, Value)> = Vec::new();
        params.push((int_label(iana::Ec2KeyParameter::Crv), int_value(curve)));
        params.push((int_label(iana::Ec2KeyParameter::X), Value::ByteString(x)));
        params.push((int_label(iana::Ec2KeyParameter::Y), Value::ByteString(y)));
        Self::typed(iana::KeyType::EC2, params)
    }

    /// Constructor for an elliptic curve public key specified by `x` coordinate plus sign of `y`
    /// coordinate.
    pub fn new_ec2_pub_key_y_sign(curve: iana::EllipticCurve, x: Vec<u8>, y_sign: bool) -> (r:
        Self)
        ensures
            typed_key(r@, iana::KeyType::EC2, 3),
            ec2_public_params(r@.params, curve, x@),
            r@.params[2].1 == Value::Simple(
                if y_sign {
                    SimpleValue::TrueValue
                } else {
                    SimpleValue::FalseValue
                },
            ),
            r@.is_valid(),
    {
        let sign = if y_sign {
            SimpleValue::TrueValue
        } else {
            SimpleValue::FalseValue
        };
        let mut params: Vec<(Label, Value)> = Vec::new();
        params.push((int_label(iana::Ec2KeyParameter::Crv), int_value(curve)));
        params.push((int_label(iana::Ec2KeyParameter::X), Value::ByteString(x)));
        params.push((int_label(iana::Ec2KeyParameter::Y), Value::Simple(sign)));
        Self::typed(iana::KeyType::EC2, params)
    }

    /// Constructor for an elliptic curve private key specified by `d`, together with public `x` and
    /// `y` coordinates.
    pub fn new_ec2_priv_key(curve: iana::EllipticCurve, x: Vec<u8>, y: Vec<u8>, d: Vec<u8>) -> (r:
        Self)
        ensures
            typed_key(r@, iana::KeyType::EC2, 4),
            ec2_public_params(r@.params, curve, x@),
            bytes_of(r@.params[2].1) == Some(y@),
            r@.params[3].0 == const_label(iana::Ec2KeyParameter::D),
            bytes_of(r@.params[3].1) == Some(d@),
            r@.is_valid(),
    {
        let mut params: Vec<(Label, Value)> = Vec::new();
        params.push((int_label(iana::Ec2KeyParameter::Crv), int_value(curve)));
        params.push((int_label(iana::Ec2KeyParameter::X), Value::ByteString(x)));
        params.push((int_label(iana::Ec2KeyParameter::Y), Value::ByteString(y)));
        params.push((int_label(iana::Ec2KeyParameter::D), Value::ByteString(d)));
        Self::typed(iana::KeyType::EC2, params)
    }

    /// Constructor for a symmetric key specified by `k`.
    pub fn new_symmetric_key(k: Vec<u8>) -> (r: Self)
        ensures
            typed_key(r@, iana::KeyType::Symmetric, 1),
            r@.params[0].0 == const_label(iana::SymmetricKeyParameter::K),
            bytes_of(r@.params[0].1) == Some(k@),
            r@.is_valid(),
    {
        let mut params: Vec<(Label, Value)> = Vec::new();
        params.push((int_label(iana::SymmetricKeyParameter::K), Value::ByteString(k)));
        Self::typed(iana::KeyType::Symmetric, params)
    }

    /// Set the algorithm.
    pub fn algorithm(self, alg: iana::Algorithm) -> (r: Self)
        ensures
            r@ == (CoseKeyView { alg: Some(const_label(alg)), ..self@ }),
            self@.is_valid() ==> r@.is_valid(),
    {
        proof {
            iana::Algorithm::lemma_value_range(alg);
        }
        let mut b = self;
        b.0.alg = Some(RegisteredLabel::Assigned(alg));
        b
    }

    /// Add a key operation; one that is already present is not added again.
    pub fn add_key_op(self, op: iana::KeyOperation) -> (r: Self)
        ensures
            r@ == (CoseKeyView {
                key_ops: if self@.key_ops.contains(const_label(op)) {
                    self@.key_ops
                } else {
                    self@.key_ops.push(const_label(op))
                },
                ..self@
            }),
            self@.is_valid() ==> r@.is_valid(),
    {
        proof {
            iana::KeyOperation::lemma_value_range(op);
        }
        let mut b = self;
        let new_op: KeyOperation = RegisteredLabel::Assigned(op);
        if !crate::key::contains_op(&b.0.key_ops, &new_op) {
            let ghost prev = b.0.key_ops@;
            b.0.key_ops.push(new_op);
            assert(ops_view(b.0.key_ops@) =~= ops_view(prev).push(new_op@));
        }
        b
    }

    /// Set a parameter value.
    ///
    /// The label must not be one of the common key parameters
    /// ([`iana::KeyParameter`]): those fields are set through their own setters.
    pub fn param(self, label: i64, value: Value) -> (r: Self)
        requires
            KeyParameter::spec_lookup(label as int) is None,
        ensures
            r@ == (CoseKeyView { params: self@.params.push((LabelView::Int(label as int), value)), ..self@ }),
            self@.is_valid() ==> r@.is_valid(),
    {
        let mut b = self;
        let ghost prev = b.0.params@;
        let ghost v = value;
        b.0.params.push((Label::Int(label), value));
        assert(params_view(b.0.params@) =~= params_view(prev).push((LabelView::Int(label as int), v)));
        b
    }
}

} // verus!
