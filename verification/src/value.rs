//! The host-side boundary values.
//!
//! A value handed across the foreign-call boundary is either a raw primitive
//! slot or a handle to a host-managed object.  This module mirrors that
//! tagged shape as plain data: object handles carry the host object's
//! observable contents, so that conversions can be verified against a
//! mathematical model of the host object graph.

use vstd::prelude::*;

verus! {

broadcast use vstd::std_specs::vec::group_vec_axioms, vstd::seq::group_seq_axioms;

/// A boundary value: a raw primitive slot, or a handle into the host's
/// object graph.
///
/// `Null` and the variants after it stand for object handles; the variants
/// before it are primitive slots that cannot be null.  A boolean slot is a
/// full byte, as the boundary ABI defines it: zero is false, anything else
/// is true.
#[derive(PartialEq, Eq, Debug)]
pub enum JavaValue {
    /// A primitive boolean slot (one byte; zero means false).
    Bool(u8),
    /// A primitive 16-bit integer slot.
    Short(i16),
    /// A primitive 32-bit integer slot.
    Int(i32),
    /// A primitive 64-bit integer slot.
    Long(i64),
    /// The null object handle.
    Null,
    /// A handle to a host string object.
    Str(String),
    /// A handle to a boxed boolean object.
    BoxedBool(bool),
    /// A handle to a boxed 32-bit integer object.
    BoxedInt(i32),
    /// A handle to a host byte array.
    Bytes(Vec<u8>),
    /// A handle to a host growable list object; element order is observable.
    List(Vec<JavaValue>),
    /// A handle to a host internet-address object, holding its octets.
    Inet(Vec<u8>),
    /// A handle to a host socket-address object: address octets and port.
    Socket(Vec<u8>, u16),
    /// A handle to an instance of a named host class, as built by calling
    /// that class's constructor with the given arguments in order.
    Instance(String, Vec<JavaValue>),
}

/// The mathematical model of a [`JavaValue`]: the same tree with sequences
/// in place of vectors and strings.  Contracts speak of this type.
pub enum JavaValueModel {
    /// Model of a primitive boolean slot.
    Bool(u8),
    /// Model of a primitive 16-bit integer slot.
    Short(i16),
    /// Model of a primitive 32-bit integer slot.
    Int(i32),
    /// Model of a primitive 64-bit integer slot.
    Long(i64),
    /// Model of the null handle.
    Null,
    /// Model of a string object.
    Str(Seq<char>),
    /// Model of a boxed boolean object.
    BoxedBool(bool),
    /// Model of a boxed 32-bit integer object.
    BoxedInt(i32),
    /// Model of a byte array.
    Bytes(Seq<u8>),
    /// Model of a list object.
    List(Seq<JavaValueModel>),
    /// Model of an internet-address object.
    Inet(Seq<u8>),
    /// Model of a socket-address object.
    Socket(Seq<u8>, u16),
    /// Model of a class instance.
    Instance(Seq<char>, Seq<JavaValueModel>),
}

impl JavaValue {
    /// The mathematical model of this boundary value.
    pub open spec fn model(self) -> JavaValueModel
        decreases self,
    {
        match self {
            JavaValue::Bool(b) => JavaValueModel::Bool(b),
            JavaValue::Short(n) => JavaValueModel::Short(n),
            JavaValue::Int(n) => JavaValueModel::Int(n),
            JavaValue::Long(n) => JavaValueModel::Long(n),
            JavaValue::Null => JavaValueModel::Null,
            JavaValue::Str(s) => JavaValueModel::Str(s@),
            JavaValue::BoxedBool(b) => JavaValueModel::BoxedBool(b),
            JavaValue::BoxedInt(n) => JavaValueModel::BoxedInt(n),
            JavaValue::Bytes(v) => JavaValueModel::Bytes(v@),
            JavaValue::List(v) => JavaValueModel::List(model_seq(v@)),
            JavaValue::Inet(v) => JavaValueModel::Inet(v@),
            JavaValue::Socket(v, p) => JavaValueModel::Socket(v@, p),
            JavaValue::Instance(c, a) => JavaValueModel::Instance(c@, model_seq(a@)),
        }
    }
}

/// The models of a sequence of boundary values, element by element.
pub open spec fn model_seq(v: Seq<JavaValue>) -> Seq<JavaValueModel>
    decreases v,
{
    if v.len() == 0 {
        Seq::empty()
    } else {
        seq![v[0].model()] + model_seq(v.drop_first())
    }
}

/// `model_seq` is the element-wise model map: it keeps the length and
/// models each element in place.
pub proof fn lemma_model_seq(v: Seq<JavaValue>)
    ensures
        model_seq(v).len() == v.len(),
        forall|i: int| 0 <= i < v.len() ==> model_seq(v)[i] == v[i].model(),
    decreases v.len(),
{
    if v.len() > 0 {
        lemma_model_seq(v.drop_first());
    }
}

/// True of the models that stand for object handles (everything that can sit
/// where the host expects an object, including the null handle); false of
/// raw primitive slots.
pub open spec fn is_object_model(m: JavaValueModel) -> bool {
    match m {
        JavaValueModel::Bool(_) => false,
        JavaValueModel::Short(_) => false,
        JavaValueModel::Int(_) => false,
        JavaValueModel::Long(_) => false,
        _ => true,
    }
}

} // verus!
