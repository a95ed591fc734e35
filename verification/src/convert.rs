//! The conversion trait framework.
//!
//! Each native type that crosses the boundary has a conversion descriptor:
//! the boundary type-signature string for its host representation, a
//! conversion from the native value to a host value, and a conversion
//! back.  The descriptors for composite shapes (nullable wrappers, ordered
//! lists) are defined once, generically, in terms of the element's
//! descriptor; primitives and runtime-specific leaf types have explicit
//! descriptors.
//!
//! Conversions are stated against the mathematical model of the host
//! values ([`JavaValueModel`]) and the deep views of the native values, and
//! the round-trip law is a proof obligation every convertible type must
//! discharge.

use vstd::prelude::*;
use vstd::slice::slice_to_vec;

use crate::value::JavaValue;
use crate::value::JavaValueModel;
use crate::value::is_object_model;
use crate::value::model_seq;
use crate::value::lemma_model_seq;

verus! {

broadcast use vstd::std_specs::vec::group_vec_axioms, vstd::seq::group_seq_axioms;

/// Why a host value could not be converted to the expected native type.
///
/// A mismatch between a host value's runtime tag and the statically
/// expected shape is a boundary protocol violation: the caller translates
/// it into an abnormal termination rather than defaulting it silently.
#[derive(PartialEq, Eq, Debug, Clone, Copy)]
pub enum ConvertError {
    /// The host value's runtime shape is not the one the native type
    /// expects.
    TypeMismatch,
}

/// Conversion of a native value into its host representation.
///
/// Implementations fix the boundary type signature of the host
/// representation and say, at the model level, exactly which host value
/// each native value becomes.
pub trait IntoJava: Sized + DeepView {
    /// The boundary type signature of this type's host representation.
    /// It is a pure function of the native type.
    spec fn jni_signature_spec() -> Seq<char>;

    /// The host value, at the model level, that `m` converts to.
    spec fn to_java_model(m: Self::V) -> JavaValueModel;

    /// The boundary type signature of this type's host representation.
    fn jni_signature() -> (r: &'static str)
        ensures
            r@ == Self::jni_signature_spec(),
    ;

    /// Converts this native value into its host representation.
    fn into_java(self) -> (r: JavaValue)
        ensures
            r.model() == Self::to_java_model(self.deep_view()),
    ;
}

/// Conversion of a host value into its native equivalent.
///
/// Implementations say, at the model level, which host values convert to
/// which native values; every other host value is rejected as a shape
/// mismatch.
pub trait FromJava: Sized + DeepView {
    /// The native value (as a deep view) that the host value `m` converts
    /// to, or `None` when `m` does not have the shape this type expects.
    spec fn from_java_model(m: JavaValueModel) -> Option<Self::V>;

    /// Converts a host value to this native type, rejecting host values
    /// of the wrong runtime shape.
    fn from_java(v: &JavaValue) -> (r: Result<Self, ConvertError>)
        ensures
            match Self::from_java_model(v.model()) {
                Some(m) => r matches Ok(x) && x.deep_view() == m,
                None => r == Err::<Self, ConvertError>(ConvertError::TypeMismatch),
            },
    ;
}

/// The types whose host representation is a non-null object handle.
///
/// Only such types can sit inside a nullable wrapper or a host list: a
/// primitive slot has no null, and a type that may itself convert to the
/// null handle would make the wrapper's absent case ambiguous.
pub trait JavaObjectKind: IntoJava + FromJava {
    /// The host representation of every value of this type is an object
    /// handle other than null.
    proof fn to_java_is_nonnull_object(m: Self::V)
        ensures
            is_object_model(Self::to_java_model(m)),
            Self::to_java_model(m) != JavaValueModel::Null,
    ;
}

/// The round-trip law: converting a native value to its host
/// representation and back yields the value again.
pub trait JavaRoundTrip: IntoJava + FromJava {
    /// The deep views that values of this type can actually take.  For
    /// most types every view qualifies; a fixed-width type (an address of
    /// four octets) restricts it.
    spec fn valid_model(m: Self::V) -> bool;

    /// Converting to host and back returns the value: every convertible
    /// type must prove its two conversions inverse on the views its
    /// values can take.
    proof fn round_trip(m: Self::V)
        requires
            Self::valid_model(m),
        ensures
            Self::from_java_model(Self::to_java_model(m)) == Some(m),
    ;
}

impl IntoJava for bool {
    open spec fn jni_signature_spec() -> Seq<char> {
        "Z"@
    }

    open spec fn to_java_model(m: bool) -> JavaValueModel {
        JavaValueModel::Bool(if m {
            1u8
        } else {
            0u8
        })
    }

    fn jni_signature() -> &'static str {
        "Z"
    }

    fn into_java(self) -> JavaValue {
        JavaValue::Bool(
            if self {
                1
            } else {
                0
            },
        )
    }
}

impl FromJava for bool {
    open spec fn from_java_model(m: JavaValueModel) -> Option<bool> {
        match m {
            JavaValueModel::Bool(b) => Some(b != 0),
            _ => None,
        }
    }

    fn from_java(v: &JavaValue) -> Result<Self, ConvertError> {
        match v {
            JavaValue::Bool(b) => Ok(*b != 0),
            _ => Err(ConvertError::TypeMismatch),
        }
    }
}

impl JavaRoundTrip for bool {
    open spec fn valid_model(m: bool) -> bool {
        true
    }

    proof fn round_trip(m: bool) {
    }
}

impl IntoJava for i16 {
    open spec fn jni_signature_spec() -> Seq<char> {
        "S"@
    }

    open spec fn to_java_model(m: i16) -> JavaValueModel {
        JavaValueModel::Short(m)
    }

    fn jni_signature() -> &'static str {
        "S"
    }

    fn into_java(self) -> JavaValue {
        JavaValue::Short(self)
    }
}

impl FromJava for i16 {
    open spec fn from_java_model(m: JavaValueModel) -> Option<i16> {
        match m {
            JavaValueModel::Short(n) => Some(n),
            _ => None,
        }
    }

    fn from_java(v: &JavaValue) -> Result<Self, ConvertError> {
        match v {
            JavaValue::Short(n) => Ok(*n),
            _ => Err(ConvertError::TypeMismatch),
        }
    }
}

impl JavaRoundTrip for i16 {
    open spec fn valid_model(m: i16) -> bool {
        true
    }

    proof fn round_trip(m: i16) {
    }
}

impl IntoJava for i32 {
    open spec fn jni_signature_spec() -> Seq<char> {
        "I"@
    }

    open spec fn to_java_model(m: i32) -> JavaValueModel {
        JavaValueModel::Int(m)
    }

    fn jni_signature() -> &'static str {
        "I"
    }

    fn into_java(self) -> JavaValue {
        JavaValue::Int(self)
    }
}

impl FromJava for i32 {
    open spec fn from_java_model(m: JavaValueModel) -> Option<i32> {
        match m {
            JavaValueModel::Int(n) => Some(n),
            _ => None,
        }
    }

    fn from_java(v: &JavaValue) -> Result<Self, ConvertError> {
        match v {
            JavaValue::Int(n) => Ok(*n),
            _ => Err(ConvertError::TypeMismatch),
        }
    }
}

impl JavaRoundTrip for i32 {
    open spec fn valid_model(m: i32) -> bool {
        true
    }

    proof fn round_trip(m: i32) {
    }
}

impl IntoJava for i64 {
    open spec fn jni_signature_spec() -> Seq<char> {
        "J"@
    }

    open spec fn to_java_model(m: i64) -> JavaValueModel {
        JavaValueModel::Long(m)
    }

    fn jni_signature() -> &'static str {
        "J"
    }

    fn into_java(self) -> JavaValue {
        JavaValue::Long(self)
    }
}

impl FromJava for i64 {
    open spec fn from_java_model(m: JavaValueModel) -> Option<i64> {
        match m {
            JavaValueModel::Long(n) => Some(n),
            _ => None,
        }
    }

    fn from_java(v: &JavaValue) -> Result<Self, ConvertError> {
        match v {
            JavaValue::Long(n) => Ok(*n),
            _ => Err(ConvertError::TypeMismatch),
        }
    }
}

impl JavaRoundTrip for i64 {
    open spec fn valid_model(m: i64) -> bool {
        true
    }

    proof fn round_trip(m: i64) {
    }
}

impl IntoJava for String {
    open spec fn jni_signature_spec() -> Seq<char> {
        "Ljava/lang/String;"@
    }

    open spec fn to_java_model(m: Seq<char>) -> JavaValueModel {
        JavaValueModel::Str(m)
    }

    fn jni_signature() -> &'static str {
        "Ljava/lang/String;"
    }

    fn into_java(self) -> JavaValue {
        JavaValue::Str(self)
    }
}

impl FromJava for String {
    open spec fn from_java_model(m: JavaValueModel) -> Option<Seq<char>> {
        match m {
            JavaValueModel::Str(s) => Some(s),
            _ => None,
        }
    }

    fn from_java(v: &JavaValue) -> Result<Self, ConvertError> {
        match v {
            JavaValue::Str(s) => Ok(s.clone()),
            _ => Err(ConvertError::TypeMismatch),
        }
    }
}

impl JavaObjectKind for String {
    proof fn to_java_is_nonnull_object(m: Seq<char>) {
    }
}

impl JavaRoundTrip for String {
    open spec fn valid_model(m: Seq<char>) -> bool {
        true
    }

    proof fn round_trip(m: Seq<char>) {
    }
}

impl<T: JavaObjectKind> IntoJava for Option<T> {
    /// A nullable wrapper shares the boundary signature of its element:
    /// nullability is carried by the object handle itself.
    open spec fn jni_signature_spec() -> Seq<char> {
        T::jni_signature_spec()
    }

    open spec fn to_java_model(m: Option<T::V>) -> JavaValueModel {
        match m {
            Some(inner) => T::to_java_model(inner),
            None => JavaValueModel::Null,
        }
    }

    fn jni_signature() -> &'static str {
        T::jni_signature()
    }

    fn into_java(self) -> JavaValue {
        match self {
            Some(inner) => inner.into_java(),
            None => JavaValue::Null,
        }
    }
}

impl<T: JavaObjectKind> FromJava for Option<T> {
    open spec fn from_java_model(m: JavaValueModel) -> Option<Option<T::V>> {
        match m {
            JavaValueModel::Null => Some(None),
            _ => match T::from_java_model(m) {
                Some(inner) => Some(Some(inner)),
                None => None,
            },
        }
    }

    fn from_java(v: &JavaValue) -> Result<Self, ConvertError> {
        match v {
            JavaValue::Null => Ok(None),
            _ => match T::from_java(v) {
                Ok(inner) => Ok(Some(inner)),
                Err(e) => Err(e),
            },
        }
    }
}

impl<T: JavaObjectKind + JavaRoundTrip> JavaRoundTrip for Option<T> {
    open spec fn valid_model(m: Option<T::V>) -> bool {
        m matches Some(inner) ==> T::valid_model(inner)
    }

    proof fn round_trip(m: Option<T::V>) {
        match m {
            Some(inner) => {
                T::to_java_is_nonnull_object(inner);
                T::round_trip(inner);
            },
            None => {},
        }
    }
}

impl<T: JavaObjectKind> IntoJava for Vec<T> {
    open spec fn jni_signature_spec() -> Seq<char> {
        "Ljava/util/ArrayList;"@
    }

    /// An ordered list converts to a host list object holding each
    /// element's host representation, in the source order; equal elements
    /// are all kept.
    open spec fn to_java_model(m: Seq<T::V>) -> JavaValueModel {
        JavaValueModel::List(Seq::new(m.len(), |i: int| T::to_java_model(m[i])))
    }

    fn jni_signature() -> &'static str {
        "Ljava/util/ArrayList;"
    }

    fn into_java(self) -> (r: JavaValue) {
        let ghost orig = self.deep_view();
        let mut rest = self;
        let mut out: Vec<JavaValue> = Vec::new();
        while rest.len() > 0
            invariant
                out@.len() + rest@.len() == orig.len(),
                forall|j: int|
                    0 <= j < rest@.len() ==> #[trigger] rest@[j].deep_view() == orig[out@.len()
                        + j],
                forall|j: int|
                    0 <= j < out@.len() ==> #[trigger] out@[j].model() == T::to_java_model(
                        orig[j],
                    ),
            decreases rest@.len(),
        {
            let x = rest.remove(0);
            out.push(x.into_java());
        }
        proof {
            lemma_model_seq(out@);
            assert(model_seq(out@) =~= Seq::new(orig.len(), |i: int| T::to_java_model(orig[i])));
        }
        JavaValue::List(out)
    }
}

impl<T: JavaObjectKind> FromJava for Vec<T> {
    /// A host list converts exactly when each of its elements does, to the
    /// list of the converted elements in the same order.
    open spec fn from_java_model(m: JavaValueModel) -> Option<Seq<T::V>> {
        match m {
            JavaValueModel::List(es) => if forall|i: int|
                0 <= i < es.len() ==> (#[trigger] T::from_java_model(es[i])) is Some {
                Some(Seq::new(es.len(), |i: int| T::from_java_model(es[i]).unwrap()))
            } else {
                None
            },
            _ => None,
        }
    }

    fn from_java(v: &JavaValue) -> (r: Result<Self, ConvertError>) {
        match v {
            JavaValue::List(es) => {
                proof {
                    lemma_model_seq(es@);
                }
                let n = es.len();
                let mut out: Vec<T> = Vec::new();
                let mut i: usize = 0;
                while i < n
                    invariant
                        *v == JavaValue::List(*es),
                        n == es@.len(),
                        0 <= i <= n,
                        out@.len() == i,
                        model_seq(es@).len() == es@.len(),
                        forall|j: int|
                            0 <= j < es@.len() ==> #[trigger] model_seq(es@)[j] == es@[j].model(),
                        forall|j: int|
                            0 <= j < i ==> #[trigger] T::from_java_model(es@[j].model()) is Some,
                        forall|j: int|
                            0 <= j < i ==> #[trigger] out@[j].deep_view() == T::from_java_model(
                                es@[j].model(),
                            ).unwrap(),
                    decreases n - i,
                {
                    match T::from_java(&es[i]) {
                        Ok(x) => {
                            out.push(x);
                        },
                        Err(e) => {
                            proof {
                                let es_model = model_seq(es@);
                                assert(*v == JavaValue::List(*es));
                                assert(v.model() == JavaValueModel::List(es_model));
                                assert(T::from_java_model(es_model[i as int]) is None);
                                assert(!(forall|j: int|
                                    0 <= j < es_model.len() ==> (#[trigger] T::from_java_model(
                                        es_model[j],
                                    )) is Some));
                            }
                            return Err(e);
                        },
                    }
                    i = i + 1;
                }
                proof {
                    let es_model = model_seq(es@);
                    assert(Self::from_java_model(v.model()) matches Some(dv) && out.deep_view()
                        =~= dv);
                }
                Ok(out)
            },
            _ => Err(ConvertError::TypeMismatch),
        }
    }
}

impl<T: JavaObjectKind> JavaObjectKind for Vec<T> {
    proof fn to_java_is_nonnull_object(m: Seq<T::V>) {
    }
}

impl<T: JavaObjectKind + JavaRoundTrip> JavaRoundTrip for Vec<T> {
    open spec fn valid_model(m: Seq<T::V>) -> bool {
        forall|i: int| 0 <= i < m.len() ==> T::valid_model(#[trigger] m[i])
    }

    proof fn round_trip(m: Seq<T::V>) {
        let hosts = Seq::new(m.len(), |i: int| T::to_java_model(m[i]));
        assert forall|i: int| 0 <= i < hosts.len() implies (#[trigger] T::from_java_model(
            hosts[i],
        )) is Some by {
            T::round_trip(m[i]);
        }
        assert forall|i: int| 0 <= i < hosts.len() implies #[trigger] T::from_java_model(
            hosts[i],
        ).unwrap() == m[i] by {
            T::round_trip(m[i]);
        }
        assert(Seq::new(hosts.len(), |i: int| T::from_java_model(hosts[i]).unwrap()) =~= m);
    }
}

/// A nullable wrapper's conversion descriptor carries the same boundary
/// signature as its element's descriptor: nullability is representable on
/// the host side by the object handle itself, so no separate host type is
/// involved.
pub proof fn lemma_optional_shares_signature<T: JavaObjectKind>()
    ensures
        <Option<T> as IntoJava>::jni_signature_spec() == T::jni_signature_spec(),
{
}

/// Converting an ordered sequence to the host keeps its length and its
/// element order exactly, and keeps every duplicate: element `i` of the
/// host list is the conversion of element `i` of the sequence.
pub proof fn lemma_list_preserves_order<T: JavaObjectKind>(m: Seq<T::V>)
    ensures
        <Vec<T> as IntoJava>::to_java_model(m) matches JavaValueModel::List(hosts) && hosts.len()
            == m.len() && forall|i: int| 0 <= i < m.len() ==> hosts[i] == T::to_java_model(m[i]),
{
}

/// The host value a nullable 32-bit integer converts to: a boxed integer
/// object, or the null handle for the absent case.  A primitive slot has
/// no null, so nullability forces the boxed representation.
pub open spec fn boxed_i32_model(m: Option<i32>) -> JavaValueModel {
    match m {
        Some(n) => JavaValueModel::BoxedInt(n),
        None => JavaValueModel::Null,
    }
}

/// The native value a boxed-integer host value converts to: null becomes
/// the absent case, and a boxed integer is unwrapped through its
/// well-known accessor; any other shape is rejected.
pub open spec fn unboxed_i32_model(m: JavaValueModel) -> Option<Option<i32>> {
    match m {
        JavaValueModel::Null => Some(None),
        JavaValueModel::BoxedInt(n) => Some(Some(n)),
        _ => None,
    }
}

/// Converts a nullable 32-bit integer to its host representation: a boxed
/// integer object (signature `Ljava/lang/Integer;`), or null when absent.
pub fn option_i32_into_java(value: Option<i32>) -> (r: JavaValue)
    ensures
        r.model() == boxed_i32_model(value),
{
    match value {
        Some(n) => JavaValue::BoxedInt(n),
        None => JavaValue::Null,
    }
}

/// Converts a boxed-integer host value back to a nullable 32-bit integer.
/// The boxed object is read through its primitive accessor, never by
/// reinterpreting its layout.
pub fn option_i32_from_java(v: &JavaValue) -> (r: Result<Option<i32>, ConvertError>)
    ensures
        match unboxed_i32_model(v.model()) {
            Some(m) => r == Ok::<Option<i32>, ConvertError>(m),
            None => r == Err::<Option<i32>, ConvertError>(ConvertError::TypeMismatch),
        },
{
    match v {
        JavaValue::Null => Ok(None),
        JavaValue::BoxedInt(n) => Ok(Some(*n)),
        _ => Err(ConvertError::TypeMismatch),
    }
}

/// The boxed round-trip law for nullable 32-bit integers: converting to
/// the boxed host representation and back yields the value again.
pub proof fn lemma_option_i32_round_trip(value: Option<i32>)
    ensures
        unboxed_i32_model(boxed_i32_model(value)) == Some(value),
{
}

/// The host value a nullable boolean converts to: a boxed boolean object,
/// or the null handle for the absent case.
pub open spec fn boxed_bool_model(m: Option<bool>) -> JavaValueModel {
    match m {
        Some(b) => JavaValueModel::BoxedBool(b),
        None => JavaValueModel::Null,
    }
}

/// The native value a boxed-boolean host value converts to, with null as
/// the absent case; any other shape is rejected.
pub open spec fn unboxed_bool_model(m: JavaValueModel) -> Option<Option<bool>> {
    match m {
        JavaValueModel::Null => Some(None),
        JavaValueModel::BoxedBool(b) => Some(Some(b)),
        _ => None,
    }
}

/// Converts a nullable boolean to its host representation: a boxed
/// boolean object (signature `Ljava/lang/Boolean;`), or null when absent.
pub fn option_bool_into_java(value: Option<bool>) -> (r: JavaValue)
    ensures
        r.model() == boxed_bool_model(value),
{
    match value {
        Some(b) => JavaValue::BoxedBool(b),
        None => JavaValue::Null,
    }
}

/// Converts a boxed-boolean host value back to a nullable boolean,
/// reading the boxed object through its primitive accessor.
pub fn option_bool_from_java(v: &JavaValue) -> (r: Result<Option<bool>, ConvertError>)
    ensures
        match unboxed_bool_model(v.model()) {
            Some(m) => r == Ok::<Option<bool>, ConvertError>(m),
            None => r == Err::<Option<bool>, ConvertError>(ConvertError::TypeMismatch),
        },
{
    match v {
        JavaValue::Null => Ok(None),
        JavaValue::BoxedBool(b) => Ok(Some(*b)),
        _ => Err(ConvertError::TypeMismatch),
    }
}

/// The boxed round-trip law for nullable booleans.
pub proof fn lemma_option_bool_round_trip(value: Option<bool>)
    ensures
        unboxed_bool_model(boxed_bool_model(value)) == Some(value),
{
}

/// Converts a byte string to a host byte array (signature `[B`).
pub fn byte_array_into_java(bytes: &[u8]) -> (r: JavaValue)
    ensures
        r.model() == JavaValueModel::Bytes(bytes@),
{
    JavaValue::Bytes(slice_to_vec(bytes))
}

/// Converts a host byte array back to a byte string; any other shape is
/// rejected.
pub fn byte_array_from_java(v: &JavaValue) -> (r: Result<Vec<u8>, ConvertError>)
    ensures
        match v.model() {
            JavaValueModel::Bytes(b) => r matches Ok(out) && out@ == b,
            _ => r == Err::<Vec<u8>, ConvertError>(ConvertError::TypeMismatch),
        },
{
    match v {
        JavaValue::Bytes(b) => Ok(b.clone()),
        _ => Err(ConvertError::TypeMismatch),
    }
}

} // verus!
