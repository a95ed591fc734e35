//! Conversion descriptors for internet address types.
//!
//! The native side carries an address as its raw octets; the host side
//! represents it as an address object whose octets are read and written
//! through the host class's own accessors.  The native types here hold the
//! octets as plain values, so that the conversions can be verified; the
//! glue that talks to the host runtime trades in the same octet strings.

use vstd::prelude::*;
use vstd::slice::slice_to_vec;

use crate::convert::ConvertError;
use crate::convert::FromJava;
use crate::convert::IntoJava;
use crate::convert::JavaObjectKind;
use crate::convert::JavaRoundTrip;
use crate::value::JavaValue;
use crate::value::JavaValueModel;

verus! {

/// A version-4 internet address: four octets.
#[derive(PartialEq, Eq, Debug, Clone, Copy)]
pub struct Ipv4Address {
    /// The address's octets, in network order.
    pub octets: [u8; 4],
}

/// A version-6 internet address: sixteen octets.
#[derive(PartialEq, Eq, Debug, Clone, Copy)]
pub struct Ipv6Address {
    /// The address's octets, in network order.
    pub octets: [u8; 16],
}

/// An internet address of either version.
#[derive(PartialEq, Eq, Debug, Clone, Copy)]
pub enum IpAddress {
    /// A version-4 address.
    V4(Ipv4Address),
    /// A version-6 address.
    V6(Ipv6Address),
}

/// A socket address: an internet address and a port.
#[derive(PartialEq, Eq, Debug, Clone, Copy)]
pub struct SocketAddress {
    /// The address part.
    pub ip: IpAddress,
    /// The port part.
    pub port: u16,
}

impl DeepView for Ipv4Address {
    type V = Seq<u8>;

    open spec fn deep_view(&self) -> Seq<u8> {
        self.octets@
    }
}

impl DeepView for Ipv6Address {
    type V = Seq<u8>;

    open spec fn deep_view(&self) -> Seq<u8> {
        self.octets@
    }
}

impl DeepView for IpAddress {
    type V = Seq<u8>;

    open spec fn deep_view(&self) -> Seq<u8> {
        match self {
            IpAddress::V4(a) => a.deep_view(),
            IpAddress::V6(a) => a.deep_view(),
        }
    }
}

impl DeepView for SocketAddress {
    type V = (Seq<u8>, u16);

    open spec fn deep_view(&self) -> (Seq<u8>, u16) {
        (self.ip.deep_view(), self.port)
    }
}

impl IntoJava for Ipv4Address {
    open spec fn jni_signature_spec() -> Seq<char> {
        "Ljava/net/Inet4Address;"@
    }

    open spec fn to_java_model(m: Seq<u8>) -> JavaValueModel {
        JavaValueModel::Inet(m)
    }

    fn jni_signature() -> &'static str {
        "Ljava/net/Inet4Address;"
    }

    fn into_java(self) -> JavaValue {
        JavaValue::Inet(slice_to_vec(self.octets.as_slice()))
    }
}

impl FromJava for Ipv4Address {
    /// The host address object's octets are read through its accessor;
    /// anything but a four-octet address is rejected.
    open spec fn from_java_model(m: JavaValueModel) -> Option<Seq<u8>> {
        match m {
            JavaValueModel::Inet(octets) => if octets.len() == 4 {
                Some(octets)
            } else {
                None
            },
            _ => None,
        }
    }

    fn from_java(v: &JavaValue) -> (r: Result<Self, ConvertError>) {
        match v {
            JavaValue::Inet(octets) => {
                if octets.len() == 4 {
                    let out = Ipv4Address {
                        octets: [octets[0], octets[1], octets[2], octets[3]],
                    };
                    proof {
                        assert(out.deep_view() =~= octets@);
                    }
                    Ok(out)
                } else {
                    Err(ConvertError::TypeMismatch)
                }
            },
            _ => Err(ConvertError::TypeMismatch),
        }
    }
}

impl JavaObjectKind for Ipv4Address {
    proof fn to_java_is_nonnull_object(m: Seq<u8>) {
    }
}

impl JavaRoundTrip for Ipv4Address {
    open spec fn valid_model(m: Seq<u8>) -> bool {
        m.len() == 4
    }

    proof fn round_trip(m: Seq<u8>) {
    }
}

impl IntoJava for Ipv6Address {
    open spec fn jni_signature_spec() -> Seq<char> {
        "Ljava/net/Inet6Address;"@
    }

    open spec fn to_java_model(m: Seq<u8>) -> JavaValueModel {
        JavaValueModel::Inet(m)
    }

    fn jni_signature() -> &'static str {
        "Ljava/net/Inet6Address;"
    }

    fn into_java(self) -> JavaValue {
        JavaValue::Inet(slice_to_vec(self.octets.as_slice()))
    }
}

impl FromJava for Ipv6Address {
    /// Anything but a sixteen-octet address is rejected.
    open spec fn from_java_model(m: JavaValueModel) -> Option<Seq<u8>> {
        match m {
            JavaValueModel::Inet(octets) => if octets.len() == 16 {
                Some(octets)
            } else {
                None
            },
            _ => None,
        }
    }

    fn from_java(v: &JavaValue) -> (r: Result<Self, ConvertError>) {
        match v {
            JavaValue::Inet(octets) => {
                if octets.len() == 16 {
                    let out = Ipv6Address {
                        octets: [
                            octets[0],
                            octets[1],
                            octets[2],
                            octets[3],
                            octets[4],
                            octets[5],
                            octets[6],
                            octets[7],
                            octets[8],
                            octets[9],
                            octets[10],
                            octets[11],
                            octets[12],
                            octets[13],
                            octets[14],
                            octets[15],
                        ],
                    };
                    proof {
                        assert(out.deep_view() =~= octets@);
                    }
                    Ok(out)
                } else {
                    Err(ConvertError::TypeMismatch)
                }
            },
            _ => Err(ConvertError::TypeMismatch),
        }
    }
}

impl JavaObjectKind for Ipv6Address {
    proof fn to_java_is_nonnull_object(m: Seq<u8>) {
    }
}

impl JavaRoundTrip for Ipv6Address {
    open spec fn valid_model(m: Seq<u8>) -> bool {
        m.len() == 16
    }

    proof fn round_trip(m: Seq<u8>) {
    }
}

impl IntoJava for IpAddress {
    open spec fn jni_signature_spec() -> Seq<char> {
        "Ljava/net/InetAddress;"@
    }

    open spec fn to_java_model(m: Seq<u8>) -> JavaValueModel {
        JavaValueModel::Inet(m)
    }

    fn jni_signature() -> &'static str {
        "Ljava/net/InetAddress;"
    }

    fn into_java(self) -> JavaValue {
        match self {
            IpAddress::V4(a) => a.into_java(),
            IpAddress::V6(a) => a.into_java(),
        }
    }
}

impl FromJava for IpAddress {
    /// The version is chosen by the octet count of the host address
    /// object, as its accessor reports it; any other count is rejected.
    open spec fn from_java_model(m: JavaValueModel) -> Option<Seq<u8>> {
        match m {
            JavaValueModel::Inet(octets) => if octets.len() == 4 || octets.len() == 16 {
                Some(octets)
            } else {
                None
            },
            _ => None,
        }
    }

    fn from_java(v: &JavaValue) -> (r: Result<Self, ConvertError>) {
        match v {
            JavaValue::Inet(octets) => {
                if octets.len() == 4 {
                    match Ipv4Address::from_java(v) {
                        Ok(a) => Ok(IpAddress::V4(a)),
                        Err(e) => Err(e),
                    }
                } else if octets.len() == 16 {
                    match Ipv6Address::from_java(v) {
                        Ok(a) => Ok(IpAddress::V6(a)),
                        Err(e) => Err(e),
                    }
                } else {
                    Err(ConvertError::TypeMismatch)
                }
            },
            _ => Err(ConvertError::TypeMismatch),
        }
    }
}

impl JavaObjectKind for IpAddress {
    proof fn to_java_is_nonnull_object(m: Seq<u8>) {
    }
}

impl JavaRoundTrip for IpAddress {
    open spec fn valid_model(m: Seq<u8>) -> bool {
        m.len() == 4 || m.len() == 16
    }

    proof fn round_trip(m: Seq<u8>) {
    }
}

impl IntoJava for SocketAddress {
    open spec fn jni_signature_spec() -> Seq<char> {
        "Ljava/net/InetSocketAddress;"@
    }

    open spec fn to_java_model(m: (Seq<u8>, u16)) -> JavaValueModel {
        JavaValueModel::Socket(m.0, m.1)
    }

    fn jni_signature() -> &'static str {
        "Ljava/net/InetSocketAddress;"
    }

    fn into_java(self) -> JavaValue {
        let octets = match self.ip {
            IpAddress::V4(a) => slice_to_vec(a.octets.as_slice()),
            IpAddress::V6(a) => slice_to_vec(a.octets.as_slice()),
        };
        JavaValue::Socket(octets, self.port)
    }
}

impl FromJava for SocketAddress {
    open spec fn from_java_model(m: JavaValueModel) -> Option<(Seq<u8>, u16)> {
        match m {
            JavaValueModel::Socket(octets, port) => if octets.len() == 4 || octets.len() == 16 {
                Some((octets, port))
            } else {
                None
            },
            _ => None,
        }
    }

    fn from_java(v: &JavaValue) -> (r: Result<Self, ConvertError>) {
        match v {
            JavaValue::Socket(octets, port) => {
                let ip_value = JavaValue::Inet(octets.clone());
                match IpAddress::from_java(&ip_value) {
                    Ok(ip) => Ok(SocketAddress { ip, port: *port }),
                    Err(e) => Err(e),
                }
            },
            _ => Err(ConvertError::TypeMismatch),
        }
    }
}

impl JavaObjectKind for SocketAddress {
    proof fn to_java_is_nonnull_object(m: (Seq<u8>, u16)) {
    }
}

impl JavaRoundTrip for SocketAddress {
    open spec fn valid_model(m: (Seq<u8>, u16)) -> bool {
        m.0.len() == 4 || m.0.len() == 16
    }

    proof fn round_trip(m: (Seq<u8>, u16)) {
    }
}

} // verus!
