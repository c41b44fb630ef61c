//! The decoded property value model: one struct per supported registry
//! property kind, a closed enumeration of the native type tags, and the
//! tagged union a property read produces.

use vstd::prelude::*;

verus! {

/// The declared type tags a registry property can carry, as a closed
/// enumeration. A property read dispatches on exactly one of these;
/// tags without a decode arm are reported as unsupported rather than
/// decoded. Extending the decoder means adding the decode arm and,
/// if new, the matching `PropertyValue` variant together.
#[derive(Clone, Copy, Debug, PartialEq, Eq, Structural)]
pub enum PropTypeTag {
    Boolean,
    Count,
    Integer,
    Time,
    AString,
    Opaque,
    UString,
    Uri,
    Fmri,
    Host,
    Hostname,
    NetAddress,
    NetAddressV4,
    NetAddressV6,
}

/// A decoded boolean property value.
pub struct BoolProp {
    pub inner: bool,
}

/// A decoded count (unsigned integer) property value.
pub struct CountProp {
    pub inner: u64,
}

/// A decoded signed integer property value.
pub struct IntegerProp {
    pub inner: i64,
}

/// A decoded time property value: seconds and microseconds since the
/// epoch, held as plain integers.
pub struct TimeProp {
    pub seconds: i64,
    pub microseconds: i64,
}

/// A decoded ASCII string property value.
pub struct AStringProp {
    pub inner: String,
}

/// A decoded UTF-8 string property value.
pub struct UStringProp {
    pub inner: String,
}

/// A decoded opaque-bytes property value.
pub struct OpaqueProp {
    pub inner: Vec<u8>,
}

/// A decoded URI property value.
pub struct UriProp {
    pub inner: String,
}

/// A decoded FMRI property value.
pub struct FmriProp {
    pub inner: String,
}

/// A decoded host property value: either a hostname or a network
/// address, kept as the string the registry reported.
pub struct HostProp {
    pub inner: String,
}

/// A decoded hostname property value.
pub struct HostnameProp {
    pub inner: String,
}

/// A decoded network address property value of unspecified family,
/// kept as the string the registry reported.
pub struct NetAddressProp {
    pub inner: String,
}

/// A decoded IPv4 address property value, as its four octets.
pub struct NetAddressV4Prop {
    pub octets: [u8; 4],
}

/// A decoded IPv6 address property value, as its sixteen octets.
pub struct NetAddressV6Prop {
    pub octets: [u8; 16],
}

/// The value of one property read: a closed tagged union over the
/// supported property kinds, each in scalar and in list form. A value
/// is an immutable snapshot of one read and does not track later
/// registry changes.
pub enum PropertyValue {
    Bool(BoolProp),
    Count(CountProp),
    Integer(IntegerProp),
    Time(TimeProp),
    AString(AStringProp),
    UString(UStringProp),
    Opaque(OpaqueProp),
    Uri(UriProp),
    Fmri(FmriProp),
    Host(HostProp),
    Hostname(HostnameProp),
    NetAddress(NetAddressProp),
    NetAddressV4(NetAddressV4Prop),
    NetAddressV6(NetAddressV6Prop),
    BoolList(Vec<BoolProp>),
    CountList(Vec<CountProp>),
    IntegerList(Vec<IntegerProp>),
    TimeList(Vec<TimeProp>),
    AStringList(Vec<AStringProp>),
    UStringList(Vec<UStringProp>),
    OpaqueList(Vec<OpaqueProp>),
    UriList(Vec<UriProp>),
    FmriList(Vec<FmriProp>),
    HostList(Vec<HostProp>),
    HostnameList(Vec<HostnameProp>),
    NetAddressList(Vec<NetAddressProp>),
    NetAddressV4List(Vec<NetAddressV4Prop>),
    NetAddressV6List(Vec<NetAddressV6Prop>),
}

/// A property value that can render itself as text.
pub trait Property {
    /// The text this value renders to.
    spec fn spec_text(&self) -> Seq<char>;

    /// Renders the value as text.
    fn to_string(&self) -> (s: String)
        ensures
            s@ == self.spec_text(),
    ;
}

impl BoolProp {
    /// Returns the decoded boolean.
    pub fn get_value(&self) -> (b: bool)
        ensures
            b == self.inner,
    {
        self.inner
    }
}

impl Property for BoolProp {
    open spec fn spec_text(&self) -> Seq<char> {
        if self.inner {
            "true"@
        } else {
            "false"@
        }
    }

    fn to_string(&self) -> (s: String) {
        if self.inner {
            "true".to_owned()
        } else {
            "false".to_owned()
        }
    }
}

} // verus!
