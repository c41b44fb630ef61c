//! Read-only client core for a host-local service configuration registry.
//!
//! The native registry is reached over a foreign interface that the
//! surrounding program owns; this crate holds every decision the client
//! makes around those calls — connection lifecycle, argument validation,
//! error translation, cardinality and type dispatch — as verified
//! functions over the plain values the native calls produce.

pub mod error;
pub mod handle;
pub mod query;
pub mod value;

pub use error::SMFError;
pub use error::SMFErrorKind;
pub use handle::SCFHandle;
pub use query::get_state;
pub use query::my_fmri;
pub use query::PropGetOne;
pub use value::AStringProp;
pub use value::BoolProp;
pub use value::CountProp;
pub use value::FmriProp;
pub use value::HostProp;
pub use value::HostnameProp;
pub use value::IntegerProp;
pub use value::NetAddressProp;
pub use value::NetAddressV4Prop;
pub use value::NetAddressV6Prop;
pub use value::OpaqueProp;
pub use value::Property;
pub use value::PropertyValue;
pub use value::PropTypeTag;
pub use value::TimeProp;
pub use value::UriProp;
pub use value::UStringProp;
