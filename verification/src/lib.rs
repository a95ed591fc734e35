//! Marshalling support for exposing native functions to a managed host
//! runtime across a foreign-call boundary.
//!
//! The crate models the host-side values that cross the boundary as plain
//! data, and verifies the conversion, caching, fault-translation and symbol
//! naming logic that the boundary glue is built from.

pub mod addr;
pub mod cache;
pub mod convert;
pub mod fault;
pub mod parser;
pub mod symbol;
pub mod text;
pub mod value;

pub use cache::ClassCache;
pub use convert::ConvertError;
pub use convert::FromJava;
pub use convert::IntoJava;
pub use convert::JavaObjectKind;
pub use convert::JavaRoundTrip;
pub use fault::FaultPayload;
pub use fault::HostException;
pub use fault::Outcome;
pub use fault::catch_panic;
pub use fault::catch_panic_with;
pub use fault::default_handler;
pub use parser::Limits;
pub use parser::Torrent;
pub use parser::get_thumb_key;
pub use parser::to_category_i32;
pub use symbol::create_jni_fn_name;
pub use symbol::valid_namespace;
pub use value::JavaValue;
pub use value::JavaValueModel;
