//! Data model and codec for COSE key objects, with the IANA registries that
//! give their integer fields meaning.

pub mod builder;
pub mod cbor;
pub mod error;
pub mod iana;
pub mod key;
pub mod label;
pub mod rules;

pub use builder::CoseKeyBuilder;
pub use cbor::{Shape, SimpleValue, Value};
pub use error::CoseError;
pub use key::{CoseKey, CoseKeySet, CoseKeyView};
pub use label::{Algorithm, KeyOperation, KeyType, Label, LabelView, RegisteredLabel};
