//! Canonical names for build targets.
//!
//! A target identifier such as `linux-musl` or `sparc-sun-sunos4` is split
//! into its fields, resolved against a fixed table of historical spellings
//! into a cpu, a vendor, a kernel, an operating system and an object
//! format, validated, and joined again into one canonical name. Every
//! stage is a function with a contract over sequences of characters, and
//! [`config_sub`] puts the stages together:
//!
//! - [`split`]: the fields of an identifier;
//! - [`resolve`]: from fields to basic machine and basic operating system;
//! - [`machine`]: cpu and vendor;
//! - [`os`]: kernel, operating system and object format;
//! - [`validate`]: what may stand together;
//! - [`formatter`]: the canonical name;
//! - [`canonical`]: the whole, stated as the function `canonical` on
//!   sequences of characters.
//!
//! [`laws`] states what holds of every identifier; [`roundtrip`], [`tag`]
//! and [`facts`] hold the proofs that the laws rest on. [`text`] and
//! [`shape`] are the comparisons that the rules are written with.

pub mod canonical;
pub mod error;
pub mod facts;
pub mod formatter;
pub mod laws;
pub mod machine;
pub mod os;
pub mod resolve;
pub mod roundtrip;
pub mod shape;
pub mod split;
pub mod tag;
pub mod text;
pub mod validate;

pub use canonical::config_sub;
pub use error::Error;
