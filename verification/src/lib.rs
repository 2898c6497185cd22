//! Type-safe UUIDs that carry a category tag inside the identifier.
//!
//! An application declares a closed set of categories, such as `Retail`,
//! `Business` and `Organization`. Every category has a one-byte
//! discriminant and a textual prefix ([`UuidType`]). A [`TypedUuid`] is a
//! version-8 UUID whose byte 0 is the discriminant of its category, so the
//! category can be recovered from the sixteen bytes alone. A
//! [`UserFriendlyUuid`] is the same identifier written as `prefix_uuid`, for
//! example `retail_550e8400-e29b-41d4-a716-446655440000`.
//!
//! The modules:
//!
//! - [`traits`]: the contract of a category set;
//! - [`typed_uuid`], [`user_friendly_uuid`]: the two identifiers, their
//!   textual forms, and the laws that relate rendering and reading;
//! - [`derive`]: the descriptor of a category set, derived from its
//!   declaration, with the diagnostics for declarations that have none;
//! - [`snake_case`]: the prefix of a variant that names none;
//! - [`raw_uuid`], [`random`]: what is taken on trust of the `uuid` and
//!   `rand` crates;
//! - [`error`], [`search`], [`text`]: errors and small helpers.
//!
//! Everything is verified with Verus but for the functions marked
//! `external_body` and the `assume_specification` items, which state what
//! the code outside this crate does.

pub mod derive;
pub mod error;
pub mod random;
pub mod raw_uuid;
pub mod search;
pub mod snake_case;
pub mod text;
pub mod traits;
pub mod typed_uuid;
pub mod user_friendly_uuid;

pub use error::TypedUuidError;
pub use traits::UuidType;
pub use typed_uuid::TypedUuid;
pub use user_friendly_uuid::UserFriendlyUuid;
pub use uuid::Uuid;
