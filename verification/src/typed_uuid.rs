//! An identifier bound to a category set: a UUID whose first byte is the
//! discriminant of one of the set's categories.

use vstd::prelude::*;
use core::marker::PhantomData;
use uuid::Uuid;
use crate::error::{identifier, ErrorView, Outcome, TypedUuidError};
use crate::random::{rng_fill, thread_rng};
use crate::raw_uuid::{
    accepted, hyphenated, is_version_8, lemma_text_value_of_hyphenated, lemma_v8_normalized,
    parse_uuid, rejected, uuid_as_bytes, uuid_bytes, uuid_eq, uuid_error_text,
    uuid_error_to_string, uuid_new_v8, uuid_text_value, uuid_to_string, v8_normalized,
};
use crate::traits::UuidType;

verus! {

/// Whether `b` is the discriminant of a category of `T`.
pub open spec fn is_discriminant<T: UuidType>(b: u8) -> bool {
    exists|t: T| #[trigger] t.discriminant_spec() == b
}

/// The category of `T` with discriminant `b`, where there is one.
pub open spec fn category_of<T: UuidType>(b: u8) -> T {
    choose|t: T| #[trigger] t.discriminant_spec() == b
}

/// What sixteen bytes are as an identifier over `T`: themselves, where byte 0
/// is a discriminant of `T`, and else the error that names the byte.
pub open spec fn validated<T: UuidType>(b: Seq<u8>) -> Outcome {
    if is_discriminant::<T>(b[0]) {
        Ok(b)
    } else {
        Err(ErrorView::InvalidDiscriminant { found: b[0] })
    }
}

/// What the outcome of reading a UUID is as an identifier over `T`: a parse
/// error carries the parser's message, and bytes are validated.
pub open spec fn validated_parse<T: UuidType>(parsed: Result<Seq<u8>, uuid::Error>) -> Outcome {
    match parsed {
        Ok(b) => validated::<T>(b),
        Err(e) => Err(ErrorView::ParseError(uuid_error_text(e))),
    }
}

/// What a text is as an identifier over `T`.
pub open spec fn read_typed<T: UuidType>(text: Seq<char>) -> Outcome {
    validated_parse::<T>(uuid_text_value(text))
}

/// A UUID that encodes a category of `T` in its first byte.
#[derive(Debug, Eq, Hash)]
pub struct TypedUuid<T: UuidType> {
    inner: Uuid,
    _marker: PhantomData<T>,
}

impl<T: UuidType> Clone for TypedUuid<T> {
    fn clone(&self) -> (r: Self)
        ensures
            r == *self,
    {
        *self
    }
}

impl<T: UuidType> Copy for TypedUuid<T> {

}

impl<T: UuidType> PartialEq for TypedUuid<T> {
    /// Two identifiers are equal when their sixteen bytes are.
    fn eq(&self, other: &Self) -> (r: bool) {
        uuid_eq(&self.inner, &other.inner)
    }
}

impl<T: UuidType> vstd::std_specs::cmp::PartialEqSpecImpl for TypedUuid<T> {
    open spec fn obeys_eq_spec() -> bool {
        true
    }

    open spec fn eq_spec(&self, other: &Self) -> bool {
        self@ == other@
    }
}

impl<T: UuidType> View for TypedUuid<T> {
    type V = Seq<u8>;

    /// The sixteen bytes of the identifier.
    open spec fn view(&self) -> Seq<u8> {
        uuid_bytes(self.uuid())
    }
}

/// The outcome of building an identifier, as contracts speak of it.
pub open spec fn typed_outcome<T: UuidType>(r: Result<TypedUuid<T>, TypedUuidError>) -> Outcome {
    match r {
        Ok(x) => Ok(x@),
        Err(e) => Err(e@),
    }
}

impl<T: UuidType> TypedUuid<T> {
    /// The UUID that the identifier wraps.
    pub closed spec fn uuid(self) -> Uuid {
        self.inner
    }

    /// Every identifier has sixteen bytes, the first of which is the
    /// discriminant of a category of `T`.
    #[verifier::type_invariant]
    pub open spec fn wf(self) -> bool {
        &&& self@.len() == 16
        &&& is_discriminant::<T>(self@[0])
    }

    /// The category that the identifier encodes.
    pub open spec fn category(self) -> T {
        category_of::<T>(self@[0])
    }

    /// The textual form of the identifier.
    pub open spec fn text(self) -> Seq<char> {
        hyphenated(self@)
    }

    /// Creates an identifier of the given category from sixteen freshly drawn
    /// random bytes. Byte 0 is the category's discriminant, and the version
    /// and variant marks are those of a version-8 UUID; the other bits are
    /// as they were drawn. Does not return where the system has no source of
    /// random bytes.
    pub fn new(variant: T) -> (r: Self)
        ensures
            r@[0] == variant.discriminant_spec(),
            r.category() == variant,
            is_version_8(r@),
    {
        let mut rng = thread_rng();
        let mut bytes = [0u8; 16];
        rng_fill(&mut rng, &mut bytes);
        Self::from_random_bytes(variant, bytes)
    }

    /// Creates the identifier of the given category that sixteen drawn bytes
    /// determine: byte 0 is overwritten with the category's discriminant,
    /// then the version and variant marks are set.
    pub fn from_random_bytes(variant: T, bytes: [u8; 16]) -> (r: Self)
        ensures
            r@ == v8_normalized(bytes@.update(0, variant.discriminant_spec())),
            r@[0] == variant.discriminant_spec(),
            r.category() == variant,
            is_version_8(r@),
    {
        let mut bytes = bytes;
        bytes[0] = variant.discriminant();
        let uuid = uuid_new_v8(bytes);
        proof {
            lemma_v8_normalized(bytes@);
        }
        TypedUuid { inner: uuid, _marker: PhantomData }
    }

    /// Creates an identifier from an existing UUID, if its byte 0 is the
    /// discriminant of a category of `T`. The other bytes are not examined.
    pub fn from_uuid(uuid: Uuid) -> (r: Result<Self, TypedUuidError>)
        ensures
            typed_outcome(r) == validated::<T>(uuid_bytes(uuid)),
            r matches Ok(x) ==> x.uuid() == uuid,
    {
        let bytes = uuid_as_bytes(&uuid);
        let discriminant = bytes[0];
        match T::from_discriminant(discriminant) {
            Some(_) => Ok(TypedUuid { inner: uuid, _marker: PhantomData }),
            None => Err(TypedUuidError::InvalidDiscriminant { found: discriminant }),
        }
    }

    /// Returns the category that the identifier encodes.
    pub fn variant_type(&self) -> (t: T)
        ensures
            t == self.category(),
            t.discriminant_spec() == self@[0],
    {
        proof {
            use_type_invariant(self);
        }
        let bytes = uuid_as_bytes(&self.inner);
        match T::from_discriminant(bytes[0]) {
            Some(t) => t,
            None => vstd::pervasive::unreached(),
        }
    }

    /// Returns the underlying UUID.
    pub fn as_uuid(&self) -> (u: &Uuid)
        ensures
            *u == self.uuid(),
    {
        &self.inner
    }

    /// Gives up the identifier for the underlying UUID.
    pub fn into_uuid(self) -> (u: Uuid)
        ensures
            u == self.uuid(),
    {
        self.inner
    }

    /// Returns the sixteen bytes of the identifier.
    pub fn as_bytes(&self) -> (b: &[u8; 16])
        ensures
            b@ == self@,
    {
        uuid_as_bytes(&self.inner)
    }

    /// Renders the identifier as the 36 characters of its hyphenated form.
    pub fn to_string(&self) -> (s: String)
        ensures
            s@ == self.text(),
    {
        uuid_to_string(&self.inner)
    }

    /// Builds an identifier from what the UUID parser made of a text.
    pub fn from_parsed(parsed: Result<Uuid, uuid::Error>) -> (r: Result<Self, TypedUuidError>)
        ensures
            parsed matches Ok(u) ==> typed_outcome(r) == validated_parse::<T>(accepted(uuid_bytes(u))),
            parsed matches Err(e) ==> typed_outcome(r) == validated_parse::<T>(rejected(e)),
            parsed matches Ok(u) ==> (r matches Ok(x) ==> x.uuid() == u),
    {
        match parsed {
            Ok(uuid) => Self::from_uuid(uuid),
            Err(e) => Err(TypedUuidError::ParseError(uuid_error_to_string(&e))),
        }
    }

    /// Reads an identifier from the text of a UUID.
    pub fn parse_str(s: &str) -> (r: Result<Self, TypedUuidError>)
        ensures
            typed_outcome(r) == read_typed::<T>(s@),
    {
        Self::from_parsed(parse_uuid(s))
    }
}

/// The text of an identifier reads back as an identifier with the same
/// sixteen bytes.
pub proof fn lemma_text_round_trip<T: UuidType>(x: TypedUuid<T>)
    requires
        x.wf(),
    ensures
        read_typed::<T>(x.text()) == identifier(x@),
{
    lemma_text_value_of_hyphenated(x@);
}

impl<T: UuidType> core::str::FromStr for TypedUuid<T> {
    type Err = TypedUuidError;

    /// Reads an identifier from the text of a UUID.
    fn from_str(s: &str) -> (r: Result<Self, TypedUuidError>)
        ensures
            typed_outcome(r) == read_typed::<T>(s@),
    {
        Self::parse_str(s)
    }
}

impl<T: UuidType> From<TypedUuid<T>> for Uuid {
    fn from(typed: TypedUuid<T>) -> (u: Uuid) {
        typed.into_uuid()
    }
}

impl<T: UuidType> vstd::std_specs::convert::FromSpecImpl<TypedUuid<T>> for Uuid {
    open spec fn obeys_from_spec() -> bool {
        true
    }

    open spec fn from_spec(typed: TypedUuid<T>) -> Uuid {
        typed.uuid()
    }
}

} // verus!
