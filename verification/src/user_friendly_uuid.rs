//! A typed identifier in its human-readable form, `prefix_uuid`.
//!
//! The prefix is that of the category which the UUID encodes. A prefix may
//! hold underscores and the hyphenated UUID holds none, so the last
//! underscore of the text is the separator.

use vstd::prelude::*;
use vstd::string::StringExecFns;
use core::marker::PhantomData;
use uuid::Uuid;
use crate::error::{identifier, refusal, ErrorView, Outcome, TypedUuidError};
use crate::raw_uuid::{
    accepted, hyphenated, is_version_8, lemma_hyphenated_shape, lemma_text_value_of_hyphenated,
    parse_uuid, rejected, uuid_bytes, uuid_text_value,
};
use crate::search::{last_index_of, lemma_last_index_unique};
use crate::text::{chars_of, find_last, same_text};
use crate::traits::UuidType;
use crate::typed_uuid::{category_of, validated_parse, TypedUuid};

verus! {

/// The message of the error for a text without a separator.
pub open spec fn missing_separator() -> Seq<char> {
    "expected prefix_uuid"@
}

/// What a prefix and the outcome of reading a UUID are as a prefixed
/// identifier over `T`: the bytes of the UUID, where they are an identifier
/// over `T` and the prefix is that of its category.
pub open spec fn read_prefixed_parts<T: UuidType>(
    prefix: Seq<char>,
    parsed: Result<Seq<u8>, uuid::Error>,
) -> Outcome {
    match validated_parse::<T>(parsed) {
        Ok(b) => if prefix == category_of::<T>(b[0]).prefix_spec() {
            Ok(b)
        } else {
            Err(ErrorView::UnknownPrefix { prefix })
        },
        Err(e) => Err(e),
    }
}

/// What a text is as a prefixed identifier over `T`. The text is split at
/// its last underscore.
pub open spec fn read_prefixed<T: UuidType>(text: Seq<char>) -> Outcome {
    if text.contains('_') {
        let at = last_index_of(text, '_');
        read_prefixed_parts::<T>(
            text.subrange(0, at),
            uuid_text_value(text.subrange(at + 1, text.len() as int)),
        )
    } else {
        Err(ErrorView::InvalidFormat(missing_separator()))
    }
}

/// The text `prefix_uuid` of a prefix and sixteen bytes.
pub open spec fn prefixed_text(prefix: Seq<char>, b: Seq<u8>) -> Seq<char> {
    prefix + seq!['_'] + hyphenated(b)
}

/// A typed identifier that is written with the prefix of its category.
#[derive(Debug, Eq, Hash)]
pub struct UserFriendlyUuid<T: UuidType> {
    typed_uuid: TypedUuid<T>,
    _marker: PhantomData<T>,
}

impl<T: UuidType> Clone for UserFriendlyUuid<T> {
    fn clone(&self) -> (r: Self)
        ensures
            r == *self,
    {
        *self
    }
}

impl<T: UuidType> Copy for UserFriendlyUuid<T> {

}

impl<T: UuidType> PartialEq for UserFriendlyUuid<T> {
    /// Two identifiers are equal when their sixteen bytes are.
    fn eq(&self, other: &Self) -> (r: bool) {
        self.typed_uuid == other.typed_uuid
    }
}

impl<T: UuidType> vstd::std_specs::cmp::PartialEqSpecImpl for UserFriendlyUuid<T> {
    open spec fn obeys_eq_spec() -> bool {
        true
    }

    open spec fn eq_spec(&self, other: &Self) -> bool {
        self@ == other@
    }
}

impl<T: UuidType> View for UserFriendlyUuid<T> {
    type V = Seq<u8>;

    /// The sixteen bytes of the identifier.
    open spec fn view(&self) -> Seq<u8> {
        self.typed()@
    }
}

/// The outcome of building a prefixed identifier, as contracts speak of it.
pub open spec fn prefixed_outcome<T: UuidType>(
    r: Result<UserFriendlyUuid<T>, TypedUuidError>,
) -> Outcome {
    match r {
        Ok(x) => Ok(x@),
        Err(e) => Err(e@),
    }
}

impl<T: UuidType> UserFriendlyUuid<T> {
    /// The typed identifier inside.
    pub closed spec fn typed(self) -> TypedUuid<T> {
        self.typed_uuid
    }

    /// The category that the identifier encodes.
    pub open spec fn category(self) -> T {
        self.typed().category()
    }

    /// The textual form of the identifier.
    pub open spec fn text(self) -> Seq<char> {
        prefixed_text(self.category().prefix_spec(), self@)
    }

    /// Creates a prefixed identifier of the given category from freshly
    /// drawn random bytes.
    pub fn new(variant: T) -> (r: Self)
        ensures
            r@[0] == variant.discriminant_spec(),
            r.category() == variant,
            is_version_8(r@),
    {
        let typed_uuid = TypedUuid::new(variant);
        UserFriendlyUuid { typed_uuid, _marker: PhantomData }
    }

    /// Wraps a typed identifier.
    pub fn from_typed_uuid(typed: TypedUuid<T>) -> (r: Self)
        ensures
            r.typed() == typed,
    {
        UserFriendlyUuid { typed_uuid: typed, _marker: PhantomData }
    }

    /// Builds a prefixed identifier from the prefix part of a text and from
    /// what the UUID parser made of the rest.
    pub fn from_parsed(prefix: &str, parsed: Result<Uuid, uuid::Error>) -> (r: Result<
        Self,
        TypedUuidError,
    >)
        ensures
            parsed matches Ok(u) ==> prefixed_outcome(r) == read_prefixed_parts::<T>(
                prefix@,
                accepted(uuid_bytes(u)),
            ),
            parsed matches Err(e) ==> prefixed_outcome(r) == read_prefixed_parts::<T>(
                prefix@,
                rejected(e),
            ),
            parsed matches Ok(u) ==> (r matches Ok(x) ==> x.typed().uuid() == u),
    {
        let typed_uuid: TypedUuid<T> = match TypedUuid::from_parsed(parsed) {
            Ok(t) => t,
            Err(e) => {
                return Err(e);
            },
        };
        let expected_prefix = typed_uuid.variant_type().prefix();
        if !same_text(prefix, expected_prefix) {
            return Err(TypedUuidError::UnknownPrefix { prefix: prefix.to_owned() });
        }
        Ok(UserFriendlyUuid { typed_uuid, _marker: PhantomData })
    }

    /// Reads a prefixed identifier from a text such as
    /// `retail_550e8400-e29b-41d4-a716-446655440000`.
    pub fn parse_str(s: &str) -> (r: Result<Self, TypedUuidError>)
        ensures
            prefixed_outcome(r) == read_prefixed::<T>(s@),
    {
        let chars = chars_of(s);
        let len: usize = chars.len();
        let underscore_pos: usize = match find_last(&chars, '_') {
            Some(pos) => pos,
            None => {
                let message = "expected prefix_uuid".to_owned();
                return Err(TypedUuidError::InvalidFormat(message));
            },
        };
        proof {
            lemma_last_index_unique(s@, '_', underscore_pos as int);
        }
        let prefix = s.substring_char(0, underscore_pos);
        let uuid_str = s.substring_char(underscore_pos + 1, len);
        Self::from_parsed(prefix, parse_uuid(uuid_str))
    }

    /// Returns the category that the identifier encodes.
    pub fn variant_type(&self) -> (t: T)
        ensures
            t == self.category(),
            t.discriminant_spec() == self@[0],
    {
        self.typed_uuid.variant_type()
    }

    /// Returns the prefix of the identifier's category.
    pub fn prefix(&self) -> (p: &'static str)
        ensures
            p@ == self.category().prefix_spec(),
    {
        self.typed_uuid.variant_type().prefix()
    }

    /// Returns the typed identifier inside.
    pub fn as_typed_uuid(&self) -> (t: &TypedUuid<T>)
        ensures
            *t == self.typed(),
    {
        &self.typed_uuid
    }

    /// Gives up the prefixed form for the typed identifier inside.
    pub fn into_typed_uuid(self) -> (t: TypedUuid<T>)
        ensures
            t == self.typed(),
    {
        self.typed_uuid
    }

    /// Renders the identifier as `prefix_uuid`.
    pub fn to_string(&self) -> (s: String)
        ensures
            s@ == self.text(),
    {
        let mut s = self.prefix().to_owned();
        s.push('_');
        let uuid_text = self.typed_uuid.to_string();
        s.append(uuid_text.as_str());
        s
    }
}

/// The text `prefix_uuid` splits at the underscore that was put between its
/// two parts, whatever the prefix holds.
pub proof fn lemma_prefixed_text_splits(prefix: Seq<char>, b: Seq<u8>)
    ensures
        prefixed_text(prefix, b).len() == prefix.len() + 37,
        prefixed_text(prefix, b).contains('_'),
        last_index_of(prefixed_text(prefix, b), '_') == prefix.len(),
        prefixed_text(prefix, b).subrange(0, prefix.len() as int) == prefix,
        prefixed_text(prefix, b).subrange(prefix.len() as int + 1, prefix.len() as int + 37)
            == hyphenated(b),
{
    let text = prefixed_text(prefix, b);
    let at = prefix.len() as int;
    lemma_hyphenated_shape(b);
    assert forall|j: int| at < j < text.len() implies text[j] != '_' by {
        assert(text[j] == hyphenated(b)[j - at - 1]);
    }
    lemma_last_index_unique(text, '_', at);
}

/// The text of a prefixed identifier reads back as a prefixed identifier
/// with the same sixteen bytes.
pub proof fn lemma_prefixed_round_trip<T: UuidType>(x: UserFriendlyUuid<T>)
    requires
        x.typed().wf(),
    ensures
        read_prefixed::<T>(x.text()) == identifier(x@),
{
    lemma_prefixed_text_splits(x.category().prefix_spec(), x@);
    lemma_text_value_of_hyphenated(x@);
}

/// With any other prefix in place of its own, the text of a prefixed
/// identifier is refused, and the error names the prefix found.
pub proof fn lemma_other_prefix_is_refused<T: UuidType>(x: UserFriendlyUuid<T>, prefix: Seq<char>)
    requires
        x.typed().wf(),
        prefix != x.category().prefix_spec(),
    ensures
        read_prefixed::<T>(prefixed_text(prefix, x@)) == refusal(
            (ErrorView::UnknownPrefix { prefix }),
        ),
{
    lemma_prefixed_text_splits(prefix, x@);
    lemma_text_value_of_hyphenated(x@);
}

impl<T: UuidType> core::str::FromStr for UserFriendlyUuid<T> {
    type Err = TypedUuidError;

    /// Reads a prefixed identifier from a text.
    fn from_str(s: &str) -> (r: Result<Self, TypedUuidError>)
        ensures
            prefixed_outcome(r) == read_prefixed::<T>(s@),
    {
        Self::parse_str(s)
    }
}

impl<T: UuidType> From<TypedUuid<T>> for UserFriendlyUuid<T> {
    fn from(typed: TypedUuid<T>) -> (r: Self) {
        Self::from_typed_uuid(typed)
    }
}

impl<T: UuidType> vstd::std_specs::convert::FromSpecImpl<TypedUuid<T>> for UserFriendlyUuid<T> {
    open spec fn obeys_from_spec() -> bool {
        true
    }

    closed spec fn from_spec(typed: TypedUuid<T>) -> Self {
        UserFriendlyUuid { typed_uuid: typed, _marker: PhantomData }
    }
}

impl<T: UuidType> From<UserFriendlyUuid<T>> for TypedUuid<T> {
    fn from(friendly: UserFriendlyUuid<T>) -> (r: Self) {
        friendly.into_typed_uuid()
    }
}

impl<T: UuidType> vstd::std_specs::convert::FromSpecImpl<UserFriendlyUuid<T>> for TypedUuid<T> {
    open spec fn obeys_from_spec() -> bool {
        true
    }

    open spec fn from_spec(friendly: UserFriendlyUuid<T>) -> Self {
        friendly.typed()
    }
}

} // verus!
