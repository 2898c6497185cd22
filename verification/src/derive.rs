//! Derivation of a category descriptor from the declaration of a category
//! set.
//!
//! A declaration lists named variants. The variants are numbered in the order
//! in which they stand, from 0. The prefix of a variant is the one that its
//! `uuid_type(prefix = "...")` attribute gives, and otherwise the snake_case
//! form of its name. A declaration that is no enumeration, has no variant or
//! more than 256, has a variant with fields, or carries a malformed attribute
//! is refused with a diagnostic.

use vstd::prelude::*;
use vstd::string::StringExecFns;
use crate::search::{
    first_index_of, last_index_of, lemma_first_index_unique, lemma_last_index_unique,
};
use crate::snake_case::{snake_case, to_snake_case};
use crate::text::same_text;

verus! {

/// What kind of item a declaration declares.
#[derive(Debug, Clone, Copy, PartialEq, Eq)]
pub enum ItemKind {
    Enum,
    Struct,
    Union,
}

/// The fields that a variant carries.
#[derive(Debug, Clone, Copy, PartialEq, Eq)]
pub enum Fields {
    /// No fields: `Retail`.
    Unit,
    /// Fields without names: `Retail(u32)`.
    Unnamed,
    /// Fields with names: `Retail { id: u32 }`.
    Named,
}

/// What stands behind a key in the arguments of an attribute.
#[derive(Debug, Clone, PartialEq, Eq)]
pub enum MetaValue {
    /// A string: `key = "text"`. Holds the text.
    Str(String),
    /// Anything else: no value, or a literal that is no string. Holds what
    /// the attribute parser says when a string is asked for here.
    NotStr(String),
}

/// One `key = value` entry of the arguments of an attribute.
#[derive(Debug, Clone, PartialEq, Eq)]
pub struct MetaItem {
    /// The key, where it is a single identifier.
    pub key: Option<String>,
    pub value: MetaValue,
}

/// An attribute on a variant, such as `#[uuid_type(prefix = "org")]`.
#[derive(Debug, Clone, PartialEq, Eq)]
pub struct Attribute {
    /// The name of the attribute, where it is a single identifier.
    pub path: Option<String>,
    /// The entries of its arguments, in order, as far as they could be read.
    pub items: Vec<MetaItem>,
    /// The complaint of the attribute parser, where the arguments are not a
    /// list of entries or break off behind the entries read.
    pub syntax_error: Option<String>,
}

/// One variant of a declaration.
#[derive(Debug, Clone, PartialEq, Eq)]
pub struct Variant {
    pub name: String,
    pub fields: Fields,
    pub attrs: Vec<Attribute>,
}

/// The declaration of a category set.
#[derive(Debug, Clone, PartialEq, Eq)]
pub struct Declaration {
    pub name: String,
    pub kind: ItemKind,
    pub variants: Vec<Variant>,
}

/// Why the attributes of a variant give no prefix.
#[derive(Debug, Clone, PartialEq, Eq)]
pub enum AttrError {
    /// Entry `item` of attribute `attr` has a key other than `prefix`.
    UnknownKey { attr: usize, item: usize, key: String },
    /// Attribute `attr` is malformed; carries the parser's message.
    Malformed { attr: usize, message: String },
}

/// Why a declaration has no descriptor.
#[derive(Debug, Clone, PartialEq, Eq)]
pub enum DeriveError {
    /// The declaration is a struct or a union.
    NotAnEnum,
    /// The variant at this position has fields.
    NonUnitVariant { variant: usize },
    /// The enumeration has no variant.
    EmptyEnum,
    /// The enumeration has more than 256 variants.
    TooManyVariants,
    /// The attributes of the variant at this position are in error.
    Attribute { variant: usize, error: AttrError },
}

/// An attribute error as contracts speak of it.
pub enum AttrErrorView {
    UnknownKey { attr: int, item: int, key: Seq<char> },
    Malformed { attr: int, message: Seq<char> },
}

/// A derivation error as contracts speak of it.
pub enum DeriveErrorView {
    NotAnEnum,
    NonUnitVariant { variant: int },
    EmptyEnum,
    TooManyVariants,
    Attribute { variant: int, error: AttrErrorView },
}

impl View for AttrError {
    type V = AttrErrorView;

    open spec fn view(&self) -> AttrErrorView {
        match *self {
            AttrError::UnknownKey { attr, item, key } => AttrErrorView::UnknownKey {
                attr: attr as int,
                item: item as int,
                key: key@,
            },
            AttrError::Malformed { attr, message } => AttrErrorView::Malformed {
                attr: attr as int,
                message: message@,
            },
        }
    }
}

impl View for DeriveError {
    type V = DeriveErrorView;

    open spec fn view(&self) -> DeriveErrorView {
        match *self {
            DeriveError::NotAnEnum => DeriveErrorView::NotAnEnum,
            DeriveError::NonUnitVariant { variant } => DeriveErrorView::NonUnitVariant {
                variant: variant as int,
            },
            DeriveError::EmptyEnum => DeriveErrorView::EmptyEnum,
            DeriveError::TooManyVariants => DeriveErrorView::TooManyVariants,
            DeriveError::Attribute { variant, error } => DeriveErrorView::Attribute {
                variant: variant as int,
                error: error@,
            },
        }
    }
}

/// What a diagnostic says.
pub open spec fn message_of(e: DeriveErrorView) -> Seq<char> {
    match e {
        DeriveErrorView::NotAnEnum => "can only be derived for enumerations"@,
        DeriveErrorView::NonUnitVariant { .. } => "only unit cases are permitted"@,
        DeriveErrorView::EmptyEnum => "at least one category required"@,
        DeriveErrorView::TooManyVariants => {
            "UuidType can only be derived for enums with at most 256 variants"@
        },
        DeriveErrorView::Attribute { error: AttrErrorView::UnknownKey { key, .. }, .. } => {
            "unknown uuid_type attribute `"@ + key + "`. Expected `prefix = \"...\"`"@
        },
        DeriveErrorView::Attribute { error: AttrErrorView::Malformed { message, .. }, .. } => {
            message
        },
    }
}

impl DeriveError {
    /// Returns the message of the diagnostic. An unknown key is named in
    /// it, together with the key that was expected; the message of a
    /// malformed attribute is the parser's own.
    pub fn message(&self) -> (s: String)
        ensures
            s@ == message_of(self@),
    {
        match self {
            DeriveError::NotAnEnum => "can only be derived for enumerations".to_owned(),
            DeriveError::NonUnitVariant { .. } => "only unit cases are permitted".to_owned(),
            DeriveError::EmptyEnum => "at least one category required".to_owned(),
            DeriveError::TooManyVariants => {
                "UuidType can only be derived for enums with at most 256 variants".to_owned()
            },
            DeriveError::Attribute { error: AttrError::UnknownKey { key, .. }, .. } => {
                let mut s = "unknown uuid_type attribute `".to_owned();
                s.append(key.as_str());
                s.append("`. Expected `prefix = \"...\"`");
                s
            },
            DeriveError::Attribute { error: AttrError::Malformed { message, .. }, .. } => {
                message.clone()
            },
        }
    }
}

/// Whether a name is the single identifier `text`.
pub open spec fn is_named(name: Option<String>, text: Seq<char>) -> bool {
    name matches Some(n) && n@ == text
}

/// How an entry counts for the prefix of its variant.
pub enum ItemClass {
    /// `prefix = "text"`.
    Prefix,
    /// `prefix` without a string behind it.
    BadPrefix,
    /// Any other key.
    Unknown,
}

/// The class of an entry.
pub open spec fn class_of(m: MetaItem) -> ItemClass {
    if !is_named(m.key, "prefix"@) {
        ItemClass::Unknown
    } else if m.value is Str {
        ItemClass::Prefix
    } else {
        ItemClass::BadPrefix
    }
}

/// The classes of the entries of an attribute, in order.
pub open spec fn classes(items: Seq<MetaItem>) -> Seq<ItemClass> {
    Seq::new(items.len(), |i: int| class_of(items[i]))
}

/// The key of an entry as diagnostics name it.
pub open spec fn key_text(m: MetaItem) -> Seq<char> {
    match m.key {
        Some(k) => k@,
        None => "unknown"@,
    }
}

/// The text that an entry holds: the string, or the parser's complaint.
pub open spec fn value_text(m: MetaItem) -> Seq<char> {
    match m.value {
        MetaValue::Str(s) => s@,
        MetaValue::NotStr(complaint) => complaint@,
    }
}

/// What one attribute says of the prefix of its variant.
pub enum AttrReading {
    /// Nothing: it is another attribute, or has no entries.
    Silent,
    /// The prefix is this text.
    Prefix(Seq<char>),
    /// The entry at `item` has the unknown key `key`.
    UnknownKey { item: int, key: Seq<char> },
    /// The attribute is malformed, with this message.
    Malformed(Seq<char>),
}

/// Reads one attribute. A `prefix` without a string is reported first, by
/// the first such entry; then broken syntax; then an unknown key, by the
/// last such entry; and where all entries are sound, the last one gives the
/// prefix.
pub open spec fn read_attr(a: Attribute) -> AttrReading {
    let c = classes(a.items@);
    if !is_named(a.path, "uuid_type"@) {
        AttrReading::Silent
    } else if c.contains(ItemClass::BadPrefix) {
        AttrReading::Malformed(value_text(a.items@[first_index_of(c, ItemClass::BadPrefix)]))
    } else if a.syntax_error is Some {
        AttrReading::Malformed(a.syntax_error->0@)
    } else if c.contains(ItemClass::Unknown) {
        let i = last_index_of(c, ItemClass::Unknown);
        AttrReading::UnknownKey { item: i, key: key_text(a.items@[i]) }
    } else if c.contains(ItemClass::Prefix) {
        AttrReading::Prefix(value_text(a.items@[last_index_of(c, ItemClass::Prefix)]))
    } else {
        AttrReading::Silent
    }
}

/// For each attribute, whether it says anything.
pub open spec fn speaking(attrs: Seq<Attribute>) -> Seq<bool> {
    Seq::new(attrs.len(), |i: int| !(read_attr(attrs[i]) is Silent))
}

/// What the reading of the attribute at position `attr` comes to for its
/// variant.
pub open spec fn reading_outcome(attr: int, reading: AttrReading) -> Result<
    Option<Seq<char>>,
    AttrErrorView,
> {
    match reading {
        AttrReading::Silent => Ok(None),
        AttrReading::Prefix(p) => Ok(Some(p)),
        AttrReading::UnknownKey { item, key } => Err(
            AttrErrorView::UnknownKey { attr, item, key },
        ),
        AttrReading::Malformed(message) => Err(AttrErrorView::Malformed { attr, message }),
    }
}

/// The prefix that the attributes of a variant give: what the first
/// attribute that says anything says, and `None` where all are silent.
pub open spec fn prefix_from_attrs(attrs: Seq<Attribute>) -> Result<
    Option<Seq<char>>,
    AttrErrorView,
> {
    if speaking(attrs).contains(true) {
        let i = first_index_of(speaking(attrs), true);
        reading_outcome(i, read_attr(attrs[i]))
    } else {
        Ok(None)
    }
}

/// The prefix of a variant: the one its attributes give, else the snake_case
/// form of its name.
pub open spec fn resolved_prefix(v: Variant) -> Result<Seq<char>, AttrErrorView> {
    match prefix_from_attrs(v.attrs@) {
        Ok(Some(p)) => Ok(p),
        Ok(None) => Ok(snake_case(v.name@)),
        Err(e) => Err(e),
    }
}

/// One variant of a descriptor, as contracts speak of it.
pub struct VariantView {
    pub name: Seq<char>,
    pub prefix: Seq<char>,
}

/// A descriptor as contracts speak of it: the name of the category set and
/// its variants in the order of their discriminants.
pub struct DescriptorView {
    pub name: Seq<char>,
    pub variants: Seq<VariantView>,
}

/// For each variant, whether it has no fields.
pub open spec fn unit_flags(variants: Seq<Variant>) -> Seq<bool> {
    Seq::new(variants.len(), |i: int| variants[i].fields is Unit)
}

/// For each variant, whether its attributes are in error.
pub open spec fn failure_flags(variants: Seq<Variant>) -> Seq<bool> {
    Seq::new(variants.len(), |i: int| resolved_prefix(variants[i]) is Err)
}

/// What a declaration derives to. The checks are made in this order: the
/// kind of the item, the fields of the variants, their number, their
/// attributes; the first variant at fault is the one reported.
pub open spec fn derive_outcome(d: Declaration) -> Result<DescriptorView, DeriveErrorView> {
    let vs = d.variants@;
    if !(d.kind is Enum) {
        Err(DeriveErrorView::NotAnEnum)
    } else if unit_flags(vs).contains(false) {
        Err(DeriveErrorView::NonUnitVariant { variant: first_index_of(unit_flags(vs), false) })
    } else if vs.len() == 0 {
        Err(DeriveErrorView::EmptyEnum)
    } else if vs.len() > 256 {
        Err(DeriveErrorView::TooManyVariants)
    } else if failure_flags(vs).contains(true) {
        let i = first_index_of(failure_flags(vs), true);
        Err(DeriveErrorView::Attribute { variant: i, error: resolved_prefix(vs[i])->Err_0 })
    } else {
        Ok(
            DescriptorView {
                name: d.name@,
                variants: Seq::new(
                    vs.len(),
                    |i: int| VariantView { name: vs[i].name@, prefix: resolved_prefix(vs[i])->Ok_0 },
                ),
            },
        )
    }
}

/// The discriminant of the variant at a position of a descriptor.
pub open spec fn discriminant_at(variant: int) -> u8 {
    variant as u8
}

/// The position in a descriptor of the variant with a discriminant.
pub open spec fn variant_with(d: DescriptorView, value: u8) -> Option<int> {
    if value < d.variants.len() {
        Some(value as int)
    } else {
        None
    }
}

/// Whether a descriptor has between 1 and 256 variants.
pub open spec fn is_category_set(d: DescriptorView) -> bool {
    1 <= d.variants.len() <= 256
}

/// One variant of a descriptor.
#[derive(Debug, PartialEq, Eq)]
struct VariantDescriptor {
    name: String,
    prefix: String,
}

/// The descriptor of a category set: for each variant, in the order of the
/// discriminants, its name and its prefix.
#[derive(Debug, PartialEq, Eq)]
pub struct Descriptor {
    name: String,
    variants: Vec<VariantDescriptor>,
}

impl View for Descriptor {
    type V = DescriptorView;

    closed spec fn view(&self) -> DescriptorView {
        DescriptorView {
            name: self.name@,
            variants: Seq::new(
                self.variants@.len(),
                |i: int|
                    VariantView { name: self.variants@[i].name@, prefix: self.variants@[i].prefix@ },
            ),
        }
    }
}

impl Descriptor {
    /// A descriptor has between 1 and 256 variants.
    #[verifier::type_invariant]
    pub open spec fn wf(self) -> bool {
        is_category_set(self@)
    }

    /// Returns the name of the category set.
    pub fn name(&self) -> (r: &str)
        ensures
            r@ == self@.name,
    {
        self.name.as_str()
    }

    /// Returns the number of variants, which is between 1 and 256.
    pub fn len(&self) -> (n: usize)
        ensures
            n == self@.variants.len(),
            1 <= n <= 256,
    {
        proof {
            use_type_invariant(self);
        }
        self.variants.len()
    }

    /// Returns the name of the variant at a position, and `None` behind the
    /// last variant.
    pub fn variant_name(&self, variant: usize) -> (r: Option<&str>)
        ensures
            variant < self@.variants.len() ==> (r matches Some(s) && s@
                == self@.variants[variant as int].name),
            variant >= self@.variants.len() ==> r is None,
    {
        if variant < self.variants.len() {
            Some(self.variants[variant].name.as_str())
        } else {
            None
        }
    }

    /// Returns the prefix of the variant at a position, and `None` behind
    /// the last variant.
    pub fn prefix(&self, variant: usize) -> (r: Option<&str>)
        ensures
            variant < self@.variants.len() ==> (r matches Some(s) && s@
                == self@.variants[variant as int].prefix),
            variant >= self@.variants.len() ==> r is None,
    {
        if variant < self.variants.len() {
            Some(self.variants[variant].prefix.as_str())
        } else {
            None
        }
    }

    /// Returns the discriminant of the variant at a position: the position
    /// itself. Behind the last variant there is none.
    pub fn discriminant(&self, variant: usize) -> (r: Option<u8>)
        ensures
            variant < self@.variants.len() ==> r == Some(discriminant_at(variant as int))
                && variant_with(self@, discriminant_at(variant as int)) == Some(variant as int),
            variant >= self@.variants.len() ==> r is None,
    {
        proof {
            use_type_invariant(self);
        }
        if variant < self.variants.len() {
            Some(variant as u8)
        } else {
            None
        }
    }

    /// Returns the position of the variant with the given discriminant, and
    /// `None` where no variant has it.
    pub fn from_discriminant(&self, value: u8) -> (r: Option<usize>)
        ensures
            match r {
                Some(variant) => variant_with(self@, value) == Some(variant as int),
                None => variant_with(self@, value) is None,
            },
    {
        if (value as usize) < self.variants.len() {
            Some(value as usize)
        } else {
            None
        }
    }
}

/// Every variant of a category set is recovered from its own discriminant.
pub proof fn lemma_descriptor_round_trip(d: DescriptorView, variant: int)
    requires
        is_category_set(d),
        0 <= variant < d.variants.len(),
    ensures
        variant_with(d, discriminant_at(variant)) == Some(variant),
{
}

/// A byte that is the discriminant of no variant stands for none.
pub proof fn lemma_descriptor_rejects(d: DescriptorView, value: u8)
    requires
        is_category_set(d),
        forall|variant: int| 0 <= variant < d.variants.len() ==> discriminant_at(variant) != value,
    ensures
        variant_with(d, value) is None,
{
    if value < d.variants.len() {
        assert(discriminant_at(value as int) == value);
    }
}

/// What a declaration derives to is a category set.
pub proof fn lemma_derived_is_category_set(d: Declaration)
    ensures
        derive_outcome(d) matches Ok(v) ==> is_category_set(v) && v.variants.len()
            == d.variants@.len(),
{
}

/// The outcome of reading attributes, as contracts speak of it.
pub open spec fn prefix_outcome(r: Result<Option<String>, AttrError>) -> Result<
    Option<Seq<char>>,
    AttrErrorView,
> {
    match r {
        Ok(Some(p)) => Ok(Some(p@)),
        Ok(None) => Ok(None),
        Err(e) => Err(e@),
    }
}

/// The outcome of a derivation, as contracts speak of it.
pub open spec fn descriptor_outcome(r: Result<Descriptor, DeriveError>) -> Result<
    DescriptorView,
    DeriveErrorView,
> {
    match r {
        Ok(d) => Ok(d@),
        Err(e) => Err(e@),
    }
}

fn name_is(name: &Option<String>, text: &str) -> (r: bool)
    ensures
        r == is_named(*name, text@),
{
    match name {
        Some(n) => same_text(n.as_str(), text),
        None => false,
    }
}

/// Reads the attribute at position `index` of a variant.
fn prefix_from_attr(attr: &Attribute, index: usize) -> (r: Result<Option<String>, AttrError>)
    ensures
        prefix_outcome(r) == reading_outcome(index as int, read_attr(*attr)),
{
    if !name_is(&attr.path, "uuid_type") {
        return Ok(None);
    }
    let ghost c = classes(attr.items@);
    let ghost mut prefix_at: int = 0;
    let ghost mut unknown_at: int = 0;
    let mut prefix: Option<String> = None;
    let mut unknown: Option<(usize, String)> = None;
    let mut i: usize = 0;
    while i < attr.items.len()
        invariant
            i <= attr.items@.len(),
            is_named(attr.path, "uuid_type"@),
            c == classes(attr.items@),
            forall|j: int| 0 <= j < i ==> c[j] != ItemClass::BadPrefix,
            match prefix {
                Some(p) => {
                    &&& 0 <= prefix_at < i
                    &&& c[prefix_at] == ItemClass::Prefix
                    &&& p@ == value_text(attr.items@[prefix_at])
                    &&& forall|j: int| prefix_at < j < i ==> c[j] != ItemClass::Prefix
                },
                None => forall|j: int| 0 <= j < i ==> c[j] != ItemClass::Prefix,
            },
            match unknown {
                Some((k, key)) => {
                    &&& k == unknown_at
                    &&& 0 <= unknown_at < i
                    &&& c[unknown_at] == ItemClass::Unknown
                    &&& key@ == key_text(attr.items@[unknown_at])
                    &&& forall|j: int| unknown_at < j < i ==> c[j] != ItemClass::Unknown
                },
                None => forall|j: int| 0 <= j < i ==> c[j] != ItemClass::Unknown,
            },
        decreases attr.items@.len() - i,
    {
        let item = &attr.items[i];
        if name_is(&item.key, "prefix") {
            match &item.value {
                MetaValue::Str(s) => {
                    prefix = Some(s.clone());
                    proof {
                        prefix_at = i as int;
                    }
                },
                MetaValue::NotStr(complaint) => {
                    proof {
                        lemma_first_index_unique(c, ItemClass::BadPrefix, i as int);
                    }
                    return Err(AttrError::Malformed { attr: index, message: complaint.clone() });
                },
            }
        } else {
            let key = match &item.key {
                Some(k) => k.clone(),
                None => "unknown".to_owned(),
            };
            unknown = Some((i, key));
            proof {
                unknown_at = i as int;
            }
        }
        i += 1;
    }
    if let Some(message) = &attr.syntax_error {
        return Err(AttrError::Malformed { attr: index, message: message.clone() });
    }
    if let Some((item, key)) = unknown {
        proof {
            lemma_last_index_unique(c, ItemClass::Unknown, unknown_at);
        }
        return Err(AttrError::UnknownKey { attr: index, item, key });
    }
    match prefix {
        Some(p) => {
            proof {
                lemma_last_index_unique(c, ItemClass::Prefix, prefix_at);
            }
            Ok(Some(p))
        },
        None => {
            Ok(None)
        },
    }
}

/// Finds the prefix that the attributes of a variant give.
///
/// Attributes other than `uuid_type` are passed over, and so is a
/// `uuid_type` attribute without entries. The first attribute that says
/// anything decides: it gives the prefix, or the error.
pub fn get_prefix_from_attrs(attrs: &[Attribute]) -> (r: Result<Option<String>, AttrError>)
    ensures
        prefix_outcome(r) == prefix_from_attrs(attrs@),
{
    let ghost s = speaking(attrs@);
    let mut i: usize = 0;
    while i < attrs.len()
        invariant
            i <= attrs@.len(),
            s == speaking(attrs@),
            forall|j: int| 0 <= j < i ==> !s[j],
        decreases attrs@.len() - i,
    {
        let r = prefix_from_attr(&attrs[i], i);
        match r {
            Ok(None) => {},
            _ => {
                proof {
                    lemma_first_index_unique(s, true, i as int);
                }
                return r;
            },
        }
        i += 1;
    }
    Ok(None)
}

/// Derives the descriptor of a category set from its declaration.
pub fn impl_uuid_type(input: &Declaration) -> (r: Result<Descriptor, DeriveError>)
    ensures
        descriptor_outcome(r) == derive_outcome(*input),
{
    match input.kind {
        ItemKind::Enum => {},
        _ => {
            return Err(DeriveError::NotAnEnum);
        },
    }
    let n: usize = input.variants.len();
    let ghost units = unit_flags(input.variants@);
    let mut i: usize = 0;
    while i < n
        invariant
            i <= n,
            n == input.variants@.len(),
            input.kind is Enum,
            units == unit_flags(input.variants@),
            forall|j: int| 0 <= j < i ==> units[j],
        decreases n - i,
    {
        match input.variants[i].fields {
            Fields::Unit => {},
            _ => {
                proof {
                    lemma_first_index_unique(units, false, i as int);
                }
                return Err(DeriveError::NonUnitVariant { variant: i });
            },
        }
        i += 1;
    }
    if n == 0 {
        return Err(DeriveError::EmptyEnum);
    }
    if n > 256 {
        return Err(DeriveError::TooManyVariants);
    }
    let ghost failed = failure_flags(input.variants@);
    let mut variants: Vec<VariantDescriptor> = Vec::new();
    let mut k: usize = 0;
    while k < n
        invariant
            k <= n,
            1 <= n <= 256,
            n == input.variants@.len(),
            input.kind is Enum,
            !unit_flags(input.variants@).contains(false),
            failed == failure_flags(input.variants@),
            forall|j: int| 0 <= j < k ==> !failed[j],
            variants@.len() == k,
            forall|j: int|
                0 <= j < k ==> (#[trigger] variants@[j]).name@ == input.variants@[j].name@
                    && variants@[j].prefix@ == resolved_prefix(input.variants@[j])->Ok_0,
        decreases n - k,
    {
        let v = &input.variants[k];
        let prefix = match get_prefix_from_attrs(v.attrs.as_slice()) {
            Ok(Some(p)) => p,
            Ok(None) => to_snake_case(v.name.as_str()),
            Err(error) => {
                proof {
                    lemma_first_index_unique(failed, true, k as int);
                }
                return Err(DeriveError::Attribute { variant: k, error });
            },
        };
        variants.push(VariantDescriptor { name: v.name.clone(), prefix });
        k += 1;
    }
    let d = Descriptor { name: input.name.clone(), variants };
    assert(d@.variants =~= derive_outcome(*input)->Ok_0.variants);
    Ok(d)
}

} // verus!
