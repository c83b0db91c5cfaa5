//! Provider-owned job options and their IPP encoding.
//!
//! Options become typed IPP attributes here and are handed to the backend as
//! such. They never pass through CUPS' `name=value` option strings, where a
//! comma splits one value into several and an unknown name is dropped
//! without complaint.
//!
//! Nothing here decides what a job should look like. Whether a postcard prints
//! in colour or borderless is the caller's policy; this module only guarantees
//! that whatever the caller asked for is sent exactly, or refused before a job
//! exists.

use vstd::prelude::*;
use vstd::string::*;

use crate::provider::error::{self, ErrorView, ProviderError, ProviderResult};
use crate::provider::media::{Margins, MediaDescriptor, MediaView};
use crate::text::{self, chars_of, decimal, quoted};

verus! {

/// Upper bound for an IPP keyword or name value (RFC 8011, 5.1.4).
pub const MAX_KEYWORD_BYTES: usize = 255;

/// CUPS stores media dimensions in hundredths of a millimetre.
pub const UM_PER_HUNDREDTH_MM: u32 = 10;

/// How many copies to print: at least one.
#[derive(Clone, Copy, Debug, PartialEq, Eq, Structural)]
pub struct CopyCount {
    count: u32,
}

impl View for CopyCount {
    type V = u32;

    closed spec fn view(&self) -> u32 {
        self.count
    }
}

impl CopyCount {
    #[verifier::type_invariant]
    spec fn at_least_one(self) -> bool {
        self.count > 0
    }

    /// `count` copies; `None` for zero, which is no copy count.
    pub fn new(count: u32) -> (copies: Option<Self>)
        ensures
            copies is Some == (count > 0),
            copies matches Some(kept) ==> kept@ == count,
    {
        if count == 0 {
            None
        } else {
            Some(CopyCount { count })
        }
    }

    pub fn get(self) -> (count: u32)
        ensures
            count == self@,
            count > 0,
    {
        proof {
            use_type_invariant(&self);
        }
        self.count
    }
}

/// `sides`.
#[derive(Clone, Copy, Debug, PartialEq, Eq, Structural)]
pub enum Sides {
    OneSided,
    TwoSidedLongEdge,
    TwoSidedShortEdge,
}

impl Sides {
    /// The IPP keyword of a `sides` value.
    pub open spec fn named(self) -> Seq<char> {
        match self {
            Sides::OneSided => "one-sided"@,
            Sides::TwoSidedLongEdge => "two-sided-long-edge"@,
            Sides::TwoSidedShortEdge => "two-sided-short-edge"@,
        }
    }

    pub fn keyword(self) -> (keyword: &'static str)
        ensures
            keyword@ == self.named(),
    {
        match self {
            Sides::OneSided => "one-sided",
            Sides::TwoSidedLongEdge => "two-sided-long-edge",
            Sides::TwoSidedShortEdge => "two-sided-short-edge",
        }
    }
}

/// `print-color-mode`.
#[derive(Clone, Debug, PartialEq, Eq)]
pub enum ColorMode {
    Auto,
    Color,
    Monochrome,
    /// Another keyword from the printer's `print-color-mode-supported`.
    Other(String),
}

impl ColorMode {
    /// The IPP keyword of a colour mode.
    pub open spec fn named(self) -> Seq<char> {
        match self {
            ColorMode::Auto => "auto"@,
            ColorMode::Color => "color"@,
            ColorMode::Monochrome => "monochrome"@,
            ColorMode::Other(keyword) => keyword@,
        }
    }

    pub fn keyword(&self) -> (keyword: &str)
        ensures
            keyword@ == self.named(),
    {
        match self {
            ColorMode::Auto => "auto",
            ColorMode::Color => "color",
            ColorMode::Monochrome => "monochrome",
            ColorMode::Other(keyword) => keyword.as_str(),
        }
    }
}

/// `print-quality`. An IPP enum, sent as one.
#[derive(Clone, Copy, Debug, PartialEq, Eq, Structural)]
pub enum PrintQuality {
    Draft,
    Normal,
    High,
}

impl PrintQuality {
    /// The IPP enum of a print quality.
    pub open spec fn number(self) -> i32 {
        match self {
            PrintQuality::Draft => 3,
            PrintQuality::Normal => 4,
            PrintQuality::High => 5,
        }
    }

    pub fn ipp_enum(self) -> (value: i32)
        ensures
            value == self.number(),
    {
        match self {
            PrintQuality::Draft => 3,
            PrintQuality::Normal => 4,
            PrintQuality::High => 5,
        }
    }
}

/// The sheet to print on, as the printer described it.
///
/// Built from a [`MediaDescriptor`] the read-only API returned, so the size
/// sent is the size the printer reported rather than one reconstructed from a
/// name. Margins are sent too: CUPS picks the borderless variant of a size
/// from zero margins, not from the name.
#[derive(Clone, Debug, PartialEq, Eq)]
pub struct JobMediaSize {
    canonical_name: String,
    width_um: u32,
    length_um: u32,
    margins: Margins,
}

/// What a [`JobMediaSize`] says.
pub struct SizeView {
    pub canonical_name: Seq<char>,
    pub width_um: u32,
    pub length_um: u32,
    pub margins: Margins,
}

impl View for JobMediaSize {
    type V = SizeView;

    closed spec fn view(&self) -> SizeView {
        SizeView {
            canonical_name: self.canonical_name@,
            width_um: self.width_um,
            length_um: self.length_um,
            margins: self.margins,
        }
    }
}

/// The sheet that a media description stands for, refused when its size was
/// never reported.
pub open spec fn sheet_of(media: MediaView) -> Result<SizeView, ErrorView> {
    if media.known_dimensions() {
        Ok(
            SizeView {
                canonical_name: media.canonical_name,
                width_um: media.width_um,
                length_um: media.length_um,
                margins: media.margins,
            },
        )
    } else {
        Err(refused("media "@ + media.canonical_name + " has no reported dimensions"@))
    }
}

impl JobMediaSize {
    /// The sheet a descriptor describes, refused when its size was never
    /// reported.
    pub fn from_descriptor(descriptor: &MediaDescriptor) -> (built: ProviderResult<Self>)
        ensures
            error::viewed(built) == sheet_of(descriptor@),
    {
        if !descriptor.has_known_dimensions() {
            return Err(
                invalid(
                    "media ".to_string().concat(descriptor.canonical_name.as_str()).concat(
                        " has no reported dimensions",
                    ),
                ),
            );
        }
        Ok(
            JobMediaSize {
                canonical_name: descriptor.canonical_name.clone(),
                width_um: descriptor.width_um,
                length_um: descriptor.length_um,
                margins: descriptor.margins,
            },
        )
    }

    pub fn canonical_name(&self) -> (name: &str)
        ensures
            name@ == self@.canonical_name,
    {
        self.canonical_name.as_str()
    }
}

/// Media selection: size, type and source.
///
/// `media_type` and `media_source` take the printer's own keywords, vendor
/// values included, and pass them through unchanged.
#[derive(Clone, Debug, PartialEq, Eq)]
pub struct JobMedia {
    pub size: Option<JobMediaSize>,
    pub media_type: Option<String>,
    pub media_source: Option<String>,
}

impl Default for JobMedia {
    fn default() -> (unset: Self)
        ensures
            unset == (JobMedia { size: None, media_type: None, media_source: None }),
    {
        JobMedia { size: None, media_type: None, media_source: None }
    }
}

/// Options for one job.
///
/// `copies` is required: a copy count is never inherited from printer
/// defaults. Every other field left `None` is not sent, and the printer's
/// default applies; that is the only way an option is ever left out.
#[derive(Clone, Debug, PartialEq, Eq)]
pub struct ProviderJobOptions {
    pub copies: CopyCount,
    pub sides: Option<Sides>,
    pub color_mode: Option<ColorMode>,
    pub print_quality: Option<PrintQuality>,
    pub media: Option<JobMedia>,
}

/// A typed IPP job attribute, ready for the backend to encode.
#[derive(Debug, PartialEq, Eq)]
pub struct JobAttribute {
    pub name: &'static str,
    pub value: AttributeValue,
}

#[derive(Debug, PartialEq, Eq)]
pub enum AttributeValue {
    Integer(i32),
    Enum(i32),
    Keyword(String),
    Collection(Vec<JobAttribute>),
}

/// What a [`JobAttribute`] says.
pub struct JobAttributeView {
    pub name: Seq<char>,
    pub value: JobValueView,
}

/// What an [`AttributeValue`] says.
pub enum JobValueView {
    Integer(i32),
    Enum(i32),
    Keyword(Seq<char>),
    Collection(Seq<JobAttributeView>),
}

/// What a value says.
pub open spec fn value_of(value: AttributeValue) -> JobValueView
    decreases value,
{
    match value {
        AttributeValue::Integer(number) => JobValueView::Integer(number),
        AttributeValue::Enum(number) => JobValueView::Enum(number),
        AttributeValue::Keyword(keyword) => JobValueView::Keyword(keyword@),
        AttributeValue::Collection(members) => JobValueView::Collection(
            Seq::new(
                members@.len(),
                |i: int|
                    if 0 <= i < members@.len() {
                        JobAttributeView {
                            name: members@[i].name@,
                            value: value_of(members@[i].value),
                        }
                    } else {
                        arbitrary()
                    },
            ),
        ),
    }
}

impl View for JobAttribute {
    type V = JobAttributeView;

    open spec fn view(&self) -> JobAttributeView {
        JobAttributeView { name: self.name@, value: value_of(self.value) }
    }
}

impl Clone for JobAttribute {
    fn clone(&self) -> (copy: Self)
        ensures
            copy@ == self@,
    {
        JobAttribute { name: self.name, value: copy_value(&self.value) }
    }
}

impl Clone for AttributeValue {
    fn clone(&self) -> (copy: Self)
        ensures
            value_of(copy) == value_of(*self),
    {
        copy_value(self)
    }
}

fn copy_value(value: &AttributeValue) -> (copy: AttributeValue)
    ensures
        value_of(copy) == value_of(*value),
    decreases *value,
{
    match value {
        AttributeValue::Integer(number) => AttributeValue::Integer(*number),
        AttributeValue::Enum(number) => AttributeValue::Enum(*number),
        AttributeValue::Keyword(keyword) => AttributeValue::Keyword(keyword.clone()),
        AttributeValue::Collection(members) => {
            let mut copies: Vec<JobAttribute> = Vec::new();
            let mut i: usize = 0;
            while i < members.len()
                invariant
                    *value == AttributeValue::Collection(*members),
                    i <= members@.len(),
                    copies@.len() == i,
                    forall|j: int| 0 <= j < i ==> (#[trigger] copies@[j])@ == members@[j]@,
                decreases members@.len() - i,
            {
                proof {
                    let member = members@[i as int];
                    assert(decreases_to!(*value => value->Collection_0));
                    assert(decreases_to!(*members => members@));
                    assert(decreases_to!(members@ => members@[i as int]));
                    assert(decreases_to!(member => member.value));
                }
                copies.push(
                    JobAttribute { name: members[i].name, value: copy_value(&members[i].value) },
                );
                i += 1;
            }
            let copy = AttributeValue::Collection(copies);
            assert(value_of(copy)->Collection_0 =~= value_of(*value)->Collection_0) by {
                assert forall|j: int| 0 <= j < copies@.len() implies value_of(
                    copy,
                )->Collection_0[j] == value_of(*value)->Collection_0[j] by {
                    assert(copies@[j]@ == members@[j]@);
                }
            }
            copy
        },
    }
}

/// What a list of attributes says.
pub open spec fn attribute_views(list: Seq<JobAttribute>) -> Seq<JobAttributeView> {
    list.map_values(|attribute: JobAttribute| attribute@)
}

/// A list of attributes or the refusal to encode it.
pub type Encoding = ProviderResult<Vec<JobAttribute>>;

/// What an encoding says.
pub open spec fn encoding_view(encoding: Encoding) -> Result<Seq<JobAttributeView>, ErrorView> {
    match encoding {
        Ok(list) => Ok(attribute_views(list@)),
        Err(refusal) => Err(refusal@),
    }
}

/// The refusal of a request, with its reason.
pub open spec fn refused(detail: Seq<char>) -> ErrorView {
    ErrorView::InvalidJobRequest { detail }
}

/// `list` with one more attribute, or the first refusal of the two.
pub open spec fn with_attribute(
    list: Result<Seq<JobAttributeView>, ErrorView>,
    attribute: Result<JobAttributeView, ErrorView>,
) -> Result<Seq<JobAttributeView>, ErrorView> {
    match (list, attribute) {
        (Err(refusal), _) => Err(refusal),
        (_, Err(refusal)) => Err(refusal),
        (Ok(attributes), Ok(one)) => Ok(attributes.push(one)),
    }
}

/// `value` as IPP can carry it.
pub open spec fn ipp_int(value: u32, what: Seq<char>) -> Result<i32, ErrorView> {
    if value <= i32::MAX {
        Ok(value as i32)
    } else {
        Err(refused(what + " "@ + text::decimal_chars(value as nat) + " is out of range"@))
    }
}

/// `um` in hundredths of a millimetre, if it is a whole number of them.
pub open spec fn exact_hundredths(um: u32, what: Seq<char>) -> Result<i32, ErrorView> {
    if um % UM_PER_HUNDREDTH_MM != 0 {
        Err(
            refused(
                what + " of "@ + text::decimal_chars(um as nat)
                    + " um is not a whole hundredth of a millimetre"@,
            ),
        )
    } else {
        ipp_int((um / UM_PER_HUNDREDTH_MM) as u32, what)
    }
}

/// Whether `c` may stand in a keyword.
pub open spec fn keyword_char(c: char) -> bool {
    ||| 'a' <= c && c <= 'z'
    ||| 'A' <= c && c <= 'Z'
    ||| '0' <= c && c <= '9'
    ||| c == '.'
    ||| c == '_'
    ||| c == '-'
}

/// Whether `value` is one to 255 characters that may stand in a keyword.
pub open spec fn well_formed_keyword(value: Seq<char>) -> bool {
    &&& 0 < value.len() <= MAX_KEYWORD_BYTES
    &&& forall|i: int| 0 <= i < value.len() ==> keyword_char(#[trigger] value[i])
}

/// The refusal of a keyword.
pub open spec fn bad_keyword(name: Seq<char>, value: Seq<char>) -> ErrorView {
    refused(name + " value "@ + text::debug_chars(value) + " is not a valid keyword"@)
}

/// An attribute with an integer value, if the integer could be had.
pub open spec fn integer_encoded(name: Seq<char>, value: Result<i32, ErrorView>) -> Result<
    JobAttributeView,
    ErrorView,
> {
    match value {
        Ok(number) => Ok(JobAttributeView { name, value: JobValueView::Integer(number) }),
        Err(refusal) => Err(refusal),
    }
}

/// An attribute with a keyword value, if the keyword is well formed. The
/// keyword is carried unchanged.
pub open spec fn keyword_encoded(name: Seq<char>, value: Seq<char>) -> Result<
    JobAttributeView,
    ErrorView,
> {
    if well_formed_keyword(value) {
        Ok(JobAttributeView { name, value: JobValueView::Keyword(value) })
    } else {
        Err(bad_keyword(name, value))
    }
}

/// An attribute with a collection value, if its members could be encoded.
pub open spec fn collection_encoded(
    name: Seq<char>,
    members: Result<Seq<JobAttributeView>, ErrorView>,
) -> Result<JobAttributeView, ErrorView> {
    match members {
        Ok(list) => Ok(JobAttributeView { name, value: JobValueView::Collection(list) }),
        Err(refusal) => Err(refusal),
    }
}

/// The `media-size` member: both dimensions in hundredths of a millimetre.
pub open spec fn dimensions_encoded(size: SizeView) -> Result<JobAttributeView, ErrorView> {
    collection_encoded(
        "media-size"@,
        with_attribute(
            with_attribute(
                Ok(seq![]),
                integer_encoded("x-dimension"@, exact_hundredths(size.width_um, "width"@)),
            ),
            integer_encoded("y-dimension"@, exact_hundredths(size.length_um, "length"@)),
        ),
    )
}

/// A margin member.
pub open spec fn margin_encoded(name: Seq<char>, um: u32) -> Result<JobAttributeView, ErrorView> {
    integer_encoded(name, exact_hundredths(um, name))
}

/// The members that state a size: its dimensions, its name and its margins.
pub open spec fn size_members(size: SizeView) -> Result<Seq<JobAttributeView>, ErrorView> {
    let named = with_attribute(
        with_attribute(Ok(seq![]), dimensions_encoded(size)),
        keyword_encoded("media-size-name"@, size.canonical_name),
    );
    let bottom = with_attribute(
        named,
        margin_encoded("media-bottom-margin"@, size.margins.bottom_um),
    );
    let left = with_attribute(bottom, margin_encoded("media-left-margin"@, size.margins.left_um));
    let right = with_attribute(
        left,
        margin_encoded("media-right-margin"@, size.margins.right_um),
    );
    with_attribute(right, margin_encoded("media-top-margin"@, size.margins.top_um))
}

/// The members of `media-col`: size, source and type, those that are set.
pub open spec fn media_members(media: JobMedia) -> Result<Seq<JobAttributeView>, ErrorView> {
    let sized = match media.size {
        Some(size) => size_members(size@),
        None => Ok(seq![]),
    };
    let sourced = match media.media_source {
        Some(source) => with_attribute(sized, keyword_encoded("media-source"@, source@)),
        None => sized,
    };
    match media.media_type {
        Some(media_type) => with_attribute(sourced, keyword_encoded("media-type"@, media_type@)),
        None => sourced,
    }
}

/// The `media-col` attribute. Media without any field set is refused.
pub open spec fn media_encoded(media: JobMedia) -> Result<JobAttributeView, ErrorView> {
    match media_members(media) {
        Err(refusal) => Err(refusal),
        Ok(members) => if members.len() == 0 {
            Err(refused("media was requested but no media field was set"@))
        } else {
            Ok(
                JobAttributeView {
                    name: "media-col"@,
                    value: JobValueView::Collection(members),
                },
            )
        },
    }
}

impl ProviderJobOptions {
    /// Every requested option as an attribute, in a fixed order, or the first
    /// refusal.
    pub open spec fn encoded(self) -> Result<Seq<JobAttributeView>, ErrorView> {
        let copies = with_attribute(
            Ok(seq![]),
            integer_encoded("copies"@, ipp_int(self.copies@, "copies"@)),
        );
        let sided = match self.sides {
            Some(sides) => with_attribute(copies, keyword_encoded("sides"@, sides.named())),
            None => copies,
        };
        let coloured = match self.color_mode {
            Some(mode) => with_attribute(
                sided,
                keyword_encoded("print-color-mode"@, mode.named()),
            ),
            None => sided,
        };
        let graded = match self.print_quality {
            Some(quality) => with_attribute(
                coloured,
                Ok(
                    JobAttributeView {
                        name: "print-quality"@,
                        value: JobValueView::Enum(quality.number()),
                    },
                ),
            ),
            None => coloured,
        };
        match self.media {
            Some(media) => with_attribute(graded, media_encoded(media)),
            None => graded,
        }
    }

    /// How many options are set, `copies` among them.
    pub open spec fn requested(self) -> nat {
        1 + (if self.sides is Some { 1nat } else { 0 }) + (if self.color_mode is Some {
            1nat
        } else {
            0
        }) + (if self.print_quality is Some { 1nat } else { 0 }) + (if self.media is Some {
            1nat
        } else {
            0
        })
    }

    /// `copies` copies, and the printer's defaults for everything else.
    pub fn new(copies: CopyCount) -> (options: Self)
        ensures
            options == (ProviderJobOptions {
                copies,
                sides: None,
                color_mode: None,
                print_quality: None,
                media: None,
            }),
    {
        ProviderJobOptions {
            copies,
            sides: None,
            color_mode: None,
            print_quality: None,
            media: None,
        }
    }

    /// Encode every requested option, or refuse the whole set.
    ///
    /// The copy count is always sent, first, and is never zero.
    pub fn to_attributes(&self) -> (encoding: Encoding)
        ensures
            encoding_view(encoding) == self.encoded(),
            encoding matches Ok(list) ==> {
                &&& list@.len() == self.requested()
                &&& list@[0]@ == (JobAttributeView {
                    name: "copies"@,
                    value: JobValueView::Integer(self.copies@ as i32),
                })
                &&& 0 < self.copies@ <= i32::MAX
            },
    {
        let copies: u32 = self.copies.get();
        let mut attributes = extended(
            nothing(),
            integer_attribute("copies", to_ipp_int(copies, "copies")),
        );
        if let Some(sides) = self.sides {
            attributes = extended(attributes, keyword_attribute("sides", sides.keyword()));
        }
        if let Some(mode) = &self.color_mode {
            attributes = extended(
                attributes,
                keyword_attribute("print-color-mode", mode.keyword()),
            );
        }
        if let Some(quality) = self.print_quality {
            attributes = extended(
                attributes,
                Ok(
                    JobAttribute::new(
                        "print-quality",
                        AttributeValue::Enum(quality.ipp_enum()),
                    ),
                ),
            );
        }
        if let Some(media) = &self.media {
            attributes = extended(attributes, media_col(media));
        }
        proof {
            law_nothing_is_dropped(*self);
            assert(attributes matches Ok(list) ==> attribute_views(list@)[0] == list@[0]@);
        }
        attributes
    }
}

impl JobAttribute {
    pub fn new(name: &'static str, value: AttributeValue) -> (attribute: Self)
        ensures
            attribute.name@ == name@,
            attribute.value == value,
    {
        JobAttribute { name, value }
    }
}

/// The encoding of no attribute.
fn nothing() -> (encoding: Encoding)
    ensures
        encoding_view(encoding) == Ok::<Seq<JobAttributeView>, ErrorView>(seq![]),
{
    let list: Vec<JobAttribute> = Vec::new();
    assert(attribute_views(list@) =~= seq![]);
    Ok(list)
}

/// `list` with one more attribute, or the first refusal of the two.
fn extended(list: Encoding, attribute: ProviderResult<JobAttribute>) -> (longer: Encoding)
    ensures
        encoding_view(longer) == with_attribute(encoding_view(list), error::viewed(attribute)),
{
    match (list, attribute) {
        (Err(refusal), _) => Err(refusal),
        (_, Err(refusal)) => Err(refusal),
        (Ok(attributes), Ok(one)) => {
            let mut longer = attributes;
            longer.push(one);
            assert(attribute_views(longer@) =~= attribute_views(attributes@).push(one@));
            Ok(longer)
        },
    }
}

/// An attribute with a collection of `members`.
fn collection_attribute(name: &'static str, members: Vec<JobAttribute>) -> (attribute:
    JobAttribute)
    ensures
        attribute@ == (JobAttributeView {
            name: name@,
            value: JobValueView::Collection(attribute_views(members@)),
        }),
{
    let attribute = JobAttribute::new(name, AttributeValue::Collection(members));
    assert(attribute@.value->Collection_0 =~= attribute_views(members@));
    attribute
}

/// Encode media as one `media-col`.
///
/// `media-col` rather than `media` plus separate attributes because CUPS
/// only maps `media-type` and `media-source` to a driver's MediaType and
/// InputSlot when they are members of `media-col`
/// (`_ppdCacheGetMediaType` / `_ppdCacheGetInputSlot`). Sent on their own
/// they reach the job and are then ignored. IPP also treats `media` and
/// `media-col` as alternatives, so only one is sent.
pub fn media_col(media: &JobMedia) -> (attribute: ProviderResult<JobAttribute>)
    ensures
        error::viewed(attribute) == media_encoded(*media),
{
    let mut members = nothing();
    if let Some(size) = &media.size {
        members = extended(members, media_size(size));
        members = extended(
            members,
            keyword_attribute("media-size-name", size.canonical_name.as_str()),
        );
        members = extended(
            members,
            margin("media-bottom-margin", size.margins.bottom_um),
        );
        members = extended(members, margin("media-left-margin", size.margins.left_um));
        members = extended(members, margin("media-right-margin", size.margins.right_um));
        members = extended(members, margin("media-top-margin", size.margins.top_um));
    }
    if let Some(source) = &media.media_source {
        members = extended(members, keyword_attribute("media-source", source.as_str()));
    }
    if let Some(media_type) = &media.media_type {
        members = extended(members, keyword_attribute("media-type", media_type.as_str()));
    }
    match members {
        Err(refusal) => Err(refusal),
        Ok(list) => {
            if list.len() == 0 {
                return Err(
                    invalid("media was requested but no media field was set".to_string()),
                );
            }
            Ok(collection_attribute("media-col", list))
        },
    }
}

/// The `media-size` member of `media-col`.
fn media_size(size: &JobMediaSize) -> (attribute: ProviderResult<JobAttribute>)
    ensures
        error::viewed(attribute) == dimensions_encoded(size@),
{
    let width = extended(
        nothing(),
        integer_attribute("x-dimension", hundredths_mm(size.width_um, "width")),
    );
    let dimensions = extended(
        width,
        integer_attribute("y-dimension", hundredths_mm(size.length_um, "length")),
    );
    match dimensions {
        Err(refusal) => Err(refusal),
        Ok(list) => Ok(collection_attribute("media-size", list)),
    }
}

/// A margin member of `media-col`.
fn margin(name: &'static str, um: u32) -> (attribute: ProviderResult<JobAttribute>)
    ensures
        error::viewed(attribute) == margin_encoded(name@, um),
{
    integer_attribute(name, hundredths_mm(um, name))
}

fn integer_attribute(name: &'static str, value: ProviderResult<i32>) -> (attribute: ProviderResult<
    JobAttribute,
>)
    ensures
        error::viewed(attribute) == integer_encoded(name@, error::viewed(value)),
{
    match value {
        Ok(number) => Ok(JobAttribute::new(name, AttributeValue::Integer(number))),
        Err(refusal) => Err(refusal),
    }
}

fn keyword_attribute(name: &'static str, value: &str) -> (attribute: ProviderResult<JobAttribute>)
    ensures
        error::viewed(attribute) == keyword_encoded(name@, value@),
{
    match validate_keyword(name, value) {
        Ok(_) => Ok(JobAttribute::new(name, AttributeValue::Keyword(value.to_string()))),
        Err(refusal) => Err(refusal),
    }
}

/// Accept only what an IPP keyword can be, vendor forms included.
///
/// Stricter than CUPS: anything outside ASCII letters, digits, `.`, `_` and
/// `-` is refused rather than risked. A value the printer did not advertise
/// is still passed through; whether it is supported is the caller's call.
pub fn validate_keyword(name: &str, value: &str) -> (checked: ProviderResult<()>)
    ensures
        checked is Ok == well_formed_keyword(value@),
        checked matches Err(refusal) ==> refusal@ == bad_keyword(name@, value@),
{
    if is_keyword(value) {
        Ok(())
    } else {
        Err(
            invalid(
                name.to_string().concat(" value ").concat(quoted(value).as_str()).concat(
                    " is not a valid keyword",
                ),
            ),
        )
    }
}

fn is_keyword(value: &str) -> (well_formed: bool)
    ensures
        well_formed == well_formed_keyword(value@),
{
    let chars = chars_of(value);
    if chars.len() == 0 || chars.len() > MAX_KEYWORD_BYTES {
        return false;
    }
    let mut i: usize = 0;
    while i < chars.len()
        invariant
            i <= chars@.len(),
            chars@ == value@,
            forall|j: int| 0 <= j < i ==> keyword_char(#[trigger] chars@[j]),
        decreases chars@.len() - i,
    {
        let c = chars[i];
        let allowed = ('a' <= c && c <= 'z') || ('A' <= c && c <= 'Z') || ('0' <= c && c <= '9')
            || c == '.' || c == '_' || c == '-';
        if !allowed {
            assert(!keyword_char(value@[i as int]));
            return false;
        }
        i += 1;
    }
    true
}

/// Micrometres to CUPS' hundredths of a millimetre, refusing anything that
/// would not convert exactly.
fn hundredths_mm(um: u32, what: &str) -> (units: ProviderResult<i32>)
    ensures
        error::viewed(units) == exact_hundredths(um, what@),
{
    if um % UM_PER_HUNDREDTH_MM != 0 {
        return Err(
            invalid(
                what.to_string().concat(" of ").concat(decimal(um as u64).as_str()).concat(
                    " um is not a whole hundredth of a millimetre",
                ),
            ),
        );
    }
    to_ipp_int(um / UM_PER_HUNDREDTH_MM, what)
}

fn to_ipp_int(value: u32, what: &str) -> (number: ProviderResult<i32>)
    ensures
        error::viewed(number) == ipp_int(value, what@),
{
    if value <= 0x7fff_ffff {
        Ok(value as i32)
    } else {
        Err(
            invalid(
                what.to_string().concat(" ").concat(decimal(value as u64).as_str()).concat(
                    " is out of range",
                ),
            ),
        )
    }
}

fn invalid(detail: String) -> (refusal: ProviderError)
    ensures
        refusal@ == refused(detail@),
{
    ProviderError::InvalidJobRequest { detail }
}

/// Whatever was asked for is sent: an encoding that succeeds holds one
/// attribute per requested option, the copy count first.
pub proof fn law_nothing_is_dropped(options: ProviderJobOptions)
    ensures
        options.encoded() matches Ok(list) ==> {
            &&& list.len() == options.requested()
            &&& list[0] == (JobAttributeView {
                name: "copies"@,
                value: JobValueView::Integer(options.copies@ as i32),
            })
            &&& options.copies@ <= i32::MAX
        },
{
}

/// Media travels as `media-col` and never as the alternative `media`.
pub proof fn law_media_is_sent_once(options: ProviderJobOptions, i: int)
    ensures
        options.encoded() matches Ok(list) ==> (0 <= i < list.len() ==> {
            &&& list[i].name != "media"@
            &&& (list[i].name == "media-col"@ ==> options.media is Some && i == list.len() - 1)
        }),
{
    reveal_strlit("media");
    reveal_strlit("media-col");
    reveal_strlit("copies");
    reveal_strlit("sides");
    reveal_strlit("print-color-mode");
    reveal_strlit("print-quality");
    assert("sides"@[0] == 's');
    assert("media"@[0] == 'm');
    assert("copies"@.len() == 6);
    assert("media-col"@.len() == 9);
    assert("print-quality"@.len() == 13);
    assert("print-color-mode"@.len() == 16);
}

/// A length that is sent is exactly the length that was asked for.
pub proof fn law_lengths_are_exact(um: u32, what: Seq<char>)
    ensures
        exact_hundredths(um, what) matches Ok(units) ==> units * UM_PER_HUNDREDTH_MM == um,
{
}

/// A keyword passes through unchanged, vendor forms included, or is refused.
pub proof fn law_keywords_pass_unchanged(name: Seq<char>, value: Seq<char>)
    ensures
        keyword_encoded(name, value) matches Ok(attribute) ==> attribute.value
            == JobValueView::Keyword(value),
        value.contains(',') || value.contains('\0') || value.len() == 0 ==> keyword_encoded(
            name,
            value,
        ) is Err,
{
    if value.contains(',') {
        let i = choose|i: int| 0 <= i < value.len() && value[i] == ',';
        assert(!keyword_char(value[i]));
    }
    if value.contains('\0') {
        let i = choose|i: int| 0 <= i < value.len() && value[i] == '\0';
        assert(!keyword_char(value[i]));
    }
}

/// Every option that is set is sent, under its own name and with its own value,
/// and every option that is not set is not sent. The first refusal of any of
/// them refuses the whole set.
pub proof fn law_every_option_is_sent_as_asked(options: ProviderJobOptions)
    ensures
        options.encoded() matches Ok(list) ==> {
            let sided = if options.sides is Some { 1int } else { 0int };
            let coloured = if options.color_mode is Some { 1int } else { 0int };
            let graded = if options.print_quality is Some { 1int } else { 0int };
            let placed = if options.media is Some { 1int } else { 0int };
            &&& list.len() == 1 + sided + coloured + graded + placed
            &&& list[0].name == "copies"@
            &&& (list[0].value matches JobValueView::Integer(count) && count == options.copies@)
            &&& options.sides matches Some(sides) ==> list[1] == (JobAttributeView {
                name: "sides"@,
                value: JobValueView::Keyword(sides.named()),
            })
            &&& options.color_mode matches Some(mode) ==> list[1 + sided] == (JobAttributeView {
                name: "print-color-mode"@,
                value: JobValueView::Keyword(mode.named()),
            })
            &&& options.print_quality matches Some(quality) ==> list[1 + sided + coloured] == (
            JobAttributeView {
                name: "print-quality"@,
                value: JobValueView::Enum(quality.number()),
            })
            &&& options.media matches Some(media) ==> Ok::<JobAttributeView, ErrorView>(
                list[1 + sided + coloured + graded],
            ) == media_encoded(media)
        },
        options.encoded() is Ok <==> {
            &&& options.copies@ <= 2_147_483_647
            &&& options.sides matches Some(sides) ==> well_formed_keyword(sides.named())
            &&& options.color_mode matches Some(mode) ==> well_formed_keyword(mode.named())
            &&& options.media matches Some(media) ==> media_encoded(media) is Ok
        },
{
}

/// The keywords and the numbers of the options, as IPP has them.
pub proof fn law_option_values_are_those_of_ipp(
    sides: Sides,
    mode: ColorMode,
    quality: PrintQuality,
)
    ensures
        sides is OneSided ==> sides.named() == "one-sided"@,
        sides is TwoSidedLongEdge ==> sides.named() == "two-sided-long-edge"@,
        sides is TwoSidedShortEdge ==> sides.named() == "two-sided-short-edge"@,
        mode is Auto ==> mode.named() == "auto"@,
        mode is Color ==> mode.named() == "color"@,
        mode is Monochrome ==> mode.named() == "monochrome"@,
        mode matches ColorMode::Other(keyword) ==> mode.named() == keyword@,
        quality.number() == 3 <==> quality is Draft,
        quality.number() == 4 <==> quality is Normal,
        quality.number() == 5 <==> quality is High,
{
}

/// A number is sent as it is, if IPP can carry it; a length is sent in
/// hundredths of a millimetre, if it is a whole number of them. Nothing that
/// can be sent exactly is refused.
pub proof fn law_numbers_are_sent_exactly(value: u32, um: u32, what: Seq<char>)
    ensures
        ipp_int(value, what) is Ok <==> value <= 2_147_483_647,
        ipp_int(value, what) matches Ok(number) ==> number == value,
        ipp_int(value, what) matches Err(refusal) ==> refusal is InvalidJobRequest,
        exact_hundredths(um, what) is Ok <==> um % 10 == 0,
        exact_hundredths(um, what) matches Ok(units) ==> units * 10 == um,
        exact_hundredths(um, what) matches Err(refusal) ==> refusal is InvalidJobRequest,
        UM_PER_HUNDREDTH_MM == 10,
{
}

/// A keyword is 1 to 255 ASCII letters, digits, full stops, underscores and
/// hyphens, and anything else is none.
pub proof fn law_keywords_are_plain(value: Seq<char>, c: char)
    ensures
        well_formed_keyword(value) <==> 1 <= value.len() <= 255 && forall|i: int|
            0 <= i < value.len() ==> keyword_char(#[trigger] value[i]),
        keyword_char(c) <==> (97 <= c as nat <= 122) || (65 <= c as nat <= 90) || (48 <= c as nat
            <= 57) || c == '.' || c == '_' || c == '-',
{
}

/// A size is sent whole: both dimensions and all four margins, each exactly and
/// under its own name, and the printer's own name for it.
pub proof fn law_size_is_sent_whole(size: SizeView)
    ensures
        size_members(size) matches Ok(members) ==> {
            &&& members.len() == 6
            &&& members[0].name == "media-size"@
            &&& members[0].value matches JobValueView::Collection(dimensions)
            &&& dimensions.len() == 2
            &&& dimensions[0].name == "x-dimension"@
            &&& (dimensions[0].value matches JobValueView::Integer(x) && x * 10 == size.width_um)
            &&& dimensions[1].name == "y-dimension"@
            &&& (dimensions[1].value matches JobValueView::Integer(y) && y * 10 == size.length_um)
            &&& members[1] == (JobAttributeView {
                name: "media-size-name"@,
                value: JobValueView::Keyword(size.canonical_name),
            })
            &&& members[2].name == "media-bottom-margin"@
            &&& (members[2].value matches JobValueView::Integer(b) && b * 10
                == size.margins.bottom_um)
            &&& members[3].name == "media-left-margin"@
            &&& (members[3].value matches JobValueView::Integer(l) && l * 10
                == size.margins.left_um)
            &&& members[4].name == "media-right-margin"@
            &&& (members[4].value matches JobValueView::Integer(r) && r * 10
                == size.margins.right_um)
            &&& members[5].name == "media-top-margin"@
            &&& (members[5].value matches JobValueView::Integer(t) && t * 10
                == size.margins.top_um)
        },
        size_members(size) is Ok <==> {
            &&& size.width_um % 10 == 0
            &&& size.length_um % 10 == 0
            &&& size.margins.top_um % 10 == 0
            &&& size.margins.bottom_um % 10 == 0
            &&& size.margins.left_um % 10 == 0
            &&& size.margins.right_um % 10 == 0
            &&& well_formed_keyword(size.canonical_name)
        },
{
}

/// Media is sent as one collection of exactly what was set: the members of the
/// size, then the source, then the type, the keywords unchanged. Media of which
/// nothing is set is refused.
pub proof fn law_media_is_sent_whole(media: JobMedia)
    ensures
        ({
            let sized = if media.size is Some { 6int } else { 0int };
            let sourced = if media.media_source is Some { 1int } else { 0int };
            let typed = if media.media_type is Some { 1int } else { 0int };
            &&& media_encoded(media) matches Ok(attribute) ==> {
                &&& attribute.name == "media-col"@
                &&& attribute.value matches JobValueView::Collection(members)
                &&& members.len() == sized + sourced + typed
                &&& media.size matches Some(size) ==> Ok::<Seq<JobAttributeView>, ErrorView>(
                    members.take(6),
                ) == size_members(size@)
                &&& media.media_source matches Some(source) ==> members[sized] == (
                JobAttributeView {
                    name: "media-source"@,
                    value: JobValueView::Keyword(source@),
                })
                &&& media.media_type matches Some(kind) ==> members[sized + sourced] == (
                JobAttributeView { name: "media-type"@, value: JobValueView::Keyword(kind@) })
            }
            &&& media_encoded(media) is Ok <==> {
                &&& media.size is Some || media.media_source is Some || media.media_type is Some
                &&& media.size matches Some(size) ==> size_members(size@) is Ok
                &&& media.media_source matches Some(source) ==> well_formed_keyword(source@)
                &&& media.media_type matches Some(kind) ==> well_formed_keyword(kind@)
            }
        }),
{
    if let Some(size) = media.size {
        law_size_is_sent_whole(size@);
        if let Ok(members) = size_members(size@) {
            assert(members.take(6) =~= members);
            if let Ok(all) = media_members(media) {
                assert(all.take(6) =~= members);
            }
        }
    }
}

/// Options of a different job make a different request: two sets that are
/// encoded alike ask for the same copies, sides, colour and quality.
pub proof fn law_different_options_are_encoded_differently(
    one: ProviderJobOptions,
    other: ProviderJobOptions,
)
    requires
        one.encoded() is Ok,
        one.encoded() == other.encoded(),
        one.sides is Some == other.sides is Some,
        one.color_mode is Some == other.color_mode is Some,
        one.print_quality is Some == other.print_quality is Some,
    ensures
        one.copies@ == other.copies@,
        one.sides == other.sides,
        one.color_mode matches Some(mode) ==> other.color_mode->Some_0.named() == mode.named(),
        one.print_quality == other.print_quality,
        one.media is Some == other.media is Some,
{
    law_every_option_is_sent_as_asked(one);
    law_every_option_is_sent_as_asked(other);
    reveal_strlit("one-sided");
    reveal_strlit("two-sided-long-edge");
    reveal_strlit("two-sided-short-edge");
    assert("one-sided"@.len() == 9);
    assert("two-sided-long-edge"@.len() == 19);
    assert("two-sided-short-edge"@.len() == 20);
}

/// An attribute says what it is: its name, and its value, member by member.
pub proof fn law_attribute_says_what_it_is(
    attribute: JobAttribute,
    list: Seq<JobAttribute>,
    encoding: Encoding,
)
    ensures
        attribute@.name == attribute.name@,
        attribute.value matches AttributeValue::Integer(number) ==> attribute@.value
            == JobValueView::Integer(number),
        attribute.value matches AttributeValue::Enum(number) ==> attribute@.value
            == JobValueView::Enum(number),
        attribute.value matches AttributeValue::Keyword(keyword) ==> attribute@.value
            == JobValueView::Keyword(keyword@),
        attribute.value matches AttributeValue::Collection(members) ==> {
            &&& attribute@.value matches JobValueView::Collection(said)
            &&& said.len() == members@.len()
            &&& forall|i: int| 0 <= i < members@.len() ==> #[trigger] said[i] == members@[i]@
        },
        attribute_views(list).len() == list.len(),
        forall|i: int| 0 <= i < list.len() ==> #[trigger] attribute_views(list)[i] == list[i]@,
        encoding matches Ok(held) ==> encoding_view(encoding) == Ok::<
            Seq<JobAttributeView>,
            ErrorView,
        >(attribute_views(held@)),
        encoding matches Err(refusal) ==> encoding_view(encoding) == Err::<
            Seq<JobAttributeView>,
            ErrorView,
        >(refusal@),
{
}

/// The options' own keywords are keywords: naming one is never refused.
pub proof fn law_standard_keywords_are_taken(sides: Sides, mode: ColorMode)
    ensures
        well_formed_keyword(sides.named()),
        !(mode is Other) ==> well_formed_keyword(mode.named()),
{
    reveal_strlit("one-sided");
    reveal_strlit("two-sided-long-edge");
    reveal_strlit("two-sided-short-edge");
    reveal_strlit("auto");
    reveal_strlit("color");
    reveal_strlit("monochrome");
    assert("one-sided"@.len() == 9);
    assert("two-sided-long-edge"@.len() == 19);
    assert("two-sided-short-edge"@.len() == 20);
    assert("auto"@.len() == 4);
    assert("color"@.len() == 5);
    assert("monochrome"@.len() == 10);
}

/// What cannot be sent is refused with its own name and value.
pub proof fn law_refusals_name_the_value(value: u32, um: u32, what: Seq<char>, keyword: Seq<char>)
    ensures
        value > 2_147_483_647 ==> ipp_int(value, what) == Err::<i32, ErrorView>(
            ErrorView::InvalidJobRequest {
                detail: what + " "@ + text::decimal_chars(value as nat) + " is out of range"@,
            },
        ),
        um % 10 != 0 ==> exact_hundredths(um, what) == Err::<i32, ErrorView>(
            ErrorView::InvalidJobRequest {
                detail: what + " of "@ + text::decimal_chars(um as nat)
                    + " um is not a whole hundredth of a millimetre"@,
            },
        ),
        bad_keyword(what, keyword) == (ErrorView::InvalidJobRequest {
            detail: what + " value "@ + text::debug_chars(keyword) + " is not a valid keyword"@,
        }),
        well_formed_keyword(keyword) ==> keyword_encoded(what, keyword) == Ok::<_, ErrorView>(
            JobAttributeView { name: what, value: JobValueView::Keyword(keyword) },
        ),
        !well_formed_keyword(keyword) ==> keyword_encoded(what, keyword) == Err::<
            JobAttributeView,
            ErrorView,
        >(bad_keyword(what, keyword)),
{
}

/// The first option that cannot be sent, in the order of sending, is the one
/// that is named. Sides always can be.
pub proof fn law_the_first_unsendable_option_is_named(options: ProviderJobOptions, media: JobMedia)
    ensures
        options.encoded() matches Err(refusal) ==> {
            let badly_coloured = options.color_mode is Some && !well_formed_keyword(
                options.color_mode->Some_0.named(),
            );
            &&& options.copies@ > 2_147_483_647 ==> Err::<i32, ErrorView>(refusal) == ipp_int(
                options.copies@,
                "copies"@,
            )
            &&& options.copies@ <= 2_147_483_647 && badly_coloured ==> refusal == bad_keyword(
                "print-color-mode"@,
                options.color_mode->Some_0.named(),
            )
            &&& options.copies@ <= 2_147_483_647 && !badly_coloured ==> options.media is Some
                && Err::<JobAttributeView, ErrorView>(refusal) == media_encoded(
                options.media->Some_0,
            )
        },
        media_encoded(media) matches Err(refusal) ==> {
            let badly_sized = media.size is Some && size_members(media.size->Some_0@) is Err;
            let badly_sourced = media.media_source is Some && !well_formed_keyword(
                media.media_source->Some_0@,
            );
            let badly_typed = media.media_type is Some && !well_formed_keyword(
                media.media_type->Some_0@,
            );
            &&& badly_sized ==> Err::<Seq<JobAttributeView>, ErrorView>(refusal) == size_members(
                media.size->Some_0@,
            )
            &&& !badly_sized && badly_sourced ==> refusal == bad_keyword(
                "media-source"@,
                media.media_source->Some_0@,
            )
            &&& !badly_sized && !badly_sourced && badly_typed ==> refusal == bad_keyword(
                "media-type"@,
                media.media_type->Some_0@,
            )
            &&& !badly_sized && !badly_sourced && !badly_typed ==> refusal == (
            ErrorView::InvalidJobRequest {
                detail: "media was requested but no media field was set"@,
            })
        },
{
    if let Some(sides) = options.sides {
        law_standard_keywords_are_taken(sides, ColorMode::Auto);
    }
}

/// The first measure of a size that cannot be sent is the one that is named:
/// width, length, name, then the bottom, left, right and top margin.
pub proof fn law_the_first_unsendable_measure_is_named(size: SizeView)
    ensures
        size_members(size) matches Err(refusal) ==> {
            let unnamed = !well_formed_keyword(size.canonical_name);
            let told = |um: u32, what: Seq<char>|
                Err::<i32, ErrorView>(refusal) == exact_hundredths(um, what);
            if size.width_um % 10 != 0 {
                told(size.width_um, "width"@)
            } else if size.length_um % 10 != 0 {
                told(size.length_um, "length"@)
            } else if unnamed {
                refusal == bad_keyword("media-size-name"@, size.canonical_name)
            } else if size.margins.bottom_um % 10 != 0 {
                told(size.margins.bottom_um, "media-bottom-margin"@)
            } else if size.margins.left_um % 10 != 0 {
                told(size.margins.left_um, "media-left-margin"@)
            } else if size.margins.right_um % 10 != 0 {
                told(size.margins.right_um, "media-right-margin"@)
            } else {
                told(size.margins.top_um, "media-top-margin"@)
            }
        },
{
}

/// A sheet keeps every measure of the media it was made from, and media whose
/// width or length was never reported makes none.
pub proof fn law_a_sheet_keeps_every_measure(media: MediaView)
    ensures
        sheet_of(media) is Ok <==> media.width_um > 0 && media.length_um > 0,
        sheet_of(media) matches Ok(size) ==> {
            &&& size.canonical_name == media.canonical_name
            &&& size.width_um == media.width_um
            &&& size.length_um == media.length_um
            &&& size.margins.top_um == media.margins.top_um
            &&& size.margins.bottom_um == media.margins.bottom_um
            &&& size.margins.left_um == media.margins.left_um
            &&& size.margins.right_um == media.margins.right_um
        },
        sheet_of(media) matches Err(refusal) ==> refusal == (ErrorView::InvalidJobRequest {
            detail: "media "@ + media.canonical_name + " has no reported dimensions"@,
        }),
{
}

} // verus!
