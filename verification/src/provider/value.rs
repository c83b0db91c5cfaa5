//! Typed IPP values.
//!
//! A value is decoded by the accessor that matches its tag and by no other.
//! Guessing the type by trying accessors in turn is wrong for any tag they do
//! not cover: `copies-supported` is a `rangeOfInteger`, which would come out
//! as 0 instead of 1-9999, and a `no-value` default would come out as `false`.
//!
//! The accessors themselves belong to libcups. [`accessor_for`] says which one
//! to ask for a tag, the answers come back as a [`RawAttribute`], and
//! [`decode_value`] and [`decode_all`] make typed values of them.

use vstd::prelude::*;
use vstd::string::*;

use crate::constants;
use crate::text::same_text;

verus! {

/// How a resolution's numbers should be read.
#[derive(Clone, Copy, Debug, PartialEq, Eq, Structural)]
pub enum ResolutionUnits {
    PerInch,
    PerCentimeter,
    /// A units code libcups reported that IPP does not define.
    Other(i32),
}

impl ResolutionUnits {
    /// The units that a libcups code stands for.
    pub open spec fn of_code(code: i32) -> ResolutionUnits {
        if code == constants::IPP_RES_PER_INCH {
            ResolutionUnits::PerInch
        } else if code == constants::IPP_RES_PER_CM {
            ResolutionUnits::PerCentimeter
        } else {
            ResolutionUnits::Other(code)
        }
    }

    pub fn from_code(code: i32) -> (units: Self)
        ensures
            units == ResolutionUnits::of_code(code),
    {
        if code == constants::IPP_RES_PER_INCH {
            ResolutionUnits::PerInch
        } else if code == constants::IPP_RES_PER_CM {
            ResolutionUnits::PerCentimeter
        } else {
            ResolutionUnits::Other(code)
        }
    }
}

/// A single IPP value with its type preserved.
///
/// `NoValue`, `Unknown` and `Unsupported` are distinct variants because IPP
/// distinguishes them: collapsing any of them into `Boolean(false)` or an
/// empty string loses the difference between "there is no default" and "the
/// default is false".
#[derive(Debug, PartialEq, Eq)]
pub enum IppValue {
    Keyword(String),
    Name(String),
    Text(String),
    Uri(String),
    Charset(String),
    Language(String),
    MimeType(String),
    Integer(i32),
    /// An enum value. The number is kept as-is; what `5` means depends on the
    /// attribute, and that mapping belongs to the caller.
    Enum(i32),
    Boolean(bool),
    /// `rangeOfInteger`. Both bounds are inclusive.
    Range { lower: i32, upper: i32 },
    Resolution { cross_feed: i32, feed: i32, units: ResolutionUnits },
    /// The printer explicitly said there is no value.
    NoValue,
    /// The printer explicitly said the value is unknown.
    Unknown,
    /// The printer explicitly said the attribute is unsupported.
    Unsupported,
    /// A tag this crate does not decode.
    ///
    /// Only the tag number is kept: libcups exposes no public accessor that
    /// returns the raw bytes of an arbitrary tag. Rather than invent bytes,
    /// the identity of the tag is preserved and the value is left undecoded.
    UnknownTag { tag: u32 },
}

/// What an [`IppValue`] says, with its text as characters.
pub enum IppValueView {
    Keyword(Seq<char>),
    Name(Seq<char>),
    Text(Seq<char>),
    Uri(Seq<char>),
    Charset(Seq<char>),
    Language(Seq<char>),
    MimeType(Seq<char>),
    Integer(i32),
    Enum(i32),
    Boolean(bool),
    Range { lower: i32, upper: i32 },
    Resolution { cross_feed: i32, feed: i32, units: ResolutionUnits },
    NoValue,
    Unknown,
    Unsupported,
    UnknownTag { tag: u32 },
}

impl View for IppValue {
    type V = IppValueView;

    open spec fn view(&self) -> IppValueView {
        match self {
            IppValue::Keyword(text) => IppValueView::Keyword(text@),
            IppValue::Name(text) => IppValueView::Name(text@),
            IppValue::Text(text) => IppValueView::Text(text@),
            IppValue::Uri(text) => IppValueView::Uri(text@),
            IppValue::Charset(text) => IppValueView::Charset(text@),
            IppValue::Language(text) => IppValueView::Language(text@),
            IppValue::MimeType(text) => IppValueView::MimeType(text@),
            IppValue::Integer(value) => IppValueView::Integer(*value),
            IppValue::Enum(value) => IppValueView::Enum(*value),
            IppValue::Boolean(value) => IppValueView::Boolean(*value),
            IppValue::Range { lower, upper } => IppValueView::Range {
                lower: *lower,
                upper: *upper,
            },
            IppValue::Resolution { cross_feed, feed, units } => IppValueView::Resolution {
                cross_feed: *cross_feed,
                feed: *feed,
                units: *units,
            },
            IppValue::NoValue => IppValueView::NoValue,
            IppValue::Unknown => IppValueView::Unknown,
            IppValue::Unsupported => IppValueView::Unsupported,
            IppValue::UnknownTag { tag } => IppValueView::UnknownTag { tag: *tag },
        }
    }
}

impl IppValueView {
    /// The single number this value carries, if it carries one.
    pub open spec fn integer(self) -> Option<i32> {
        match self {
            IppValueView::Integer(value) => Some(value),
            IppValueView::Enum(value) => Some(value),
            _ => None,
        }
    }

    /// The text this value carries, if it carries one.
    pub open spec fn text(self) -> Option<Seq<char>> {
        match self {
            IppValueView::Keyword(text) => Some(text),
            IppValueView::Name(text) => Some(text),
            IppValueView::Text(text) => Some(text),
            IppValueView::Uri(text) => Some(text),
            IppValueView::Charset(text) => Some(text),
            IppValueView::Language(text) => Some(text),
            IppValueView::MimeType(text) => Some(text),
            _ => None,
        }
    }

    /// Whether this value permits `candidate`.
    pub open spec fn accepts(self, candidate: i32) -> bool {
        match self {
            IppValueView::Range { lower, upper } => lower <= candidate <= upper,
            _ => self.integer() == Some(candidate),
        }
    }

    /// Whether this value is an out-of-band marker.
    pub open spec fn out_of_band(self) -> bool {
        self is NoValue || self is Unknown || self is Unsupported
    }
}

impl Clone for IppValue {
    fn clone(&self) -> (copy: Self)
        ensures
            copy == *self,
    {
        match self {
            IppValue::Keyword(text) => IppValue::Keyword(text.clone()),
            IppValue::Name(text) => IppValue::Name(text.clone()),
            IppValue::Text(text) => IppValue::Text(text.clone()),
            IppValue::Uri(text) => IppValue::Uri(text.clone()),
            IppValue::Charset(text) => IppValue::Charset(text.clone()),
            IppValue::Language(text) => IppValue::Language(text.clone()),
            IppValue::MimeType(text) => IppValue::MimeType(text.clone()),
            IppValue::Integer(value) => IppValue::Integer(*value),
            IppValue::Enum(value) => IppValue::Enum(*value),
            IppValue::Boolean(value) => IppValue::Boolean(*value),
            IppValue::Range { lower, upper } => IppValue::Range { lower: *lower, upper: *upper },
            IppValue::Resolution { cross_feed, feed, units } => IppValue::Resolution {
                cross_feed: *cross_feed,
                feed: *feed,
                units: *units,
            },
            IppValue::NoValue => IppValue::NoValue,
            IppValue::Unknown => IppValue::Unknown,
            IppValue::Unsupported => IppValue::Unsupported,
            IppValue::UnknownTag { tag } => IppValue::UnknownTag { tag: *tag },
        }
    }
}

impl IppValue {
    /// The integer a caller can use for a numeric comparison, if this value
    /// carries one. `Range` is deliberately excluded: a range is not a single
    /// number, and callers should use [`IppValue::accepts_integer`].
    pub fn as_integer(&self) -> (number: Option<i32>)
        ensures
            number == self@.integer(),
    {
        match self {
            IppValue::Integer(value) => Some(*value),
            IppValue::Enum(value) => Some(*value),
            _ => None,
        }
    }

    /// The text of a string-like value.
    pub fn as_str(&self) -> (text: Option<&str>)
        ensures
            text is Some == self@.text() is Some,
            text matches Some(found) ==> Some(found@) == self@.text(),
    {
        match self {
            IppValue::Keyword(value) => Some(value.as_str()),
            IppValue::Name(value) => Some(value.as_str()),
            IppValue::Text(value) => Some(value.as_str()),
            IppValue::Uri(value) => Some(value.as_str()),
            IppValue::Charset(value) => Some(value.as_str()),
            IppValue::Language(value) => Some(value.as_str()),
            IppValue::MimeType(value) => Some(value.as_str()),
            _ => None,
        }
    }

    /// Whether this value permits `candidate`.
    ///
    /// A `Range` accepts anything between its inclusive bounds; `Integer` and
    /// `Enum` accept only their exact value. This is what lets a caller ask
    /// "does this printer accept copies=1?" without knowing whether the
    /// printer advertised a range or a single number.
    pub fn accepts_integer(&self, candidate: i32) -> (accepted: bool)
        ensures
            accepted == self@.accepts(candidate),
    {
        match self {
            IppValue::Range { lower, upper } => *lower <= candidate && candidate <= *upper,
            IppValue::Integer(value) => *value == candidate,
            IppValue::Enum(value) => *value == candidate,
            _ => false,
        }
    }

    /// Whether this value is one of IPP's out-of-band markers rather than
    /// actual data.
    pub fn is_out_of_band(&self) -> (marker: bool)
        ensures
            marker == self@.out_of_band(),
    {
        matches!(self, IppValue::NoValue | IppValue::Unknown | IppValue::Unsupported)
    }

    /// Whether this value carries exactly the text `candidate`.
    pub fn has_text(&self, candidate: &str) -> (same: bool)
        ensures
            same == (self@.text() == Some(candidate@)),
    {
        match self.as_str() {
            Some(text) => same_text(text, candidate),
            None => false,
        }
    }
}

/// The libcups accessor that reads a value.
#[derive(Clone, Copy, Debug, PartialEq, Eq, Structural)]
pub enum Accessor {
    /// The tag is the answer; there is nothing to read.
    Nothing,
    /// `ippGetInteger`.
    Integer,
    /// `ippGetBoolean`.
    Boolean,
    /// `ippGetRange`.
    Range,
    /// `ippGetResolution`.
    Resolution,
    /// `ippGetString`.
    Text,
}

/// Whether `tag` marks a string-like value.
pub open spec fn is_text_tag(tag: u32) -> bool {
    ||| tag == constants::IPP_TAG_KEYWORD
    ||| tag == constants::IPP_TAG_NAME
    ||| tag == constants::IPP_TAG_NAMELANG
    ||| tag == constants::IPP_TAG_TEXT
    ||| tag == constants::IPP_TAG_TEXTLANG
    ||| tag == constants::IPP_TAG_URI
    ||| tag == constants::IPP_TAG_CHARSET
    ||| tag == constants::IPP_TAG_LANGUAGE
    ||| tag == constants::IPP_TAG_MIMETYPE
}

/// The accessor that matches `tag`.
pub open spec fn accessor_of(tag: u32) -> Accessor {
    if tag == constants::IPP_TAG_INTEGER || tag == constants::IPP_TAG_ENUM {
        Accessor::Integer
    } else if tag == constants::IPP_TAG_BOOLEAN {
        Accessor::Boolean
    } else if tag == constants::IPP_TAG_RANGE {
        Accessor::Range
    } else if tag == constants::IPP_TAG_RESOLUTION {
        Accessor::Resolution
    } else if is_text_tag(tag) {
        Accessor::Text
    } else {
        Accessor::Nothing
    }
}

fn text_tag(tag: u32) -> (textual: bool)
    ensures
        textual == is_text_tag(tag),
{
    tag == constants::IPP_TAG_KEYWORD || tag == constants::IPP_TAG_NAME || tag
        == constants::IPP_TAG_NAMELANG || tag == constants::IPP_TAG_TEXT || tag
        == constants::IPP_TAG_TEXTLANG || tag == constants::IPP_TAG_URI || tag
        == constants::IPP_TAG_CHARSET || tag == constants::IPP_TAG_LANGUAGE || tag
        == constants::IPP_TAG_MIMETYPE
}

/// Which accessor to ask for the values of an attribute with value tag `tag`.
pub fn accessor_for(tag: u32) -> (accessor: Accessor)
    ensures
        accessor == accessor_of(tag),
{
    if tag == constants::IPP_TAG_INTEGER || tag == constants::IPP_TAG_ENUM {
        Accessor::Integer
    } else if tag == constants::IPP_TAG_BOOLEAN {
        Accessor::Boolean
    } else if tag == constants::IPP_TAG_RANGE {
        Accessor::Range
    } else if tag == constants::IPP_TAG_RESOLUTION {
        Accessor::Resolution
    } else if text_tag(tag) {
        Accessor::Text
    } else {
        Accessor::Nothing
    }
}

/// What an accessor answered for one element of an attribute.
#[derive(Debug, PartialEq, Eq)]
pub enum RawElement {
    Nothing,
    Integer(i32),
    Boolean(bool),
    Range { lower: i32, upper: i32 },
    Resolution { cross_feed: i32, feed: i32, units: i32 },
    /// `None` when libcups returned no string.
    Text(Option<String>),
}

/// An attribute as libcups holds it: one value tag and the accessor's answer
/// for each element.
#[derive(Debug, PartialEq, Eq)]
pub struct RawAttribute {
    pub tag: u32,
    pub elements: Vec<RawElement>,
}

/// A string-like value of tag `tag`.
pub open spec fn text_value(tag: u32, text: Seq<char>) -> IppValueView {
    if tag == constants::IPP_TAG_KEYWORD {
        IppValueView::Keyword(text)
    } else if tag == constants::IPP_TAG_NAME || tag == constants::IPP_TAG_NAMELANG {
        IppValueView::Name(text)
    } else if tag == constants::IPP_TAG_TEXT || tag == constants::IPP_TAG_TEXTLANG {
        IppValueView::Text(text)
    } else if tag == constants::IPP_TAG_URI {
        IppValueView::Uri(text)
    } else if tag == constants::IPP_TAG_CHARSET {
        IppValueView::Charset(text)
    } else if tag == constants::IPP_TAG_LANGUAGE {
        IppValueView::Language(text)
    } else {
        IppValueView::MimeType(text)
    }
}

/// The value that an element of an attribute with value tag `tag` stands for.
/// The tag decides how the element is read; `None` when a tag that should
/// carry data yielded none.
pub open spec fn decoded(tag: u32, element: RawElement) -> Option<IppValueView> {
    if tag == constants::IPP_TAG_NOVALUE {
        Some(IppValueView::NoValue)
    } else if tag == constants::IPP_TAG_UNKNOWN {
        Some(IppValueView::Unknown)
    } else if tag == constants::IPP_TAG_UNSUPPORTED_VALUE {
        Some(IppValueView::Unsupported)
    } else {
        match accessor_of(tag) {
            Accessor::Nothing => Some(IppValueView::UnknownTag { tag }),
            Accessor::Integer => match element {
                RawElement::Integer(value) => Some(
                    if tag == constants::IPP_TAG_ENUM {
                        IppValueView::Enum(value)
                    } else {
                        IppValueView::Integer(value)
                    },
                ),
                _ => None,
            },
            Accessor::Boolean => match element {
                RawElement::Boolean(value) => Some(IppValueView::Boolean(value)),
                _ => None,
            },
            Accessor::Range => match element {
                RawElement::Range { lower, upper } => Some(IppValueView::Range { lower, upper }),
                _ => None,
            },
            Accessor::Resolution => match element {
                RawElement::Resolution { cross_feed, feed, units } => Some(
                    IppValueView::Resolution {
                        cross_feed,
                        feed,
                        units: ResolutionUnits::of_code(units),
                    },
                ),
                _ => None,
            },
            Accessor::Text => match element {
                RawElement::Text(Some(text)) => Some(text_value(tag, text@)),
                _ => None,
            },
        }
    }
}

/// What the elements of an attribute decode to, in order, without those that
/// yielded nothing.
pub open spec fn decoded_all(tag: u32, elements: Seq<RawElement>) -> Seq<IppValueView>
    decreases elements.len(),
{
    if elements.len() == 0 {
        seq![]
    } else {
        let earlier = decoded_all(tag, elements.drop_last());
        match decoded(tag, elements.last()) {
            Some(value) => earlier.push(value),
            None => earlier,
        }
    }
}

/// The values of a list.
pub open spec fn value_views(values: Seq<IppValue>) -> Seq<IppValueView> {
    values.map_values(|value: IppValue| value@)
}

/// Decode one value of `attr` at `index`, dispatching on the attribute's
/// actual value tag.
///
/// Returns `None` only when a tag that should carry data yields nothing, a
/// malformed attribute, so callers can tell that apart from a tag that is
/// merely undecoded (`UnknownTag`).
pub fn decode_value(attr: &RawAttribute, index: usize) -> (value: Option<IppValue>)
    requires
        index < attr.elements@.len(),
    ensures
        value is Some == decoded(attr.tag, attr.elements@[index as int]) is Some,
        value matches Some(found) ==> Some(found@) == decoded(
            attr.tag,
            attr.elements@[index as int],
        ),
{
    let tag = attr.tag;
    let element = &attr.elements[index];
    // Out-of-band tags carry no data; they are the answer themselves.
    if tag == constants::IPP_TAG_NOVALUE {
        return Some(IppValue::NoValue);
    }
    if tag == constants::IPP_TAG_UNKNOWN {
        return Some(IppValue::Unknown);
    }
    if tag == constants::IPP_TAG_UNSUPPORTED_VALUE {
        return Some(IppValue::Unsupported);
    }
    match (accessor_for(tag), element) {
        // Anything without an accessor keeps its tag identity rather than
        // being forced into a type it is not.
        (Accessor::Nothing, _) => Some(IppValue::UnknownTag { tag }),
        (Accessor::Integer, RawElement::Integer(value)) => Some(
            if tag == constants::IPP_TAG_ENUM {
                IppValue::Enum(*value)
            } else {
                IppValue::Integer(*value)
            },
        ),
        (Accessor::Boolean, RawElement::Boolean(value)) => Some(IppValue::Boolean(*value)),
        (Accessor::Range, RawElement::Range { lower, upper }) => Some(
            IppValue::Range { lower: *lower, upper: *upper },
        ),
        (Accessor::Resolution, RawElement::Resolution { cross_feed, feed, units }) => Some(
            IppValue::Resolution {
                cross_feed: *cross_feed,
                feed: *feed,
                units: ResolutionUnits::from_code(*units),
            },
        ),
        (Accessor::Text, RawElement::Text(Some(text))) => Some(string_value(tag, text.clone())),
        _ => None,
    }
}

/// Each string-like tag keeps its own variant so a keyword is never mistaken
/// for free text.
fn string_value(tag: u32, text: String) -> (value: IppValue)
    ensures
        value@ == text_value(tag, text@),
{
    if tag == constants::IPP_TAG_KEYWORD {
        IppValue::Keyword(text)
    } else if tag == constants::IPP_TAG_NAME || tag == constants::IPP_TAG_NAMELANG {
        IppValue::Name(text)
    } else if tag == constants::IPP_TAG_TEXT || tag == constants::IPP_TAG_TEXTLANG {
        IppValue::Text(text)
    } else if tag == constants::IPP_TAG_URI {
        IppValue::Uri(text)
    } else if tag == constants::IPP_TAG_CHARSET {
        IppValue::Charset(text)
    } else if tag == constants::IPP_TAG_LANGUAGE {
        IppValue::Language(text)
    } else {
        IppValue::MimeType(text)
    }
}

/// Decode every value of `attr`.
pub fn decode_all(attr: &RawAttribute) -> (values: Vec<IppValue>)
    ensures
        value_views(values@) == decoded_all(attr.tag, attr.elements@),
{
    let mut values: Vec<IppValue> = Vec::new();
    let count: usize = attr.elements.len();
    let mut index: usize = 0;
    assert(value_views(values@) == decoded_all(attr.tag, attr.elements@.take(0)));
    while index < count
        invariant
            index <= count == attr.elements@.len(),
            value_views(values@) == decoded_all(attr.tag, attr.elements@.take(index as int)),
        decreases count - index,
    {
        let ghost earlier = value_views(values@);
        assert(attr.elements@.take(index + 1).drop_last() == attr.elements@.take(index as int));
        if let Some(value) = decode_value(attr, index) {
            values.push(value);
            assert(value_views(values@) == earlier.push(value@));
        }
        index += 1;
    }
    assert(attr.elements@.take(index as int) == attr.elements@);
    values
}

/// A value is read by the accessor of its tag and by no other: an out-of-band
/// tag never decodes to data, and data never decodes to an out-of-band marker.
pub proof fn law_out_of_band_is_not_data(tag: u32, element: RawElement)
    ensures
        decoded(tag, element) matches Some(value) ==> (value.out_of_band() <==> (tag
            == constants::IPP_TAG_NOVALUE || tag == constants::IPP_TAG_UNKNOWN || tag
            == constants::IPP_TAG_UNSUPPORTED_VALUE)),
        decoded(tag, element) matches Some(value) ==> (value is UnknownTag ==> value
            == (IppValueView::UnknownTag { tag })),
{
}

/// A range is not a single number, yet it permits every number between its
/// inclusive bounds.
pub proof fn law_range_permits_its_bounds(lower: i32, upper: i32, candidate: i32)
    ensures
        (IppValueView::Range { lower, upper }).integer() is None,
        (IppValueView::Range { lower, upper }).accepts(candidate) <==> lower <= candidate <= upper,
{
}

/// Decoding keeps the data. An element is read by the accessor that its tag
/// calls for, and the value carries exactly what was read: the same truth
/// value, the same number, the same bounds, the same resolution, the same text,
/// under the kind of its tag.
pub proof fn law_decoding_keeps_the_data(
    truth: bool,
    number: i32,
    upper: i32,
    units: i32,
    text: String,
)
    ensures
        decoded(0x22, RawElement::Boolean(truth)) == Some(IppValueView::Boolean(truth)),
        decoded(0x21, RawElement::Integer(number)) == Some(IppValueView::Integer(number)),
        decoded(0x23, RawElement::Integer(number)) == Some(IppValueView::Enum(number)),
        decoded(0x33, RawElement::Range { lower: number, upper }) == Some(
            IppValueView::Range { lower: number, upper },
        ),
        decoded(0x32, RawElement::Resolution { cross_feed: number, feed: upper, units }) == Some(
            IppValueView::Resolution {
                cross_feed: number,
                feed: upper,
                units: ResolutionUnits::of_code(units),
            },
        ),
        decoded(0x44, RawElement::Text(Some(text))) == Some(IppValueView::Keyword(text@)),
        decoded(0x42, RawElement::Text(Some(text))) == Some(IppValueView::Name(text@)),
        decoded(0x36, RawElement::Text(Some(text))) == Some(IppValueView::Name(text@)),
        decoded(0x41, RawElement::Text(Some(text))) == Some(IppValueView::Text(text@)),
        decoded(0x35, RawElement::Text(Some(text))) == Some(IppValueView::Text(text@)),
        decoded(0x45, RawElement::Text(Some(text))) == Some(IppValueView::Uri(text@)),
        decoded(0x47, RawElement::Text(Some(text))) == Some(IppValueView::Charset(text@)),
        decoded(0x48, RawElement::Text(Some(text))) == Some(IppValueView::Language(text@)),
        decoded(0x49, RawElement::Text(Some(text))) == Some(IppValueView::MimeType(text@)),
{
}

/// A tag decides what its values are, whatever was read: the out-of-band tags
/// are their own answer, a data tag gives its own kind of value or nothing, a
/// string that libcups did not return gives nothing, and every tag without an
/// accessor keeps its number.
pub proof fn law_the_tag_decides_the_kind(tag: u32, element: RawElement)
    ensures
        ({
            let value = decoded(tag, element);
            &&& tag == 0x13 <==> value == Some(IppValueView::NoValue)
            &&& tag == 0x12 <==> value == Some(IppValueView::Unknown)
            &&& tag == 0x10 <==> value == Some(IppValueView::Unsupported)
            &&& value matches Some(found) ==> {
                &&& found is Integer <==> tag == 0x21
                &&& found is Boolean <==> tag == 0x22
                &&& found is Enum <==> tag == 0x23
                &&& found is Resolution <==> tag == 0x32
                &&& found is Range <==> tag == 0x33
                &&& found is Name <==> tag == 0x42 || tag == 0x36
                &&& found is Text <==> tag == 0x41 || tag == 0x35
                &&& found is Keyword <==> tag == 0x44
                &&& found is Uri <==> tag == 0x45
                &&& found is Charset <==> tag == 0x47
                &&& found is Language <==> tag == 0x48
                &&& found is MimeType <==> tag == 0x49
            }
            &&& !seq![
                0x10u32, 0x12, 0x13, 0x21, 0x22, 0x23, 0x32, 0x33, 0x35, 0x36, 0x41, 0x42, 0x44,
                0x45, 0x47, 0x48, 0x49,
            ].contains(tag) <==> value == Some(IppValueView::UnknownTag { tag })
        }),
        tag == 0x21 || tag == 0x23 ==> accessor_of(tag) is Integer,
        tag == 0x22 <==> accessor_of(tag) is Boolean,
        tag == 0x33 <==> accessor_of(tag) is Range,
        tag == 0x32 <==> accessor_of(tag) is Resolution,
        accessor_of(tag) is Text ==> decoded(tag, RawElement::Text(None)) is None,
{
    let known = seq![
        0x10u32, 0x12, 0x13, 0x21, 0x22, 0x23, 0x32, 0x33, 0x35, 0x36, 0x41, 0x42, 0x44, 0x45,
        0x47, 0x48, 0x49,
    ];
    assert(known.len() == 17);
    assert(known[0] == 0x10 && known[1] == 0x12 && known[2] == 0x13 && known[3] == 0x21);
    assert(known[4] == 0x22 && known[5] == 0x23 && known[6] == 0x32 && known[7] == 0x33);
    assert(known[8] == 0x35 && known[9] == 0x36 && known[10] == 0x41 && known[11] == 0x42);
    assert(known[12] == 0x44 && known[13] == 0x45 && known[14] == 0x47 && known[15] == 0x48);
    assert(known[16] == 0x49);
}

/// Different data decodes to different values: what two elements of one tag
/// share after decoding, they shared before.
pub proof fn law_decoding_loses_nothing(tag: u32, one: RawElement, other: RawElement)
    requires
        !(accessor_of(tag) is Nothing),
        decoded(tag, one) is Some,
        decoded(tag, one) == decoded(tag, other),
    ensures
        match (one, other) {
            (RawElement::Integer(a), RawElement::Integer(b)) => a == b,
            (RawElement::Boolean(a), RawElement::Boolean(b)) => a == b,
            (
                RawElement::Range { lower, upper },
                RawElement::Range { lower: low, upper: high },
            ) => lower == low && upper == high,
            (
                RawElement::Resolution { cross_feed, feed, units },
                RawElement::Resolution { cross_feed: across, feed: along, units: code },
            ) => cross_feed == across && feed == along && ResolutionUnits::of_code(units)
                == ResolutionUnits::of_code(code),
            (RawElement::Text(Some(a)), RawElement::Text(Some(b))) => a@ == b@,
            _ => false,
        },
{
}

/// Every element of an attribute is decoded, once and in order: two stretches
/// decode to what each decodes to, and a single element to its value or to
/// nothing. If every element carries data, none is missing.
pub proof fn law_every_element_is_decoded(
    tag: u32,
    first: Seq<RawElement>,
    second: Seq<RawElement>,
    one: RawElement,
)
    ensures
        decoded_all(tag, first + second) == decoded_all(tag, first) + decoded_all(tag, second),
        decoded_all(tag, seq![one]) == (match decoded(tag, one) {
            Some(value) => seq![value],
            None => seq![],
        }),
        decoded_all(tag, seq![]) == Seq::<IppValueView>::empty(),
        decoded_all(tag, second).len() <= second.len(),
        (forall|i: int| 0 <= i < second.len() ==> decoded(tag, #[trigger] second[i]) is Some)
            ==> decoded_all(tag, second).len() == second.len() && forall|i: int|
            0 <= i < second.len() ==> Some(decoded_all(tag, second)[i]) == decoded(
                tag,
                #[trigger] second[i],
            ),
    decreases second.len(),
{
    assert(seq![one].drop_last() =~= seq![]);
    assert(seq![one].last() == one);
    assert(decoded_all(tag, seq![]) =~= Seq::<IppValueView>::empty());
    if let Some(value) = decoded(tag, one) {
        assert(Seq::<IppValueView>::empty().push(value) =~= seq![value]);
    }
    let whole = first + second;
    if second.len() > 0 {
        let shorter = second.drop_last();
        law_every_element_is_decoded(tag, first, shorter, one);
        assert(whole.drop_last() =~= first + shorter);
        assert(whole.last() == second.last());
        if forall|i: int| 0 <= i < second.len() ==> decoded(tag, #[trigger] second[i]) is Some {
            assert forall|i: int| 0 <= i < shorter.len() implies decoded(
                tag,
                #[trigger] shorter[i],
            ) is Some by {
                assert(shorter[i] == second[i]);
            }
            assert(second.last() == second[second.len() - 1]);
            assert forall|i: int| 0 <= i < second.len() implies Some(decoded_all(tag, second)[i])
                == decoded(tag, #[trigger] second[i]) by {
                if i < shorter.len() {
                    assert(shorter[i] == second[i]);
                }
            }
        }
    } else {
        assert(whole =~= first);
    }
    assert(decoded_all(tag, whole) =~= decoded_all(tag, first) + decoded_all(tag, second));
}

/// Units are per inch for 3, per centimetre for 4, and kept as they are
/// otherwise.
pub proof fn law_units_are_those_of_ipp(code: i32)
    ensures
        ResolutionUnits::of_code(code) is PerInch <==> code == 3,
        ResolutionUnits::of_code(code) is PerCentimeter <==> code == 4,
        code != 3 && code != 4 ==> ResolutionUnits::of_code(code) == ResolutionUnits::Other(code),
{
}

/// What can be asked of a value: a number and an enum are their own number and
/// accept nothing else, a text is its own text, and everything else is neither.
pub proof fn law_values_answer_for_themselves(
    value: IppValueView,
    number: i32,
    candidate: i32,
    text: Seq<char>,
)
    ensures
        IppValueView::Integer(number).integer() == Some(number),
        IppValueView::Enum(number).integer() == Some(number),
        value.integer() is Some <==> value is Integer || value is Enum,
        IppValueView::Integer(number).accepts(candidate) <==> candidate == number,
        IppValueView::Enum(number).accepts(candidate) <==> candidate == number,
        value.accepts(candidate) ==> value is Integer || value is Enum || value is Range,
        IppValueView::Keyword(text).text() == Some(text),
        IppValueView::Name(text).text() == Some(text),
        IppValueView::Text(text).text() == Some(text),
        IppValueView::Uri(text).text() == Some(text),
        IppValueView::Charset(text).text() == Some(text),
        IppValueView::Language(text).text() == Some(text),
        IppValueView::MimeType(text).text() == Some(text),
        value.text() is Some ==> value is Keyword || value is Name || value is Text || value is Uri
            || value is Charset || value is Language || value is MimeType,
        value.out_of_band() <==> value is NoValue || value is Unknown || value is Unsupported,
{
}

/// A value says what it is: its kind, and what it carries.
pub proof fn law_value_says_what_it_is(value: IppValue, list: Seq<IppValue>)
    ensures
        value@ is Keyword <==> value is Keyword,
        value matches IppValue::Keyword(text) ==> value@ == IppValueView::Keyword(text@),
        value@ is Name <==> value is Name,
        value matches IppValue::Name(text) ==> value@ == IppValueView::Name(text@),
        value@ is Text <==> value is Text,
        value matches IppValue::Text(text) ==> value@ == IppValueView::Text(text@),
        value@ is Uri <==> value is Uri,
        value matches IppValue::Uri(text) ==> value@ == IppValueView::Uri(text@),
        value@ is Charset <==> value is Charset,
        value matches IppValue::Charset(text) ==> value@ == IppValueView::Charset(text@),
        value@ is Language <==> value is Language,
        value matches IppValue::Language(text) ==> value@ == IppValueView::Language(text@),
        value@ is MimeType <==> value is MimeType,
        value matches IppValue::MimeType(text) ==> value@ == IppValueView::MimeType(text@),
        value@ is Integer <==> value is Integer,
        value matches IppValue::Integer(data) ==> value@ == IppValueView::Integer(data),
        value@ is Enum <==> value is Enum,
        value matches IppValue::Enum(data) ==> value@ == IppValueView::Enum(data),
        value@ is Boolean <==> value is Boolean,
        value matches IppValue::Boolean(data) ==> value@ == IppValueView::Boolean(data),
        value@ is Range <==> value is Range,
        value matches IppValue::Range { lower, upper } ==> value@ == (IppValueView::Range {
            lower,
            upper,
        }),
        value@ is Resolution <==> value is Resolution,
        value matches IppValue::Resolution { cross_feed, feed, units } ==> value@ == (
        IppValueView::Resolution { cross_feed, feed, units }),
        value@ is NoValue <==> value is NoValue,
        value@ is Unknown <==> value is Unknown,
        value@ is Unsupported <==> value is Unsupported,
        value matches IppValue::UnknownTag { tag } ==> value@ == (IppValueView::UnknownTag { tag }),
        value_views(list).len() == list.len(),
        forall|i: int| 0 <= i < list.len() ==> #[trigger] value_views(list)[i] == list[i]@,
{
}

} // verus!
