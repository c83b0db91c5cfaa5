//! Media sizes and media queries.
//!
//! Sizes are carried as integer micrometres. CUPS stores them in hundredths
//! of a millimetre, so the conversion is exact and never goes through a
//! floating-point number: a caller asking "is this exactly 100 mm?" should not
//! have to reason about floating-point equality.

use vstd::prelude::*;
use vstd::string::*;

use crate::constants;
use crate::provider::attribute::AttributeState;
use crate::provider::value::IppValue;

verus! {

/// One hundredth of a millimetre, the unit CUPS stores media sizes in.
pub const UM_PER_CUPS_UNIT: u32 = 10;

/// The largest CUPS dimension whose micrometres fit in a `u32`: over four
/// kilometres.
pub const MAX_CUPS_UNITS: i32 = 429_496_729;

/// A CUPS media dimension (1/100 mm) in micrometres, as a `u32` holds it.
pub open spec fn um_of(value: i32) -> u32 {
    if value <= 0 {
        0
    } else {
        ((value * UM_PER_CUPS_UNIT) % 0x1_0000_0000) as u32
    }
}

/// Convert a CUPS media dimension (1/100 mm) to micrometres.
///
/// Exact integer arithmetic up to [`MAX_CUPS_UNITS`], and modulo 2^32 above;
/// negative inputs are clamped to zero because a negative physical dimension
/// is meaningless.
pub fn cups_units_to_um(value: i32) -> (um: u32)
    ensures
        um == um_of(value),
{
    if value <= 0 {
        0
    } else {
        (value as u32).wrapping_mul(UM_PER_CUPS_UNIT)
    }
}

/// Micrometres in CUPS units, rounded down.
pub open spec fn units_of(um: u32) -> int {
    um as int / UM_PER_CUPS_UNIT as int
}

/// Micrometres in CUPS units. CUPS stores media sizes in hundredths of a
/// millimetre.
pub fn um_to_cups_units(um: u32) -> (units: i32)
    ensures
        units == units_of(um),
{
    (um / UM_PER_CUPS_UNIT) as i32
}

/// Every dimension CUPS can state within four kilometres converts exactly, and
/// converting it back gives it again.
pub proof fn law_cups_units_convert_exactly(value: i32)
    requires
        0 <= value <= MAX_CUPS_UNITS,
    ensures
        um_of(value) == value * UM_PER_CUPS_UNIT,
        um_of(value) / UM_PER_CUPS_UNIT == value,
{
}

/// Which media list CUPS should consult.
///
/// The numeric flags stay inside this module; callers should never handle
/// them. Borderless is 1, and 2 is the duplex flag, which measures the wrong
/// thing.
///
/// CUPS 2 declares the flags as `#define`s and CUPS 3 as an enum, but both
/// headers give the same values (`cups/cups.h` in each release), which is what
/// makes one typed query usable against either version.
#[derive(Clone, Copy, Debug, PartialEq, Eq, Structural)]
pub enum MediaQuery {
    /// CUPS' default matching.
    Default,
    /// Borderless / full-bleed variants.
    Borderless,
    /// Exact dimensional matches only.
    Exact,
    /// Only media currently loaded.
    Ready,
}

impl MediaQuery {
    /// The media flag of this query.
    pub open spec fn flag(self) -> u32 {
        match self {
            MediaQuery::Default => constants::MEDIA_FLAGS_DEFAULT,
            MediaQuery::Borderless => constants::MEDIA_FLAGS_BORDERLESS,
            MediaQuery::Exact => constants::MEDIA_FLAGS_EXACT,
            MediaQuery::Ready => constants::MEDIA_FLAGS_READY,
        }
    }

    /// The media-flag value this query maps to.
    pub fn flags(self) -> (flags: u32)
        ensures
            flags == self.flag(),
    {
        match self {
            MediaQuery::Default => constants::MEDIA_FLAGS_DEFAULT,
            MediaQuery::Borderless => constants::MEDIA_FLAGS_BORDERLESS,
            MediaQuery::Exact => constants::MEDIA_FLAGS_EXACT,
            MediaQuery::Ready => constants::MEDIA_FLAGS_READY,
        }
    }
}

/// No two queries share a flag, so none can return another's media list.
pub proof fn law_media_flags_are_distinct(query: MediaQuery, other: MediaQuery)
    ensures
        query.flag() == other.flag() <==> query == other,
        query.flag() != constants::MEDIA_FLAGS_DUPLEX,
{
}

/// Margins around a media size, in micrometres.
#[derive(Clone, Copy, Debug, PartialEq, Eq, Structural)]
pub struct Margins {
    pub top_um: u32,
    pub bottom_um: u32,
    pub left_um: u32,
    pub right_um: u32,
}

impl Default for Margins {
    fn default() -> (none: Self)
        ensures
            none == (Margins { top_um: 0, bottom_um: 0, left_um: 0, right_um: 0 }),
    {
        Margins { top_um: 0, bottom_um: 0, left_um: 0, right_um: 0 }
    }
}

impl Margins {
    /// Whether there is no margin on any side.
    pub open spec fn full_bleed(self) -> bool {
        self.top_um == 0 && self.bottom_um == 0 && self.left_um == 0 && self.right_um == 0
    }

    /// Whether every margin is zero, i.e. the sheet can be printed edge to
    /// edge.
    pub fn is_full_bleed(&self) -> (zero: bool)
        ensures
            zero == self.full_bleed(),
    {
        self.top_um == 0 && self.bottom_um == 0 && self.left_um == 0 && self.right_um == 0
    }
}

/// A media size as the printer described it.
#[derive(Debug, PartialEq, Eq)]
pub struct MediaDescriptor {
    /// The PWG self-describing name, e.g. `jpn_hagaki_100x148mm`.
    pub canonical_name: String,
    pub width_um: u32,
    pub length_um: u32,
    pub margins: Margins,
    /// Whether this descriptor came back from a borderless query and has no
    /// margins. Callers should not infer this from the name.
    pub borderless: bool,
}

/// What a [`MediaDescriptor`] says.
pub struct MediaView {
    pub canonical_name: Seq<char>,
    pub width_um: u32,
    pub length_um: u32,
    pub margins: Margins,
    pub borderless: bool,
}

impl View for MediaDescriptor {
    type V = MediaView;

    open spec fn view(&self) -> MediaView {
        MediaView {
            canonical_name: self.canonical_name@,
            width_um: self.width_um,
            length_um: self.length_um,
            margins: self.margins,
            borderless: self.borderless,
        }
    }
}

impl Clone for MediaDescriptor {
    fn clone(&self) -> (copy: Self)
        ensures
            copy == *self,
    {
        MediaDescriptor {
            canonical_name: self.canonical_name.clone(),
            width_um: self.width_um,
            length_um: self.length_um,
            margins: self.margins,
            borderless: self.borderless,
        }
    }
}

/// Whether two lengths differ by at most `tolerance_um`.
pub open spec fn near(actual: u32, expected: u32, tolerance_um: u32) -> bool {
    -tolerance_um <= actual - expected <= tolerance_um
}

impl MediaView {
    /// Whether both dimensions were reported.
    pub open spec fn known_dimensions(self) -> bool {
        self.width_um > 0 && self.length_um > 0
    }

    /// Whether the size was reported and is the given one, within a tolerance.
    pub open spec fn sized(self, width_um: u32, length_um: u32, tolerance_um: u32) -> bool {
        &&& self.known_dimensions()
        &&& near(self.width_um, width_um, tolerance_um)
        &&& near(self.length_um, length_um, tolerance_um)
    }

    /// Whether this is a 100 x 148 mm postcard.
    pub open spec fn postcard(self) -> bool {
        self.sized(POSTCARD_WIDTH_UM, POSTCARD_LENGTH_UM, POSTCARD_TOLERANCE_UM)
    }
}

impl MediaDescriptor {
    /// Whether the printer gave real dimensions for this media.
    ///
    /// Ready media is reported by name; CUPS does not always resolve that name
    /// to a size. A zero here means "the size was not reported", not a sheet
    /// with no area, and size comparisons on such an entry are meaningless.
    pub fn has_known_dimensions(&self) -> (known: bool)
        ensures
            known == self@.known_dimensions(),
    {
        self.width_um > 0 && self.length_um > 0
    }

    /// Whether this media is `width_um` x `length_um` within `tolerance_um`.
    ///
    /// Real printers do not always report exact figures (a 100 x 148 mm card
    /// may come back as 100.2 x 147.8 mm), so an exact comparison would reject
    /// media that is physically correct.
    pub fn matches_size(&self, width_um: u32, length_um: u32, tolerance_um: u32) -> (same: bool)
        ensures
            same == self@.sized(width_um, length_um, tolerance_um),
    {
        // An entry whose size was never reported matches nothing; treating it
        // as 0 x 0 would let a large tolerance make it match anything.
        self.has_known_dimensions() && within(self.width_um, width_um, tolerance_um) && within(
            self.length_um,
            length_um,
            tolerance_um,
        )
    }

    /// Whether this is a 100 x 148 mm postcard, judged by its dimensions
    /// rather than by its name.
    pub fn is_postcard_100x148(&self) -> (postcard: bool)
        ensures
            postcard == self@.postcard(),
    {
        self.matches_size(POSTCARD_WIDTH_UM, POSTCARD_LENGTH_UM, POSTCARD_TOLERANCE_UM)
    }
}

fn within(actual: u32, expected: u32, tolerance_um: u32) -> (close: bool)
    ensures
        close == near(actual, expected, tolerance_um),
{
    if actual >= expected {
        actual - expected <= tolerance_um
    } else {
        expected - actual <= tolerance_um
    }
}

/// 100 mm, the width of a Japanese postcard.
pub const POSTCARD_WIDTH_UM: u32 = 100_000;

/// 148 mm, the length of a Japanese postcard.
pub const POSTCARD_LENGTH_UM: u32 = 148_000;

/// How far a reported dimension may sit from the nominal one and still count
/// as the same sheet.
///
/// 0.5 mm covers the rounding real queues were observed to apply while
/// staying far below the gap to any neighbouring stock size.
pub const POSTCARD_TOLERANCE_UM: u32 = 500;

/// Media whose size was never reported matches no size, whatever the
/// tolerance.
pub proof fn law_unreported_size_matches_nothing(
    media: MediaView,
    width_um: u32,
    length_um: u32,
    tolerance_um: u32,
)
    requires
        media.width_um == 0 || media.length_um == 0,
    ensures
        !media.sized(width_um, length_um, tolerance_um),
{
}

/// The descriptors of a list.
pub open spec fn media_views(list: Seq<MediaDescriptor>) -> Seq<MediaView> {
    list.map_values(|media: MediaDescriptor| media@)
}

/// What a ready-media query found.
///
/// `Present(vec![])` and `NotAdvertised` are different answers: the first
/// means the printer reported an empty ready list, the second means it never
/// reported one. Neither means "no paper is loaded"; CUPS simply may not know.
#[derive(Debug, PartialEq, Eq)]
pub enum ReadyMedia {
    Present(Vec<MediaDescriptor>),
    NotAdvertised,
}

impl Clone for ReadyMedia {
    fn clone(&self) -> (copy: Self)
        ensures
            copy is Present == self is Present,
            copy.listed() == self.listed(),
    {
        match self {
            ReadyMedia::Present(values) => {
                let mut copies: Vec<MediaDescriptor> = Vec::new();
                let mut at: usize = 0;
                while at < values.len()
                    invariant
                        at <= values@.len(),
                        copies@ == values@.take(at as int),
                    decreases values@.len() - at,
                {
                    copies.push(values[at].clone());
                    at += 1;
                }
                assert(values@.take(at as int) == values@);
                ReadyMedia::Present(copies)
            },
            ReadyMedia::NotAdvertised => ReadyMedia::NotAdvertised,
        }
    }
}

impl ReadyMedia {
    /// The descriptors, none when none were reported.
    pub open spec fn listed(self) -> Seq<MediaDescriptor> {
        match self {
            ReadyMedia::Present(values) => values@,
            ReadyMedia::NotAdvertised => seq![],
        }
    }

    /// Whether the printer told us anything about loaded media.
    ///
    /// When this is false the loaded media is unknown, which is not the same
    /// as it being absent.
    pub fn is_known(&self) -> (known: bool)
        ensures
            known == (self is Present),
    {
        matches!(self, ReadyMedia::Present(_))
    }

    pub fn descriptors(&self) -> (list: &[MediaDescriptor])
        ensures
            list@ == self.listed(),
    {
        match self {
            ReadyMedia::Present(values) => values.as_slice(),
            ReadyMedia::NotAdvertised => &[],
        }
    }
}

/// Media types and sources come back as plain IPP values; vendor keywords
/// such as `com.canon.mthagakia` are passed through untouched because their
/// meaning is the caller's to decide.
pub type MediaKeywords = AttributeState<IppValue>;

/// Ten micrometres to the unit, and no length below zero.
pub proof fn law_a_unit_is_ten_micrometres(value: i32, next: i32)
    ensures
        value <= 0 ==> um_of(value) == 0,
        0 <= value < 429_496_729 && next == value + 1 ==> um_of(next) == um_of(value) + 10,
        0 <= value <= 429_496_729 ==> um_of(value) == value * 10,
        UM_PER_CUPS_UNIT == 10,
{
}

/// The flag of each query, as `cups/cups.h` has it.
pub proof fn law_media_flags_are_those_of_cups(query: MediaQuery)
    ensures
        query.flag() == 0 <==> query is Default,
        query.flag() == 1 <==> query is Borderless,
        query.flag() == 4 <==> query is Exact,
        query.flag() == 8 <==> query is Ready,
{
}

/// A sheet is borderless when there is no margin on any of its four sides.
pub proof fn law_full_bleed_means_no_margin(margins: Margins)
    ensures
        margins.full_bleed() <==> margins.top_um == 0 && margins.bottom_um == 0
            && margins.left_um == 0 && margins.right_um == 0,
{
}

/// Media matches a size when both of its dimensions were reported and neither
/// is off by more than the tolerance, to either side. A wider tolerance matches
/// whatever a narrower one does.
pub proof fn law_sizes_match_within_the_tolerance(
    media: MediaView,
    width_um: u32,
    length_um: u32,
    tolerance_um: u32,
    wider_um: u32,
)
    ensures
        media.sized(width_um, length_um, tolerance_um) <==> {
            &&& media.width_um > 0
            &&& media.length_um > 0
            &&& media.width_um <= width_um + tolerance_um
            &&& width_um <= media.width_um + tolerance_um
            &&& media.length_um <= length_um + tolerance_um
            &&& length_um <= media.length_um + tolerance_um
        },
        tolerance_um <= wider_um && media.sized(width_um, length_um, tolerance_um) ==> media.sized(
            width_um,
            length_um,
            wider_um,
        ),
        media.known_dimensions() ==> media.sized(media.width_um, media.length_um, tolerance_um),
        media.known_dimensions() <==> media.width_um != 0 && media.length_um != 0,
{
}

/// A postcard is 100 by 148 millimetres, give or take half a millimetre.
pub proof fn law_a_postcard_is_100_by_148_mm(media: MediaView)
    ensures
        media.postcard() <==> 99_500 <= media.width_um <= 100_500 && 147_500 <= media.length_um
            <= 148_500,
{
}

/// A descriptor says what it is, and a list of them says what each is.
pub proof fn law_media_says_what_it_is(
    media: MediaDescriptor,
    list: Seq<MediaDescriptor>,
    ready: ReadyMedia,
)
    ensures
        media@.canonical_name == media.canonical_name@,
        media@.width_um == media.width_um,
        media@.length_um == media.length_um,
        media@.margins == media.margins,
        media@.borderless == media.borderless,
        media_views(list).len() == list.len(),
        forall|i: int| 0 <= i < list.len() ==> #[trigger] media_views(list)[i] == list[i]@,
        ready matches ReadyMedia::Present(held) ==> ready.listed() == held@,
        ready is NotAdvertised ==> ready.listed().len() == 0,
{
}

/// Converting to CUPS units never gains a length and loses less than one unit,
/// and undoes the conversion from them. Beyond what 32 bits hold, micrometres
/// wrap around.
pub proof fn law_units_are_rounded_down(um: u32, value: i32)
    ensures
        units_of(um) * 10 <= um < units_of(um) * 10 + 10,
        0 <= value <= 429_496_729 ==> units_of(um_of(value)) == value,
        value > 429_496_729 ==> um_of(value) == (value * 10) % 4_294_967_296,
{
}

} // verus!
