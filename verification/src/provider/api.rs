//! The read-only answers: everything a caller needs to decide whether a
//! printer can do a job, with none of the machinery underneath.
//!
//! Each function takes what libcups was asked and what it returned, as plain
//! values, and says what the caller is told.

use vstd::prelude::*;
use vstd::string::*;

use crate::destination::{self, Destination, LookupFailure, MediaSize, PrinterState};
use crate::provider::attribute::{AttributeState, AttributeView};
use crate::provider::error::{self, ErrorView, ProviderError, ProviderResult};
use crate::provider::media::{
    self, cups_units_to_um, Margins, MediaDescriptor, MediaQuery, MediaView, ReadyMedia,
};
use crate::provider::value::{self, decode_all, IppValue, IppValueView, RawAttribute};
use crate::text::{self, contains_char, decimal};

verus! {

/// A printer, described without reference to any CUPS handle.
#[derive(Clone, Debug, PartialEq, Eq)]
pub struct PrinterSummary {
    pub name: String,
    pub full_name: String,
    pub is_default: bool,
    pub state: PrinterState,
    pub accepting_jobs: bool,
    pub state_reasons: Vec<String>,
    pub info: Option<String>,
    pub location: Option<String>,
    pub make_and_model: Option<String>,
    pub printer_uri: Option<String>,
    pub device_uri: Option<String>,
}

/// What a [`PrinterSummary`] says.
pub struct SummaryView {
    pub name: Seq<char>,
    pub full_name: Seq<char>,
    pub is_default: bool,
    pub state: PrinterState,
    pub accepting_jobs: bool,
    pub state_reasons: Seq<Seq<char>>,
    pub info: Option<Seq<char>>,
    pub location: Option<Seq<char>>,
    pub make_and_model: Option<Seq<char>>,
    pub printer_uri: Option<Seq<char>>,
    pub device_uri: Option<Seq<char>>,
}

impl View for PrinterSummary {
    type V = SummaryView;

    open spec fn view(&self) -> SummaryView {
        SummaryView {
            name: self.name@,
            full_name: self.full_name@,
            is_default: self.is_default,
            state: self.state,
            accepting_jobs: self.accepting_jobs,
            state_reasons: text::texts(self.state_reasons@),
            info: destination::optional_text(self.info),
            location: destination::optional_text(self.location),
            make_and_model: destination::optional_text(self.make_and_model),
            printer_uri: destination::optional_text(self.printer_uri),
            device_uri: destination::optional_text(self.device_uri),
        }
    }
}

/// A destination in summary.
pub open spec fn summary(destination: Destination) -> SummaryView {
    SummaryView {
        name: destination.name@,
        full_name: destination.named(),
        is_default: destination.is_default,
        state: PrinterState::of_option(destination.option("printer-state"@)),
        accepting_jobs: destination.option("printer-is-accepting-jobs"@) == Some("true"@),
        state_reasons: destination.reasons(),
        info: destination.option("printer-info"@),
        location: destination.option("printer-location"@),
        make_and_model: destination.option("printer-make-and-model"@),
        printer_uri: destination.option("printer-uri-supported"@),
        device_uri: destination.option("device-uri"@),
    }
}

/// Destinations in summary, in the same order.
pub open spec fn summaries(destinations: Seq<Destination>) -> Seq<SummaryView> {
    destinations.map_values(|destination: Destination| summary(destination))
}

/// What a list of summaries says.
pub open spec fn summary_views(list: Seq<PrinterSummary>) -> Seq<SummaryView> {
    list.map_values(|printer: PrinterSummary| printer@)
}

/// The first destination marked default, in summary.
pub open spec fn default_of(destinations: Seq<Destination>) -> Option<SummaryView>
    decreases destinations.len(),
{
    if destinations.len() == 0 {
        None
    } else if destinations[0].is_default {
        Some(summary(destinations[0]))
    } else {
        default_of(destinations.skip(1))
    }
}

pub fn summarise(destination: &Destination) -> (printer: PrinterSummary)
    ensures
        printer@ == summary(*destination),
{
    PrinterSummary {
        name: destination.name.clone(),
        full_name: destination.full_name(),
        is_default: destination.is_default,
        state: destination.state(),
        accepting_jobs: destination.is_accepting_jobs(),
        state_reasons: destination.state_reasons(),
        info: destination.info(),
        location: destination.location(),
        make_and_model: destination.make_and_model(),
        printer_uri: destination.uri(),
        device_uri: destination.device_uri(),
    }
}

/// The destination marked default, if the list contains one.
///
/// A failure to obtain the list never reaches here; see [`default_printer`].
pub fn pick_default(destinations: &[Destination]) -> (printer: Option<PrinterSummary>)
    ensures
        printer is Some == default_of(destinations@) is Some,
        printer matches Some(found) ==> Some(found@) == default_of(destinations@),
{
    let mut at: usize = 0;
    assert(destinations@.skip(0) == destinations@);
    while at < destinations.len()
        invariant
            at <= destinations@.len(),
            default_of(destinations@) == default_of(destinations@.skip(at as int)),
        decreases destinations@.len() - at,
    {
        if destinations[at].is_default {
            return Some(summarise(&destinations[at]));
        }
        assert(destinations@.skip(at as int).skip(1) == destinations@.skip(at + 1));
        at += 1;
    }
    None
}

/// What is told of the printers: each of them, or why they could not be listed.
pub open spec fn printers_told(listed: Result<Vec<Destination>, String>) -> Result<
    Seq<SummaryView>,
    ErrorView,
> {
    match listed {
        Ok(destinations) => Ok(summaries(destinations@)),
        Err(why) => Err(ErrorView::ConnectionFailed { detail: why@ }),
    }
}

/// What is told of the default printer: which one it is, that there is none, or
/// why that could not be found out.
pub open spec fn default_told(listed: Result<Vec<Destination>, String>) -> Result<
    Option<SummaryView>,
    ErrorView,
> {
    match listed {
        Ok(destinations) => Ok(default_of(destinations@)),
        Err(why) => Err(
            ErrorView::ConnectionFailed { detail: "could not list destinations: "@ + why@ },
        ),
    }
}

/// Every destination the scheduler knows about. `Err` carries why the list
/// could not be had.
pub fn list_printers(listed: Result<Vec<Destination>, String>) -> (printers: ProviderResult<
    Vec<PrinterSummary>,
>)
    ensures
        (match printers {
            Ok(list) => Ok(summary_views(list@)),
            Err(refusal) => Err(refusal@),
        }) == printers_told(listed),
{
    match listed {
        Err(why) => Err(ProviderError::ConnectionFailed { detail: why }),
        Ok(destinations) => {
            let mut list: Vec<PrinterSummary> = Vec::new();
            let mut at: usize = 0;
            while at < destinations.len()
                invariant
                    at <= destinations@.len(),
                    list@.len() == at,
                    forall|i: int| 0 <= i < at ==> (#[trigger] list@[i])@ == summary(
                        destinations@[i],
                    ),
                decreases destinations@.len() - at,
            {
                list.push(summarise(&destinations[at]));
                at += 1;
            }
            assert(summary_views(list@) =~= summaries(destinations@));
            Ok(list)
        },
    }
}

/// The default destination.
///
/// `Ok(None)` means the scheduler answered and no destination is marked
/// default. A scheduler that could not be reached is an error, not an absent
/// default: those are different facts, and a caller planning a print needs to
/// tell them apart.
pub fn default_printer(listed: Result<Vec<Destination>, String>) -> (printer: ProviderResult<
    Option<PrinterSummary>,
>)
    ensures
        (match printer {
            Ok(Some(found)) => Ok(Some(found@)),
            Ok(None) => Ok(None),
            Err(refusal) => Err(refusal@),
        }) == default_told(listed),
{
    match listed {
        Err(why) => Err(
            ProviderError::ConnectionFailed {
                detail: "could not list destinations: ".to_string().concat(why.as_str()),
            },
        ),
        Ok(destinations) => Ok(pick_default(destinations.as_slice())),
    }
}

/// The error of a lookup that gave no destination. Only a name that no
/// destination has is reported as one; a scheduler that could not be asked is
/// reported as that.
pub open spec fn lookup_error(printer: Seq<char>, failure: LookupFailure) -> ErrorView {
    match failure {
        LookupFailure::NotFound => ErrorView::PrinterNotFound { printer },
        LookupFailure::Failed(why) => ErrorView::ConnectionFailed {
            detail: "could not look up "@ + printer + ": "@ + why@,
        },
    }
}

/// The error of a lookup that gave no destination.
pub fn lookup_refusal(printer: &str, failure: LookupFailure) -> (refusal: ProviderError)
    ensures
        refusal@ == lookup_error(printer@, failure),
{
    match failure {
        LookupFailure::NotFound => ProviderError::PrinterNotFound { printer: printer.to_string() },
        LookupFailure::Failed(why) => ProviderError::ConnectionFailed {
            detail: "could not look up ".to_string().concat(printer).concat(": ").concat(
                why.as_str(),
            ),
        },
    }
}

/// The destination called `printer`, or why there is none to work with.
pub fn lookup(printer: &str, looked_up: Result<Destination, LookupFailure>) -> (destination:
    ProviderResult<Destination>)
    ensures
        match looked_up {
            Ok(known) => destination == Ok::<Destination, ProviderError>(known),
            Err(LookupFailure::NotFound) => destination matches Err(refusal) && refusal@ == (
            ErrorView::PrinterNotFound { printer: printer@ }),
            Err(LookupFailure::Failed(why)) => destination matches Err(refusal) && refusal@ == (
            ErrorView::ConnectionFailed {
                detail: "could not look up "@ + printer@ + ": "@ + why@,
            }),
        },
{
    match looked_up {
        Ok(known) => Ok(known),
        Err(failure) => Err(lookup_refusal(printer, failure)),
    }
}

/// What is told of a printer's state, once it was looked up.
pub open spec fn state_told(
    printer: Seq<char>,
    looked_up: Result<Destination, LookupFailure>,
) -> Result<PrinterState, ErrorView> {
    match looked_up {
        Ok(known) => Ok(PrinterState::of_option(known.option("printer-state"@))),
        Err(failure) => Err(lookup_error(printer, failure)),
    }
}

/// What is told of whether a printer takes jobs, once it was looked up.
pub open spec fn accepting_told(
    printer: Seq<char>,
    looked_up: Result<Destination, LookupFailure>,
) -> Result<bool, ErrorView> {
    match looked_up {
        Ok(known) => Ok(known.option("printer-is-accepting-jobs"@) == Some("true"@)),
        Err(failure) => Err(lookup_error(printer, failure)),
    }
}

/// What the printer is doing.
pub fn printer_state(printer: &str, looked_up: Result<Destination, LookupFailure>) -> (state:
    ProviderResult<PrinterState>)
    ensures
        (match state {
            Ok(known) => Ok(known),
            Err(refusal) => Err(refusal@),
        }) == state_told(printer@, looked_up),
{
    match lookup(printer, looked_up) {
        Ok(known) => Ok(known.state()),
        Err(refusal) => Err(refusal),
    }
}

/// Whether the printer takes jobs.
pub fn accepting_jobs(printer: &str, looked_up: Result<Destination, LookupFailure>) -> (accepting:
    ProviderResult<bool>)
    ensures
        (match accepting {
            Ok(known) => Ok(known),
            Err(refusal) => Err(refusal@),
        }) == accepting_told(printer@, looked_up),
{
    match lookup(printer, looked_up) {
        Ok(known) => Ok(known.is_accepting_jobs()),
        Err(refusal) => Err(refusal),
    }
}

/// The error when the capabilities of the destination called `name` could not
/// be read.
pub open spec fn capabilities_error(name: Seq<char>, why: Seq<char>) -> ErrorView {
    ErrorView::ConnectionFailed {
        detail: "could not read capabilities for "@ + name + ": "@ + why,
    }
}

/// The error when a destination's capabilities could not be read.
pub fn capabilities_unreadable(destination: &Destination, why: &str) -> (failure: ProviderError)
    ensures
        failure@ == capabilities_error(destination.name@, why@),
{
    ProviderError::ConnectionFailed {
        detail: "could not read capabilities for ".to_string().concat(
            destination.name.as_str(),
        ).concat(": ").concat(why),
    }
}

/// What a queried attribute says: not advertised when its name cannot be asked
/// for or nothing was found, and its decoded values otherwise.
pub open spec fn attribute_answer(attribute: Seq<char>, found: Option<RawAttribute>) -> AttributeView<
    IppValueView,
> {
    match found {
        None => AttributeView::NotAdvertised,
        Some(raw) => if attribute.contains('\0') {
            AttributeView::NotAdvertised
        } else {
            let values = value::decoded_all(raw.tag, raw.elements@);
            if values.len() == 0 {
                AttributeView::Empty
            } else {
                AttributeView::Present(values)
            }
        },
    }
}

/// What an attribute state says, with its values as what they say.
pub open spec fn state_view(state: AttributeState<IppValue>) -> AttributeView<IppValueView> {
    match state {
        AttributeState::Present(values) => AttributeView::Present(value::value_views(values@)),
        AttributeState::Empty => AttributeView::Empty,
        AttributeState::NotAdvertised => AttributeView::NotAdvertised,
    }
}

fn advertised_state(attribute: &str, found: Option<RawAttribute>) -> (state: AttributeState<
    IppValue,
>)
    ensures
        state_view(state) == attribute_answer(attribute@, found),
{
    // CUPS cannot be asked for a name that C cannot hold.
    if contains_char(attribute, '\0') {
        return AttributeState::NotAdvertised;
    }
    match found {
        None => AttributeState::NotAdvertised,
        Some(raw) => {
            let values = decode_all(&raw);
            assert(value::value_views(values@).len() == values@.len());
            AttributeState::from_present(values)
        },
    }
}

/// Read a "-supported" attribute, distinguishing missing from empty.
pub fn supported_state(attribute: &str, found: Option<RawAttribute>) -> (state: AttributeState<
    IppValue,
>)
    ensures
        state_view(state) == attribute_answer(attribute@, found),
{
    advertised_state(attribute, found)
}

/// Read a "-default" attribute, distinguishing missing from empty.
///
/// `Present([IppValue::NoValue])` means the printer stated there is no
/// default. That is different from `NotAdvertised`, which means it never
/// mentioned one, and from a default of `false`.
pub fn default_state(attribute: &str, found: Option<RawAttribute>) -> (state: AttributeState<
    IppValue,
>)
    ensures
        state_view(state) == attribute_answer(attribute@, found),
{
    advertised_state(attribute, found)
}

/// The margins of a CUPS media size, in micrometres.
pub open spec fn margins_of(size: MediaSize) -> Margins {
    Margins {
        top_um: media::um_of(size.top),
        bottom_um: media::um_of(size.bottom),
        left_um: media::um_of(size.left),
        right_um: media::um_of(size.right),
    }
}

/// A CUPS media size in micrometres. It is borderless when a borderless query
/// returned it without margins.
pub open spec fn described(size: MediaSize, query: MediaQuery) -> MediaView {
    MediaView {
        canonical_name: size.name@,
        width_um: media::um_of(size.width),
        length_um: media::um_of(size.length),
        margins: margins_of(size),
        borderless: query is Borderless && margins_of(size).full_bleed(),
    }
}

pub fn descriptor_from(size: MediaSize, query: MediaQuery) -> (descriptor: MediaDescriptor)
    ensures
        descriptor@ == described(size, query),
{
    let margins = Margins {
        top_um: cups_units_to_um(size.top),
        bottom_um: cups_units_to_um(size.bottom),
        left_um: cups_units_to_um(size.left),
        right_um: cups_units_to_um(size.right),
    };
    MediaDescriptor {
        canonical_name: size.name,
        width_um: cups_units_to_um(size.width),
        length_um: cups_units_to_um(size.length),
        margins,
        // Borderless is judged by the margins CUPS reported, not by the name
        // or by which query was used.
        borderless: matches!(query, MediaQuery::Borderless) && margins.is_full_bleed(),
    }
}

/// The readable entries of a media catalogue, in order.
pub open spec fn readable(entries: Seq<Option<MediaSize>>, query: MediaQuery) -> Seq<MediaView>
    decreases entries.len(),
{
    if entries.len() == 0 {
        seq![]
    } else {
        let earlier = readable(entries.drop_last(), query);
        match entries.last() {
            Some(size) => earlier.push(described(size, query)),
            None => earlier,
        }
    }
}

/// What a query for media says: the readable entries, unless there are entries
/// and none could be read.
pub open spec fn media_answer(
    printer: Seq<char>,
    query: MediaQuery,
    entries: Seq<Option<MediaSize>>,
) -> Result<Seq<MediaView>, ErrorView> {
    let found = readable(entries, query);
    if found.len() == 0 && entries.len() > 0 {
        Err(
            ErrorView::CapabilityUnknown {
                printer,
                attribute: "media ("@ + text::decimal_chars(entries.len())
                    + " entries unreadable)"@,
            },
        )
    } else {
        Ok(found)
    }
}

/// What a list of descriptors, or the failure to have one, says.
pub open spec fn media_result(result: ProviderResult<Vec<MediaDescriptor>>) -> Result<
    Seq<MediaView>,
    ErrorView,
> {
    match result {
        Ok(list) => Ok(media::media_views(list@)),
        Err(refusal) => Err(refusal@),
    }
}

/// Every media size the printer offers, as structured dimensions. `None` is an
/// entry that libcups could not read.
///
/// A single unreadable entry should not discard the rest of the catalogue, but
/// losing all of them silently would look identical to a printer that offers
/// no media.
pub fn supported_media(printer: &str, query: MediaQuery, entries: Vec<Option<MediaSize>>) -> (found:
    ProviderResult<Vec<MediaDescriptor>>)
    ensures
        media_result(found) == media_answer(printer@, query, entries@),
{
    let ghost all = entries@;
    let total: usize = entries.len();
    let mut list: Vec<MediaDescriptor> = Vec::new();
    let mut unreadable: u64 = 0;
    assert(media::media_views(list@) =~= readable(all.take(0), query));
    for entry in iter: entries
        invariant
            iter.seq() == all,
            all.len() == total,
            unreadable <= iter.index(),
            list@.len() + unreadable == iter.index(),
            media::media_views(list@) == readable(all.take(iter.index()), query),
    {
        let ghost earlier = media::media_views(list@);
        assert(all.take(iter.index() + 1).drop_last() == all.take(iter.index()));
        match entry {
            Some(size) => {
                let descriptor = descriptor_from(size, query);
                list.push(descriptor);
                assert(media::media_views(list@) =~= earlier.push(descriptor@));
            },
            None => {
                unreadable += 1;
            },
        }
    }
    assert(all.take(all.len() as int) == all);
    assert(media::media_views(list@).len() == list@.len());
    if list.len() == 0 && unreadable > 0 {
        return Err(
            ProviderError::CapabilityUnknown {
                printer: printer.to_string(),
                attribute: "media (".to_string().concat(decimal(unreadable).as_str()).concat(
                    " entries unreadable)",
                ),
            },
        );
    }
    Ok(list)
}

/// What is told of the media that a size led to.
pub open spec fn media_found(
    printer: Seq<char>,
    query: MediaQuery,
    found: Result<MediaSize, String>,
) -> Result<MediaView, ErrorView> {
    match found {
        Ok(size) => Ok(described(size, query)),
        Err(why) => Err(ErrorView::MediaUnknown { printer, detail: why@ }),
    }
}

/// The media matching a physical size, or `MediaUnknown` when the printer
/// offers nothing of that size. `Err` carries what libcups said.
pub fn media_by_size(printer: &str, query: MediaQuery, found: Result<MediaSize, String>) -> (media:
    ProviderResult<MediaDescriptor>)
    ensures
        error::viewed(media) == media_found(printer@, query, found),
{
    match found {
        Ok(size) => Ok(descriptor_from(size, query)),
        Err(why) => Err(ProviderError::MediaUnknown { printer: printer.to_string(), detail: why }),
    }
}

/// One value of the ready-media attribute: its name, unless libcups returned
/// none, and the size that name resolved to, if it did.
#[derive(Clone, Debug, PartialEq, Eq)]
pub struct ReadyEntry {
    pub name: Option<String>,
    pub size: Option<MediaSize>,
}

/// The descriptor of a ready entry. The name is known to be ready even when
/// its dimensions cannot be resolved; it is kept with zeroed dimensions rather
/// than dropped.
pub open spec fn ready_described(entry: ReadyEntry) -> Option<MediaView> {
    match (entry.name, entry.size) {
        (None, _) => None,
        (Some(_), Some(size)) => Some(described(size, MediaQuery::Default)),
        (Some(name), None) => Some(
            MediaView {
                canonical_name: name@,
                width_um: 0,
                length_um: 0,
                margins: Margins { top_um: 0, bottom_um: 0, left_um: 0, right_um: 0 },
                borderless: false,
            },
        ),
    }
}

/// The descriptors of the entries that have a name, in order.
pub open spec fn ready_list(entries: Seq<ReadyEntry>) -> Seq<MediaView>
    decreases entries.len(),
{
    if entries.len() == 0 {
        seq![]
    } else {
        let earlier = ready_list(entries.drop_last());
        match ready_described(entries.last()) {
            Some(media) => earlier.push(media),
            None => earlier,
        }
    }
}

/// What is told of the loaded media: nothing if the printer said nothing, and
/// otherwise what is loaded, be it nothing.
pub open spec fn ready_told(found: Option<Vec<ReadyEntry>>) -> Option<Seq<MediaView>> {
    match found {
        None => None,
        Some(entries) => Some(ready_list(entries@)),
    }
}

/// What loaded media says.
pub open spec fn ready_view(ready: ReadyMedia) -> Option<Seq<MediaView>> {
    match ready {
        ReadyMedia::Present(list) => Some(media::media_views(list@)),
        ReadyMedia::NotAdvertised => None,
    }
}

/// Media the printer reports as currently loaded; `None` when the attribute is
/// missing.
///
/// `NotAdvertised` means CUPS said nothing about loaded media. It does **not**
/// mean the trays are empty: printers report this even with paper loaded.
pub fn ready_media(found: Option<Vec<ReadyEntry>>) -> (ready: ReadyMedia)
    ensures
        ready_view(ready) == ready_told(found),
{
    let entries = match found {
        None => return ReadyMedia::NotAdvertised,
        Some(entries) => entries,
    };
    let ghost all = entries@;
    let mut list: Vec<MediaDescriptor> = Vec::new();
    assert(media::media_views(list@) =~= ready_list(all.take(0)));
    for entry in iter: entries
        invariant
            iter.seq() == all,
            media::media_views(list@) == ready_list(all.take(iter.index())),
    {
        let ghost earlier = media::media_views(list@);
        assert(all.take(iter.index() + 1).drop_last() == all.take(iter.index()));
        if let Some(name) = entry.name {
            let descriptor = match entry.size {
                Some(size) => descriptor_from(size, MediaQuery::Default),
                None => MediaDescriptor {
                    canonical_name: name,
                    width_um: 0,
                    length_um: 0,
                    margins: Margins::default(),
                    borderless: false,
                },
            };
            list.push(descriptor);
            assert(media::media_views(list@) =~= earlier.push(descriptor@));
        }
    }
    assert(all.take(all.len() as int) == all);
    ReadyMedia::Present(list)
}

/// "There is no default" is told exactly of a list that marks none, and a
/// default that is told of is one that the list marks.
pub proof fn law_no_default_means_none_is_marked(destinations: Seq<Destination>)
    ensures
        default_of(destinations) is None <==> forall|i: int|
            0 <= i < destinations.len() ==> !(#[trigger] destinations[i]).is_default,
        default_of(destinations) matches Some(found) ==> found.is_default && summaries(
            destinations,
        ).contains(found),
    decreases destinations.len(),
{
    if destinations.len() > 0 {
        let rest = destinations.skip(1);
        law_no_default_means_none_is_marked(rest);
        assert(forall|i: int| 0 <= i < rest.len() ==> #[trigger] rest[i] == destinations[i + 1]);
        assert(forall|i: int|
            1 <= i < destinations.len() ==> #[trigger] destinations[i] == rest[i - 1]);
        if default_of(destinations) is Some {
            let found = default_of(destinations)->Some_0;
            if destinations[0].is_default {
                assert(summaries(destinations)[0] == found);
            } else {
                let i = choose|i: int| 0 <= i < summaries(rest).len() && summaries(rest)[i]
                    == found;
                assert(summaries(destinations)[i + 1] == found);
            }
        }
    }
}

/// A printer is said not to exist exactly when no destination has its name: a
/// lookup that failed is a failed connection, never a missing printer.
pub proof fn law_failed_lookup_is_not_a_missing_printer(
    printer: Seq<char>,
    failure: LookupFailure,
)
    ensures
        lookup_error(printer, failure) is PrinterNotFound <==> failure is NotFound,
        lookup_error(printer, failure) is ConnectionFailed <==> failure is Failed,
{
}

/// Asking for borderless does not make a bordered sheet borderless, and no
/// other query does either.
pub proof fn law_borderless_needs_zero_margins(size: MediaSize, query: MediaQuery)
    ensures
        described(size, query).borderless ==> query is Borderless && described(
            size,
            query,
        ).margins.full_bleed(),
        size.top > 0 && size.top <= media::MAX_CUPS_UNITS ==> !described(size, query).borderless,
{
}

/// Missing, empty and present are kept apart for every attribute that can be
/// asked for.
pub proof fn law_missing_is_not_empty(attribute: Seq<char>, raw: RawAttribute)
    requires
        !attribute.contains('\0'),
    ensures
        attribute_answer(attribute, None) is NotAdvertised,
        !(attribute_answer(attribute, Some(raw)) is NotAdvertised),
        raw.elements@.len() == 0 ==> attribute_answer(attribute, Some(raw)) is Empty,
{
}

/// No readable entry of a catalogue is lost, doubled or moved: the list has one
/// descriptor for each readable entry, the k-th for the k-th. If every entry is
/// readable, the list is as long as the catalogue, entry by entry.
pub proof fn law_every_readable_entry_is_listed(
    entries: Seq<Option<MediaSize>>,
    query: MediaQuery,
)
    ensures
        ({
            let sizes = entries.filter(|entry: Option<MediaSize>| entry is Some);
            let list = readable(entries, query);
            &&& list.len() == sizes.len()
            &&& forall|k: int|
                0 <= k < sizes.len() ==> #[trigger] list[k] == described(sizes[k]->Some_0, query)
        }),
        (forall|i: int| 0 <= i < entries.len() ==> #[trigger] entries[i] is Some) ==> readable(
            entries,
            query,
        ).len() == entries.len() && forall|i: int|
            0 <= i < entries.len() ==> readable(entries, query)[i] == described(
                (#[trigger] entries[i])->Some_0,
                query,
            ),
    decreases entries.len(),
{
    reveal(Seq::filter);
    if entries.len() > 0 {
        let shorter = entries.drop_last();
        law_every_readable_entry_is_listed(shorter, query);
        if forall|i: int| 0 <= i < entries.len() ==> #[trigger] entries[i] is Some {
            assert forall|i: int| 0 <= i < shorter.len() implies #[trigger] shorter[i] is Some by {
                assert(shorter[i] == entries[i]);
            }
            assert(entries.last() == entries[entries.len() - 1]);
            assert forall|i: int| 0 <= i < entries.len() implies readable(entries, query)[i]
                == described((#[trigger] entries[i])->Some_0, query) by {
                if i < shorter.len() {
                    assert(shorter[i] == entries[i]);
                }
            }
        }
    }
}

/// Two stretches of a catalogue list what each lists, and a single entry lists
/// itself if it can be read.
pub proof fn law_catalogue_is_listed_piece_by_piece(
    first: Seq<Option<MediaSize>>,
    second: Seq<Option<MediaSize>>,
    one: Option<MediaSize>,
    query: MediaQuery,
)
    ensures
        readable(first + second, query) == readable(first, query) + readable(second, query),
        readable(seq![one], query) == (match one {
            Some(size) => seq![described(size, query)],
            None => seq![],
        }),
        readable(seq![], query) == Seq::<MediaView>::empty(),
    decreases second.len(),
{
    assert(seq![one].drop_last() =~= seq![]);
    assert(seq![one].last() == one);
    assert(readable(seq![], query) =~= Seq::<MediaView>::empty());
    if let Some(size) = one {
        assert(Seq::<MediaView>::empty().push(described(size, query)) =~= seq![
            described(size, query),
        ]);
    }
    let whole = first + second;
    if second.len() > 0 {
        law_catalogue_is_listed_piece_by_piece(first, second.drop_last(), one, query);
        assert(whole.drop_last() =~= first + second.drop_last());
        assert(whole.last() == second.last());
    } else {
        assert(whole =~= first);
    }
    assert(readable(whole, query) =~= readable(first, query) + readable(second, query));
}

/// A catalogue is answered with its list, except that one of which nothing can
/// be read is unknown rather than empty. An empty catalogue is an empty list.
pub proof fn law_unreadable_catalogue_is_unknown(
    printer: Seq<char>,
    query: MediaQuery,
    entries: Seq<Option<MediaSize>>,
)
    ensures
        ({
            let told = media_answer(printer, query, entries);
            let lost = entries.len() > 0 && forall|i: int|
                0 <= i < entries.len() ==> #[trigger] entries[i] is None;
            &&& told is Err <==> lost
            &&& told matches Ok(list) ==> list == readable(entries, query)
            &&& told matches Err(failure) ==> failure == (ErrorView::CapabilityUnknown {
                printer,
                attribute: "media ("@ + text::decimal_chars(entries.len())
                    + " entries unreadable)"@,
            })
        }),
{
    law_some_readable_entry_is_listed(entries, query);
}

/// A list is empty exactly when no entry can be read.
pub proof fn law_some_readable_entry_is_listed(entries: Seq<Option<MediaSize>>, query: MediaQuery)
    ensures
        readable(entries, query).len() == 0 <==> forall|i: int|
            0 <= i < entries.len() ==> #[trigger] entries[i] is None,
    decreases entries.len(),
{
    if entries.len() > 0 {
        let shorter = entries.drop_last();
        law_some_readable_entry_is_listed(shorter, query);
        assert(entries.last() == entries[entries.len() - 1]);
        assert(forall|i: int|
            0 <= i < shorter.len() ==> #[trigger] shorter[i] == entries[i]);
        if forall|i: int| 0 <= i < shorter.len() ==> #[trigger] shorter[i] is None {
            assert forall|i: int|
                0 <= i < entries.len() && entries.last() is None implies #[trigger] entries[i]
                is None by {
                if i < shorter.len() {
                    assert(shorter[i] == entries[i]);
                }
            }
        }
        if forall|i: int| 0 <= i < entries.len() ==> #[trigger] entries[i] is None {
            assert forall|i: int| 0 <= i < shorter.len() implies #[trigger] shorter[i] is None by {
                assert(shorter[i] == entries[i]);
            }
        }
    }
}

/// A media size is described by its own name, width, length and four margins,
/// each in micrometres, each under its own name.
pub proof fn law_media_is_described_exactly(size: MediaSize, query: MediaQuery)
    ensures
        ({
            let media = described(size, query);
            let most = media::MAX_CUPS_UNITS;
            &&& media.canonical_name == size.name@
            &&& 0 <= size.width <= most ==> media.width_um == size.width * 10
            &&& 0 <= size.length <= most ==> media.length_um == size.length * 10
            &&& 0 <= size.top <= most ==> media.margins.top_um == size.top * 10
            &&& 0 <= size.bottom <= most ==> media.margins.bottom_um == size.bottom * 10
            &&& 0 <= size.left <= most ==> media.margins.left_um == size.left * 10
            &&& 0 <= size.right <= most ==> media.margins.right_um == size.right * 10
            &&& media.borderless <==> query is Borderless && media.margins.top_um == 0
                && media.margins.bottom_um == 0 && media.margins.left_um == 0
                && media.margins.right_um == 0
        }),
        media::MAX_CUPS_UNITS == 429_496_729,
{
}

/// Every named ready entry is listed, once and in order, with its size if it
/// has one and by its name alone if it has none.
pub proof fn law_every_named_entry_is_ready(
    first: Seq<ReadyEntry>,
    second: Seq<ReadyEntry>,
    one: ReadyEntry,
)
    ensures
        ready_list(first + second) == ready_list(first) + ready_list(second),
        ready_list(seq![]) == Seq::<MediaView>::empty(),
        one.name is None ==> ready_list(seq![one]) == Seq::<MediaView>::empty(),
        one.name is Some ==> ready_list(seq![one]).len() == 1,
        one.name is Some && one.size is Some ==> ready_list(seq![one])[0] == described(
            one.size->Some_0,
            MediaQuery::Default,
        ),
        one.name is Some && one.size is None ==> {
            let media = ready_list(seq![one])[0];
            &&& media.canonical_name == one.name->Some_0@
            &&& media.width_um == 0 && media.length_um == 0
            &&& media.margins.full_bleed()
            &&& !media.borderless
        },
    decreases second.len(),
{
    assert(seq![one].drop_last() =~= seq![]);
    assert(seq![one].last() == one);
    assert(ready_list(seq![]) =~= Seq::<MediaView>::empty());
    let whole = first + second;
    if second.len() > 0 {
        law_every_named_entry_is_ready(first, second.drop_last(), one);
        assert(whole.drop_last() =~= first + second.drop_last());
        assert(whole.last() == second.last());
    } else {
        assert(whole =~= first);
    }
    assert(ready_list(whole) =~= ready_list(first) + ready_list(second));
}

/// If every ready entry has a name, none is missing from the list.
pub proof fn law_no_ready_entry_is_lost(entries: Seq<ReadyEntry>)
    requires
        forall|i: int| 0 <= i < entries.len() ==> (#[trigger] entries[i]).name is Some,
    ensures
        ready_list(entries).len() == entries.len(),
        forall|i: int|
            0 <= i < entries.len() ==> Some(ready_list(entries)[i]) == ready_described(
                #[trigger] entries[i],
            ),
    decreases entries.len(),
{
    if entries.len() > 0 {
        let shorter = entries.drop_last();
        assert forall|i: int| 0 <= i < shorter.len() implies (#[trigger] shorter[i]).name
            is Some by {
            assert(shorter[i] == entries[i]);
        }
        law_no_ready_entry_is_lost(shorter);
        assert(entries.last() == entries[entries.len() - 1]);
        assert forall|i: int| 0 <= i < entries.len() implies Some(ready_list(entries)[i])
            == ready_described(#[trigger] entries[i]) by {
            if i < shorter.len() {
                assert(shorter[i] == entries[i]);
            }
        }
    }
}

/// The default printer is the first destination that is marked.
pub proof fn law_the_first_marked_destination_is_the_default(
    destinations: Seq<Destination>,
    at: int,
)
    requires
        0 <= at < destinations.len(),
        destinations[at].is_default,
        forall|i: int| 0 <= i < at ==> !(#[trigger] destinations[i]).is_default,
    ensures
        default_of(destinations) == Some(summary(destinations[at])),
    decreases at,
{
    if at > 0 {
        let rest = destinations.skip(1);
        assert(!destinations[0].is_default);
        assert(rest[at - 1] == destinations[at]);
        assert forall|i: int| 0 <= i < at - 1 implies !(#[trigger] rest[i]).is_default by {
            assert(rest[i] == destinations[i + 1]);
        }
        law_the_first_marked_destination_is_the_default(rest, at - 1);
    }
}

/// A summary reports the destination: its name, its full name, whether it is
/// the default, and what each option of CUPS' says, under the right heading.
pub proof fn law_summary_reports_the_destination(destination: Destination)
    ensures
        ({
            let told = summary(destination);
            &&& told.name == destination.name@
            &&& told.full_name == destination.named()
            &&& told.is_default == destination.is_default
            &&& told.state == PrinterState::of_option(destination.option("printer-state"@))
            &&& told.accepting_jobs <==> destination.option("printer-is-accepting-jobs"@) == Some(
                "true"@,
            )
            &&& told.state_reasons == destination.reasons()
            &&& told.info == destination.option("printer-info"@)
            &&& told.location == destination.option("printer-location"@)
            &&& told.make_and_model == destination.option("printer-make-and-model"@)
            &&& told.printer_uri == destination.option("printer-uri-supported"@)
            &&& told.device_uri == destination.option("device-uri"@)
        }),
{
}

/// Every destination is listed, in its place.
pub proof fn law_every_destination_is_listed(destinations: Seq<Destination>, i: int)
    ensures
        summaries(destinations).len() == destinations.len(),
        0 <= i < destinations.len() ==> summaries(destinations)[i] == summary(destinations[i]),
{
}

/// An attribute that was found answers with exactly the values it decodes to,
/// and says so when there are none.
pub proof fn law_found_attribute_answers_with_its_values(
    attribute: Seq<char>,
    raw: RawAttribute,
)
    requires
        !attribute.contains('\0'),
    ensures
        ({
            let values = value::decoded_all(raw.tag, raw.elements@);
            let told = attribute_answer(attribute, Some(raw));
            &&& told is Empty <==> values.len() == 0
            &&& values.len() > 0 ==> told == AttributeView::Present(values)
        }),
        attribute_answer(attribute, None) == AttributeView::<IppValueView>::NotAdvertised,
{
}

/// A name that C cannot hold is never found.
pub proof fn law_unaskable_attribute_is_not_advertised(
    attribute: Seq<char>,
    found: Option<RawAttribute>,
)
    requires
        attribute.contains('\0'),
    ensures
        attribute_answer(attribute, found) == AttributeView::<IppValueView>::NotAdvertised,
{
}

/// The error of a lookup names the printer, and says why it could not be asked
/// for.
pub proof fn law_lookup_errors_name_the_printer(printer: Seq<char>, why: String)
    ensures
        lookup_error(printer, LookupFailure::NotFound) == (ErrorView::PrinterNotFound { printer }),
        lookup_error(printer, LookupFailure::Failed(why)) == (ErrorView::ConnectionFailed {
            detail: "could not look up "@ + printer + ": "@ + why@,
        }),
{
}

/// The answers of this module say what they are.
pub proof fn law_answers_say_what_they_are(
    printer: PrinterSummary,
    list: Seq<PrinterSummary>,
    state: AttributeState<IppValue>,
    found: ProviderResult<Vec<MediaDescriptor>>,
)
    ensures
        printer@.name == printer.name@,
        printer@.full_name == printer.full_name@,
        printer@.is_default == printer.is_default,
        printer@.state == printer.state,
        printer@.accepting_jobs == printer.accepting_jobs,
        printer@.state_reasons == text::texts(printer.state_reasons@),
        printer@.info == destination::optional_text(printer.info),
        printer@.location == destination::optional_text(printer.location),
        printer@.make_and_model == destination::optional_text(printer.make_and_model),
        printer@.printer_uri == destination::optional_text(printer.printer_uri),
        printer@.device_uri == destination::optional_text(printer.device_uri),
        summary_views(list).len() == list.len(),
        forall|i: int| 0 <= i < list.len() ==> #[trigger] summary_views(list)[i] == list[i]@,
        state matches AttributeState::Present(values) ==> state_view(state)
            == AttributeView::Present(value::value_views(values@)),
        state_view(state) is Empty <==> state is Empty,
        state_view(state) is NotAdvertised <==> state is NotAdvertised,
        found matches Ok(media) ==> media_result(found) == Ok::<Seq<MediaView>, ErrorView>(
            media::media_views(media@),
        ),
        found matches Err(refusal) ==> media_result(found) == Err::<Seq<MediaView>, ErrorView>(
            refusal@,
        ),
{
}

/// A list that came is told in full, with a default only if one is marked; a
/// list that did not come is a failed connection that says why, and never an
/// empty list or an absent default.
pub proof fn law_a_missing_list_is_not_an_empty_one(listed: Result<Vec<Destination>, String>)
    ensures
        printers_told(listed) is Ok <==> listed is Ok,
        default_told(listed) is Ok <==> listed is Ok,
        listed matches Ok(destinations) ==> {
            &&& printers_told(listed)->Ok_0.len() == destinations@.len()
            &&& forall|i: int|
                0 <= i < destinations@.len() ==> #[trigger] printers_told(listed)->Ok_0[i]
                    == summary(destinations@[i])
            &&& default_told(listed)->Ok_0 is Some <==> exists|i: int|
                0 <= i < destinations@.len() && (#[trigger] destinations@[i]).is_default
            &&& default_told(listed)->Ok_0 matches Some(found) ==> found.is_default
        },
        listed matches Err(why) ==> {
            &&& printers_told(listed)->Err_0 == (ErrorView::ConnectionFailed { detail: why@ })
            &&& default_told(listed)->Err_0 == (ErrorView::ConnectionFailed {
                detail: "could not list destinations: "@ + why@,
            })
        },
{
    if let Ok(destinations) = listed {
        law_no_default_means_none_is_marked(destinations@);
    }
}

/// What is told of one printer comes from the destination that was found, and
/// otherwise from why none was: a printer that is missing or could not be asked
/// is neither idle nor refusing jobs.
pub proof fn law_only_a_found_printer_has_a_state(
    printer: Seq<char>,
    looked_up: Result<Destination, LookupFailure>,
)
    ensures
        state_told(printer, looked_up) is Ok <==> looked_up is Ok,
        accepting_told(printer, looked_up) is Ok <==> looked_up is Ok,
        looked_up matches Ok(known) ==> {
            &&& state_told(printer, looked_up)->Ok_0 == summary(known).state
            &&& accepting_told(printer, looked_up)->Ok_0 == summary(known).accepting_jobs
        },
        looked_up matches Err(failure) ==> {
            &&& state_told(printer, looked_up)->Err_0 == lookup_error(printer, failure)
            &&& accepting_told(printer, looked_up)->Err_0 == lookup_error(printer, failure)
        },
{
}

/// The media that a size led to is told with its own name and measures; a size
/// that led to none is unknown, under the printer's name and with the reason.
pub proof fn law_media_that_was_found_is_told(
    printer: Seq<char>,
    query: MediaQuery,
    found: Result<MediaSize, String>,
)
    ensures
        media_found(printer, query, found) is Ok <==> found is Ok,
        found matches Ok(size) ==> media_found(printer, query, found)->Ok_0 == readable(
            seq![Some(size)],
            query,
        )[0],
        found matches Err(why) ==> media_found(printer, query, found)->Err_0 == (
        ErrorView::MediaUnknown { printer, detail: why@ }),
{
    if let Ok(size) = found {
        law_catalogue_is_listed_piece_by_piece(seq![], seq![], Some(size), query);
    }
}

/// Saying nothing of the loaded media is not the same as saying that none is
/// loaded: an empty list is told as one, and only silence as silence.
pub proof fn law_silence_is_not_an_empty_tray(
    found: Option<Vec<ReadyEntry>>,
    ready: ReadyMedia,
)
    ensures
        ready_told(found) is None <==> found is None,
        found matches Some(entries) ==> {
            &&& entries@.len() == 0 ==> ready_told(found)->Some_0.len() == 0
            &&& ready_told(found) == Some(ready_list(entries@))
        },
        ready_view(ready) is None <==> ready is NotAdvertised,
        ready matches ReadyMedia::Present(list) ==> ready_view(ready) == Some(
            media::media_views(list@),
        ),
{
}

/// Capabilities that could not be read are a failed connection, never a missing
/// capability, and the error says of which destination and why.
pub proof fn law_unreadable_capabilities_are_not_missing(name: Seq<char>, why: Seq<char>)
    ensures
        capabilities_error(name, why) == (ErrorView::ConnectionFailed {
            detail: "could not read capabilities for "@ + name + ": "@ + why,
        }),
{
}

} // verus!
