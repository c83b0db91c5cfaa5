//! A printer or class as the scheduler describes it, in plain values.
//!
//! CUPS reports everything about a destination but its name as option text.
//! The accessors here read the options CUPS documents for destinations.

use vstd::prelude::*;
use vstd::string::*;

use crate::text::{self, same_text, split_and_trim};

verus! {

/// What a destination is doing.
#[derive(Clone, Copy, Debug, PartialEq, Eq, Structural)]
pub enum PrinterState {
    Idle,
    Processing,
    Stopped,
    /// The scheduler reported no state, or one IPP does not define.
    Unknown,
}

impl PrinterState {
    /// The state that an IPP `printer-state` option text stands for.
    pub open spec fn of_option(value: Option<Seq<char>>) -> PrinterState {
        if value == Some("3"@) {
            PrinterState::Idle
        } else if value == Some("4"@) {
            PrinterState::Processing
        } else if value == Some("5"@) {
            PrinterState::Stopped
        } else {
            PrinterState::Unknown
        }
    }
}

/// One option of a destination.
#[derive(Clone, Debug, PartialEq, Eq)]
pub struct DestinationOption {
    pub name: String,
    pub value: String,
}

/// A destination as the scheduler listed it.
#[derive(Clone, Debug, PartialEq, Eq)]
pub struct Destination {
    pub name: String,
    pub instance: Option<String>,
    pub is_default: bool,
    pub options: Vec<DestinationOption>,
}

/// The value of the first option called `name`.
pub open spec fn option_value(options: Seq<DestinationOption>, name: Seq<char>) -> Option<Seq<char>>
    decreases options.len(),
{
    if options.len() == 0 {
        None
    } else if options[0].name@ == name {
        Some(options[0].value@)
    } else {
        option_value(options.skip(1), name)
    }
}

/// The characters of an optional text.
pub open spec fn optional_text(value: Option<String>) -> Option<Seq<char>> {
    match value {
        Some(text) => Some(text@),
        None => None,
    }
}

impl Destination {
    /// The value of an option.
    pub open spec fn option(self, name: Seq<char>) -> Option<Seq<char>> {
        option_value(self.options@, name)
    }

    /// The name together with the instance, if there is one.
    pub open spec fn named(self) -> Seq<char> {
        match self.instance {
            Some(instance) => self.name@ + "/"@ + instance@,
            None => self.name@,
        }
    }

    /// The reasons behind the state; none when none were reported.
    pub open spec fn reasons(self) -> Seq<Seq<char>> {
        match self.option("printer-state-reasons"@) {
            Some(value) => text::all_trimmed(text::split_at_char(value, ',')),
            None => seq![],
        }
    }

    /// The value of the option called `name`.
    pub fn get_option(&self, name: &str) -> (value: Option<&str>)
        ensures
            value is Some == self.option(name@) is Some,
            value matches Some(found) ==> Some(found@) == self.option(name@),
    {
        let mut at: usize = 0;
        assert(self.options@.skip(0) == self.options@);
        while at < self.options.len()
            invariant
                at <= self.options@.len(),
                self.option(name@) == option_value(self.options@.skip(at as int), name@),
            decreases self.options@.len() - at,
        {
            if same_text(self.options[at].name.as_str(), name) {
                return Some(self.options[at].value.as_str());
            }
            assert(self.options@.skip(at as int).skip(1) == self.options@.skip(at + 1));
            at += 1;
        }
        None
    }

    /// A copy of the value of the option called `name`.
    fn copied_option(&self, name: &str) -> (value: Option<String>)
        ensures
            optional_text(value) == self.option(name@),
    {
        match self.get_option(name) {
            Some(value) => Some(value.to_string()),
            None => None,
        }
    }

    /// The name, followed by the instance if there is one.
    pub fn full_name(&self) -> (full: String)
        ensures
            full@ == self.named(),
    {
        match &self.instance {
            Some(instance) => self.name.clone().concat("/").concat(instance.as_str()),
            None => self.name.clone(),
        }
    }

    pub fn state(&self) -> (state: PrinterState)
        ensures
            state == PrinterState::of_option(self.option("printer-state"@)),
    {
        proof {
            reveal_strlit("3");
            reveal_strlit("4");
            reveal_strlit("5");
            assert("3"@[0] == '3' && "4"@[0] == '4' && "5"@[0] == '5');
        }
        match self.get_option("printer-state") {
            Some(value) => if same_text(value, "3") {
                PrinterState::Idle
            } else if same_text(value, "4") {
                PrinterState::Processing
            } else if same_text(value, "5") {
                PrinterState::Stopped
            } else {
                PrinterState::Unknown
            },
            None => PrinterState::Unknown,
        }
    }

    /// Whether the scheduler said that the destination takes jobs.
    pub fn is_accepting_jobs(&self) -> (accepting: bool)
        ensures
            accepting == (self.option("printer-is-accepting-jobs"@) == Some("true"@)),
    {
        match self.get_option("printer-is-accepting-jobs") {
            Some(value) => same_text(value, "true"),
            None => false,
        }
    }

    /// The reasons behind the state.
    pub fn state_reasons(&self) -> (reasons: Vec<String>)
        ensures
            text::texts(reasons@) == self.reasons(),
    {
        match self.get_option("printer-state-reasons") {
            Some(value) => split_and_trim(value, ','),
            None => {
                let none: Vec<String> = Vec::new();
                assert(text::texts(none@) =~= seq![]);
                none
            },
        }
    }

    pub fn info(&self) -> (info: Option<String>)
        ensures
            optional_text(info) == self.option("printer-info"@),
    {
        self.copied_option("printer-info")
    }

    pub fn location(&self) -> (location: Option<String>)
        ensures
            optional_text(location) == self.option("printer-location"@),
    {
        self.copied_option("printer-location")
    }

    pub fn make_and_model(&self) -> (model: Option<String>)
        ensures
            optional_text(model) == self.option("printer-make-and-model"@),
    {
        self.copied_option("printer-make-and-model")
    }

    /// The scheduler's URI for the destination.
    pub fn uri(&self) -> (uri: Option<String>)
        ensures
            optional_text(uri) == self.option("printer-uri-supported"@),
    {
        self.copied_option("printer-uri-supported")
    }

    /// The URI of the device behind the destination.
    pub fn device_uri(&self) -> (uri: Option<String>)
        ensures
            optional_text(uri) == self.option("device-uri"@),
    {
        self.copied_option("device-uri")
    }
}

/// Why a destination could not be looked up.
#[derive(Clone, Debug, PartialEq, Eq)]
pub enum LookupFailure {
    /// There is no such destination.
    NotFound,
    /// The lookup itself failed, and this is what was said of it.
    Failed(String),
}

/// A media size as CUPS reports it, in hundredths of a millimetre.
#[derive(Clone, Debug, PartialEq, Eq)]
pub struct MediaSize {
    pub name: String,
    pub width: i32,
    pub length: i32,
    pub top: i32,
    pub bottom: i32,
    pub left: i32,
    pub right: i32,
}

/// An option is what the first entry of that name says; it is missing exactly
/// when no entry has the name.
pub proof fn law_the_first_entry_of_a_name_counts(
    options: Seq<DestinationOption>,
    name: Seq<char>,
)
    ensures
        option_value(options, name) is None <==> forall|i: int|
            0 <= i < options.len() ==> (#[trigger] options[i]).name@ != name,
        forall|at: int|
            0 <= at < options.len() && (#[trigger] options[at]).name@ == name && (forall|i: int|
                0 <= i < at ==> (#[trigger] options[i]).name@ != name) ==> option_value(
                options,
                name,
            ) == Some(options[at].value@),
    decreases options.len(),
{
    if options.len() > 0 {
        let rest = options.skip(1);
        law_the_first_entry_of_a_name_counts(rest, name);
        assert(forall|i: int| 0 <= i < rest.len() ==> #[trigger] rest[i] == options[i + 1]);
        assert(forall|i: int| 1 <= i < options.len() ==> #[trigger] options[i] == rest[i - 1]);
        assert forall|at: int|
            0 <= at < options.len() && (#[trigger] options[at]).name@ == name && (forall|i: int|
                0 <= i < at ==> (#[trigger] options[i]).name@ != name) implies option_value(
            options,
            name,
        ) == Some(options[at].value@) by {
            if at > 0 {
                assert(options[0].name@ != name);
                assert(rest[at - 1] == options[at]);
                assert forall|i: int| 0 <= i < at - 1 implies (#[trigger] rest[i]).name@ != name by {
                    assert(rest[i] == options[i + 1]);
                }
            }
        }
    }
}

/// A destination's option is that of its list.
pub proof fn law_options_belong_to_the_destination(destination: Destination, name: Seq<char>)
    ensures
        destination.option(name) == option_value(destination.options@, name),
        destination.options@.len() == 0 ==> destination.option(name) is None,
{
}

/// The state is idle for 3, processing for 4, stopped for 5, and unknown for
/// anything else or nothing.
pub proof fn law_printer_states_are_those_of_ipp(value: Option<Seq<char>>)
    ensures
        PrinterState::of_option(value) is Idle <==> value == Some(seq!['3']),
        PrinterState::of_option(value) is Processing <==> value == Some(seq!['4']),
        PrinterState::of_option(value) is Stopped <==> value == Some(seq!['5']),
        value is None ==> PrinterState::of_option(value) is Unknown,
{
    reveal_strlit("3");
    reveal_strlit("4");
    reveal_strlit("5");
    assert("3"@ =~= seq!['3']);
    assert("4"@ =~= seq!['4']);
    assert("5"@ =~= seq!['5']);
    assert(seq!['3'][0] == '3' && seq!['4'][0] == '4' && seq!['5'][0] == '5');
}

/// A destination goes by its name, followed by a slash and the instance if
/// there is one.
pub proof fn law_full_names_hold_the_instance(destination: Destination)
    ensures
        destination.instance is None ==> destination.named() == destination.name@,
        destination.instance matches Some(instance) ==> destination.named() == destination.name@
            + seq!['/'] + instance@,
{
    reveal_strlit("/");
    assert("/"@ =~= seq!['/']);
}

/// The reasons are the parts between the commas, trimmed: one without a comma,
/// and with one those before it followed by those after it.
pub proof fn law_reasons_are_separated_by_commas(
    destination: Destination,
    before: Seq<char>,
    after: Seq<char>,
)
    ensures
        ({
            let value = destination.option("printer-state-reasons"@);
            &&& value is None ==> destination.reasons().len() == 0
            &&& value == Some(before) && !before.contains(',') ==> destination.reasons() == seq![
                text::trimmed(before),
            ]
            &&& value == Some(before + seq![','] + after) ==> destination.reasons()
                == text::all_trimmed(text::split_at_char(before, ',')) + text::all_trimmed(
                text::split_at_char(after, ','),
            )
        }),
{
    text::law_split_has_a_part(before, ',');
    text::law_split_divides_at_the_character(before, ',', after);
    assert(text::all_trimmed(seq![before]) =~= seq![text::trimmed(before)]);
    let left = text::split_at_char(before, ',');
    let right = text::split_at_char(after, ',');
    assert(text::all_trimmed(left + right) =~= text::all_trimmed(left) + text::all_trimmed(right));
}

/// An optional text says what it is.
pub proof fn law_optional_text_says_what_it_is(value: Option<String>)
    ensures
        optional_text(value) is None <==> value is None,
        value matches Some(text) ==> optional_text(value) == Some(text@),
{
}

} // verus!
