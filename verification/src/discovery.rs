//! Locating the system CUPS: reading what `cups-config` prints, and deciding
//! which generation of the library is built against.
//!
//! Running the tools is the build's business. Everything here works on the
//! text they printed.

use vstd::prelude::*;
use vstd::string::*;

use crate::text::{self, parse_u32, split_words, trim, up_to};

verus! {

/// Which CUPS generation the crate is being built against.
#[derive(Clone, Copy, PartialEq, Eq, Debug, Structural)]
pub enum CupsGeneration {
    Cups2,
    Cups3,
}

impl CupsGeneration {
    /// The name of the generation as a build setting.
    pub open spec fn spec_cfg(self) -> Seq<char> {
        match self {
            CupsGeneration::Cups2 => "cups2"@,
            CupsGeneration::Cups3 => "cups3"@,
        }
    }

    /// The pkg-config package of the generation.
    pub open spec fn spec_package(self) -> Seq<char> {
        match self {
            CupsGeneration::Cups2 => "cups"@,
            CupsGeneration::Cups3 => "cups3"@,
        }
    }

    /// The generation with major version `major`, when it is a known one.
    pub open spec fn of_major(major: u32) -> Option<CupsGeneration> {
        if major == 2 {
            Some(CupsGeneration::Cups2)
        } else if major == 3 {
            Some(CupsGeneration::Cups3)
        } else {
            None
        }
    }

    pub fn cfg(self) -> (name: &'static str)
        ensures
            name@ == self.spec_cfg(),
    {
        match self {
            CupsGeneration::Cups2 => "cups2",
            CupsGeneration::Cups3 => "cups3",
        }
    }

    /// The pkg-config package to look for.
    pub fn package(self) -> (name: &'static str)
        ensures
            name@ == self.spec_package(),
    {
        match self {
            CupsGeneration::Cups2 => "cups",
            CupsGeneration::Cups3 => "cups3",
        }
    }

    /// Map the major version reported by `cups-config --version`.
    ///
    /// Anything outside 2 and 3 is rejected rather than guessed at: a future
    /// CUPS 4 must not silently build as CUPS 3.
    pub fn from_major(major: u32) -> (generation: Option<Self>)
        ensures
            generation == CupsGeneration::of_major(major),
    {
        match major {
            2 => Some(CupsGeneration::Cups2),
            3 => Some(CupsGeneration::Cups3),
            _ => None,
        }
    }
}

/// The major version in the text of a version: the number before the first
/// full stop.
pub open spec fn major_version(version: Seq<char>) -> Option<u32> {
    text::parsed_u32(text::before(text::trimmed(version), '.'))
}

/// Parse the major version out of `cups-config --version` output such as
/// "2.3.4". Returns `None` for anything that is not a leading integer.
pub fn parse_major_version(version: &str) -> (major: Option<u32>)
    ensures
        major == major_version(version@),
{
    parse_u32(up_to(trim(version), '.'))
}

/// Whether `word` is the flag `-<letter>` directly followed by a value.
pub open spec fn carries_flag(word: Seq<char>, letter: char) -> bool {
    word.len() > 2 && word[0] == '-' && word[1] == letter
}

/// The values given with the flag `-<letter>`, in order.
pub open spec fn flag_values(words: Seq<Seq<char>>, letter: char) -> Seq<Seq<char>>
    decreases words.len(),
{
    if words.len() == 0 {
        seq![]
    } else {
        let earlier = flag_values(words.drop_last(), letter);
        if carries_flag(words.last(), letter) {
            earlier.push(words.last().skip(2))
        } else {
            earlier
        }
    }
}

/// The value `word` carries for the flag `-<letter>`.
fn flag_value(word: &String, letter: char) -> (value: Option<String>)
    ensures
        value is Some == carries_flag(word@, letter),
        value matches Some(text) ==> text@ == word@.skip(2),
{
    let text = word.as_str();
    let count: usize = text.unicode_len();
    if count > 2 && text.get_char(0) == '-' && text.get_char(1) == letter {
        let rest = text.substring_char(2, count);
        assert(rest@ == word@.skip(2));
        Some(rest.to_string())
    } else {
        None
    }
}

/// Extract `-I` search paths from a `cups-config --cflags` string.
///
/// `cups-config` emits a plain space-separated list, so splitting on
/// whitespace is sufficient and avoids handing the string to a shell.
pub fn parse_include_paths(cflags: &str) -> (paths: Vec<String>)
    ensures
        text::texts(paths@) == flag_values(text::words(cflags@), 'I'),
{
    let flags = split_words(cflags);
    let ghost all = text::words(cflags@);
    let mut paths: Vec<String> = Vec::new();
    let mut i: usize = 0;
    assert(text::texts(paths@) == flag_values(all.take(0), 'I'));
    while i < flags.len()
        invariant
            i <= flags.len(),
            text::texts(flags@) == all,
            text::texts(paths@) == flag_values(all.take(i as int), 'I'),
        decreases flags.len() - i,
    {
        let ghost earlier = text::texts(paths@);
        assert(all.take(i + 1).drop_last() == all.take(i as int));
        assert(all[i as int] == flags@[i as int]@);
        if let Some(path) = flag_value(&flags[i], 'I') {
            paths.push(path);
            assert(text::texts(paths@) == earlier.push(path@));
        }
        i += 1;
    }
    assert(all.take(i as int) == all);
    paths
}

/// Link directives extracted from `cups-config --libs`.
#[derive(Debug, PartialEq, Eq)]
pub struct LinkFlags {
    pub libs: Vec<String>,
    pub search_paths: Vec<String>,
}

impl Default for LinkFlags {
    fn default() -> (flags: Self)
        ensures
            flags.libs@.len() == 0,
            flags.search_paths@.len() == 0,
    {
        LinkFlags { libs: Vec::new(), search_paths: Vec::new() }
    }
}

/// Extract `-l` / `-L` directives from a `cups-config --libs` string.
///
/// Other flags (`-framework`, `-Wl,...`, optimisation flags) are not link
/// directives Cargo understands here and are intentionally ignored rather
/// than forwarded blindly.
pub fn parse_link_flags(libs: &str) -> (parsed: LinkFlags)
    ensures
        text::texts(parsed.libs@) == flag_values(text::words(libs@), 'l'),
        text::texts(parsed.search_paths@) == flag_values(text::words(libs@), 'L'),
{
    let flags = split_words(libs);
    let ghost all = text::words(libs@);
    let mut parsed = LinkFlags::default();
    let mut i: usize = 0;
    assert(text::texts(parsed.libs@) == flag_values(all.take(0), 'l'));
    assert(text::texts(parsed.search_paths@) == flag_values(all.take(0), 'L'));
    while i < flags.len()
        invariant
            i <= flags.len(),
            text::texts(flags@) == all,
            text::texts(parsed.libs@) == flag_values(all.take(i as int), 'l'),
            text::texts(parsed.search_paths@) == flag_values(all.take(i as int), 'L'),
        decreases flags.len() - i,
    {
        let ghost libs_before = text::texts(parsed.libs@);
        let ghost paths_before = text::texts(parsed.search_paths@);
        assert(all.take(i + 1).drop_last() == all.take(i as int));
        assert(all[i as int] == flags@[i as int]@);
        if let Some(dir) = flag_value(&flags[i], 'L') {
            parsed.search_paths.push(dir);
            assert(text::texts(parsed.search_paths@) == paths_before.push(dir@));
        } else if let Some(lib) = flag_value(&flags[i], 'l') {
            parsed.libs.push(lib);
            assert(text::texts(parsed.libs@) == libs_before.push(lib@));
        }
        i += 1;
    }
    assert(all.take(i as int) == all);
    parsed
}

/// What a successful look through `cups-config` found.
#[derive(Debug, PartialEq, Eq)]
pub struct CupsConfigProbe {
    pub generation: CupsGeneration,
    pub header_paths: Vec<String>,
    pub link: LinkFlags,
}

/// What the tools printed; `None` where one was missing or failed.
#[derive(Clone, Copy, Debug, PartialEq, Eq)]
pub struct ToolOutput<'a> {
    pub version: Option<&'a str>,
    pub libs: Option<&'a str>,
    pub cflags: Option<&'a str>,
    /// The header directory of the active SDK, where it holds `cups/cups.h`.
    pub sdk_path: Option<&'a str>,
}

/// The generation that the tool output names, when it names a known one.
pub open spec fn reported_generation(output: ToolOutput) -> Option<CupsGeneration> {
    match output.version {
        None => None,
        Some(version) => match major_version(version@) {
            None => None,
            Some(major) => CupsGeneration::of_major(major),
        },
    }
}

/// The libraries that the tool output names.
pub open spec fn reported_libs(output: ToolOutput) -> Seq<Seq<char>> {
    match output.libs {
        None => seq![],
        Some(libs) => flag_values(text::words(libs@), 'l'),
    }
}

/// The header paths to use: those of `cups-config`, else the SDK's.
pub open spec fn reported_header_paths(output: ToolOutput) -> Seq<Seq<char>> {
    match output.cflags {
        None => seq![],
        Some(cflags) => {
            let paths = flag_values(text::words(cflags@), 'I');
            match output.sdk_path {
                Some(path) if paths.len() == 0 => seq![path@],
                _ => paths,
            }
        },
    }
}

/// Discover the system CUPS through `cups-config`.
///
/// Returns `None`, never a partially populated result, when the version is
/// unrecognised, no library can be linked, or no usable header path exists.
pub fn probe_with_cups_config(output: ToolOutput) -> (probe: Option<CupsConfigProbe>)
    ensures
        probe is Some <==> reported_generation(output) is Some && reported_libs(output).len() > 0
            && reported_header_paths(output).len() > 0,
        probe matches Some(found) ==> {
            &&& Some(found.generation) == reported_generation(output)
            &&& text::texts(found.link.libs@) == reported_libs(output)
            &&& text::texts(found.link.search_paths@) == flag_values(text::words(output.libs->0@), 'L')
            &&& text::texts(found.header_paths@) == reported_header_paths(output)
        },
{
    let version = match output.version {
        Some(version) => version,
        None => return None,
    };
    let major = match parse_major_version(version) {
        Some(major) => major,
        None => return None,
    };
    let generation = match CupsGeneration::from_major(major) {
        Some(generation) => generation,
        None => return None,
    };
    let link = match output.libs {
        Some(libs) => parse_link_flags(libs),
        None => return None,
    };
    if link.libs.is_empty() {
        // Without a library to link against, the rest is useless.
        return None;
    }
    let mut header_paths = match output.cflags {
        Some(cflags) => parse_include_paths(cflags),
        None => return None,
    };
    if header_paths.is_empty() {
        if let Some(path) = output.sdk_path {
            header_paths.push(path.to_string());
            assert(text::texts(header_paths@) == seq![path@]);
        }
    }
    if header_paths.is_empty() {
        return None;
    }
    Some(CupsConfigProbe { generation, header_paths, link })
}

/// How CUPS was found.
#[derive(Clone, Copy, Debug, PartialEq, Eq, Structural)]
pub enum Route {
    PkgConfig,
    CupsConfig,
}

/// The route to the requested generation, or why there is none: pkg-config
/// where it has the package, else `cups-config` where it reports this very
/// generation.
pub open spec fn forced_route(
    requested: CupsGeneration,
    pkg_config_found: bool,
    probed: Option<CupsGeneration>,
) -> Result<Route, Seq<char>> {
    if pkg_config_found {
        Ok(Route::PkgConfig)
    } else {
        match probed {
            Some(found) => if found == requested {
                Ok(Route::CupsConfig)
            } else {
                Err(
                    "feature force-"@ + requested.spec_cfg()
                        + " was requested but cups-config reports "@ + found.spec_cfg()
                        + "; refusing to build against a different CUPS generation"@,
                )
            },
            None => Err(
                "Failed to find "@ + requested.spec_package()
                    + " with pkg-config or cups-config"@,
            ),
        }
    }
}

/// What a route says.
pub open spec fn route_view(route: Result<Route, String>) -> Result<Route, Seq<char>> {
    match route {
        Ok(found) => Ok(found),
        Err(why) => Err(why@),
    }
}

/// The route and the generation it leads to, when nothing was requested.
pub open spec fn auto_route(
    cups3_found: bool,
    cups2_found: bool,
    probed: Option<CupsGeneration>,
) -> Option<(Route, CupsGeneration)> {
    if cups3_found {
        Some((Route::PkgConfig, CupsGeneration::Cups3))
    } else if cups2_found {
        Some((Route::PkgConfig, CupsGeneration::Cups2))
    } else if let Some(generation) = probed {
        Some((Route::CupsConfig, generation))
    } else {
        None
    }
}

/// Resolve CUPS for an explicitly requested generation.
///
/// pkg-config is tried first. The cups-config fallback is only accepted when
/// it reports the same generation that was requested: a forced CUPS 2 build
/// must never be satisfied by a CUPS 3 installation. The error says why no
/// route was usable.
pub fn discover_forced(
    requested: CupsGeneration,
    pkg_config_found: bool,
    probed: Option<CupsGeneration>,
) -> (route: Result<Route, String>)
    ensures
        route_view(route) == forced_route(requested, pkg_config_found, probed),
{
    if pkg_config_found {
        return Ok(Route::PkgConfig);
    }
    match probed {
        Some(found) => {
            if found == requested {
                Ok(Route::CupsConfig)
            } else {
                Err(
                    "feature force-".to_string().concat(requested.cfg()).concat(
                        " was requested but cups-config reports ",
                    ).concat(found.cfg()).concat(
                        "; refusing to build against a different CUPS generation",
                    ),
                )
            }
        },
        None => Err(
            "Failed to find ".to_string().concat(requested.package()).concat(
                " with pkg-config or cups-config",
            ),
        ),
    }
}

/// Resolve CUPS with no explicit preference.
///
/// Order: pkg-config cups3, pkg-config cups, cups-config. Every route reports
/// which generation it found; there is no default to fall back on.
pub fn discover_auto(
    cups3_found: bool,
    cups2_found: bool,
    probed: Option<CupsGeneration>,
) -> (found: Option<(Route, CupsGeneration)>)
    ensures
        found == auto_route(cups3_found, cups2_found, probed),
{
    if cups3_found {
        return Some((Route::PkgConfig, CupsGeneration::Cups3));
    }
    if cups2_found {
        return Some((Route::PkgConfig, CupsGeneration::Cups2));
    }
    match probed {
        Some(generation) => Some((Route::CupsConfig, generation)),
        None => None,
    }
}

/// Every generation has exactly one build setting: two generations never share
/// one, and the major version that selects a generation selects no other.
pub proof fn law_generations_are_distinct(a: CupsGeneration, b: CupsGeneration, major: u32)
    ensures
        a != b ==> a.spec_cfg() != b.spec_cfg(),
        CupsGeneration::of_major(major) == Some(a) && CupsGeneration::of_major(major) == Some(b)
            ==> a == b,
        major != 2 && major != 3 ==> CupsGeneration::of_major(major) is None,
{
    reveal_strlit("cups2");
    reveal_strlit("cups3");
    assert("cups2"@[4] == '2');
    assert("cups3"@[4] == '3');
}

/// The two generations are called `cups2` and `cups3` as build settings, their
/// packages `cups` and `cups3`, and their major versions are 2 and 3.
pub proof fn law_generations_are_those_of_cups(generation: CupsGeneration, major: u32)
    ensures
        generation is Cups2 <==> generation.spec_cfg() == "cups2"@,
        generation is Cups3 <==> generation.spec_cfg() == "cups3"@,
        generation is Cups2 <==> generation.spec_package() == "cups"@,
        generation is Cups3 <==> generation.spec_package() == "cups3"@,
        CupsGeneration::of_major(major) == Some(CupsGeneration::Cups2) <==> major == 2,
        CupsGeneration::of_major(major) == Some(CupsGeneration::Cups3) <==> major == 3,
{
    reveal_strlit("cups2");
    reveal_strlit("cups3");
    reveal_strlit("cups");
    assert("cups"@.len() == 4);
    assert("cups3"@.len() == 5);
    assert("cups2"@[4] == '2');
    assert("cups3"@[4] == '3');
}

/// The major version of `<major>`, and of `<major>.<rest>` whatever the rest,
/// is that number, with or without white space around it. A version that does
/// not begin with a number has none.
pub proof fn law_the_major_version_comes_first(
    lead: Seq<char>,
    major: u32,
    rest: Seq<char>,
    trail: Seq<char>,
    other: Seq<char>,
)
    requires
        forall|i: int| 0 <= i < lead.len() ==> text::is_white_space(#[trigger] lead[i]),
        forall|i: int| 0 <= i < trail.len() ==> text::is_white_space(#[trigger] trail[i]),
        rest.len() > 0 ==> !text::is_white_space(rest.last()),
        other.len() > 0 ==> !text::is_white_space(other[0]) && !text::is_white_space(other.last()),
    ensures
        major_version(lead + text::decimal_chars(major as nat) + trail) == Some(major),
        major_version(lead + (text::decimal_chars(major as nat) + seq!['.'] + rest) + trail)
            == Some(major),
        other.len() == 0 || !('0' <= other[0] && other[0] <= '9') && other[0] != '+'
            ==> major_version(lead + other + trail) is None,
{
    let digits = text::decimal_chars(major as nat);
    let long = digits + seq!['.'] + rest;
    text::law_decimal_holds_digits_only(major as nat);
    text::law_decimal_reads_back(major);
    if digits.contains('.') {
        let i = choose|i: int| 0 <= i < digits.len() && digits[i] == '.';
        assert('0' <= digits[i]);
    }
    assert(digits.last() == digits[digits.len() - 1]);
    assert(long[0] == digits[0]);
    assert(long.last() == if rest.len() > 0 {
        rest.last()
    } else {
        '.'
    });
    text::law_a_text_is_found_where_it_was_put(digits, '.', rest);
    text::law_trimming_leaves_the_core(lead, digits, trail);
    text::law_trimming_leaves_the_core(lead, long, trail);
    text::law_trimming_leaves_the_core(lead, other, trail);
    if other.len() == 0 || !('0' <= other[0] && other[0] <= '9') && other[0] != '+' {
        let front = text::before(other, '.');
        text::law_first_occurrence_divides_a_text(other, '.');
        if front.len() > 0 {
            assert(front[0] == other[0]);
            assert(!text::is_digit(front[0]));
        }
    }
}

/// Flags are read word by word and none is lost: a list of words gives what its
/// parts give, one after the other; a flag gives the value behind it; and a
/// word that is not that flag, or has nothing behind it, gives nothing.
pub proof fn law_flags_are_read_word_by_word(
    front: Seq<Seq<char>>,
    back: Seq<Seq<char>>,
    letter: char,
    value: Seq<char>,
    word: Seq<char>,
)
    ensures
        flag_values(front + back, letter) == flag_values(front, letter) + flag_values(
            back,
            letter,
        ),
        value.len() > 0 ==> flag_values(seq![seq!['-', letter] + value], letter) == seq![value],
        word.len() <= 2 || word[0] != '-' || word[1] != letter ==> flag_values(
            seq![word],
            letter,
        ).len() == 0,
    decreases back.len(),
{
    if back.len() > 0 {
        let whole = front + back;
        law_flags_are_read_word_by_word(front, back.drop_last(), letter, value, word);
        assert(whole.drop_last() =~= front + back.drop_last());
        assert(whole.last() == back.last());
        assert(flag_values(whole, letter) =~= flag_values(front, letter) + flag_values(
            back,
            letter,
        ));
    } else {
        assert(front + back =~= front);
        assert(flag_values(front, letter) =~= flag_values(front, letter) + flag_values(
            back,
            letter,
        ));
    }
    let flag = seq!['-', letter] + value;
    assert(flag.skip(2) =~= value);
    assert(seq![flag].drop_last() =~= seq![]);
    assert(seq![word].drop_last() =~= seq![]);
    assert(seq![flag].last() == flag);
    assert(seq![word].last() == word);
    assert(flag_values(Seq::<Seq<char>>::empty(), letter).len() == 0);
    assert(value.len() > 0 ==> flag_values(seq![flag], letter) =~= seq![value]);
}

/// A tool that printed nothing reports nothing. The libraries are the values of
/// `-l`, the header paths those of `-I`, and the SDK's path stands in for
/// header paths exactly when `cups-config` ran and named none.
pub proof fn law_reports_come_from_the_tools(output: ToolOutput)
    ensures
        output.version is None ==> reported_generation(output) is None,
        reported_generation(output) matches Some(generation) ==> (major_version(
            output.version->0@,
        ) matches Some(major) && (generation is Cups2 && major == 2 || generation is Cups3
            && major == 3)),
        output.version matches Some(version) ==> (major_version(version@) == Some(2u32)
            ==> reported_generation(output) == Some(CupsGeneration::Cups2)) && (major_version(
            version@,
        ) == Some(3u32) ==> reported_generation(output) == Some(CupsGeneration::Cups3)),
        output.libs is None ==> reported_libs(output).len() == 0,
        output.libs matches Some(libs) ==> reported_libs(output) == flag_values(
            text::words(libs@),
            'l',
        ),
        output.cflags is None ==> reported_header_paths(output).len() == 0,
        output.cflags matches Some(cflags) ==> {
            let named = flag_values(text::words(cflags@), 'I');
            &&& named.len() > 0 ==> reported_header_paths(output) == named
            &&& named.len() == 0 && output.sdk_path is None ==> reported_header_paths(
                output,
            ).len() == 0
            &&& named.len() == 0 && output.sdk_path is Some ==> reported_header_paths(output)
                == seq![output.sdk_path->0@]
        },
{
}

/// A requested generation is found exactly where pkg-config has it or
/// `cups-config` reports that very one, and pkg-config comes first. Otherwise
/// the error names what was asked for and what was found instead.
pub proof fn law_no_other_generation_is_forced(
    requested: CupsGeneration,
    pkg_config_found: bool,
    probed: Option<CupsGeneration>,
    route: Result<Route, String>,
)
    ensures
        ({
            let told = forced_route(requested, pkg_config_found, probed);
            &&& told is Ok <==> pkg_config_found || probed == Some(requested)
            &&& told == Ok::<Route, Seq<char>>(Route::PkgConfig) <==> pkg_config_found
            &&& told matches Err(why) ==> match probed {
                Some(found) => why == "feature force-"@ + requested.spec_cfg()
                    + " was requested but cups-config reports "@ + found.spec_cfg()
                    + "; refusing to build against a different CUPS generation"@,
                None => why == "Failed to find "@ + requested.spec_package()
                    + " with pkg-config or cups-config"@,
            }
        }),
        route matches Ok(found) ==> route_view(route) == Ok::<Route, Seq<char>>(found),
        route matches Err(why) ==> route_view(route) == Err::<Route, Seq<char>>(why@),
{
}

/// With nothing requested, whatever is there is found: the newest that
/// pkg-config has, else what `cups-config` reports. The generation is always
/// one that some tool reported.
pub proof fn law_the_newest_reported_generation_is_found(
    cups3_found: bool,
    cups2_found: bool,
    probed: Option<CupsGeneration>,
)
    ensures
        ({
            let told = auto_route(cups3_found, cups2_found, probed);
            &&& told is None <==> !cups3_found && !cups2_found && probed is None
            &&& told matches Some((route, generation)) ==> {
                &&& route is PkgConfig <==> cups3_found || cups2_found
                &&& route is PkgConfig ==> (generation is Cups3 <==> cups3_found)
                &&& route is CupsConfig ==> probed == Some(generation)
            }
        }),
{
}

} // verus!
