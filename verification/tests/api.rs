use cups_rs::constants;
use cups_rs::destination::{
    Destination, DestinationOption, LookupFailure, MediaSize, PrinterState,
};
use cups_rs::provider::api::{
    accepting_jobs, capabilities_unreadable, default_printer, default_state, descriptor_from,
    list_printers, lookup, lookup_refusal, media_by_size, pick_default, printer_state, ready_media, summarise,
    supported_media, supported_state, PrinterSummary, ReadyEntry,
};
use cups_rs::provider::attribute::AttributeState;
use cups_rs::provider::error::ProviderError;
use cups_rs::provider::media::{um_to_cups_units, MediaQuery, ReadyMedia};
use cups_rs::provider::value::{IppValue, RawAttribute, RawElement};

fn destination(name: &str, is_default: bool) -> Destination {
    Destination {
        name: name.to_string(),
        instance: None,
        is_default,
        options: Default::default(),
    }
}

#[test]
fn genuine_no_default_yields_none() {
    // The scheduler answered; nothing is marked default. That is a fact
    // about the configuration, not a failure.
    let destinations = vec![
        destination("Canon_TS5400_series", false),
        destination("EPSON_EW_456A_Series", false),
    ];
    assert!(pick_default(&destinations).is_none());
}

#[test]
fn empty_destination_list_yields_none() {
    assert!(pick_default(&[]).is_none());
}

#[test]
fn default_printer_is_found_by_flag() {
    let destinations = vec![
        destination("Canon_TS5400_series", false),
        destination("Brother_MFC_7460DN", true),
        destination("EPSON_EW_456A_Series", false),
    ];
    let found = pick_default(&destinations).expect("a default exists");
    assert_eq!(found.name, "Brother_MFC_7460DN");
    assert!(found.is_default);
}

#[test]
fn query_failure_is_not_an_absent_default() {
    // get_default_printer maps a failed enumeration to ConnectionFailed.
    // Nothing in the provider may turn that into Ok(None): "we could not
    // ask" and "there is no default" lead to different decisions.
    let failure = ProviderError::ConnectionFailed {
        detail: "could not list destinations: simulated".into(),
    };
    assert!(!failure.is_operator_actionable());
    // The error carries no printer, because none was identified.
    assert_eq!(failure.printer(), None);
}

#[test]
fn converts_um_to_cups_units() {
    assert_eq!(um_to_cups_units(100_000), 10_000);
    assert_eq!(um_to_cups_units(148_000), 14_800);
}

#[test]
fn descriptor_keeps_dimensions_exact() {
    let size = MediaSize {
        name: "jpn_hagaki_100x148mm".into(),
        width: 10_000,
        length: 14_800,
        top: 300,
        bottom: 300,
        left: 300,
        right: 300,
    };
    let descriptor = descriptor_from(size, MediaQuery::Default);
    assert_eq!(descriptor.width_um, 100_000);
    assert_eq!(descriptor.length_um, 148_000);
    assert_eq!(descriptor.margins.top_um, 3_000);
    assert!(descriptor.is_postcard_100x148());
    assert!(!descriptor.borderless);
}

#[test]
fn borderless_requires_zero_margins_not_just_the_query() {
    // Asking for borderless does not make a bordered sheet borderless.
    let bordered = MediaSize {
        name: "jpn_hagaki_100x148mm".into(),
        width: 10_000,
        length: 14_800,
        top: 300,
        bottom: 300,
        left: 300,
        right: 300,
    };
    assert!(!descriptor_from(bordered, MediaQuery::Borderless).borderless);

    let full_bleed = MediaSize {
        name: "jpn_hagaki_100x148mm_borderless".into(),
        width: 10_000,
        length: 14_800,
        top: 0,
        bottom: 0,
        left: 0,
        right: 0,
    };
    assert!(descriptor_from(full_bleed, MediaQuery::Borderless).borderless);
}

fn option(name: &str, value: &str) -> DestinationOption {
    DestinationOption {
        name: name.into(),
        value: value.into(),
    }
}

fn described_printer() -> Destination {
    Destination {
        name: "Canon".into(),
        instance: Some("draft".into()),
        is_default: true,
        options: vec![
            option("printer-state", "4"),
            option("printer-is-accepting-jobs", "true"),
            option("printer-state-reasons", "media-low-warning, cover-open"),
            option("printer-info", "Canon TS5400"),
            option("printer-location", "Office"),
            option("printer-make-and-model", "Canon TS5400 series"),
            option("printer-uri-supported", "ipp://localhost/printers/Canon"),
            option("device-uri", "ipps://canon.local/ipp/print"),
        ],
    }
}

#[test]
fn a_summary_says_what_the_scheduler_said() {
    let summary = summarise(&described_printer());
    assert_eq!(
        summary,
        PrinterSummary {
            name: "Canon".into(),
            full_name: "Canon/draft".into(),
            is_default: true,
            state: PrinterState::Processing,
            accepting_jobs: true,
            state_reasons: vec!["media-low-warning".into(), "cover-open".into()],
            info: Some("Canon TS5400".into()),
            location: Some("Office".into()),
            make_and_model: Some("Canon TS5400 series".into()),
            printer_uri: Some("ipp://localhost/printers/Canon".into()),
            device_uri: Some("ipps://canon.local/ipp/print".into()),
        }
    );
    let bare = summarise(&destination("Bare", false));
    assert_eq!(bare.full_name, "Bare");
    assert_eq!(bare.state, PrinterState::Unknown);
    assert!(!bare.accepting_jobs);
    assert!(bare.state_reasons.is_empty());
    assert_eq!(bare.info, None);
}

#[test]
fn printer_states_are_told_apart() {
    for (value, state) in [
        ("3", PrinterState::Idle),
        ("4", PrinterState::Processing),
        ("5", PrinterState::Stopped),
        ("6", PrinterState::Unknown),
    ] {
        let mut printer = destination("P", false);
        printer.options.push(option("printer-state", value));
        assert_eq!(printer_state("P", Ok(printer)), Ok(state));
    }
    assert_eq!(
        printer_state("P", Err(LookupFailure::NotFound)),
        Err(ProviderError::PrinterNotFound {
            printer: "P".into()
        })
    );
    assert_eq!(accepting_jobs("Canon", Ok(described_printer())), Ok(true));
    assert_eq!(accepting_jobs("P", Ok(destination("P", false))), Ok(false));
    assert_eq!(
        accepting_jobs("P", Err(LookupFailure::NotFound)),
        Err(ProviderError::PrinterNotFound {
            printer: "P".into()
        })
    );
}

#[test]
fn a_failed_lookup_is_not_a_missing_printer() {
    let unreachable = || LookupFailure::Failed("connection refused".into());
    let expected = ProviderError::ConnectionFailed {
        detail: "could not look up P: connection refused".into(),
    };
    assert_eq!(lookup("P", Err(unreachable())), Err(expected.clone()));
    assert_eq!(
        printer_state("P", Err(unreachable())),
        Err(expected.clone())
    );
    assert_eq!(
        accepting_jobs("P", Err(unreachable())),
        Err(expected.clone())
    );
    assert_eq!(lookup_refusal("P", unreachable()), expected);
    assert_eq!(
        lookup("P", Err(LookupFailure::NotFound)),
        Err(ProviderError::PrinterNotFound {
            printer: "P".into()
        })
    );
    assert_eq!(
        lookup("P", Ok(destination("P", true))),
        Ok(destination("P", true))
    );
}

#[test]
fn ready_media_can_be_copied() {
    let ready = ready_media(Some(vec![ReadyEntry {
        name: Some("iso_a4_210x297mm".into()),
        size: None,
    }]));
    assert_eq!(ready.clone(), ready);
    assert_eq!(
        ReadyMedia::NotAdvertised.clone(),
        ReadyMedia::NotAdvertised
    );
}

#[test]
fn a_failed_listing_is_an_error_with_its_reason() {
    assert_eq!(
        list_printers(Err("no scheduler".into())),
        Err(ProviderError::ConnectionFailed {
            detail: "no scheduler".into()
        })
    );
    assert_eq!(
        default_printer(Err("simulated".into())),
        Err(ProviderError::ConnectionFailed {
            detail: "could not list destinations: simulated".into()
        })
    );
    assert_eq!(default_printer(Ok(vec![destination("P", false)])), Ok(None));
    let listed = list_printers(Ok(vec![destination("A", false), destination("B", true)]))
        .expect("listed");
    assert_eq!(
        listed.iter().map(|p| p.name.as_str()).collect::<Vec<_>>(),
        vec!["A", "B"]
    );
}

#[test]
fn unreadable_capabilities_name_the_destination() {
    assert_eq!(
        capabilities_unreadable(&destination("P", false), "refused"),
        ProviderError::ConnectionFailed {
            detail: "could not read capabilities for P: refused".into()
        }
    );
}

fn keywords(values: &[&str]) -> RawAttribute {
    RawAttribute {
        tag: constants::IPP_TAG_KEYWORD,
        elements: values
            .iter()
            .map(|value| RawElement::Text(Some(value.to_string())))
            .collect(),
    }
}

#[test]
fn attributes_are_missing_empty_or_present() {
    assert_eq!(supported_state("sides", None), AttributeState::NotAdvertised);
    assert_eq!(
        supported_state("sides", Some(keywords(&[]))),
        AttributeState::Empty
    );
    assert_eq!(
        supported_state("sides", Some(keywords(&["one-sided"]))),
        AttributeState::Present(vec![IppValue::Keyword("one-sided".into())])
    );
    // A name C cannot hold was never asked for.
    assert_eq!(
        supported_state("si\0des", Some(keywords(&["one-sided"]))),
        AttributeState::NotAdvertised
    );
    assert_eq!(
        default_state(
            "orientation-requested",
            Some(RawAttribute {
                tag: constants::IPP_TAG_NOVALUE,
                elements: vec![RawElement::Nothing],
            })
        ),
        AttributeState::Present(vec![IppValue::NoValue])
    );
}

fn hagaki() -> MediaSize {
    MediaSize {
        name: "jpn_hagaki_100x148mm".into(),
        width: 10_000,
        length: 14_800,
        top: 0,
        bottom: 0,
        left: 0,
        right: 0,
    }
}

#[test]
fn unreadable_media_is_told_only_when_nothing_is_left() {
    let some = supported_media("P", MediaQuery::Default, vec![None, Some(hagaki()), None])
        .expect("one is readable");
    assert_eq!(some.len(), 1);
    assert!(some[0].is_postcard_100x148());
    assert_eq!(supported_media("P", MediaQuery::Default, vec![]), Ok(vec![]));
    assert_eq!(
        supported_media("P", MediaQuery::Default, vec![None, None]),
        Err(ProviderError::CapabilityUnknown {
            printer: "P".into(),
            attribute: "media (2 entries unreadable)".into(),
        })
    );
}

#[test]
fn a_size_the_printer_lacks_is_unknown_media() {
    let found = media_by_size("P", MediaQuery::Borderless, Ok(hagaki())).expect("found");
    assert!(found.borderless);
    assert_eq!(
        media_by_size("P", MediaQuery::Exact, Err("no match".into())),
        Err(ProviderError::MediaUnknown {
            printer: "P".into(),
            detail: "no match".into(),
        })
    );
}

#[test]
fn ready_media_keeps_names_without_a_size() {
    assert_eq!(ready_media(None), ReadyMedia::NotAdvertised);
    assert_eq!(ready_media(Some(vec![])), ReadyMedia::Present(vec![]));
    let ready = ready_media(Some(vec![
        ReadyEntry {
            name: None,
            size: Some(hagaki()),
        },
        ReadyEntry {
            name: Some("jpn_hagaki_100x148mm".into()),
            size: Some(hagaki()),
        },
        ReadyEntry {
            name: Some("custom_odd".into()),
            size: None,
        },
    ]));
    let list = ready.descriptors();
    assert_eq!(list.len(), 2);
    assert_eq!(list[0].width_um, 100_000);
    assert!(!list[0].borderless, "not from a borderless query");
    assert_eq!(list[1].canonical_name, "custom_odd");
    assert!(!list[1].has_known_dimensions());
}
