use std::path::PathBuf;

use cups_rs::discovery::{
    discover_auto, discover_forced, parse_include_paths, parse_link_flags, parse_major_version,
    probe_with_cups_config, CupsGeneration, LinkFlags, Route, ToolOutput,
};

#[test]
fn parses_major_version_from_real_output() {
    // The value macOS 2.3.4 actually reports.
    assert_eq!(parse_major_version("2.3.4"), Some(2));
    assert_eq!(parse_major_version("3.0.0"), Some(3));
    assert_eq!(parse_major_version(" 2.4.7 \n"), Some(2));
}

#[test]
fn rejects_unparsable_version() {
    assert_eq!(parse_major_version(""), None);
    assert_eq!(parse_major_version("unknown"), None);
    assert_eq!(parse_major_version("v2.3.4"), None);
}

#[test]
fn maps_only_known_generations() {
    assert_eq!(CupsGeneration::from_major(2), Some(CupsGeneration::Cups2));
    assert_eq!(CupsGeneration::from_major(3), Some(CupsGeneration::Cups3));
    // A future CUPS must not be silently treated as a known generation.
    assert_eq!(CupsGeneration::from_major(4), None);
    assert_eq!(CupsGeneration::from_major(1), None);
    assert_eq!(CupsGeneration::from_major(0), None);
}

#[test]
fn parses_include_paths() {
    assert_eq!(
        parse_include_paths("-I/usr/include -I/opt/cups/include")
            .into_iter()
            .map(PathBuf::from)
            .collect::<Vec<_>>(),
        vec![
            PathBuf::from("/usr/include"),
            PathBuf::from("/opt/cups/include"),
        ]
    );
}

#[test]
fn apple_empty_cflags_yields_no_include_paths() {
    // Apple's cups-config prints nothing; the SDK lookup handles that case.
    assert!(parse_include_paths("").is_empty());
    assert!(parse_include_paths("   \n").is_empty());
}

#[test]
fn ignores_non_include_flags() {
    assert!(parse_include_paths("-D_REENTRANT -O2").is_empty());
}

#[test]
fn parses_link_flags() {
    let flags = parse_link_flags("-L/opt/cups/lib -lcups -lz");
    assert_eq!(flags.search_paths, vec!["/opt/cups/lib".to_string()]);
    assert_eq!(flags.libs, vec!["cups".to_string(), "z".to_string()]);
}

#[test]
fn parses_macos_link_flags() {
    // What macOS 2.3.4 actually reports.
    let flags = parse_link_flags("-lcups");
    assert_eq!(flags.libs, vec!["cups".to_string()]);
    assert!(flags.search_paths.is_empty());
}

#[test]
fn ignores_non_link_flags() {
    // Frameworks and linker flags must not be mistaken for libraries.
    let flags = parse_link_flags("-lcups -framework CoreFoundation -Wl,-search_paths_first");
    assert_eq!(flags.libs, vec!["cups".to_string()]);
    assert!(flags.search_paths.is_empty());
}

#[test]
fn empty_link_flags_yield_nothing() {
    assert_eq!(parse_link_flags(""), LinkFlags::default());
}

#[test]
fn a_generation_has_its_own_name() {
    assert_eq!(CupsGeneration::Cups2.cfg(), "cups2");
    assert_eq!(CupsGeneration::Cups3.cfg(), "cups3");
}

fn tools<'a>() -> ToolOutput<'a> {
    ToolOutput {
        version: Some("2.3.4\n"),
        libs: Some("-L/opt/cups/lib -lcups"),
        cflags: Some("-I/opt/cups/include"),
        sdk_path: Some("/sdk/usr/include"),
    }
}

#[test]
fn a_complete_probe_reports_everything() {
    let probe = probe_with_cups_config(tools()).expect("complete");
    assert_eq!(probe.generation, CupsGeneration::Cups2);
    assert_eq!(probe.header_paths, vec!["/opt/cups/include".to_string()]);
    assert_eq!(probe.link.libs, vec!["cups".to_string()]);
    assert_eq!(probe.link.search_paths, vec!["/opt/cups/lib".to_string()]);
}

#[test]
fn the_sdk_stands_in_for_missing_header_paths_only() {
    let empty = ToolOutput {
        cflags: Some("\n"),
        ..tools()
    };
    assert_eq!(
        probe_with_cups_config(empty).expect("sdk").header_paths,
        vec!["/sdk/usr/include".to_string()]
    );
    let neither = ToolOutput {
        sdk_path: None,
        ..empty
    };
    assert_eq!(probe_with_cups_config(neither), None);
}

#[test]
fn an_incomplete_probe_is_no_probe() {
    for output in [
        ToolOutput {
            version: None,
            ..tools()
        },
        ToolOutput {
            version: Some("4.0"),
            ..tools()
        },
        ToolOutput {
            libs: None,
            ..tools()
        },
        ToolOutput {
            libs: Some("-L/opt/cups/lib"),
            ..tools()
        },
        ToolOutput {
            cflags: None,
            ..tools()
        },
    ] {
        assert_eq!(probe_with_cups_config(output), None, "{output:?}");
    }
}

#[test]
fn a_forced_generation_is_never_satisfied_by_another() {
    assert_eq!(discover_forced(CupsGeneration::Cups2, true, None), Ok(Route::PkgConfig));
    assert_eq!(
        discover_forced(CupsGeneration::Cups3, false, Some(CupsGeneration::Cups3)),
        Ok(Route::CupsConfig)
    );
    assert_eq!(
        discover_forced(CupsGeneration::Cups2, false, Some(CupsGeneration::Cups3)),
        Err(
            "feature force-cups2 was requested but cups-config reports cups3; \
             refusing to build against a different CUPS generation"
                .to_string()
        )
    );
    assert_eq!(
        discover_forced(CupsGeneration::Cups3, false, None),
        Err("Failed to find cups3 with pkg-config or cups-config".to_string())
    );
}

#[test]
fn discovery_without_preference_takes_the_first_route() {
    assert_eq!(
        discover_auto(true, true, Some(CupsGeneration::Cups2)),
        Some((Route::PkgConfig, CupsGeneration::Cups3))
    );
    assert_eq!(
        discover_auto(false, true, Some(CupsGeneration::Cups3)),
        Some((Route::PkgConfig, CupsGeneration::Cups2))
    );
    assert_eq!(
        discover_auto(false, false, Some(CupsGeneration::Cups2)),
        Some((Route::CupsConfig, CupsGeneration::Cups2))
    );
    assert_eq!(discover_auto(false, false, None), None);
}

#[test]
fn each_generation_has_its_package() {
    assert_eq!(CupsGeneration::Cups2.package(), "cups");
    assert_eq!(CupsGeneration::Cups3.package(), "cups3");
}
