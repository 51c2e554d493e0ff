use lme_agent::data::{
    check_data_location, load_error, resolve_data_path, DataPathResolution, LoadFailure,
    LocationFacts, RootFacts,
};

fn location(path: &str, root: Option<(&str, bool)>, extension: Option<&str>) -> LocationFacts {
    LocationFacts {
        canonical_debug: format!("{path:?}"),
        root: root.map(|(r, contains_path)| RootFacts {
            canonical_debug: format!("{r:?}"),
            contains_path,
        }),
        extension: extension.map(|e| e.to_string()),
    }
}

#[test]
fn relative_paths_resolve_under_the_data_root() {
    assert_eq!(resolve_data_path(false, true), DataPathResolution::UnderRoot);
    assert_eq!(resolve_data_path(true, true), DataPathResolution::AsGiven);
    assert_eq!(resolve_data_path(false, false), DataPathResolution::AsGiven);
    assert_eq!(resolve_data_path(true, false), DataPathResolution::AsGiven);
}

#[test]
fn data_outside_the_root_is_rejected_first() {
    let e = check_data_location(&location("/etc/passwd", Some(("/srv/data", false)), None)).unwrap_err();
    assert_eq!(
        e.message(),
        "data_path \"/etc/passwd\" is outside LME_MCP_DATA_ROOT \"/srv/data\""
    );
    let e = check_data_location(&location("/tmp/x.csv", Some(("/srv/data", false)), Some("csv"))).unwrap_err();
    assert!(e.message().contains("is outside LME_MCP_DATA_ROOT"));
}

#[test]
fn only_csv_files_are_accepted() {
    assert!(check_data_location(&location("/srv/data/a.csv", Some(("/srv/data", true)), Some("csv"))).is_ok());
    assert!(check_data_location(&location("a.csv", None, Some("csv"))).is_ok());
    for ext in [None, Some("CSV"), Some("parquet"), Some("txt")] {
        let e = check_data_location(&location("/srv/data/a", Some(("/srv/data", true)), ext)).unwrap_err();
        assert_eq!(e.message(), "only CSV files are supported in this MCP server version");
    }
}

#[test]
fn load_failures_are_input_errors_with_their_step() {
    let e = load_error(LoadFailure::PathUnreachable("missing.csv".to_string()));
    assert!(e.is_caller_error());
    assert_eq!(e.message(), "data_path not found or inaccessible: missing.csv");
    let e = load_error(LoadFailure::RootUnreachable("\"/nope\"".to_string()));
    assert_eq!(e.message(), "LME_MCP_DATA_ROOT not found or inaccessible: \"/nope\"");
    let e = load_error(LoadFailure::Unopenable("\"/d/a.csv\"".to_string()));
    assert_eq!(e.message(), "failed to open \"/d/a.csv\"");
    let e = load_error(LoadFailure::Unparsable("\"/d/a.csv\"".to_string()));
    assert_eq!(e.message(), "failed to parse CSV \"/d/a.csv\"");
}
