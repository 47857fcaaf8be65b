use ops_cli::output::{init, verbosity, Kind, Output, Stream, Verbosity};

#[test]
fn the_context_carries_the_verbosity() {
    for v in [Verbosity::Quiet, Verbosity::Normal, Verbosity::Verbose] {
        assert_eq!(verbosity(&init(v)), v);
    }
    assert_eq!(verbosity(&Output::normal()), Verbosity::Normal);
}

#[test]
fn levels_are_ordered() {
    assert_eq!(Verbosity::Quiet.level(), 0);
    assert_eq!(Verbosity::Normal.level(), 1);
    assert_eq!(Verbosity::Verbose.level(), 2);
    assert!(Verbosity::Verbose.at_least(Verbosity::Normal));
    assert!(Verbosity::Normal.at_least(Verbosity::Normal));
    assert!(!Verbosity::Quiet.at_least(Verbosity::Normal));
}

#[test]
fn what_each_level_shows() {
    let quiet = init(Verbosity::Quiet);
    let normal = init(Verbosity::Normal);
    let verbose = init(Verbosity::Verbose);
    for kind in [Kind::Step, Kind::Detail, Kind::Success, Kind::Warn] {
        assert!(!quiet.shows(kind));
        assert!(normal.shows(kind));
        assert!(verbose.shows(kind));
    }
    for kind in [Kind::Error, Kind::Prompt, Kind::Outcome] {
        assert!(quiet.shows(kind));
        assert!(normal.shows(kind));
        assert!(verbose.shows(kind));
    }
    assert!(!quiet.shows(Kind::Debug));
    assert!(!normal.shows(Kind::Debug));
    assert!(verbose.shows(Kind::Debug));
}

#[test]
fn warnings_and_errors_go_to_stderr() {
    assert_eq!(Kind::Warn.stream(), Stream::Stderr);
    assert_eq!(Kind::Error.stream(), Stream::Stderr);
    for kind in [Kind::Step, Kind::Detail, Kind::Success, Kind::Debug, Kind::Prompt, Kind::Outcome] {
        assert_eq!(kind.stream(), Stream::Stdout);
    }
}
