use uu_diff::errors::ParseDiffError;
use uu_diff::format::Format;
use uu_diff::options;
use uu_diff::params::Params;

const ALL: [Format; 5] = [
    Format::Normal,
    Format::Unified,
    Format::Context,
    Format::Ed,
    Format::SideBySide,
];

#[test]
fn format_option_names() {
    assert_eq!(Format::Normal.option_name(), "normal");
    assert_eq!(Format::Unified.option_name(), "UNIFIED");
    assert_eq!(Format::Context.option_name(), "CONTEXT");
    assert_eq!(Format::Ed.option_name(), "ed");
    assert_eq!(Format::SideBySide.option_name(), "side-by-side");
}

#[test]
fn format_from_option_names() {
    assert_eq!(Format::from_option(options::NORMAL), Format::Normal);
    assert_eq!(Format::from_option(options::UNIFIED_LINES), Format::Unified);
    assert_eq!(Format::from_option(options::CONTEXT_LINES), Format::Context);
    assert_eq!(Format::from_option(options::ED), Format::Ed);
    assert_eq!(Format::from_option(options::SIDE_BY_SIDE), Format::SideBySide);
}

#[test]
fn format_option_roundtrip() {
    for f in ALL {
        assert_eq!(Format::from_option(f.option_name()), f);
    }
}

#[test]
fn format_default_is_normal() {
    assert_eq!(Format::default(), Format::Normal);
}

#[test]
fn set_format_unset_option_changes_nothing() {
    let mut format = None;
    assert_eq!(Params::set_format(&mut format, options::ED, false), Ok(()));
    assert_eq!(format, None);
    let mut format = Some(Format::Normal);
    assert_eq!(Params::set_format(&mut format, options::ED, false), Ok(()));
    assert_eq!(format, Some(Format::Normal));
}

#[test]
fn set_format_first_option_chooses() {
    let mut format = None;
    assert_eq!(Params::set_format(&mut format, options::SIDE_BY_SIDE, true), Ok(()));
    assert_eq!(format, Some(Format::SideBySide));
}

#[test]
fn set_format_second_option_conflicts() {
    let mut format = Some(Format::Normal);
    assert_eq!(
        Params::set_format(&mut format, options::ED, true),
        Err(ParseDiffError::ConflictingOutputStyle(Format::Normal, Format::Ed))
    );
    assert_eq!(format, Some(Format::Normal));
}
