use monitor_cli::invocation::{build_args, get_mode, CliError, Mode, Request, BUS_FLAG};

fn s(x: &str) -> String {
    x.to_string()
}

fn request(feature: &str, value: Option<&str>, up: Option<&str>, down: Option<&str>) -> Request {
    Request::new(s(feature), value.map(s), up.map(s), down.map(s)).unwrap()
}

#[test]
fn set_brightness_by_value() {
    let q = request("brightness", Some("50"), None, None);
    assert_eq!(build_args(BUS_FLAG, &q), Ok(vec![s(BUS_FLAG), s("setvcp"), s("10"), s("50")]));
}

#[test]
fn raise_contrast() {
    let q = request("contrast", None, Some("5"), None);
    assert_eq!(
        build_args(BUS_FLAG, &q),
        Ok(vec![s(BUS_FLAG), s("setvcp"), s("12"), s("+"), s("5")])
    );
}

#[test]
fn lower_feature_by_code() {
    let q = request("0x12", None, None, Some("3"));
    assert_eq!(
        build_args("--bus=2", &q),
        Ok(vec![s("--bus=2"), s("setvcp"), s("12"), s("-"), s("3")])
    );
}

#[test]
fn read_bare_code() {
    let q = request("10", None, None, None);
    assert_eq!(build_args(BUS_FLAG, &q), Ok(vec![s(BUS_FLAG), s("getvcp"), s("10")]));
}

#[test]
fn read_prefixed_code() {
    let q = request("0xAB", None, None, None);
    assert_eq!(build_args(BUS_FLAG, &q), Ok(vec![s(BUS_FLAG), s("getvcp"), s("AB")]));
}

#[test]
fn unresolvable_feature_is_an_error() {
    let q = request("unknown_xyz", Some("1"), None, None);
    assert_eq!(build_args(BUS_FLAG, &q), Err(CliError::InvalidCode));
}

#[test]
fn bus_flag_value() {
    assert_eq!(BUS_FLAG, "--bus=6");
}

#[test]
fn mode_follows_options() {
    assert_eq!(get_mode(&request("10", None, None, None)), Mode::Read);
    assert_eq!(get_mode(&request("10", Some("1"), None, None)), Mode::Write);
    assert_eq!(get_mode(&request("10", None, Some("1"), None)), Mode::Write);
    assert_eq!(get_mode(&request("10", None, None, Some("1"))), Mode::Write);
}

#[test]
fn mode_keywords() {
    assert_eq!(Mode::Read.keyword(), "getvcp");
    assert_eq!(Mode::Write.keyword(), "setvcp");
}

#[test]
fn conflicting_options_are_rejected() {
    let bad = [
        (Some("1"), Some("2"), None),
        (Some("1"), None, Some("2")),
        (None, Some("1"), Some("2")),
        (Some("1"), Some("2"), Some("3")),
    ];
    for (v, u, d) in bad {
        let r = Request::new(s("10"), v.map(s), u.map(s), d.map(s));
        assert!(matches!(r, Err(CliError::ConflictingOptions)));
    }
}

#[test]
fn single_option_is_accepted() {
    let q = Request::new(s("contrast"), None, None, Some(s("4"))).unwrap();
    assert_eq!(q.feature, "contrast");
    assert_eq!(q.value, None);
    assert_eq!(q.up, None);
    assert_eq!(q.down, Some(s("4")));
}
