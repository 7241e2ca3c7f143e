use uu_diff::prepare::{clap_preparation, prepare_arg};

fn prep(s: &str) -> String {
    String::from_utf8(prepare_arg(s.as_bytes())).unwrap()
}

#[test]
fn numeric_context_options_are_rewritten() {
    assert_eq!(prep("-c42"), "-c=42");
    assert_eq!(prep("-42c"), "-c=42");
    assert_eq!(prep("-4c2"), "-c=42");
    assert_eq!(prep("-u3"), "-u=3");
}

#[test]
fn other_letters_of_a_cluster_are_dropped() {
    assert_eq!(prep("-sc4"), "-c=4");
    assert_eq!(prep("-c4s"), "-c=4");
    assert_eq!(prep("-tu2p"), "-u=2");
    assert_eq!(prep("-abc"), "-c=");
}

#[test]
fn other_arguments_are_kept() {
    for s in ["-c", "-u", "-C42", "--context", "-c=42", "file", "-cu4", "-c4u", "-4", "-42", "-c-4", "c42", "", "-st"] {
        assert_eq!(prep(s), s, "{s}");
    }
}

#[test]
fn non_ascii_arguments_are_kept() {
    let arg = "-c4\u{e9}".as_bytes().to_vec();
    assert_eq!(prepare_arg(&arg), arg);
    let raw = vec![b'-', b'c', 0xff, b'4'];
    assert_eq!(prepare_arg(&raw), raw);
}

#[test]
fn preparing_twice_changes_nothing() {
    for s in ["-c42", "-4u2", "-abc", "x", "-c=1", "-cu", "-sc4"] {
        let once = prepare_arg(s.as_bytes());
        assert_eq!(prepare_arg(&once), once, "{s}");
    }
}

#[test]
fn whole_command_line() {
    let args: Vec<Vec<u8>> = ["diff", "-c3", "a", "-sc4", "-u", "b"].iter().map(|s| s.as_bytes().to_vec()).collect();
    let out = clap_preparation(args);
    let expected: Vec<Vec<u8>> = ["diff", "-c=3", "a", "-c=4", "-u", "b"].iter().map(|s| s.as_bytes().to_vec()).collect();
    assert_eq!(out, expected);
    assert_eq!(clap_preparation(out.clone()), out);
}
