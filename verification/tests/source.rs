use ulexec::args::Args;
use ulexec::source::{needs_read, select_source, Source};

fn words(list: &[&str]) -> Vec<String> {
    list.iter().map(|w| w.to_string()).collect()
}

fn full() -> Args {
    let mut args = Args::new();
    args.stdin = true;
    args.file = Some("/opt/file".to_string());
    args.url = Some("http://host/".to_string());
    args.post = true;
    args.exec_args = words(&["first", "second"]);
    args
}

#[test]
fn standard_input_comes_first() {
    let mut args = full();
    assert_eq!(select_source(&mut args), Some(Source::Stdin));
    assert_eq!(args, full());
}

#[test]
fn the_path_option_comes_second() {
    let mut args = full();
    args.stdin = false;
    let before = args.clone();
    assert_eq!(select_source(&mut args), Some(Source::Path("/opt/file".to_string())));
    assert_eq!(args, before);
}

#[test]
fn the_address_comes_third() {
    let mut args = full();
    args.stdin = false;
    args.file = None;
    let before = args.clone();
    assert_eq!(
        select_source(&mut args),
        Some(Source::Url { url: "http://host/".to_string(), post: true })
    );
    assert_eq!(args, before);
    args.post = false;
    assert_eq!(
        select_source(&mut args),
        Some(Source::Url { url: "http://host/".to_string(), post: false })
    );
}

#[test]
fn the_first_argument_comes_last_and_leaves_the_arguments() {
    let mut args = Args::new();
    args.post = true;
    args.exec_args = words(&["first", "second", "third"]);
    assert_eq!(select_source(&mut args), Some(Source::Path("first".to_string())));
    assert_eq!(args.exec_args, words(&["second", "third"]));
    assert!(args.post);
    assert_eq!(args.file, None);
}

#[test]
fn a_request_without_any_has_no_source() {
    let mut args = Args::new();
    args.post = true;
    args.name = Some("n".to_string());
    args.remove = true;
    let before = args.clone();
    assert_eq!(select_source(&mut args), None);
    assert_eq!(args, before);
}

#[test]
fn an_empty_path_is_still_a_source() {
    let mut args = Args::new();
    args.file = Some(String::new());
    assert_eq!(select_source(&mut args), Some(Source::Path(String::new())));
}

#[test]
fn a_file_is_read_only_when_there_are_no_bytes_yet() {
    assert!(needs_read("/opt/file", &Vec::new()));
    assert!(!needs_read("/opt/file", &vec![1u8]));
    assert!(!needs_read("", &Vec::new()));
    assert!(!needs_read("", &vec![1u8, 2]));
}
