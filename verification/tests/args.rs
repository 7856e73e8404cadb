use ulexec::args::{apply_environment, names_remote, parse_args, recognize, scan_words};
use ulexec::args::{Args, Flag, Parsed, DEFAULT_NAME};
use ulexec::platform::Platform;

fn words(list: &[&str]) -> Vec<String> {
    list.iter().map(|w| w.to_string()).collect()
}

fn env(list: &[(&str, &str)]) -> Vec<(String, String)> {
    list.iter().map(|(k, v)| (k.to_string(), v.to_string())).collect()
}

fn run(list: &[&str], vars: &[(&str, &str)], platform: Platform) -> Args {
    match parse_args(&words(list), &env(vars), platform) {
        Parsed::Run(args) => args,
        other => panic!("no request: {:?}", other),
    }
}

#[test]
fn new_request_is_empty() {
    let args = Args::new();
    assert_eq!(args.url, None);
    assert_eq!(args.file, None);
    assert!(!args.post);
    assert!(!args.stdin);
    assert!(!args.reexec);
    assert!(!args.mfdexec);
    assert!(!args.remove);
    assert_eq!(args.name, None);
    assert!(args.exec_args.is_empty());
}

#[test]
fn default_name_is_the_launchers() {
    assert_eq!(DEFAULT_NAME, "ulexec");
}

#[test]
fn every_option_has_a_long_and_a_short_spelling() {
    let table = [
        ("~~url", "~~u", Flag::Url),
        ("~~file", "~~f", Flag::File),
        ("~~name", "~~n", Flag::Name),
        ("~~post", "~~p", Flag::Post),
        ("~~stdin", "~~s", Flag::Stdin),
        ("~~remove", "~~r", Flag::Remove),
        ("~~reexec", "~~re", Flag::Reexec),
        ("~~mfdexec", "~~m", Flag::Mfdexec),
        ("~~version", "~~v", Flag::Version),
        ("~~help", "~~h", Flag::Help),
    ];
    for (long, short, flag) in table {
        assert_eq!(recognize(long, Platform::Linux), Some(flag));
        assert_eq!(recognize(short, Platform::Linux), Some(flag));
    }
}

#[test]
fn four_options_exist_only_where_the_image_can_be_replaced() {
    for word in ["~~name", "~~n", "~~remove", "~~r", "~~reexec", "~~re", "~~mfdexec", "~~m"] {
        assert_eq!(recognize(word, Platform::Windows), None);
    }
    for (word, flag) in [
        ("~~url", Flag::Url),
        ("~~f", Flag::File),
        ("~~post", Flag::Post),
        ("~~s", Flag::Stdin),
        ("~~version", Flag::Version),
        ("~~h", Flag::Help),
    ] {
        assert_eq!(recognize(word, Platform::Windows), Some(flag));
    }
}

#[test]
fn other_words_spell_no_option() {
    for word in ["", "~", "~~", "url", "--url", "~~URL", "~~url ", "~~urls", "-u", "~~x", "run"] {
        assert_eq!(recognize(word, Platform::Linux), None);
        assert_eq!(recognize(word, Platform::Windows), None);
    }
}

#[test]
fn empty_command_line_gives_the_defaults() {
    let args = run(&[], &[], Platform::Linux);
    let mut expected = Args::new();
    expected.name = Some("ulexec".to_string());
    assert_eq!(args, expected);
    let args = run(&[], &[], Platform::Windows);
    assert_eq!(args, Args::new());
}

#[test]
fn options_with_values_take_the_next_word() {
    let args = run(
        &["~~url", "http://host/a", "~~file", "/tmp/a", "~~name", "worker"],
        &[],
        Platform::Linux,
    );
    assert_eq!(args.url, Some("http://host/a".to_string()));
    assert_eq!(args.file, Some("/tmp/a".to_string()));
    assert_eq!(args.name, Some("worker".to_string()));
    assert!(args.exec_args.is_empty());
    let args = run(&["~~u", "x", "~~f", "y", "~~n", "z"], &[], Platform::Linux);
    assert_eq!(args.url, Some("x".to_string()));
    assert_eq!(args.file, Some("y".to_string()));
    assert_eq!(args.name, Some("z".to_string()));
}

#[test]
fn a_value_is_taken_even_if_it_spells_an_option() {
    let args = run(&["~~url", "~~post", "~~file", "~~help"], &[], Platform::Linux);
    assert_eq!(args.url, Some("~~post".to_string()));
    assert_eq!(args.file, Some("~~help".to_string()));
    assert!(!args.post);
}

#[test]
fn a_later_value_replaces_an_earlier_one() {
    let args = run(&["~~url", "a", "~~u", "b"], &[], Platform::Linux);
    assert_eq!(args.url, Some("b".to_string()));
}

#[test]
fn switches_turn_on() {
    let args = run(
        &["~~post", "~~stdin", "~~remove", "~~reexec", "~~mfdexec"],
        &[],
        Platform::Linux,
    );
    assert!(args.post && args.stdin && args.remove && args.reexec && args.mfdexec);
    let args = run(&["~~p", "~~s", "~~r", "~~re", "~~m"], &[], Platform::Linux);
    assert!(args.post && args.stdin && args.remove && args.reexec && args.mfdexec);
}

#[test]
fn other_words_are_handed_on_in_order() {
    let args = run(&["prog", "~~post", "-l", "~~x", "last"], &[], Platform::Linux);
    assert_eq!(args.exec_args, words(&["prog", "-l", "~~x", "last"]));
    assert!(args.post);
}

#[test]
fn options_of_the_other_platform_are_handed_on() {
    let args = run(&["~~remove", "~~name", "x", "~~m", "~~re"], &[], Platform::Windows);
    assert_eq!(args.exec_args, words(&["~~remove", "~~name", "x", "~~m", "~~re"]));
    assert!(!args.remove && !args.reexec && !args.mfdexec);
    assert_eq!(args.name, None);
}

#[test]
fn a_missing_value_ends_the_reading() {
    let none = env(&[]);
    assert_eq!(
        parse_args(&words(&["~~url"]), &none, Platform::Linux),
        Parsed::MissingValue(Flag::Url)
    );
    assert_eq!(
        parse_args(&words(&["a", "~~f"]), &none, Platform::Linux),
        Parsed::MissingValue(Flag::File)
    );
    assert_eq!(
        parse_args(&words(&["~~post", "~~n"]), &none, Platform::Linux),
        Parsed::MissingValue(Flag::Name)
    );
    assert_eq!(
        parse_args(&words(&["~~file"]), &none, Platform::Windows),
        Parsed::MissingValue(Flag::File)
    );
}

#[test]
fn version_and_help_end_the_reading_where_they_stand() {
    let none = env(&[]);
    assert_eq!(parse_args(&words(&["~~version"]), &none, Platform::Linux), Parsed::Version);
    assert_eq!(parse_args(&words(&["~~v", "~~url"]), &none, Platform::Linux), Parsed::Version);
    assert_eq!(parse_args(&words(&["~~help"]), &none, Platform::Windows), Parsed::Help);
    assert_eq!(parse_args(&words(&["a", "~~h", "~~v"]), &none, Platform::Linux), Parsed::Help);
    assert_eq!(parse_args(&words(&["~~v", "~~h"]), &none, Platform::Linux), Parsed::Version);
    assert_eq!(
        parse_args(&words(&["~~url", "~~v"]), &none, Platform::Linux),
        Parsed::Run(run(&["~~url", "~~v"], &[], Platform::Linux))
    );
}

#[test]
fn scanning_alone_leaves_the_environment_out() {
    match scan_words(&words(&["~~post", "x"]), Platform::Linux) {
        Parsed::Run(args) => {
            assert!(args.post);
            assert_eq!(args.name, None);
            assert_eq!(args.exec_args, words(&["x"]));
        },
        other => panic!("no request: {:?}", other),
    }
}

#[test]
fn the_environment_fills_what_the_command_line_left_open() {
    let vars = [
        ("ULEXEC_URL", "http://env/"),
        ("ULEXEC_FILE", "/env/file"),
        ("ULEXEC_POST", "1"),
        ("ULEXEC_STDIN", "1"),
        ("ULEXEC_NAME", "envname"),
        ("ULEXEC_REMOVE", "1"),
        ("ULEXEC_REEXEC", "1"),
        ("ULEXEC_MFDEXEC", "1"),
    ];
    let args = run(&["a"], &vars, Platform::Linux);
    assert_eq!(args.url, Some("http://env/".to_string()));
    assert_eq!(args.file, Some("/env/file".to_string()));
    assert!(args.post && args.stdin && args.remove && args.reexec && args.mfdexec);
    assert_eq!(args.name, Some("envname".to_string()));
    assert_eq!(args.exec_args, words(&["a"]));
}

#[test]
fn the_command_line_wins_over_the_environment() {
    let vars = [("ULEXEC_URL", "http://env/"), ("ULEXEC_FILE", "/env"), ("ULEXEC_NAME", "envname")];
    let args = run(&["~~url", "http://cli/", "~~file", "/cli", "~~name", "cli"], &vars, Platform::Linux);
    assert_eq!(args.url, Some("http://cli/".to_string()));
    assert_eq!(args.file, Some("/cli".to_string()));
    assert_eq!(args.name, Some("cli".to_string()));
}

#[test]
fn only_the_value_one_switches_on() {
    let vars = [
        ("ULEXEC_POST", "true"),
        ("ULEXEC_STDIN", "0"),
        ("ULEXEC_REMOVE", "yes"),
        ("ULEXEC_REEXEC", "11"),
        ("ULEXEC_MFDEXEC", ""),
    ];
    let args = run(&[], &vars, Platform::Linux);
    assert!(!args.post && !args.stdin && !args.remove && !args.reexec && !args.mfdexec);
}

#[test]
fn empty_variables_count_as_unset() {
    let vars = [("ULEXEC_URL", ""), ("ULEXEC_FILE", ""), ("ULEXEC_NAME", "")];
    let args = run(&[], &vars, Platform::Linux);
    assert_eq!(args.url, None);
    assert_eq!(args.file, None);
    assert_eq!(args.name, Some("ulexec".to_string()));
}

#[test]
fn a_first_argument_that_names_a_remote_address_becomes_the_address() {
    let args = run(&["http://host/x", "a", "b"], &[], Platform::Linux);
    assert_eq!(args.url, Some("http://host/x".to_string()));
    assert_eq!(args.exec_args, words(&["a", "b"]));
    let args = run(&["https://host/x"], &[], Platform::Windows);
    assert_eq!(args.url, Some("https://host/x".to_string()));
    assert!(args.exec_args.is_empty());
}

#[test]
fn only_the_first_argument_can_become_the_address() {
    let args = run(&["a", "http://host/x"], &[], Platform::Linux);
    assert_eq!(args.url, None);
    assert_eq!(args.exec_args, words(&["a", "http://host/x"]));
    let args = run(&["ftp://host/x"], &[], Platform::Linux);
    assert_eq!(args.url, None);
    let args = run(&["HTTP://host/x"], &[], Platform::Linux);
    assert_eq!(args.url, None);
}

#[test]
fn an_address_from_elsewhere_leaves_the_arguments_alone() {
    let args = run(&["~~url", "http://cli/", "http://host/x"], &[], Platform::Linux);
    assert_eq!(args.url, Some("http://cli/".to_string()));
    assert_eq!(args.exec_args, words(&["http://host/x"]));
    let args = run(&["http://host/x"], &[("ULEXEC_URL", "http://env/")], Platform::Linux);
    assert_eq!(args.url, Some("http://env/".to_string()));
    assert_eq!(args.exec_args, words(&["http://host/x"]));
}

#[test]
fn the_other_platform_reads_only_its_own_variables() {
    let vars = [
        ("ULEXEC_URL", "http://env/"),
        ("ULEXEC_POST", "1"),
        ("ULEXEC_NAME", "envname"),
        ("ULEXEC_REMOVE", "1"),
        ("ULEXEC_REEXEC", "1"),
        ("ULEXEC_MFDEXEC", "1"),
    ];
    let args = run(&[], &vars, Platform::Windows);
    assert_eq!(args.url, Some("http://env/".to_string()));
    assert!(args.post);
    assert_eq!(args.name, None);
    assert!(!args.remove && !args.reexec && !args.mfdexec);
}

#[test]
fn apply_environment_changes_the_request_in_place() {
    let mut args = Args::new();
    args.exec_args = words(&["https://h/", "x"]);
    apply_environment(&mut args, &env(&[("ULEXEC_STDIN", "1")]), Platform::Linux);
    assert_eq!(args.url, Some("https://h/".to_string()));
    assert_eq!(args.exec_args, words(&["x"]));
    assert!(args.stdin);
    assert_eq!(args.name, Some("ulexec".to_string()));
}

#[test]
fn remote_addresses_begin_with_a_scheme() {
    assert!(names_remote("http://"));
    assert!(names_remote("https://a"));
    assert!(names_remote("http://a/b?c"));
    assert!(!names_remote("http:/a"));
    assert!(!names_remote("https:/"));
    assert!(!names_remote(""));
    assert!(!names_remote(" http://a"));
    assert!(!names_remote("file:///a"));
}
