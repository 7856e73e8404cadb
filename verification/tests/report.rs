use ulexec::args::Flag;
use ulexec::image::ImageError;
use ulexec::launcher::Failure;
use ulexec::platform::Platform;
use ulexec::report::{failure_message, spell, usage, version_line};

#[test]
fn the_usage_lists_every_option_where_the_image_can_be_replaced() {
    let expected = vec![
        "Runs programs from memory",
        "",
        "Usage: ulexec [OPTIONS] [EXEC ARGS]...",
        "",
        "Arguments:",
        "  [EXEC ARGS]...  Command line arguments for execution",
        "",
        "Options:",
        "  ~~u,  ~~url <URL>    Load the binary file from URL (env: ULEXEC_URL)",
        "  ~~p,  ~~post         Use the POST method instead of GET (env: ULEXEC_POST)",
        "  ~~f,  ~~file <PATH>  Path to the binary file for exec (env: ULEXEC_FILE)",
        "  ~~s,  ~~stdin        Load the binary file from stdin (env: ULEXEC_STDIN)",
        "  ~~r,  ~~remove       Self remove (env: ULEXEC_REMOVE)",
        "  ~~re, ~~reexec       Reexec fix (env: ULEXEC_REEXEC)",
        "  ~~m,  ~~mfdexec      Force use memfd exec (env: ULEXEC_MFDEXEC)",
        "  ~~n,  ~~name         Set process name or cmdline for memfd exec (env: ULEXEC_NAME)",
        "  ~~v,  ~~version      Print version",
        "  ~~h,  ~~help         Print help",
    ];
    assert_eq!(usage(Platform::Linux, "Runs programs from memory"), expected);
}

#[test]
fn the_usage_leaves_out_what_the_other_platform_lacks() {
    let expected = vec![
        "",
        "",
        "Usage: ulexec [OPTIONS] [EXEC ARGS]...",
        "",
        "Arguments:",
        "  [EXEC ARGS]...  Command line arguments for execution",
        "",
        "Options:",
        "  ~~u,  ~~url <URL>    Load the binary file from URL (env: ULEXEC_URL)",
        "  ~~p,  ~~post         Use the POST method instead of GET (env: ULEXEC_POST)",
        "  ~~f,  ~~file <PATH>  Path to the binary file for exec (env: ULEXEC_FILE)",
        "  ~~s,  ~~stdin        Load the binary file from stdin (env: ULEXEC_STDIN)",
        "  ~~v,  ~~version      Print version",
        "  ~~h,  ~~help         Print help",
    ];
    assert_eq!(usage(Platform::Windows, ""), expected);
}

#[test]
fn the_version_follows_the_name() {
    assert_eq!(version_line("0.1.0"), "ulexec v0.1.0");
    assert_eq!(version_line(""), "ulexec v");
}

#[test]
fn every_option_has_a_spelling() {
    assert_eq!(spell(Flag::Url), "~~url <URL>");
    assert_eq!(spell(Flag::File), "~~file <PATH>");
    assert_eq!(spell(Flag::Name), "~~name <NAME>");
    assert_eq!(spell(Flag::Post), "~~post");
    assert_eq!(spell(Flag::Stdin), "~~stdin");
    assert_eq!(spell(Flag::Remove), "~~remove");
    assert_eq!(spell(Flag::Reexec), "~~reexec");
    assert_eq!(spell(Flag::Mfdexec), "~~mfdexec");
    assert_eq!(spell(Flag::Version), "~~version");
    assert_eq!(spell(Flag::Help), "~~help");
}

#[test]
fn a_missing_value_is_reported_with_its_option() {
    assert_eq!(
        failure_message(Failure::MissingValue(Flag::Url)),
        "A value is required for '~~url <URL>' but none was supplied!"
    );
    assert_eq!(
        failure_message(Failure::MissingValue(Flag::File)),
        "A value is required for '~~file <PATH>' but none was supplied!"
    );
    assert_eq!(
        failure_message(Failure::MissingValue(Flag::Name)),
        "A value is required for '~~name <NAME>' but none was supplied!"
    );
}

#[test]
fn the_other_failures_have_their_words() {
    assert_eq!(
        failure_message(Failure::NoSource),
        "Specify the path to the binary file or see 'ulexec ~~help'"
    );
    assert_eq!(failure_message(Failure::BadImage(ImageError::Malformed)), "Failed to parse ELF");
    assert_eq!(
        failure_message(Failure::BadImage(ImageError::NoLoadableSegment)),
        "Failed to parse ELF: no loadable segment"
    );
    assert_eq!(
        failure_message(Failure::NoexecEnabled),
        "You need to enable memfd_noexec == 0: /proc/sys/vm/memfd_noexec"
    );
    assert_eq!(
        failure_message(Failure::OutOfTurn),
        "The launcher was told of a step it had not asked for"
    );
}
