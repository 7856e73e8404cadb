//! What the launcher prints: its usage, its version, and the reason of a
//! failure.

use vstd::prelude::*;
use vstd::string::StringExecFns;
use crate::args::Flag;
use crate::args::DEFAULT_NAME;
use crate::image::ImageError;
use crate::launcher::Failure;
use crate::loader::NOEXEC_SETTING;
use crate::platform::Platform;
use crate::text::texts;

verus! {

/// The lines of the usage up to the options that every platform has.
pub open spec fn usage_head(description: Seq<char>) -> Seq<Seq<char>> {
    seq![
        description,
        ""@,
        "Usage: "@ + DEFAULT_NAME@ + " [OPTIONS] [EXEC ARGS]..."@,
        ""@,
        "Arguments:"@,
        "  [EXEC ARGS]...  Command line arguments for execution"@,
        ""@,
        "Options:"@,
        "  ~~u,  ~~url <URL>    Load the binary file from URL (env: ULEXEC_URL)"@,
        "  ~~p,  ~~post         Use the POST method instead of GET (env: ULEXEC_POST)"@,
        "  ~~f,  ~~file <PATH>  Path to the binary file for exec (env: ULEXEC_FILE)"@,
        "  ~~s,  ~~stdin        Load the binary file from stdin (env: ULEXEC_STDIN)"@,
    ]
}

/// The lines for the options that exist only where the running image can
/// be replaced.
pub open spec fn usage_replacing() -> Seq<Seq<char>> {
    seq![
        "  ~~r,  ~~remove       Self remove (env: ULEXEC_REMOVE)"@,
        "  ~~re, ~~reexec       Reexec fix (env: ULEXEC_REEXEC)"@,
        "  ~~m,  ~~mfdexec      Force use memfd exec (env: ULEXEC_MFDEXEC)"@,
        "  ~~n,  ~~name         Set process name or cmdline for memfd exec (env: ULEXEC_NAME)"@,
    ]
}

/// The last lines of the usage.
pub open spec fn usage_tail() -> Seq<Seq<char>> {
    seq![
        "  ~~v,  ~~version      Print version"@,
        "  ~~h,  ~~help         Print help"@,
    ]
}

/// The lines of the usage on `platform`, under the description
/// `description`: the options of every platform, then those that only a
/// platform with image replacement has, then version and help.
pub open spec fn usage_text(platform: Platform, description: Seq<char>) -> Seq<Seq<char>> {
    if platform.replaces_image() {
        usage_head(description) + usage_replacing() + usage_tail()
    } else {
        usage_head(description) + usage_tail()
    }
}

/// Adds a line to a list of lines.
fn push_line(lines: &mut Vec<String>, line: &str)
    ensures
        texts(final(lines)@) == texts(old(lines)@).push(line@),
{
    lines.push(line.to_owned());
}

/// The lines of the usage on `platform`, under the description
/// `description`.
pub fn usage(platform: Platform, description: &str) -> (r: Vec<String>)
    ensures
        texts(r@) == usage_text(platform, description@),
{
    let mut lines: Vec<String> = Vec::new();
    push_line(&mut lines, description);
    push_line(&mut lines, "");
    let mut synopsis = "Usage: ".to_owned();
    synopsis.append(DEFAULT_NAME);
    synopsis.append(" [OPTIONS] [EXEC ARGS]...");
    push_line(&mut lines, synopsis.as_str());
    push_line(&mut lines, "");
    push_line(&mut lines, "Arguments:");
    push_line(&mut lines, "  [EXEC ARGS]...  Command line arguments for execution");
    push_line(&mut lines, "");
    push_line(&mut lines, "Options:");
    push_line(&mut lines, "  ~~u,  ~~url <URL>    Load the binary file from URL (env: ULEXEC_URL)");
    push_line(
        &mut lines,
        "  ~~p,  ~~post         Use the POST method instead of GET (env: ULEXEC_POST)",
    );
    push_line(
        &mut lines,
        "  ~~f,  ~~file <PATH>  Path to the binary file for exec (env: ULEXEC_FILE)",
    );
    push_line(
        &mut lines,
        "  ~~s,  ~~stdin        Load the binary file from stdin (env: ULEXEC_STDIN)",
    );
    if platform.can_replace_image() {
        push_line(&mut lines, "  ~~r,  ~~remove       Self remove (env: ULEXEC_REMOVE)");
        push_line(&mut lines, "  ~~re, ~~reexec       Reexec fix (env: ULEXEC_REEXEC)");
        push_line(&mut lines, "  ~~m,  ~~mfdexec      Force use memfd exec (env: ULEXEC_MFDEXEC)");
        push_line(
            &mut lines,
            "  ~~n,  ~~name         Set process name or cmdline for memfd exec (env: ULEXEC_NAME)",
        );
    }
    push_line(&mut lines, "  ~~v,  ~~version      Print version");
    push_line(&mut lines, "  ~~h,  ~~help         Print help");
    lines
}

/// The line that tells the version: the launcher's name, a space, the
/// letter v, the version.
pub open spec fn version_text(version: Seq<char>) -> Seq<char> {
    DEFAULT_NAME@ + " v"@ + version
}

/// The line that tells the version.
pub fn version_line(version: &str) -> (r: String)
    ensures
        r@ == version_text(version@),
{
    let mut line = DEFAULT_NAME.to_owned();
    line.append(" v");
    line.append(version);
    line
}

/// How the usage spells an option and the value it takes.
pub open spec fn spelling(flag: Flag) -> Seq<char> {
    match flag {
        Flag::Url => "~~url <URL>"@,
        Flag::File => "~~file <PATH>"@,
        Flag::Name => "~~name <NAME>"@,
        Flag::Post => "~~post"@,
        Flag::Stdin => "~~stdin"@,
        Flag::Remove => "~~remove"@,
        Flag::Reexec => "~~reexec"@,
        Flag::Mfdexec => "~~mfdexec"@,
        Flag::Version => "~~version"@,
        Flag::Help => "~~help"@,
    }
}

/// How the usage spells an option and the value it takes.
pub fn spell(flag: Flag) -> (r: &'static str)
    ensures
        r@ == spelling(flag),
{
    match flag {
        Flag::Url => "~~url <URL>",
        Flag::File => "~~file <PATH>",
        Flag::Name => "~~name <NAME>",
        Flag::Post => "~~post",
        Flag::Stdin => "~~stdin",
        Flag::Remove => "~~remove",
        Flag::Reexec => "~~reexec",
        Flag::Mfdexec => "~~mfdexec",
        Flag::Version => "~~version",
        Flag::Help => "~~help",
    }
}

/// The words that report a failure.
pub open spec fn failure_text(failure: Failure) -> Seq<char> {
    match failure {
        Failure::MissingValue(flag) => "A value is required for '"@ + spelling(flag)
            + "' but none was supplied!"@,
        Failure::NoSource => "Specify the path to the binary file or see '"@ + DEFAULT_NAME@
            + " ~~help'"@,
        Failure::BadImage(ImageError::Malformed) => "Failed to parse ELF"@,
        Failure::BadImage(ImageError::NoLoadableSegment) =>
            "Failed to parse ELF: no loadable segment"@,
        Failure::NoexecEnabled => "You need to enable memfd_noexec == 0: "@ + NOEXEC_SETTING@,
        Failure::OutOfTurn => "The launcher was told of a step it had not asked for"@,
    }
}

/// The words that report a failure.
pub fn failure_message(failure: Failure) -> (r: String)
    ensures
        r@ == failure_text(failure),
{
    match failure {
        Failure::MissingValue(flag) => {
            let mut line = "A value is required for '".to_owned();
            line.append(spell(flag));
            line.append("' but none was supplied!");
            line
        },
        Failure::NoSource => {
            let mut line = "Specify the path to the binary file or see '".to_owned();
            line.append(DEFAULT_NAME);
            line.append(" ~~help'");
            line
        },
        Failure::BadImage(ImageError::Malformed) => "Failed to parse ELF".to_owned(),
        Failure::BadImage(ImageError::NoLoadableSegment) =>
            "Failed to parse ELF: no loadable segment".to_owned(),
        Failure::NoexecEnabled => {
            let mut line = "You need to enable memfd_noexec == 0: ".to_owned();
            line.append(NOEXEC_SETTING);
            line
        },
        Failure::OutOfTurn => "The launcher was told of a step it had not asked for".to_owned(),
    }
}

} // verus!
