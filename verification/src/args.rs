//! The request record that one launcher invocation works from, and how the
//! command line and the environment fill it.

use vstd::prelude::*;
use crate::environ::env_flag;
use crate::environ::env_view;
use crate::environ::get_env_var;
use crate::environ::is_on;
use crate::environ::lookup;
use crate::environ::FILE;
use crate::environ::MFDEXEC;
use crate::environ::NAME;
use crate::environ::POST;
use crate::environ::REEXEC;
use crate::environ::REMOVE;
use crate::environ::STDIN;
use crate::environ::URL;
use crate::platform::Platform;
use crate::text::opt_text;
use crate::text::starts_with;
use crate::text::str_eq;
use crate::text::texts;

verus! {

/// The name the launcher goes by, and the name a launched process reports
/// when none is asked for.
pub const DEFAULT_NAME: &'static str = "ulexec";

/// What one invocation was asked to do.
#[derive(Clone, Debug, PartialEq, Eq)]
pub struct Args {
    /// Remote address to fetch the payload from.
    pub url: Option<String>,
    /// Local path of the payload.
    pub file: Option<String>,
    /// Fetch with POST instead of GET.
    pub post: bool,
    /// Read the payload from standard input.
    pub stdin: bool,
    /// Hand the payload to a later invocation through a named pipe.
    pub reexec: bool,
    /// Always launch through an anonymous memory object.
    pub mfdexec: bool,
    /// Delete the launcher's own file before anything else.
    pub remove: bool,
    /// Name the launched process reports.
    pub name: Option<String>,
    /// Arguments handed on to the launched program.
    pub exec_args: Vec<String>,
}

/// Mathematical content of an [`Args`].
pub struct ArgsView {
    pub url: Option<Seq<char>>,
    pub file: Option<Seq<char>>,
    pub post: bool,
    pub stdin: bool,
    pub reexec: bool,
    pub mfdexec: bool,
    pub remove: bool,
    pub name: Option<Seq<char>>,
    pub exec_args: Seq<Seq<char>>,
}

impl ArgsView {
    /// The request in which nothing is set.
    pub open spec fn empty() -> ArgsView {
        ArgsView {
            url: None,
            file: None,
            post: false,
            stdin: false,
            reexec: false,
            mfdexec: false,
            remove: false,
            name: None,
            exec_args: Seq::empty(),
        }
    }
}

impl View for Args {
    type V = ArgsView;

    open spec fn view(&self) -> ArgsView {
        ArgsView {
            url: opt_text(self.url),
            file: opt_text(self.file),
            post: self.post,
            stdin: self.stdin,
            reexec: self.reexec,
            mfdexec: self.mfdexec,
            remove: self.remove,
            name: opt_text(self.name),
            exec_args: texts(self.exec_args@),
        }
    }
}

impl Args {
    /// A request with no source, no flag and no argument.
    pub fn new() -> (r: Args)
        ensures
            r@ == ArgsView::empty(),
    {
        let r = Args {
            url: None,
            file: None,
            post: false,
            stdin: false,
            reexec: false,
            mfdexec: false,
            remove: false,
            name: None,
            exec_args: Vec::new(),
        };
        assert(texts(r.exec_args@) =~= Seq::empty());
        r
    }
}

/// An option of the command line.
#[derive(Clone, Copy, Debug, PartialEq, Eq, Structural)]
pub enum Flag {
    /// Takes the remote address of the payload.
    Url,
    /// Takes the local path of the payload.
    File,
    /// Takes the name the launched process reports.
    Name,
    /// Fetch with POST.
    Post,
    /// Read the payload from standard input.
    Stdin,
    /// Delete the launcher's own file.
    Remove,
    /// Hand the payload on through a named pipe.
    Reexec,
    /// Always launch through an anonymous memory object.
    Mfdexec,
    /// Print the version and stop.
    Version,
    /// Print the usage and stop.
    Help,
}

impl Flag {
    /// Whether the option is followed by a value.
    pub open spec fn takes_value(self) -> bool {
        self is Url || self is File || self is Name
    }
}

/// The option that a word of the command line spells on `platform`, if it
/// spells one. Four options exist only where the running image can be
/// replaced.
pub open spec fn flag_of(word: Seq<char>, platform: Platform) -> Option<Flag> {
    if word == "~~url"@ || word == "~~u"@ {
        Some(Flag::Url)
    } else if word == "~~file"@ || word == "~~f"@ {
        Some(Flag::File)
    } else if platform.replaces_image() && (word == "~~name"@ || word == "~~n"@) {
        Some(Flag::Name)
    } else if word == "~~post"@ || word == "~~p"@ {
        Some(Flag::Post)
    } else if word == "~~stdin"@ || word == "~~s"@ {
        Some(Flag::Stdin)
    } else if platform.replaces_image() && (word == "~~remove"@ || word == "~~r"@) {
        Some(Flag::Remove)
    } else if platform.replaces_image() && (word == "~~reexec"@ || word == "~~re"@) {
        Some(Flag::Reexec)
    } else if platform.replaces_image() && (word == "~~mfdexec"@ || word == "~~m"@) {
        Some(Flag::Mfdexec)
    } else if word == "~~version"@ || word == "~~v"@ {
        Some(Flag::Version)
    } else if word == "~~help"@ || word == "~~h"@ {
        Some(Flag::Help)
    } else {
        None
    }
}

/// Every word that spells an option begins with two tildes, so a word
/// that does not is handed on to the launched program.
pub proof fn lemma_options_begin_with_tildes(word: Seq<char>, platform: Platform)
    requires
        flag_of(word, platform) is Some,
    ensures
        word.len() >= 3,
        word[0] == '~',
        word[1] == '~',
{
    reveal_strlit("~~url");
    reveal_strlit("~~u");
    reveal_strlit("~~file");
    reveal_strlit("~~f");
    reveal_strlit("~~name");
    reveal_strlit("~~n");
    reveal_strlit("~~post");
    reveal_strlit("~~p");
    reveal_strlit("~~stdin");
    reveal_strlit("~~s");
    reveal_strlit("~~remove");
    reveal_strlit("~~r");
    reveal_strlit("~~reexec");
    reveal_strlit("~~re");
    reveal_strlit("~~mfdexec");
    reveal_strlit("~~m");
    reveal_strlit("~~version");
    reveal_strlit("~~v");
    reveal_strlit("~~help");
    reveal_strlit("~~h");
}

/// The option that `word` spells on `platform`, if it spells one.
pub fn recognize(word: &str, platform: Platform) -> (r: Option<Flag>)
    ensures
        r == flag_of(word@, platform),
{
    let full = platform.can_replace_image();
    if str_eq(word, "~~url") || str_eq(word, "~~u") {
        Some(Flag::Url)
    } else if str_eq(word, "~~file") || str_eq(word, "~~f") {
        Some(Flag::File)
    } else if full && (str_eq(word, "~~name") || str_eq(word, "~~n")) {
        Some(Flag::Name)
    } else if str_eq(word, "~~post") || str_eq(word, "~~p") {
        Some(Flag::Post)
    } else if str_eq(word, "~~stdin") || str_eq(word, "~~s") {
        Some(Flag::Stdin)
    } else if full && (str_eq(word, "~~remove") || str_eq(word, "~~r")) {
        Some(Flag::Remove)
    } else if full && (str_eq(word, "~~reexec") || str_eq(word, "~~re")) {
        Some(Flag::Reexec)
    } else if full && (str_eq(word, "~~mfdexec") || str_eq(word, "~~m")) {
        Some(Flag::Mfdexec)
    } else if str_eq(word, "~~version") || str_eq(word, "~~v") {
        Some(Flag::Version)
    } else if str_eq(word, "~~help") || str_eq(word, "~~h") {
        Some(Flag::Help)
    } else {
        None
    }
}

/// How reading a command line ended.
#[derive(Clone, Debug, PartialEq, Eq)]
pub enum Parsed {
    /// The request to carry out.
    Run(Args),
    /// An option that takes a value stood last, with no value after it.
    MissingValue(Flag),
    /// The version was asked for.
    Version,
    /// The usage was asked for.
    Help,
}

/// Mathematical content of a [`Parsed`].
pub enum ParsedView {
    Run(ArgsView),
    MissingValue(Flag),
    Version,
    Help,
}

impl View for Parsed {
    type V = ParsedView;

    open spec fn view(&self) -> ParsedView {
        match self {
            Parsed::Run(a) => ParsedView::Run(a@),
            Parsed::MissingValue(f) => ParsedView::MissingValue(*f),
            Parsed::Version => ParsedView::Version,
            Parsed::Help => ParsedView::Help,
        }
    }
}

/// The request after the value `value` is stored for the option `flag`.
pub open spec fn with_value(a: ArgsView, flag: Flag, value: Seq<char>) -> ArgsView {
    match flag {
        Flag::Url => ArgsView { url: Some(value), ..a },
        Flag::File => ArgsView { file: Some(value), ..a },
        Flag::Name => ArgsView { name: Some(value), ..a },
        _ => a,
    }
}

/// The request after the switch `flag` is turned on.
pub open spec fn with_switch(a: ArgsView, flag: Flag) -> ArgsView {
    match flag {
        Flag::Post => ArgsView { post: true, ..a },
        Flag::Stdin => ArgsView { stdin: true, ..a },
        Flag::Remove => ArgsView { remove: true, ..a },
        Flag::Reexec => ArgsView { reexec: true, ..a },
        Flag::Mfdexec => ArgsView { mfdexec: true, ..a },
        _ => a,
    }
}

/// The request after `word` is added to the arguments that are handed on.
pub open spec fn with_argument(a: ArgsView, word: Seq<char>) -> ArgsView {
    ArgsView { exec_args: a.exec_args.push(word), ..a }
}

/// Reads the words from position `i` on, left to right, into the request
/// `a`. An option that takes a value takes the next word, whatever it
/// spells; without a next word the reading ends there. A request for the
/// version or the usage ends the reading where it stands. A word that
/// spells no option is handed on.
pub open spec fn scan(words: Seq<Seq<char>>, i: int, a: ArgsView, platform: Platform) -> ParsedView
    decreases words.len() - i,
{
    if i < 0 || i >= words.len() {
        ParsedView::Run(a)
    } else {
        match flag_of(words[i], platform) {
            None => scan(words, i + 1, with_argument(a, words[i]), platform),
            Some(Flag::Version) => ParsedView::Version,
            Some(Flag::Help) => ParsedView::Help,
            Some(flag) => if flag.takes_value() {
                if i + 1 < words.len() {
                    scan(words, i + 2, with_value(a, flag, words[i + 1]), platform)
                } else {
                    ParsedView::MissingValue(flag)
                }
            } else {
                scan(words, i + 1, with_switch(a, flag), platform)
            },
        }
    }
}

/// Whether a word names a remote address.
pub open spec fn is_remote(word: Seq<char>) -> bool {
    "http://"@.is_prefix_of(word) || "https://"@.is_prefix_of(word)
}

/// A text, unless it is empty.
pub open spec fn non_empty(value: Seq<char>) -> Option<Seq<char>> {
    if value.len() > 0 {
        Some(value)
    } else {
        None
    }
}

/// The request after the environment has filled what the command line left
/// open. A value or switch of the command line stands. Without an address
/// from either, a first argument that names a remote address becomes the
/// address and leaves the arguments. Where the running image can be
/// replaced, the process name falls back to the launcher's own.
pub open spec fn resolve(
    a: ArgsView,
    env: Seq<(Seq<char>, Seq<char>)>,
    platform: Platform,
) -> ArgsView {
    let env_url = lookup(env, URL@);
    let takes_first = a.url is None && env_url.len() == 0 && a.exec_args.len() > 0 && is_remote(
        a.exec_args[0],
    );
    let full = platform.replaces_image();
    ArgsView {
        url: if a.url is Some {
            a.url
        } else if env_url.len() > 0 {
            Some(env_url)
        } else if takes_first {
            Some(a.exec_args[0])
        } else {
            None
        },
        file: if a.file is Some {
            a.file
        } else {
            non_empty(lookup(env, FILE@))
        },
        post: a.post || is_on(env, POST@),
        stdin: a.stdin || is_on(env, STDIN@),
        reexec: a.reexec || (full && is_on(env, REEXEC@)),
        mfdexec: a.mfdexec || (full && is_on(env, MFDEXEC@)),
        remove: a.remove || (full && is_on(env, REMOVE@)),
        name: if a.name is Some || !full {
            a.name
        } else if lookup(env, NAME@).len() > 0 {
            Some(lookup(env, NAME@))
        } else {
            Some(DEFAULT_NAME@)
        },
        exec_args: if takes_first {
            a.exec_args.drop_first()
        } else {
            a.exec_args
        },
    }
}

/// What the words after the program's name and the environment ask for.
pub open spec fn parse(
    words: Seq<Seq<char>>,
    env: Seq<(Seq<char>, Seq<char>)>,
    platform: Platform,
) -> ParsedView {
    match scan(words, 0, ArgsView::empty(), platform) {
        ParsedView::Run(a) => ParsedView::Run(resolve(a, env, platform)),
        other => other,
    }
}

/// Reads the options of a command line, left to right.
pub fn scan_words(words: &Vec<String>, platform: Platform) -> (r: Parsed)
    ensures
        r@ == scan(texts(words@), 0, ArgsView::empty(), platform),
{
    let mut args = Args::new();
    let mut i: usize = 0;
    let ghost all = texts(words@);
    while i < words.len()
        invariant
            i <= words.len(),
            all == texts(words@),
            scan(all, 0, ArgsView::empty(), platform) == scan(all, i as int, args@, platform),
        decreases words.len() - i,
    {
        let ghost list = args.exec_args@;
        match recognize(words[i].as_str(), platform) {
            None => {
                args.exec_args.push(words[i].clone());
                assert(texts(args.exec_args@) =~= texts(list).push(all[i as int]));
                i += 1;
            },
            Some(Flag::Version) => {
                return Parsed::Version;
            },
            Some(Flag::Help) => {
                return Parsed::Help;
            },
            Some(Flag::Url) => {
                if i + 1 < words.len() {
                    args.url = Some(words[i + 1].clone());
                    i += 2;
                } else {
                    return Parsed::MissingValue(Flag::Url);
                }
            },
            Some(Flag::File) => {
                if i + 1 < words.len() {
                    args.file = Some(words[i + 1].clone());
                    i += 2;
                } else {
                    return Parsed::MissingValue(Flag::File);
                }
            },
            Some(Flag::Name) => {
                if i + 1 < words.len() {
                    args.name = Some(words[i + 1].clone());
                    i += 2;
                } else {
                    return Parsed::MissingValue(Flag::Name);
                }
            },
            Some(Flag::Post) => {
                args.post = true;
                i += 1;
            },
            Some(Flag::Stdin) => {
                args.stdin = true;
                i += 1;
            },
            Some(Flag::Remove) => {
                args.remove = true;
                i += 1;
            },
            Some(Flag::Reexec) => {
                args.reexec = true;
                i += 1;
            },
            Some(Flag::Mfdexec) => {
                args.mfdexec = true;
                i += 1;
            },
        }
    }
    Parsed::Run(args)
}

/// Whether a word names a remote address.
pub fn names_remote(word: &str) -> (r: bool)
    ensures
        r == is_remote(word@),
{
    starts_with(word, "http://") || starts_with(word, "https://")
}

/// Fills from the environment what the command line left open.
pub fn apply_environment(args: &mut Args, vars: &Vec<(String, String)>, platform: Platform)
    ensures
        final(args)@ == resolve(old(args)@, env_view(vars@), platform),
{
    let ghost list = args.exec_args@;
    if args.url.is_none() {
        let var = get_env_var(vars, URL);
        if !var.as_str().is_empty() {
            args.url = Some(var);
        } else if args.exec_args.len() > 0 {
            if names_remote(args.exec_args[0].as_str()) {
                let first = args.exec_args.remove(0);
                assert(texts(args.exec_args@) =~= texts(list).drop_first());
                args.url = Some(first);
            }
        }
    }
    if args.file.is_none() {
        let var = get_env_var(vars, FILE);
        if !var.as_str().is_empty() {
            args.file = Some(var);
        }
    }
    if !args.post {
        args.post = env_flag(vars, POST);
    }
    if !args.stdin {
        args.stdin = env_flag(vars, STDIN);
    }
    if platform.can_replace_image() {
        if args.name.is_none() {
            let var = get_env_var(vars, NAME);
            if !var.as_str().is_empty() {
                args.name = Some(var);
            } else {
                args.name = Some(DEFAULT_NAME.to_owned());
            }
        }
        if !args.remove {
            args.remove = env_flag(vars, REMOVE);
        }
        if !args.reexec {
            args.reexec = env_flag(vars, REEXEC);
        }
        if !args.mfdexec {
            args.mfdexec = env_flag(vars, MFDEXEC);
        }
    }
}

/// Turns the words after the program's name and a snapshot of the
/// environment into a request, or into the reason why there is none.
pub fn parse_args(
    env_args: &Vec<String>,
    vars: &Vec<(String, String)>,
    platform: Platform,
) -> (r: Parsed)
    ensures
        r@ == parse(texts(env_args@), env_view(vars@), platform),
{
    match scan_words(env_args, platform) {
        Parsed::Run(mut args) => {
            apply_environment(&mut args, vars, platform);
            Parsed::Run(args)
        },
        other => other,
    }
}

} // verus!
