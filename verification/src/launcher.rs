//! The launcher as a state machine. Every step takes what the outside
//! world reported about the last action and answers with the next action;
//! the machine itself performs none of them.
//!
//! The actions come in a fixed order: delete the launcher's own file if
//! asked, clear the launcher's variables from the environment, acquire the
//! payload, publish it through a pipe if asked, pick the launch technique,
//! launch.

use vstd::prelude::*;
use crate::args::parse;
use crate::args::parse_args;
use crate::args::Args;
use crate::args::ArgsView;
use crate::args::Flag;
use crate::args::Parsed;
use crate::args::ParsedView;
use crate::args::DEFAULT_NAME;
use crate::environ::env_view;
use crate::environ::in_family;
use crate::environ::is_child;
use crate::environ::is_on;
use crate::environ::names;
use crate::environ::outside_family;
use crate::environ::unset_env_vars_with_prefix;
use crate::environ::CHILD;
use crate::environ::PREFIX;
use crate::image::elf_segments;
use crate::image::is_pie;
use crate::image::verdict;
use crate::image::ImageError;
use crate::loader::argument_vector;
use crate::loader::argv_of;
use crate::loader::noexec_permits;
use crate::loader::overrides_identity;
use crate::loader::permits;
use crate::loader::renames;
use crate::outcome::code_of;
use crate::outcome::exit_code;
use crate::outcome::LaunchOutcome;
use crate::platform::Platform;
use crate::reexec::needs_pipe;
use crate::reexec::random_name;
use crate::reexec::random_string;
use crate::reexec::wants_pipe;
use crate::reexec::PIPE_NAME_LENGTH;
use crate::source::after_source;
use crate::source::needs_read;
use crate::source::select_source;
use crate::source::source_of;
use crate::source::wants_read;
use crate::source::Source;
use crate::source::SourceView;
use crate::strategy::select_strategy;
use crate::strategy::strategy_for;
use crate::strategy::Strategy;
use crate::text::copy_strings;
use crate::text::opt_text;
use crate::text::texts;

verus! {

/// Where the machine stands: what it asked for last and waits to hear of.
#[derive(Clone, Copy, Debug, PartialEq, Eq, Structural)]
pub enum Phase {
    /// Nothing has been asked for yet.
    Fresh,
    /// The launcher's own file is being deleted.
    Removing,
    /// The launcher's variables are being cleared.
    Clearing,
    /// The payload is being read from standard input or fetched.
    Loading,
    /// The payload is being read from its file.
    LoadingFile,
    /// The clock is being read for the name of a pipe.
    Timing,
    /// The pipe for a later invocation is being set up.
    Publishing,
    /// The kernel's setting for anonymous memory objects is being read.
    CheckingSetting,
    /// The process is being given its name.
    Renaming,
    /// The payload's path is being looked for in the file system.
    Probing,
    /// A child runs the payload.
    Waiting,
    /// The last action has been given.
    Finished,
}

/// Why the launcher gives up.
#[derive(Clone, Copy, Debug, PartialEq, Eq, Structural)]
pub enum Failure {
    /// An option that takes a value stood last on the command line.
    MissingValue(Flag),
    /// The request names no payload.
    NoSource,
    /// The payload has no verdict.
    BadImage(ImageError),
    /// The kernel does not allow anonymous memory objects to be executed.
    NoexecEnabled,
    /// An event came that the machine was not waiting for.
    OutOfTurn,
}

/// What the outside world reports.
#[derive(Clone, Debug, PartialEq, Eq)]
pub enum Event {
    /// The launcher has started.
    Begin,
    /// The last action was carried out.
    Done,
    /// The payload that the last action read or fetched.
    Loaded(Vec<u8>),
    /// The seconds on the clock, counted from the start of 1970.
    Clock(u64),
    /// The text of the kernel's setting, or `None` where the kernel has no
    /// such setting.
    Setting(Option<String>),
    /// Whether the payload's path exists in the file system.
    PathExists(bool),
    /// The exit code of the child.
    ChildExited(i32),
}

/// Mathematical content of an [`Event`].
pub enum EventView {
    Begin,
    Done,
    Loaded(Seq<u8>),
    Clock(u64),
    Setting(Option<Seq<char>>),
    PathExists(bool),
    ChildExited(i32),
}

impl View for Event {
    type V = EventView;

    open spec fn view(&self) -> EventView {
        match self {
            Event::Begin => EventView::Begin,
            Event::Done => EventView::Done,
            Event::Loaded(bytes) => EventView::Loaded(bytes@),
            Event::Clock(seconds) => EventView::Clock(*seconds),
            Event::Setting(text) => EventView::Setting(opt_text(*text)),
            Event::PathExists(present) => EventView::PathExists(*present),
            Event::ChildExited(code) => EventView::ChildExited(*code),
        }
    }
}

/// What the machine asks the outside world to do next.
#[derive(Clone, Debug, PartialEq, Eq)]
pub enum Action {
    /// Print the version and exit with success.
    ShowVersion,
    /// Print the usage and exit with success.
    ShowHelp,
    /// Delete the launcher's own file; a failure to do so is ignored.
    RemoveSelf,
    /// Remove these variables from the environment.
    Unset { names: Vec<String> },
    /// Read standard input to its end.
    ReadStdin,
    /// Fetch the address, with POST if `post` is set and with GET if not,
    /// without a limit on the time it takes and without checking the
    /// server's certificate.
    Fetch { url: String, post: bool },
    /// Read the file.
    ReadFile { path: String },
    /// Read the clock.
    ReadClock,
    /// Create a pipe of this name in the directory for temporary files,
    /// set the variables that point a later invocation to it, and start
    /// writing the payload into it; the writer deletes the pipe when it
    /// is done.
    Publish { name: String },
    /// Read the kernel's setting for anonymous memory objects.
    ReadSetting,
    /// Give the process this name.
    Rename { name: String },
    /// Find out whether the path exists.
    Probe { path: String },
    /// Write the payload into an anonymous memory object of this name and
    /// replace the running image from it, with these arguments and the
    /// environment as it is.
    ExecAnonymous { name: String, payload: Vec<u8>, args: Vec<String> },
    /// Write the payload into an anonymous memory object of this name and
    /// replace the running image by the path of its descriptor, with that
    /// path as the first argument and these after it. The descriptor is
    /// closed a moment after the replacement has begun.
    ExecDescriptor { name: String, payload: Vec<u8>, args: Vec<String> },
    /// Replace the running image by this path, with this argument vector.
    ExecPath { path: String, argv: Vec<String> },
    /// Start the launcher again as a marked child with these arguments,
    /// stream the payload into its standard input, and wait for it.
    Spawn { args: Vec<String>, payload: Vec<u8> },
    /// Run the payload inside this process.
    RunInProcess { payload: Vec<u8> },
    /// Exit with this code.
    Exit { code: i32 },
    /// Report the failure and exit with the code for failures.
    Fail(Failure),
}

/// Mathematical content of an [`Action`].
pub enum ActionView {
    ShowVersion,
    ShowHelp,
    RemoveSelf,
    Unset { names: Seq<Seq<char>> },
    ReadStdin,
    Fetch { url: Seq<char>, post: bool },
    ReadFile { path: Seq<char> },
    ReadClock,
    Publish { name: Seq<char> },
    ReadSetting,
    Rename { name: Seq<char> },
    Probe { path: Seq<char> },
    ExecAnonymous { name: Seq<char>, payload: Seq<u8>, args: Seq<Seq<char>> },
    ExecDescriptor { name: Seq<char>, payload: Seq<u8>, args: Seq<Seq<char>> },
    ExecPath { path: Seq<char>, argv: Seq<Seq<char>> },
    Spawn { args: Seq<Seq<char>>, payload: Seq<u8> },
    RunInProcess { payload: Seq<u8> },
    Exit { code: i32 },
    Fail(Failure),
}

impl View for Action {
    type V = ActionView;

    open spec fn view(&self) -> ActionView {
        match self {
            Action::ShowVersion => ActionView::ShowVersion,
            Action::ShowHelp => ActionView::ShowHelp,
            Action::RemoveSelf => ActionView::RemoveSelf,
            Action::Unset { names } => ActionView::Unset { names: texts(names@) },
            Action::ReadStdin => ActionView::ReadStdin,
            Action::Fetch { url, post } => ActionView::Fetch { url: url@, post: *post },
            Action::ReadFile { path } => ActionView::ReadFile { path: path@ },
            Action::ReadClock => ActionView::ReadClock,
            Action::Publish { name } => ActionView::Publish { name: name@ },
            Action::ReadSetting => ActionView::ReadSetting,
            Action::Rename { name } => ActionView::Rename { name: name@ },
            Action::Probe { path } => ActionView::Probe { path: path@ },
            Action::ExecAnonymous { name, payload, args } => ActionView::ExecAnonymous {
                name: name@,
                payload: payload@,
                args: texts(args@),
            },
            Action::ExecDescriptor { name, payload, args } => ActionView::ExecDescriptor {
                name: name@,
                payload: payload@,
                args: texts(args@),
            },
            Action::ExecPath { path, argv } => ActionView::ExecPath {
                path: path@,
                argv: texts(argv@),
            },
            Action::Spawn { args, payload } => ActionView::Spawn {
                args: texts(args@),
                payload: payload@,
            },
            Action::RunInProcess { payload } => ActionView::RunInProcess { payload: payload@ },
            Action::Exit { code } => ActionView::Exit { code: *code },
            Action::Fail(failure) => ActionView::Fail(*failure),
        }
    }
}

impl ActionView {
    /// Whether the action starts the payload.
    pub open spec fn launches(self) -> bool {
        self is ExecAnonymous || self is ExecDescriptor || self is ExecPath || self is Spawn
            || self is RunInProcess
    }

    /// The bytes that the action hands to a loader, if it hands any.
    pub open spec fn carried(self) -> Option<Seq<u8>> {
        match self {
            ActionView::ExecAnonymous { payload, .. } => Some(payload),
            ActionView::ExecDescriptor { payload, .. } => Some(payload),
            ActionView::Spawn { payload, .. } => Some(payload),
            ActionView::RunInProcess { payload } => Some(payload),
            _ => None,
        }
    }

    /// The arguments that the action hands to the launched program, after
    /// the program's own name, if it launches one. A payload that runs
    /// inside a child has them from the child's own command line.
    pub open spec fn forwarded(self) -> Option<Seq<Seq<char>>> {
        match self {
            ActionView::ExecAnonymous { args, .. } => Some(args),
            ActionView::ExecDescriptor { args, .. } => Some(args),
            ActionView::ExecPath { argv, .. } => Some(argv.drop_first()),
            ActionView::Spawn { args, .. } => Some(args),
            _ => None,
        }
    }

    /// Whether the action is the launcher's last.
    pub open spec fn is_last(self) -> bool {
        self is ShowVersion || self is ShowHelp || self is ExecAnonymous || self is ExecDescriptor
            || self is ExecPath || self is RunInProcess || self is Exit || self is Fail
    }
}

/// Mathematical content of a [`Launcher`].
pub struct LauncherView {
    /// The platform the launcher runs on.
    pub platform: Platform,
    /// What the machine waits to hear of.
    pub phase: Phase,
    /// The words of the command line after the program's name.
    pub words: Seq<Seq<char>>,
    /// The environment the launcher was started in, less the variables
    /// it has cleared.
    pub vars: Seq<(Seq<char>, Seq<char>)>,
    /// Whether an earlier invocation started this one.
    pub is_child: bool,
    /// The request.
    pub args: ArgsView,
    /// The path of the payload; empty where it has none.
    pub path: Seq<char>,
    /// The bytes of the payload; empty until they are read, and again once
    /// they are handed to a loader.
    pub payload: Seq<u8>,
}

impl LauncherView {
    /// The machine before its first step.
    pub open spec fn fresh(
        platform: Platform,
        words: Seq<Seq<char>>,
        vars: Seq<(Seq<char>, Seq<char>)>,
    ) -> LauncherView {
        LauncherView {
            platform,
            phase: Phase::Fresh,
            words,
            vars,
            is_child: false,
            args: ArgsView::empty(),
            path: Seq::empty(),
            payload: Seq::empty(),
        }
    }

    /// The machine after its last action.
    pub open spec fn halt(self) -> LauncherView {
        LauncherView { phase: Phase::Finished, ..self }
    }

    /// The machine after its last action, with the payload handed over.
    pub open spec fn release(self) -> LauncherView {
        LauncherView { phase: Phase::Finished, payload: Seq::empty(), ..self }
    }

    /// The name the launched process is to report.
    pub open spec fn name(self) -> Seq<char> {
        match self.args.name {
            Some(name) => name,
            None => DEFAULT_NAME@,
        }
    }

    /// What the invocation is asked to do. A child on a platform that
    /// cannot replace the running image takes its payload from standard
    /// input and hands every word on; any other invocation reads its
    /// command line and its environment.
    pub open spec fn request(self) -> ParsedView {
        if !self.platform.replaces_image() && is_on(self.vars, CHILD@) {
            ParsedView::Run(ArgsView { stdin: true, exec_args: self.words, ..ArgsView::empty() })
        } else {
            parse(self.words, self.vars, self.platform)
        }
    }

    /// The first step: works out the request. A request to delete the
    /// launcher's own file is served before anything else.
    pub open spec fn open_request(self) -> (LauncherView, ActionView) {
        let s = LauncherView { is_child: is_on(self.vars, CHILD@), ..self };
        match self.request() {
            ParsedView::Version => (s.halt(), ActionView::ShowVersion),
            ParsedView::Help => (s.halt(), ActionView::ShowHelp),
            ParsedView::MissingValue(flag) => (
                s.halt(),
                ActionView::Fail(Failure::MissingValue(flag)),
            ),
            ParsedView::Run(a) => {
                let t = LauncherView { args: a, ..s };
                if a.remove {
                    (LauncherView { phase: Phase::Removing, ..t }, ActionView::RemoveSelf)
                } else {
                    t.clear_family()
                }
            },
        }
    }

    /// Clears the launcher's variables from the environment.
    pub open spec fn clear_family(self) -> (LauncherView, ActionView) {
        (
            LauncherView {
                phase: Phase::Clearing,
                vars: self.vars.filter(outside_family(PREFIX@)),
                ..self
            },
            ActionView::Unset { names: names(self.vars.filter(in_family(PREFIX@))) },
        )
    }

    /// Turns to the source of the payload.
    pub open spec fn acquire(self) -> (LauncherView, ActionView) {
        match source_of(self.args) {
            None => (self.halt(), ActionView::Fail(Failure::NoSource)),
            Some(SourceView::Stdin) => (
                LauncherView { phase: Phase::Loading, ..self },
                ActionView::ReadStdin,
            ),
            Some(SourceView::Url { url, post }) => (
                LauncherView { phase: Phase::Loading, ..self },
                ActionView::Fetch { url, post },
            ),
            Some(SourceView::Path(path)) => LauncherView {
                path,
                args: after_source(self.args),
                ..self
            }.locate(),
        }
    }

    /// Reads the payload's file where its bytes are not in memory yet.
    pub open spec fn locate(self) -> (LauncherView, ActionView) {
        if wants_read(self.path, self.payload) {
            (
                LauncherView { phase: Phase::LoadingFile, ..self },
                ActionView::ReadFile { path: self.path },
            )
        } else {
            self.hand_over()
        }
    }

    /// Turns to publishing the payload through a pipe where the request
    /// asks for it; the name of the pipe will be drawn from the clock.
    pub open spec fn hand_over(self) -> (LauncherView, ActionView) {
        if self.platform.replaces_image() && wants_pipe(
            self.args.reexec,
            self.is_child,
            self.args.mfdexec,
        ) {
            (LauncherView { phase: Phase::Timing, ..self }, ActionView::ReadClock)
        } else {
            self.decide()
        }
    }

    /// Publishes the payload through a pipe whose name is drawn from the
    /// seconds on the clock.
    pub open spec fn publish(self, seconds: u64) -> (LauncherView, ActionView) {
        (
            LauncherView { phase: Phase::Publishing, ..self },
            ActionView::Publish { name: random_name(seconds, PIPE_NAME_LENGTH as nat) },
        )
    }

    /// Picks the launch technique as far as it is known. The image is
    /// looked at only where the platform and the request leave the
    /// technique open.
    pub open spec fn decide(self) -> (LauncherView, ActionView) {
        if !self.platform.replaces_image() || self.args.mfdexec {
            self.launch(
                strategy_for(self.platform, self.is_child, false, self.args.mfdexec, false),
            )
        } else {
            match verdict(elf_segments(self.payload)) {
                Err(e) => (self.halt(), ActionView::Fail(Failure::BadImage(e))),
                Ok(relocatable) => if relocatable {
                    self.identify()
                } else {
                    self.launch(strategy_for(self.platform, self.is_child, false, false, false))
                },
            }
        }
    }

    /// Gives the process its name where the request asks for one.
    pub open spec fn identify(self) -> (LauncherView, ActionView) {
        if renames(self.name()) {
            (
                LauncherView { phase: Phase::Renaming, ..self },
                ActionView::Rename { name: self.name() },
            )
        } else {
            self.probe()
        }
    }

    /// Looks for the payload's path; without a path there is nothing to
    /// look for.
    pub open spec fn probe(self) -> (LauncherView, ActionView) {
        if self.path.len() == 0 {
            self.settle(false)
        } else {
            (
                LauncherView { phase: Phase::Probing, ..self },
                ActionView::Probe { path: self.path },
            )
        }
    }

    /// Picks the technique for a relocatable image: by its own path while
    /// that exists or no bytes are in memory, else through a descriptor.
    pub open spec fn settle(self, present: bool) -> (LauncherView, ActionView) {
        self.launch(
            strategy_for(
                self.platform,
                self.is_child,
                true,
                false,
                present || self.payload.len() == 0,
            ),
        )
    }

    /// Gives the action that carries out a technique. A launch through an
    /// anonymous memory object first asks for the kernel's setting.
    pub open spec fn launch(self, strategy: Strategy) -> (LauncherView, ActionView) {
        match strategy {
            Strategy::SpawnChild => (
                LauncherView { phase: Phase::Waiting, payload: Seq::empty(), ..self },
                ActionView::Spawn { args: self.args.exec_args, payload: self.payload },
            ),
            Strategy::InProcess => (
                self.release(),
                ActionView::RunInProcess { payload: self.payload },
            ),
            Strategy::AnonymousMemory => (
                LauncherView { phase: Phase::CheckingSetting, ..self },
                ActionView::ReadSetting,
            ),
            Strategy::ReflectivePath => (
                self.release(),
                ActionView::ExecPath {
                    path: self.path,
                    argv: argv_of(self.path, self.args.exec_args),
                },
            ),
            Strategy::ReflectiveDescriptor => (
                self.release(),
                ActionView::ExecDescriptor {
                    name: self.name(),
                    payload: self.payload,
                    args: self.args.exec_args,
                },
            ),
        }
    }

    /// Launches through an anonymous memory object unless the kernel's
    /// setting forbids it. A kernel without the setting forbids nothing.
    pub open spec fn check_setting(self, setting: Option<Seq<char>>) -> (LauncherView, ActionView) {
        if setting is Some && !permits(setting->0) {
            (self.halt(), ActionView::Fail(Failure::NoexecEnabled))
        } else {
            (
                self.release(),
                ActionView::ExecAnonymous {
                    name: self.name(),
                    payload: self.payload,
                    args: self.args.exec_args,
                },
            )
        }
    }

    /// One step of the machine: the state and the action that follow the
    /// event `e` in this state. An event that the state does not wait for
    /// ends the run.
    pub open spec fn step(self, e: EventView) -> (LauncherView, ActionView) {
        match (self.phase, e) {
            (Phase::Fresh, EventView::Begin) => self.open_request(),
            (Phase::Removing, EventView::Done) => self.clear_family(),
            (Phase::Clearing, EventView::Done) => self.acquire(),
            (Phase::Loading, EventView::Loaded(bytes)) => LauncherView {
                payload: bytes,
                ..self
            }.locate(),
            (Phase::LoadingFile, EventView::Loaded(bytes)) => LauncherView {
                payload: bytes,
                ..self
            }.hand_over(),
            (Phase::Timing, EventView::Clock(seconds)) => self.publish(seconds),
            (Phase::Publishing, EventView::Done) => self.decide(),
            (Phase::CheckingSetting, EventView::Setting(setting)) => self.check_setting(setting),
            (Phase::Renaming, EventView::Done) => self.probe(),
            (Phase::Probing, EventView::PathExists(present)) => self.settle(present),
            (Phase::Waiting, EventView::ChildExited(code)) => (
                self.halt(),
                ActionView::Exit { code: code_of(LaunchOutcome::Exited(code)) },
            ),
            _ => (self.halt(), ActionView::Fail(Failure::OutOfTurn)),
        }
    }
}

/// The launcher's state between two steps.
pub struct Launcher {
    platform: Platform,
    phase: Phase,
    words: Vec<String>,
    vars: Vec<(String, String)>,
    is_child: bool,
    args: Args,
    path: String,
    payload: Vec<u8>,
}

impl View for Launcher {
    type V = LauncherView;

    closed spec fn view(&self) -> LauncherView {
        LauncherView {
            platform: self.platform,
            phase: self.phase,
            words: texts(self.words@),
            vars: env_view(self.vars@),
            is_child: self.is_child,
            args: self.args@,
            path: self.path@,
            payload: self.payload@,
        }
    }
}

impl Launcher {
    /// A launcher on `platform` that was started with the words `words`
    /// after its name and the environment `vars`.
    pub fn new(
        platform: Platform,
        words: Vec<String>,
        vars: Vec<(String, String)>,
    ) -> (r: Launcher)
        ensures
            r@ == LauncherView::fresh(platform, texts(words@), env_view(vars@)),
    {
        Launcher {
            platform,
            phase: Phase::Fresh,
            words,
            vars,
            is_child: false,
            args: Args::new(),
            path: String::new(),
            payload: Vec::new(),
        }
    }

    /// What the machine waits to hear of.
    pub fn phase(&self) -> (r: Phase)
        ensures
            r == self@.phase,
    {
        self.phase
    }

    /// The bytes of the payload, as far as the machine holds them.
    pub fn payload(&self) -> (r: &Vec<u8>)
        ensures
            r@ == self@.payload,
    {
        &self.payload
    }

    /// The environment the launcher was started in, less the variables
    /// it has cleared.
    pub fn environment(&self) -> (r: &Vec<(String, String)>)
        ensures
            env_view(r@) == self@.vars,
    {
        &self.vars
    }

    /// Takes the payload out of the machine.
    fn take_payload(&mut self) -> (r: Vec<u8>)
        ensures
            r@ == old(self)@.payload,
            final(self)@ == (LauncherView { payload: Seq::empty(), ..old(self)@ }),
    {
        let mut bytes: Vec<u8> = Vec::new();
        core::mem::swap(&mut bytes, &mut self.payload);
        bytes
    }

    /// The name the launched process is to report.
    fn name(&self) -> (r: String)
        ensures
            r@ == self@.name(),
    {
        match &self.args.name {
            Some(name) => name.clone(),
            None => DEFAULT_NAME.to_owned(),
        }
    }

    /// The first step: works out the request.
    fn open_request(&mut self) -> (r: Action)
        ensures
            (final(self)@, r@) == old(self)@.open_request(),
    {
        let child = is_child(&self.vars);
        self.is_child = child;
        let request = if !self.platform.can_replace_image() && child {
            let mut a = Args::new();
            a.stdin = true;
            a.exec_args = copy_strings(&self.words);
            Parsed::Run(a)
        } else {
            parse_args(&self.words, &self.vars, self.platform)
        };
        match request {
            Parsed::Version => {
                self.phase = Phase::Finished;
                Action::ShowVersion
            },
            Parsed::Help => {
                self.phase = Phase::Finished;
                Action::ShowHelp
            },
            Parsed::MissingValue(flag) => {
                self.phase = Phase::Finished;
                Action::Fail(Failure::MissingValue(flag))
            },
            Parsed::Run(a) => {
                self.args = a;
                if self.args.remove {
                    self.phase = Phase::Removing;
                    Action::RemoveSelf
                } else {
                    self.clear_family()
                }
            },
        }
    }

    /// Clears the launcher's variables from the environment.
    fn clear_family(&mut self) -> (r: Action)
        ensures
            (final(self)@, r@) == old(self)@.clear_family(),
    {
        let names = unset_env_vars_with_prefix(&mut self.vars, PREFIX);
        self.phase = Phase::Clearing;
        Action::Unset { names }
    }

    /// Turns to the source of the payload.
    fn acquire(&mut self) -> (r: Action)
        ensures
            (final(self)@, r@) == old(self)@.acquire(),
    {
        match select_source(&mut self.args) {
            None => {
                self.phase = Phase::Finished;
                Action::Fail(Failure::NoSource)
            },
            Some(Source::Stdin) => {
                self.phase = Phase::Loading;
                Action::ReadStdin
            },
            Some(Source::Url { url, post }) => {
                self.phase = Phase::Loading;
                Action::Fetch { url, post }
            },
            Some(Source::Path(path)) => {
                self.path = path;
                self.locate()
            },
        }
    }

    /// Reads the payload's file where its bytes are not in memory yet.
    fn locate(&mut self) -> (r: Action)
        ensures
            (final(self)@, r@) == old(self)@.locate(),
    {
        if needs_read(self.path.as_str(), &self.payload) {
            self.phase = Phase::LoadingFile;
            Action::ReadFile { path: self.path.clone() }
        } else {
            self.hand_over()
        }
    }

    /// Turns to publishing the payload through a pipe where the request
    /// asks for it.
    fn hand_over(&mut self) -> (r: Action)
        ensures
            (final(self)@, r@) == old(self)@.hand_over(),
    {
        if self.platform.can_replace_image() && needs_pipe(&self.args, self.is_child) {
            self.phase = Phase::Timing;
            Action::ReadClock
        } else {
            self.decide()
        }
    }

    /// Publishes the payload through a pipe named from the clock.
    fn publish(&mut self, seconds: u64) -> (r: Action)
        ensures
            (final(self)@, r@) == old(self)@.publish(seconds),
    {
        self.phase = Phase::Publishing;
        Action::Publish { name: random_string(seconds, PIPE_NAME_LENGTH) }
    }

    /// Picks the launch technique as far as it is known.
    fn decide(&mut self) -> (r: Action)
        ensures
            (final(self)@, r@) == old(self)@.decide(),
    {
        if !self.platform.can_replace_image() || self.args.mfdexec {
            let strategy = select_strategy(
                self.platform,
                self.is_child,
                false,
                self.args.mfdexec,
                false,
            );
            self.launch(strategy)
        } else {
            match is_pie(self.payload.as_slice()) {
                Err(e) => {
                    self.phase = Phase::Finished;
                    Action::Fail(Failure::BadImage(e))
                },
                Ok(relocatable) => {
                    if relocatable {
                        self.identify()
                    } else {
                        let strategy = select_strategy(
                            self.platform,
                            self.is_child,
                            false,
                            false,
                            false,
                        );
                        self.launch(strategy)
                    }
                },
            }
        }
    }

    /// Gives the process its name where the request asks for one.
    fn identify(&mut self) -> (r: Action)
        ensures
            (final(self)@, r@) == old(self)@.identify(),
    {
        let name = self.name();
        if overrides_identity(name.as_str()) {
            self.phase = Phase::Renaming;
            Action::Rename { name }
        } else {
            self.probe()
        }
    }

    /// Looks for the payload's path.
    fn probe(&mut self) -> (r: Action)
        ensures
            (final(self)@, r@) == old(self)@.probe(),
    {
        if self.path.as_str().is_empty() {
            self.settle(false)
        } else {
            self.phase = Phase::Probing;
            Action::Probe { path: self.path.clone() }
        }
    }

    /// Picks the technique for a relocatable image.
    fn settle(&mut self, present: bool) -> (r: Action)
        ensures
            (final(self)@, r@) == old(self)@.settle(present),
    {
        let on_disk = present || self.payload.len() == 0;
        let strategy = select_strategy(self.platform, self.is_child, true, false, on_disk);
        self.launch(strategy)
    }

    /// Gives the action that carries out a technique.
    fn launch(&mut self, strategy: Strategy) -> (r: Action)
        ensures
            (final(self)@, r@) == old(self)@.launch(strategy),
    {
        match strategy {
            Strategy::SpawnChild => {
                let args = copy_strings(&self.args.exec_args);
                let payload = self.take_payload();
                self.phase = Phase::Waiting;
                Action::Spawn { args, payload }
            },
            Strategy::InProcess => {
                let payload = self.take_payload();
                self.phase = Phase::Finished;
                Action::RunInProcess { payload }
            },
            Strategy::AnonymousMemory => {
                self.phase = Phase::CheckingSetting;
                Action::ReadSetting
            },
            Strategy::ReflectivePath => {
                let path = self.path.clone();
                let argv = argument_vector(self.path.as_str(), &self.args.exec_args);
                let _ = self.take_payload();
                self.phase = Phase::Finished;
                Action::ExecPath { path, argv }
            },
            Strategy::ReflectiveDescriptor => {
                let name = self.name();
                let args = copy_strings(&self.args.exec_args);
                let payload = self.take_payload();
                self.phase = Phase::Finished;
                Action::ExecDescriptor { name, payload, args }
            },
        }
    }

    /// Launches through an anonymous memory object unless the kernel's
    /// setting forbids it.
    fn check_setting(&mut self, setting: Option<String>) -> (r: Action)
        ensures
            (final(self)@, r@) == old(self)@.check_setting(opt_text(setting)),
    {
        let allowed = match &setting {
            Some(text) => noexec_permits(text.as_str()),
            None => true,
        };
        if allowed {
            let name = self.name();
            let args = copy_strings(&self.args.exec_args);
            let payload = self.take_payload();
            self.phase = Phase::Finished;
            Action::ExecAnonymous { name, payload, args }
        } else {
            self.phase = Phase::Finished;
            Action::Fail(Failure::NoexecEnabled)
        }
    }

    /// Ends the run on an event that was not waited for.
    fn out_of_turn(&mut self) -> (r: Action)
        ensures
            final(self)@ == old(self)@.halt(),
            r@ == ActionView::Fail(Failure::OutOfTurn),
    {
        self.phase = Phase::Finished;
        Action::Fail(Failure::OutOfTurn)
    }

    /// Takes the report `event` of the outside world and answers with the
    /// next action.
    pub fn step(&mut self, event: Event) -> (r: Action)
        ensures
            (final(self)@, r@) == old(self)@.step(event@),
    {
        match event {
            Event::Begin => match self.phase {
                Phase::Fresh => self.open_request(),
                _ => self.out_of_turn(),
            },
            Event::Done => match self.phase {
                Phase::Removing => self.clear_family(),
                Phase::Clearing => self.acquire(),
                Phase::Publishing => self.decide(),
                Phase::Renaming => self.probe(),
                _ => self.out_of_turn(),
            },
            Event::Loaded(bytes) => match self.phase {
                Phase::Loading => {
                    self.payload = bytes;
                    self.locate()
                },
                Phase::LoadingFile => {
                    self.payload = bytes;
                    self.hand_over()
                },
                _ => self.out_of_turn(),
            },
            Event::Clock(seconds) => match self.phase {
                Phase::Timing => self.publish(seconds),
                _ => self.out_of_turn(),
            },
            Event::Setting(setting) => match self.phase {
                Phase::CheckingSetting => self.check_setting(setting),
                _ => self.out_of_turn(),
            },
            Event::PathExists(present) => match self.phase {
                Phase::Probing => self.settle(present),
                _ => self.out_of_turn(),
            },
            Event::ChildExited(code) => match self.phase {
                Phase::Waiting => {
                    self.phase = Phase::Finished;
                    Action::Exit { code: exit_code(LaunchOutcome::Exited(code)) }
                },
                _ => self.out_of_turn(),
            },
        }
    }
}

} // verus!
