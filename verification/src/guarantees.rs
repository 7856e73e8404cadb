//! What holds of every run of the launcher, whatever the outside world
//! reports: stated over the machine's steps and proved from them.

use vstd::prelude::*;
use crate::args::ParsedView;
use crate::environ::lemma_family_is_gone;
use crate::environ::PREFIX;
use crate::image::elf_segments;
use crate::image::verdict;
use crate::image::ImageError;
use crate::launcher::ActionView;
use crate::launcher::EventView;
use crate::launcher::LauncherView;
use crate::launcher::Phase;
use crate::loader::argv_of;
use crate::loader::renames;
use crate::platform::Platform;
use crate::strategy::settled_early;
use crate::strategy::strategy_for;
use crate::strategy::Strategy;

verus! {

/// Whether no variable of a snapshot belongs to the launcher's family.
pub open spec fn family_absent(vars: Seq<(Seq<char>, Seq<char>)>) -> bool {
    forall|i: int| 0 <= i < vars.len() ==> !PREFIX@.is_prefix_of((#[trigger] vars[i]).0)
}

/// What holds of the machine between any two steps of a run: a run that
/// goes on past its first actions has cleared the environment, and each
/// phase is entered only on the platform and with the verdict it is meant
/// for.
pub open spec fn orderly(s: LauncherView) -> bool {
    &&& s.phase is Fresh || s.phase is Removing || s.phase is Finished || family_absent(s.vars)
    &&& s.phase is Renaming || s.phase is Probing ==> s.platform.replaces_image()
        && !s.args.mfdexec && verdict(elf_segments(s.payload)) == Ok::<bool, ImageError>(true)
    &&& s.phase is CheckingSetting ==> s.platform.replaces_image() && (s.args.mfdexec || verdict(
        elf_segments(s.payload),
    ) == Ok::<bool, ImageError>(false))
    &&& s.phase is Waiting ==> !s.platform.replaces_image() && !s.is_child
}

/// How far a run has come.
pub open spec fn rank(phase: Phase) -> nat {
    match phase {
        Phase::Fresh => 0,
        Phase::Removing => 1,
        Phase::Clearing => 2,
        Phase::Loading => 3,
        Phase::LoadingFile => 4,
        Phase::Timing => 5,
        Phase::Publishing => 6,
        Phase::CheckingSetting => 7,
        Phase::Renaming => 8,
        Phase::Probing => 9,
        Phase::Waiting => 10,
        Phase::Finished => 11,
    }
}

/// The bytes a step works on: those the event brings, else those the
/// machine holds.
pub open spec fn bytes_in_play(s: LauncherView, e: EventView) -> Seq<u8> {
    match e {
        EventView::Loaded(bytes) => bytes,
        _ => s.payload,
    }
}

/// The technique that a launching action carries out.
pub open spec fn technique(a: ActionView) -> Strategy {
    match a {
        ActionView::Spawn { .. } => Strategy::SpawnChild,
        ActionView::RunInProcess { .. } => Strategy::InProcess,
        ActionView::ExecAnonymous { .. } => Strategy::AnonymousMemory,
        ActionView::ExecPath { .. } => Strategy::ReflectivePath,
        _ => Strategy::ReflectiveDescriptor,
    }
}

/// A machine that has not taken a step is orderly.
pub proof fn lemma_fresh_is_orderly(
    platform: Platform,
    words: Seq<Seq<char>>,
    vars: Seq<(Seq<char>, Seq<char>)>,
)
    ensures
        orderly(LauncherView::fresh(platform, words, vars)),
{
}

/// Every step keeps the machine orderly, and the payload is started only
/// in an environment from which the launcher's variables are gone.
pub proof fn lemma_family_cleared_before_launch(s: LauncherView, e: EventView)
    requires
        orderly(s),
    ensures
        orderly(s.step(e).0),
        s.step(e).1.launches() ==> family_absent(s.step(e).0.vars),
{
    lemma_family_is_gone(s.vars, PREFIX@);
}

/// A request to delete the launcher's own file is served by the first
/// action of the run, before the payload is looked for.
pub proof fn lemma_removal_comes_first(s: LauncherView)
    requires
        s.phase is Fresh,
        s.request() matches ParsedView::Run(a) && a.remove,
    ensures
        s.step(EventView::Begin).1 is RemoveSelf,
        s.step(EventView::Begin).0.phase is Removing,
{
}

/// The launcher's own file is deleted by the first action of a run or not
/// at all, and only where the request asks for it.
pub proof fn lemma_removal_only_comes_first(s: LauncherView, e: EventView)
    requires
        s.step(e).1 is RemoveSelf,
    ensures
        s.phase is Fresh,
        e is Begin,
        s.request() matches ParsedView::Run(a) && a.remove,
{
}

/// Every step takes the run further, so no phase is entered twice and
/// every run ends. A run is finished exactly when its last action has been
/// given, and a finished run stays finished.
pub proof fn lemma_steps_advance(s: LauncherView, e: EventView)
    ensures
        s.phase !is Finished ==> rank(s.step(e).0.phase) > rank(s.phase),
        s.phase is Finished ==> s.step(e).0.phase is Finished,
        s.step(e).1.is_last() <==> s.step(e).0.phase is Finished,
{
}

/// The bytes that were read or fetched are the bytes of the payload from
/// then on, whatever they were read from: after the step that takes them
/// in, the machine holds them or hands them to a loader, unless it gives
/// up or launches by path.
pub proof fn lemma_payload_is_what_was_loaded(s: LauncherView, bytes: Seq<u8>)
    requires
        s.phase is Loading || s.phase is LoadingFile,
    ensures
        ({
            let (t, a) = s.step(EventView::Loaded(bytes));
            match a.carried() {
                Some(handed) => handed == bytes && t.payload.len() == 0,
                None => a is Fail || a is ExecPath || t.payload == bytes,
            }
        }),
{
}

/// A loader is handed the bytes that the step works on, unchanged, and
/// the machine keeps none of them.
pub proof fn lemma_launch_hands_over_the_payload(s: LauncherView, e: EventView)
    requires
        s.step(e).1.launches(),
    ensures
        s.step(e).0.payload.len() == 0,
        s.step(e).1.carried() matches Some(handed) ==> handed == bytes_in_play(s, e),
{
}

/// The launched program is handed the arguments of the request, in order,
/// with nothing put before, between or after them. An image replaced by
/// path has that path before them as its own name.
pub proof fn lemma_arguments_are_forwarded(s: LauncherView, e: EventView)
    requires
        s.step(e).1.launches(),
    ensures
        s.step(e).1.forwarded() matches Some(args) ==> args == s.step(e).0.args.exec_args,
        s.step(e).1 matches ActionView::ExecPath { path, argv } ==> path == s.step(e).0.path
            && argv == argv_of(path, s.step(e).0.args.exec_args),
{
    assert(argv_of(s.step(e).0.path, s.step(e).0.args.exec_args).drop_first()
        =~= s.step(e).0.args.exec_args);
}

/// The exit code of a run that waited for a child is the child's own.
pub proof fn lemma_exit_code_is_the_childs(s: LauncherView, code: i32)
    requires
        s.phase is Waiting,
    ensures
        s.step(EventView::ChildExited(code)).1 == (ActionView::Exit { code }),
{
}

/// The launcher exits with a code of its own choosing only after a child
/// has ended, and then with the child's.
pub proof fn lemma_exit_only_follows_a_child(s: LauncherView, e: EventView)
    requires
        s.step(e).1 is Exit,
    ensures
        s.phase is Waiting,
        e matches EventView::ChildExited(code) && s.step(e).1 == (ActionView::Exit { code }),
{
}

/// The action that launches the payload carries out the technique that
/// the selector names for the platform, the mark of a child, the forced
/// flag, the verdict on the payload and the state of its path. The verdict
/// counts only where the technique is not settled without it, and the
/// path is taken to exist where the outside world says so or no bytes are
/// in memory.
pub proof fn lemma_launch_follows_the_selector(s: LauncherView, e: EventView)
    requires
        orderly(s),
        s.step(e).1.launches(),
    ensures
        ({
            let (t, a) = s.step(e);
            exists|relocatable: bool, on_disk: bool|
                {
                    &&& technique(a) == #[trigger] strategy_for(
                        s.platform,
                        t.is_child,
                        relocatable,
                        t.args.mfdexec,
                        on_disk,
                    )
                    &&& !settled_early(s.platform, t.args.mfdexec) ==> verdict(
                        elf_segments(bytes_in_play(s, e)),
                    ) == Ok::<bool, ImageError>(relocatable)
                    &&& e matches EventView::PathExists(present) ==> on_disk == (present
                        || s.payload.len() == 0)
                }
        }),
{
    let (t, a) = s.step(e);
    let forced = t.args.mfdexec;
    let bytes = bytes_in_play(s, e);
    if settled_early(s.platform, forced) {
        assert(technique(a) == strategy_for(s.platform, t.is_child, false, forced, false));
    } else {
        match e {
            EventView::PathExists(present) => {
                let on_disk = present || s.payload.len() == 0;
                assert(technique(a) == strategy_for(s.platform, t.is_child, true, forced, on_disk));
            },
            _ => {
                if a is ExecAnonymous {
                    assert(technique(a) == strategy_for(
                        s.platform,
                        t.is_child,
                        false,
                        forced,
                        false,
                    ));
                } else {
                    let on_disk = bytes.len() == 0;
                    assert(technique(a) == strategy_for(
                        s.platform,
                        t.is_child,
                        true,
                        forced,
                        on_disk,
                    ));
                }
            },
        }
    }
}

/// The process is given a name only on the way to replacing its image by
/// path, and only a name that differs from the launcher's own. As no phase
/// is entered twice, it is given at most once.
pub proof fn lemma_name_is_given_before_replacement(s: LauncherView, e: EventView)
    requires
        s.step(e).1 is Rename,
    ensures
        s.step(e).0.phase is Renaming,
        s.step(e).1 == (ActionView::Rename { name: s.step(e).0.name() }),
        renames(s.step(e).0.name()),
{
}

/// The mark of a child is read by the first step and by no other, and
/// no step changes the platform or the command line. Once the source of
/// the payload is picked, the request and the path of the payload stand
/// as they are.
pub proof fn lemma_request_is_made_once(s: LauncherView, e: EventView)
    ensures
        !(s.phase is Fresh) ==> s.step(e).0.is_child == s.is_child,
        s.step(e).0.platform == s.platform,
        s.step(e).0.words == s.words,
        rank(s.phase) > rank(Phase::Clearing) ==> s.step(e).0.args == s.args && s.step(e).0.path
            == s.path,
{
}

/// The machine after it has taken the events of a run, one after the
/// other.
pub open spec fn after(s: LauncherView, events: Seq<EventView>) -> LauncherView
    decreases events.len(),
{
    if events.len() == 0 {
        s
    } else {
        after(s, events.drop_last()).step(events.last()).0
    }
}

/// Whatever the outside world reports, and in whatever order, the machine
/// is orderly after every step of a run.
pub proof fn lemma_runs_stay_orderly(
    platform: Platform,
    words: Seq<Seq<char>>,
    vars: Seq<(Seq<char>, Seq<char>)>,
    events: Seq<EventView>,
)
    ensures
        orderly(after(LauncherView::fresh(platform, words, vars), events)),
    decreases events.len(),
{
    if events.len() > 0 {
        lemma_runs_stay_orderly(platform, words, vars, events.drop_last());
        lemma_family_cleared_before_launch(
            after(LauncherView::fresh(platform, words, vars), events.drop_last()),
            events.last(),
        );
    }
}

/// In no run is the payload started while a variable of the launcher's
/// family is left in the environment.
pub proof fn lemma_no_run_launches_uncleared(
    platform: Platform,
    words: Seq<Seq<char>>,
    vars: Seq<(Seq<char>, Seq<char>)>,
    events: Seq<EventView>,
    e: EventView,
)
    requires
        after(LauncherView::fresh(platform, words, vars), events).step(e).1.launches(),
    ensures
        family_absent(after(LauncherView::fresh(platform, words, vars), events).step(e).0.vars),
{
    lemma_runs_stay_orderly(platform, words, vars, events);
    lemma_family_cleared_before_launch(
        after(LauncherView::fresh(platform, words, vars), events),
        e,
    );
}

/// Every run ends: after eleven steps, whatever they were, the machine is
/// finished.
pub proof fn lemma_runs_end(s: LauncherView, events: Seq<EventView>)
    ensures
        rank(after(s, events).phase) >= events.len() || after(s, events).phase is Finished,
        events.len() >= 11 ==> after(s, events).phase is Finished,
    decreases events.len(),
{
    if events.len() > 0 {
        lemma_runs_end(s, events.drop_last());
        lemma_steps_advance(after(s, events.drop_last()), events.last());
    }
}

} // verus!
