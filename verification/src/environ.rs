//! The launcher's family of environment variables, read from a snapshot of
//! the environment: a list of name and value pairs.

use vstd::prelude::*;
use crate::text::starts_with;
use crate::text::str_eq;
use crate::text::texts;

verus! {

/// Every variable of the family begins with this.
pub const PREFIX: &'static str = "ULEXEC_";

/// Remote address of the payload.
pub const URL: &'static str = "ULEXEC_URL";

/// Local path of the payload.
pub const FILE: &'static str = "ULEXEC_FILE";

/// Fetch with POST.
pub const POST: &'static str = "ULEXEC_POST";

/// Read the payload from standard input.
pub const STDIN: &'static str = "ULEXEC_STDIN";

/// Name the launched process reports.
pub const NAME: &'static str = "ULEXEC_NAME";

/// Delete the launcher's own file.
pub const REMOVE: &'static str = "ULEXEC_REMOVE";

/// Hand the payload on through a named pipe.
pub const REEXEC: &'static str = "ULEXEC_REEXEC";

/// Always launch through an anonymous memory object.
pub const MFDEXEC: &'static str = "ULEXEC_MFDEXEC";

/// Marks an invocation that an earlier invocation started.
pub const CHILD: &'static str = "ULEXEC_CHILD";

/// The value that switches a flag of the family on.
pub const ON: &'static str = "1";

/// The characters of the names and values of a snapshot.
pub open spec fn env_view(vars: Seq<(String, String)>) -> Seq<(Seq<char>, Seq<char>)> {
    vars.map_values(|e: (String, String)| (e.0@, e.1@))
}

/// The value that the first entry named `name` holds; empty when no entry
/// has that name.
pub open spec fn lookup(vars: Seq<(Seq<char>, Seq<char>)>, name: Seq<char>) -> Seq<char>
    decreases vars.len(),
{
    if vars.len() == 0 {
        Seq::empty()
    } else if vars[0].0 == name {
        vars[0].1
    } else {
        lookup(vars.drop_first(), name)
    }
}

/// Whether the variable `name` is switched on.
pub open spec fn is_on(vars: Seq<(Seq<char>, Seq<char>)>, name: Seq<char>) -> bool {
    lookup(vars, name) == ON@
}

/// Whether an entry belongs to the family that begins with `prefix`.
pub open spec fn in_family(prefix: Seq<char>) -> spec_fn((Seq<char>, Seq<char>)) -> bool {
    |e: (Seq<char>, Seq<char>)| prefix.is_prefix_of(e.0)
}

/// Whether an entry lies outside the family that begins with `prefix`.
pub open spec fn outside_family(prefix: Seq<char>) -> spec_fn((Seq<char>, Seq<char>)) -> bool {
    |e: (Seq<char>, Seq<char>)| !prefix.is_prefix_of(e.0)
}

/// The names of the entries of a snapshot, in order.
pub open spec fn names(vars: Seq<(Seq<char>, Seq<char>)>) -> Seq<Seq<char>> {
    vars.map_values(|e: (Seq<char>, Seq<char>)| e.0)
}

/// The value of the variable `var` in the snapshot, or the empty string
/// when the snapshot does not hold it.
pub fn get_env_var(vars: &Vec<(String, String)>, var: &str) -> (r: String)
    ensures
        r@ == lookup(env_view(vars@), var@),
{
    let mut i: usize = 0;
    assert(env_view(vars@).skip(0) =~= env_view(vars@));
    while i < vars.len()
        invariant
            i <= vars.len(),
            lookup(env_view(vars@), var@) == lookup(env_view(vars@).skip(i as int), var@),
        decreases vars.len() - i,
    {
        let ghost rest = env_view(vars@).skip(i as int);
        assert(rest.drop_first() =~= env_view(vars@).skip(i + 1));
        if str_eq(vars[i].0.as_str(), var) {
            return vars[i].1.clone();
        }
        i += 1;
    }
    String::new()
}

/// Whether the variable `var` holds the value that switches a flag on.
pub fn env_flag(vars: &Vec<(String, String)>, var: &str) -> (r: bool)
    ensures
        r == is_on(env_view(vars@), var@),
{
    let value = get_env_var(vars, var);
    str_eq(value.as_str(), ON)
}

/// Whether the snapshot marks this invocation as one that an earlier
/// invocation started.
pub fn is_child(vars: &Vec<(String, String)>) -> (r: bool)
    ensures
        r == is_on(env_view(vars@), CHILD@),
{
    env_flag(vars, CHILD)
}

/// Takes every variable whose name begins with `prefix` out of the
/// snapshot and returns the names taken, in the order they stood in. The
/// other entries stay, in their order.
pub fn unset_env_vars_with_prefix(
    vars: &mut Vec<(String, String)>,
    prefix: &str,
) -> (removed: Vec<String>)
    ensures
        env_view(final(vars)@) == env_view(old(vars)@).filter(outside_family(prefix@)),
        texts(removed@) == names(env_view(old(vars)@).filter(in_family(prefix@))),
{
    let ghost before = env_view(vars@);
    let ghost stays = outside_family(prefix@);
    let ghost goes = in_family(prefix@);
    let mut kept: Vec<(String, String)> = Vec::new();
    let mut removed: Vec<String> = Vec::new();
    let mut i: usize = 0;
    proof {
        reveal(Seq::filter);
    }
    while i < vars.len()
        invariant
            i <= vars.len(),
            before == env_view(vars@),
            stays == outside_family(prefix@),
            goes == in_family(prefix@),
            env_view(kept@) == before.take(i as int).filter(stays),
            texts(removed@) == names(before.take(i as int).filter(goes)),
        decreases vars.len() - i,
    {
        proof {
            reveal(Seq::filter);
            assert(before.take(i + 1).drop_last() =~= before.take(i as int));
        }
        if starts_with(vars[i].0.as_str(), prefix) {
            removed.push(vars[i].0.clone());
            proof {
                assert(names(before.take(i + 1).filter(goes)) =~= names(
                    before.take(i as int).filter(goes),
                ).push(vars@[i as int].0@));
            }
        } else {
            kept.push((vars[i].0.clone(), vars[i].1.clone()));
        }
        i += 1;
    }
    assert(before.take(vars@.len() as int) =~= before);
    *vars = kept;
    removed
}

/// After the family is taken out, no variable of it is left, and every
/// variable outside it is still there.
pub proof fn lemma_family_is_gone(vars: Seq<(Seq<char>, Seq<char>)>, prefix: Seq<char>)
    ensures
        forall|i: int|
            0 <= i < vars.filter(outside_family(prefix)).len() ==> !prefix.is_prefix_of(
                #[trigger] vars.filter(outside_family(prefix))[i].0,
            ),
        forall|i: int|
            0 <= i < vars.len() && !prefix.is_prefix_of(vars[i].0) ==> vars.filter(
                outside_family(prefix),
            ).contains(#[trigger] vars[i]),
{
    let stays = outside_family(prefix);
    let left = vars.filter(stays);
    assert forall|i: int| 0 <= i < left.len() implies !prefix.is_prefix_of(
        #[trigger] left[i].0,
    ) by {
        vars.lemma_filter_pred(stays, i);
    }
    assert forall|i: int|
        0 <= i < vars.len() && !prefix.is_prefix_of(vars[i].0) implies left.contains(
        #[trigger] vars[i],
    ) by {
        vars.lemma_filter_contains(stays, i);
    }
}

} // verus!
