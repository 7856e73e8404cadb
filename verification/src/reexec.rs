//! Handing a payload to a later invocation through a named pipe: the name
//! of the pipe and the variables that tell the later invocation about it.

use vstd::prelude::*;
use vstd::string::StrSliceExecFns;
use vstd::string::StringExecFns;
use vstd::utf8::is_ascii_chars;
use crate::args::Args;
use crate::environ::env_view;
use crate::environ::CHILD;
use crate::environ::FILE;
use crate::environ::ON;
use crate::environ::REEXEC;

verus! {

/// Number of characters in the name of a pipe.
pub const PIPE_NAME_LENGTH: usize = 8;

/// Permission bits of a pipe: read, write and execute for the owner only.
pub const PIPE_MODE: u32 = 0o700;

/// Multiplier of the generator that draws the characters of a name.
pub const MULTIPLIER: u64 = 48271;

/// Modulus of the generator.
pub const MODULUS: u64 = 0x7FFF_FFFF;

/// The characters a name is drawn from: the letters and the digits.
pub open spec fn alphabet() -> Seq<char> {
    "abcdefghijklmnopqrstuvwxyzABCDEFGHIJKLMNOPQRSTUVWXYZ0123456789"@
}

/// The state of the generator that follows `state`: the product with the
/// multiplier, cut to 64 bits, then reduced by the modulus.
pub open spec fn advance(state: u64) -> u64 {
    (((state as nat * MULTIPLIER as nat) % 0x1_0000_0000_0000_0000) % (MODULUS as nat)) as u64
}

/// The state of the generator after `steps` steps from `seed`.
pub open spec fn state_after(seed: u64, steps: nat) -> u64
    decreases steps,
{
    if steps == 0 {
        seed
    } else {
        advance(state_after(seed, (steps - 1) as nat))
    }
}

/// The name of `length` characters drawn from `seed`: the character at
/// position `i` is picked from the alphabet by the state after `i + 1`
/// steps.
pub open spec fn random_name(seed: u64, length: nat) -> Seq<char> {
    Seq::new(length, |i: int| alphabet()[(state_after(seed, (i + 1) as nat) % 62) as int])
}

/// The alphabet has 62 characters, all of them ASCII.
pub proof fn lemma_alphabet()
    ensures
        alphabet().len() == 62,
        is_ascii_chars(alphabet()),
{
    reveal_strlit("abcdefghijklmnopqrstuvwxyzABCDEFGHIJKLMNOPQRSTUVWXYZ0123456789");
}

/// A name of `length` characters, drawn from `seed` by a linear
/// congruential generator. The same seed gives the same name.
pub fn random_string(seed: u64, length: usize) -> (r: String)
    ensures
        r@ == random_name(seed, length as nat),
{
    let letters = "abcdefghijklmnopqrstuvwxyzABCDEFGHIJKLMNOPQRSTUVWXYZ0123456789";
    proof {
        lemma_alphabet();
    }
    let mut rng: u64 = seed;
    let mut result = String::new();
    let mut i: usize = 0;
    while i < length
        invariant
            i <= length,
            letters@ == alphabet(),
            letters@.len() == 62,
            is_ascii_chars(letters@),
            rng == state_after(seed, i as nat),
            result@ == random_name(seed, i as nat),
        decreases length - i,
    {
        rng = rng.wrapping_mul(MULTIPLIER) % MODULUS;
        let idx: usize = (rng % 62) as usize;
        let piece = letters.substring_ascii(idx, idx + 1);
        result.append(piece);
        i += 1;
    }
    result
}

/// Whether the payload has to be handed on through a named pipe: the
/// caller asked for it, this invocation is not itself the later one, and
/// no launch through an anonymous memory object is forced.
pub open spec fn wants_pipe(reexec: bool, is_child: bool, forced: bool) -> bool {
    reexec && !is_child && !forced
}

/// Whether the payload has to be handed on through a named pipe.
pub fn needs_pipe(args: &Args, is_child: bool) -> (r: bool)
    ensures
        r == wants_pipe(args@.reexec, is_child, args@.mfdexec),
{
    args.reexec && !is_child && !args.mfdexec
}

/// The variables that tell a later invocation that it is one, that the
/// hand-over is under way, and where the payload waits for it.
pub open spec fn pipe_markers(pipe_path: Seq<char>) -> Seq<(Seq<char>, Seq<char>)> {
    seq![(CHILD@, ON@), (REEXEC@, ON@), (FILE@, pipe_path)]
}

/// The variables to set once the pipe at `pipe_path` exists.
pub fn reexec_markers(pipe_path: &str) -> (r: Vec<(String, String)>)
    ensures
        env_view(r@) == pipe_markers(pipe_path@),
{
    let mut r: Vec<(String, String)> = Vec::new();
    r.push((CHILD.to_owned(), ON.to_owned()));
    r.push((REEXEC.to_owned(), ON.to_owned()));
    r.push((FILE.to_owned(), pipe_path.to_owned()));
    r
}

/// The variable that marks a spawned child as one.
pub open spec fn child_marker() -> Seq<(Seq<char>, Seq<char>)> {
    seq![(CHILD@, ON@)]
}

/// The variables to set before a child is spawned.
pub fn spawn_markers() -> (r: Vec<(String, String)>)
    ensures
        env_view(r@) == child_marker(),
{
    let mut r: Vec<(String, String)> = Vec::new();
    r.push((CHILD.to_owned(), ON.to_owned()));
    r
}

} // verus!
