//! What the loaders hand to the operating system: the argument vector, the
//! environment block, the path of a descriptor, and the checks that come
//! before a launch.

use vstd::prelude::*;
use vstd::string::StrSliceExecFns;
use vstd::string::StringExecFns;
use crate::args::DEFAULT_NAME;
use crate::environ::env_view;
use crate::text::str_eq;
use crate::text::texts;

verus! {

/// File in which the kernel says whether anonymous memory objects may be
/// executed.
pub const NOEXEC_SETTING: &'static str = "/proc/sys/vm/memfd_noexec";

/// Milliseconds to wait before the descriptor of an anonymous memory
/// object is closed behind the image that was started from it.
pub const CLOSE_DELAY_MILLIS: u64 = 1;

/// The argument vector of an image replaced by path: the path itself, then
/// the arguments that are handed on, unchanged and in order.
pub open spec fn argv_of(path: Seq<char>, exec_args: Seq<Seq<char>>) -> Seq<Seq<char>> {
    seq![path] + exec_args
}

/// Builds the argument vector of an image replaced by path.
pub fn argument_vector(path: &str, exec_args: &Vec<String>) -> (r: Vec<String>)
    ensures
        texts(r@) == argv_of(path@, texts(exec_args@)),
{
    let mut r: Vec<String> = Vec::new();
    r.push(path.to_owned());
    let mut i: usize = 0;
    while i < exec_args.len()
        invariant
            i <= exec_args.len(),
            texts(r@) == argv_of(path@, texts(exec_args@).take(i as int)),
        decreases exec_args.len() - i,
    {
        let ghost before = r@;
        r.push(exec_args[i].clone());
        i += 1;
        assert(texts(r@) =~= texts(before).push(exec_args@[i - 1]@));
    }
    r
}

/// One line of an environment block: the name, an equals sign, the value.
pub open spec fn entry_of(e: (Seq<char>, Seq<char>)) -> Seq<char> {
    e.0 + seq!['='] + e.1
}

/// The environment block of a snapshot: one line for each variable, in the
/// order of the snapshot.
pub open spec fn block_of(vars: Seq<(Seq<char>, Seq<char>)>) -> Seq<Seq<char>> {
    vars.map_values(|e: (Seq<char>, Seq<char>)| entry_of(e))
}

/// Builds the environment block of a snapshot.
pub fn environment_block(vars: &Vec<(String, String)>) -> (r: Vec<String>)
    ensures
        texts(r@) == block_of(env_view(vars@)),
{
    let mut r: Vec<String> = Vec::new();
    let mut i: usize = 0;
    while i < vars.len()
        invariant
            i <= vars.len(),
            texts(r@) == block_of(env_view(vars@)).take(i as int),
        decreases vars.len() - i,
    {
        let ghost before = r@;
        let mut line = vars[i].0.clone();
        proof {
            reveal_strlit("=");
        }
        line.append("=");
        line.append(vars[i].1.as_str());
        assert(line@ =~= entry_of(env_view(vars@)[i as int]));
        r.push(line);
        i += 1;
        assert(texts(r@) =~= texts(before).push(line@));
    }
    r
}

/// The character of a decimal digit.
pub open spec fn digit(d: nat) -> char {
    "0123456789"@[d as int]
}

/// The decimal digits of a number, most significant first.
pub open spec fn digits(n: nat) -> Seq<char>
    decreases n,
{
    if n < 10 {
        seq![digit(n)]
    } else {
        digits(n / 10).push(digit(n % 10))
    }
}

/// A number in decimal, with a minus sign before a negative one.
pub open spec fn decimal(n: int) -> Seq<char> {
    if n < 0 {
        seq!['-'] + digits((-n) as nat)
    } else {
        digits(n as nat)
    }
}

/// The path under which the open descriptor `fd` of this process is
/// visible in the file system.
pub open spec fn descriptor_path_of(fd: int) -> Seq<char> {
    "/proc/self/fd/"@ + decimal(fd)
}

/// Appends the decimal digits of `n` to `out`.
fn push_digits(out: &mut String, n: u64)
    ensures
        final(out)@ == old(out)@ + digits(n as nat),
    decreases n,
{
    let table = "0123456789";
    proof {
        reveal_strlit("0123456789");
    }
    if n >= 10 {
        push_digits(out, n / 10);
    }
    let d: usize = (n % 10) as usize;
    let piece = table.substring_ascii(d, d + 1);
    out.append(piece);
}

/// The path under which the open descriptor `fd` of this process is
/// visible in the file system.
pub fn descriptor_path(fd: i32) -> (r: String)
    ensures
        r@ == descriptor_path_of(fd as int),
{
    let mut r = "/proc/self/fd/".to_owned();
    let wide: i64 = fd as i64;
    if wide < 0 {
        proof {
            reveal_strlit("-");
        }
        r.append("-");
        push_digits(&mut r, (0 - wide) as u64);
    } else {
        push_digits(&mut r, wide as u64);
    }
    r
}

/// Whether the kernel's setting allows an anonymous memory object to be
/// executed: the text of the setting holds the digit zero.
pub open spec fn permits(setting: Seq<char>) -> bool {
    setting.contains('0')
}

/// Whether the kernel's setting allows an anonymous memory object to be
/// executed.
pub fn noexec_permits(setting: &str) -> (r: bool)
    ensures
        r == permits(setting@),
{
    let n: usize = setting.unicode_len();
    let mut i: usize = 0;
    while i < n
        invariant
            i <= n,
            n == setting@.len(),
            forall|j: int| 0 <= j < i ==> setting@[j] != '0',
        decreases n - i,
    {
        if setting.get_char(i) == '0' {
            return true;
        }
        i += 1;
    }
    false
}

/// Whether the process is to report a name of its own choosing: the name
/// asked for differs from the launcher's.
pub open spec fn renames(name: Seq<char>) -> bool {
    name != DEFAULT_NAME@
}

/// Whether the process is to report a name of its own choosing.
pub fn overrides_identity(name: &str) -> (r: bool)
    ensures
        r == renames(name@),
{
    !str_eq(name, DEFAULT_NAME)
}

} // verus!
