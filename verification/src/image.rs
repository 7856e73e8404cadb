//! Tells a relocatable image from one that loads at a fixed address, by the
//! address of its first loadable segment.

use vstd::prelude::*;

verus! {

/// The type that marks a program header as a loadable segment.
pub const PT_LOAD: u32 = 1;

/// Why an image has no verdict.
#[derive(Clone, Copy, Debug, PartialEq, Eq, Structural)]
pub enum ImageError {
    /// The bytes are no ELF image that the parser accepts.
    Malformed,
    /// The image parses, but none of its segments is loadable.
    NoLoadableSegment,
}

/// The program headers that `goblin::elf::Elf::parse` reads from `bytes`,
/// each as its type and its virtual address, in the order of the image;
/// `None` where the parser rejects the bytes.
pub uninterp spec fn elf_segments(bytes: Seq<u8>) -> Option<Seq<(u32, u64)>>;

/// Runs `goblin::elf::Elf::parse` on `bytes` and hands out, for each entry
/// of the `program_headers` it returns, the fields `p_type` and `p_vaddr`.
/// An `Err` of the parser becomes `None`. The parser reads nothing but the
/// bytes it is given, so what it returns is named as a function of them;
/// nothing is claimed about which bytes it accepts.
#[verifier::external_body]
fn read_segments(bytes: &[u8]) -> (r: Option<Vec<(u32, u64)>>)
    ensures
        match r {
            Some(v) => elf_segments(bytes@) == Some(v@),
            None => elf_segments(bytes@) is None,
        },
{
    match goblin::elf::Elf::parse(bytes) {
        Ok(elf) => Some(elf.program_headers.iter().map(|h| (h.p_type, h.p_vaddr)).collect()),
        Err(_) => None,
    }
}

/// The virtual address of the first loadable segment, if there is one.
pub open spec fn first_load(segments: Seq<(u32, u64)>) -> Option<u64>
    decreases segments.len(),
{
    if segments.len() == 0 {
        None
    } else if segments[0].0 == PT_LOAD {
        Some(segments[0].1)
    } else {
        first_load(segments.drop_first())
    }
}

/// Whether an image with these program headers is relocatable: its first
/// loadable segment is mapped at address zero.
pub open spec fn pie_of(segments: Seq<(u32, u64)>) -> Result<bool, ImageError> {
    match first_load(segments) {
        Some(address) => Ok(address == 0),
        None => Err(ImageError::NoLoadableSegment),
    }
}

/// The verdict on an image, given what the parser made of it.
pub open spec fn verdict(parsed: Option<Seq<(u32, u64)>>) -> Result<bool, ImageError> {
    match parsed {
        Some(segments) => pie_of(segments),
        None => Err(ImageError::Malformed),
    }
}

/// Whether the segment at position `i` is loadable and none before it is.
pub open spec fn leads(segments: Seq<(u32, u64)>, i: int) -> bool {
    &&& 0 <= i < segments.len()
    &&& segments[i].0 == PT_LOAD
    &&& forall|j: int| 0 <= j < i ==> (#[trigger] segments[j]).0 != PT_LOAD
}

/// The address `first_load` gives is that of the loadable segment with
/// the lowest index, and it gives none only if no segment is loadable.
pub proof fn lemma_first_load_is_lowest(segments: Seq<(u32, u64)>)
    ensures
        match first_load(segments) {
            Some(address) => exists|i: int| #[trigger]
                leads(segments, i) && segments[i].1 == address,
            None => forall|i: int|
                0 <= i < segments.len() ==> (#[trigger] segments[i]).0 != PT_LOAD,
        },
    decreases segments.len(),
{
    if segments.len() == 0 {
    } else if segments[0].0 == PT_LOAD {
        assert(leads(segments, 0));
    } else {
        let rest = segments.drop_first();
        lemma_first_load_is_lowest(rest);
        match first_load(rest) {
            Some(address) => {
                let i = choose|i: int| #[trigger] leads(rest, i) && rest[i].1 == address;
                assert forall|j: int| 0 <= j < i + 1 implies (#[trigger] segments[j]).0
                    != PT_LOAD by {
                    if j > 0 {
                        assert(segments[j] == rest[j - 1]);
                    }
                }
                assert(leads(segments, i + 1));
            },
            None => {
                assert forall|i: int| 0 <= i < segments.len() implies (#[trigger] segments[i]).0
                    != PT_LOAD by {
                    if i > 0 {
                        assert(segments[i] == rest[i - 1]);
                    }
                }
            },
        }
    }
}

/// The virtual address of the first loadable segment, if there is one.
pub fn first_load_address(segments: &Vec<(u32, u64)>) -> (r: Option<u64>)
    ensures
        r == first_load(segments@),
{
    let mut i: usize = 0;
    assert(segments@.skip(0) =~= segments@);
    while i < segments.len()
        invariant
            i <= segments.len(),
            first_load(segments@) == first_load(segments@.skip(i as int)),
        decreases segments.len() - i,
    {
        assert(segments@.skip(i as int).drop_first() =~= segments@.skip(i + 1));
        if segments[i].0 == PT_LOAD {
            return Some(segments[i].1);
        }
        i += 1;
    }
    None
}

/// Whether an image with these program headers is relocatable.
pub fn segments_are_pie(segments: &Vec<(u32, u64)>) -> (r: Result<bool, ImageError>)
    ensures
        r == pie_of(segments@),
{
    match first_load_address(segments) {
        Some(address) => Ok(address == 0),
        None => Err(ImageError::NoLoadableSegment),
    }
}

/// Whether the image in `bytes` is relocatable. The bytes are parsed once;
/// bytes that the parser rejects, and an image without a loadable segment,
/// have no verdict.
pub fn is_pie(bytes: &[u8]) -> (r: Result<bool, ImageError>)
    ensures
        r == verdict(elf_segments(bytes@)),
{
    match read_segments(bytes) {
        Some(segments) => segments_are_pie(&segments),
        None => Err(ImageError::Malformed),
    }
}

/// Two verdicts on the same bytes agree.
pub proof fn lemma_verdict_is_stable(
    bytes: Seq<u8>,
    first: Result<bool, ImageError>,
    second: Result<bool, ImageError>,
)
    requires
        first == verdict(elf_segments(bytes)),
        second == verdict(elf_segments(bytes)),
    ensures
        first == second,
{
}

} // verus!
