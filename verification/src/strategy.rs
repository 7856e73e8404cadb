//! Chooses the launch technique from what is known of the platform, the
//! invocation and the image.

use vstd::prelude::*;
use crate::platform::Platform;

verus! {

/// A launch technique.
#[derive(Clone, Copy, Debug, PartialEq, Eq, Structural)]
pub enum Strategy {
    /// Start the launcher again as a child and stream the payload into its
    /// standard input, then wait for it.
    SpawnChild,
    /// Run the payload inside this process, which is such a child.
    InProcess,
    /// Write the payload into an anonymous memory object and replace the
    /// running image from it.
    AnonymousMemory,
    /// Replace the running image by the path the payload was read from.
    ReflectivePath,
    /// Write the payload into an anonymous memory object and replace the
    /// running image by the path under which that object is visible.
    ReflectiveDescriptor,
}

/// The technique for an invocation.
///
/// Where the platform cannot replace the running image, an invocation that
/// is not yet a child spawns one, and a child runs the payload itself.
/// Elsewhere an image that is not relocatable, or any image when the
/// caller forces it, goes through an anonymous memory object; a
/// relocatable one is replaced by path: the payload's own path while a
/// file stands behind it, else that of a fresh anonymous object.
pub open spec fn strategy_for(
    platform: Platform,
    is_child: bool,
    relocatable: bool,
    forced: bool,
    on_disk: bool,
) -> Strategy {
    if !platform.replaces_image() {
        if is_child {
            Strategy::InProcess
        } else {
            Strategy::SpawnChild
        }
    } else if !relocatable || forced {
        Strategy::AnonymousMemory
    } else if on_disk {
        Strategy::ReflectivePath
    } else {
        Strategy::ReflectiveDescriptor
    }
}

/// Chooses the technique for an invocation. Every combination of inputs
/// has exactly one.
pub fn select_strategy(
    platform: Platform,
    is_child: bool,
    relocatable: bool,
    forced: bool,
    on_disk: bool,
) -> (r: Strategy)
    ensures
        r == strategy_for(platform, is_child, relocatable, forced, on_disk),
{
    if !platform.can_replace_image() {
        if is_child {
            Strategy::InProcess
        } else {
            Strategy::SpawnChild
        }
    } else if !relocatable || forced {
        Strategy::AnonymousMemory
    } else if on_disk {
        Strategy::ReflectivePath
    } else {
        Strategy::ReflectiveDescriptor
    }
}

/// Whether the technique can be chosen without looking at the image:
/// the platform settles it, or the caller forced it.
pub open spec fn settled_early(platform: Platform, forced: bool) -> bool {
    !platform.replaces_image() || forced
}

/// The table of the selector, row by row: each technique is chosen on
/// exactly the inputs of its row.
pub proof fn lemma_selection_table(
    platform: Platform,
    is_child: bool,
    relocatable: bool,
    forced: bool,
    on_disk: bool,
)
    ensures
        strategy_for(platform, is_child, relocatable, forced, on_disk) is SpawnChild <==> platform
            is Windows && !is_child,
        strategy_for(platform, is_child, relocatable, forced, on_disk) is InProcess <==> platform
            is Windows && is_child,
        strategy_for(platform, is_child, relocatable, forced, on_disk) is AnonymousMemory
            <==> platform is Linux && (!relocatable || forced),
        strategy_for(platform, is_child, relocatable, forced, on_disk) is ReflectivePath
            <==> platform is Linux && relocatable && !forced && on_disk,
        strategy_for(platform, is_child, relocatable, forced, on_disk) is ReflectiveDescriptor
            <==> platform is Linux && relocatable && !forced && !on_disk,
{
}

/// Where the technique is settled early, neither the verdict on the image
/// nor the state of its path changes it.
pub proof fn lemma_settled_early_ignores_image(
    platform: Platform,
    is_child: bool,
    forced: bool,
    relocatable: bool,
    on_disk: bool,
    other_relocatable: bool,
    other_on_disk: bool,
)
    requires
        settled_early(platform, forced),
    ensures
        strategy_for(platform, is_child, relocatable, forced, on_disk) == strategy_for(
            platform,
            is_child,
            other_relocatable,
            forced,
            other_on_disk,
        ),
{
}

/// An image that is not relocatable is launched the same way whatever
/// stands behind its path.
pub proof fn lemma_fixed_image_ignores_path(
    platform: Platform,
    is_child: bool,
    forced: bool,
    on_disk: bool,
    other_on_disk: bool,
)
    ensures
        strategy_for(platform, is_child, false, forced, on_disk) == strategy_for(
            platform,
            is_child,
            false,
            forced,
            other_on_disk,
        ),
{
}

} // verus!
