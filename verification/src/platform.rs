//! The platforms the launcher runs on, told apart by what each can do.

use vstd::prelude::*;

verus! {

/// A target platform.
#[derive(Clone, Copy, Debug, PartialEq, Eq, Structural)]
pub enum Platform {
    /// Can replace the running image from an anonymous memory object.
    Linux,
    /// Cannot: a payload reaches its loader through a spawned child.
    Windows,
}

impl Platform {
    /// Whether a process on this platform can replace its own image from
    /// an object that lives in memory only.
    pub open spec fn replaces_image(self) -> bool {
        self is Linux
    }

    /// Whether a process on this platform can replace its own image from
    /// an object that lives in memory only.
    #[verifier::when_used_as_spec(replaces_image)]
    pub fn can_replace_image(self) -> (r: bool)
        ensures
            r == self.replaces_image(),
    {
        match self {
            Platform::Linux => true,
            Platform::Windows => false,
        }
    }
}

} // verus!
