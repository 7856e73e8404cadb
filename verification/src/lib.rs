//! Decision logic of a loader that runs an executable image straight from
//! memory: how the command line and the environment become a request, where
//! the payload comes from, whether the image is relocatable, which launch
//! technique applies, and in which order the launcher performs its steps.
//!
//! Nothing here touches the file system, the network or the process table.
//! Every function works on plain values and states what it returns. The
//! [`launcher`] ties the parts together as a state machine that a program
//! drives: the program performs each action and reports what came of it.
//! What holds of every run is proved in [`guarantees`].

pub mod args;
pub mod environ;
pub mod guarantees;
pub mod image;
pub mod launcher;
pub mod loader;
pub mod outcome;
pub mod platform;
pub mod reexec;
pub mod report;
pub mod source;
pub mod strategy;
pub mod text;
