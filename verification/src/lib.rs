//! Timing a child process: the decisions of a launcher that starts a command
//! suspended, attaches it to a resource tracking group, lets it run to its end
//! and reports its wall-clock time, CPU times and peak memory.
//!
//! The library performs no system call. The program around it carries out the
//! [`lifecycle::Action`] that a [`lifecycle::State`] asks for and hands back what
//! happened as a [`lifecycle::Event`]; [`laws`] states what holds of every such
//! run. The other modules hold what a run computes on the way: the command
//! line in [`command`], the timestamps in [`clock`], the exit status in
//! [`status`], and the text that is written in [`message`] and [`output`].

pub mod clock;
pub mod command;
pub mod handle;
pub mod laws;
pub mod lifecycle;
pub mod message;
pub mod output;
pub mod status;
