//! A small clipboard library: it chooses one clipboard backend for the host
//! and describes, as plain values, the commands that move text in and out of
//! it.
//!
//! The library decides; the caller runs. [`select::next_step`] names the
//! next tool to probe until it picks a backend, which agrees with
//! [`select::select`] on the whole facts of the host;
//! [`cache::SelectionCache`] freezes that choice,
//! [`providers`] turns a backend and a text into the command to run, and
//! [`providers::finish_paste`] post-processes what a backend printed.
pub mod cache;
pub mod providers;
pub mod select;

use providers::{copy_action, copy_plan, paste_action, paste_plan, CopyAction, PasteAction, Provider};
use vstd::prelude::*;

verus! {

/// The ways a clipboard operation can fail inside the library's own logic.
#[derive(Clone, Copy, Debug, PartialEq, Eq)]
pub enum ClipError {
    /// No clipboard backend was found on the host.
    NoProvider,
    /// `wl-copy --clear` exited with a non-success status.
    ClearFailed,
}

impl ClipError {
    /// A one-line human readable description of the error.
    pub fn message(&self) -> (r: &'static str)
        ensures
            *self == ClipError::NoProvider ==> r@ == "no clipboard provider available"@,
            *self == ClipError::ClearFailed ==> r@ == "wl-copy was not successful"@,
    {
        match self {
            ClipError::NoProvider => "no clipboard provider available",
            ClipError::ClearFailed => "wl-copy was not successful",
        }
    }
}

/// The action that copies `text` through the chosen backend, or the
/// selector's error when no backend was found.
pub fn copy2(selection: Result<Provider, ClipError>, text: &str) -> (r: Result<
    CopyAction,
    ClipError,
>)
    ensures
        match selection {
            Ok(p) => r is Ok && r->Ok_0@ == copy_plan(p, text@),
            Err(e) => r is Err && r->Err_0 == e,
        },
{
    match selection {
        Ok(p) => Ok(copy_action(p, text)),
        Err(e) => Err(e),
    }
}

/// The action that copies `text` through the chosen backend; a backend must
/// have been found.
pub fn copy(selection: Result<Provider, ClipError>, text: &str) -> (r: CopyAction)
    requires
        selection is Ok,
    ensures
        r@ == copy_plan(selection->Ok_0, text@),
{
    copy_action(selection.unwrap(), text)
}

/// The action that reads the clipboard through the chosen backend, or the
/// selector's error when no backend was found.
pub fn paste2(selection: Result<Provider, ClipError>) -> (r: Result<PasteAction, ClipError>)
    ensures
        match selection {
            Ok(p) => r is Ok && r->Ok_0@ == paste_plan(p),
            Err(e) => r is Err && r->Err_0 == e,
        },
{
    match selection {
        Ok(p) => Ok(paste_action(p)),
        Err(e) => Err(e),
    }
}

/// The action that reads the clipboard through the chosen backend; a backend
/// must have been found.
pub fn paste(selection: Result<Provider, ClipError>) -> (r: PasteAction)
    requires
        selection is Ok,
    ensures
        r@ == paste_plan(selection->Ok_0),
{
    paste_action(selection.unwrap())
}

} // verus!
