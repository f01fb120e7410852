//! The selector loop's state machine and the picker labels.

use vstd::prelude::*;
use vstd::string::StringExecFns;
use crate::otp::Entry;
use crate::text::{trim_str, trimmed};

verus! {

/// What one picker invocation produced.
#[derive(Clone, Copy, Debug, PartialEq, Eq, Structural)]
pub enum SelectionResult {
    /// The user confirmed the entry at this index.
    Chosen(usize),
    /// The user cancelled the picker.
    Cancelled,
}

/// What the selector loop does next.
#[derive(Clone, Copy, Debug, PartialEq, Eq, Structural)]
pub enum SelectorAction {
    /// Show the countdown for the entry at this index, then return to
    /// the picker.
    View(usize),
    /// Terminate the process with this exit status.
    Exit(i32),
}

/// The next move of the selector loop: a chosen entry is viewed, an
/// explicit cancellation exits with status zero, and a picker failure
/// (`None`) exits with status one.
pub fn selector_step(outcome: &Option<SelectionResult>, n_entries: usize) -> (a: SelectorAction)
    requires
        (*outcome matches Some(SelectionResult::Chosen(i)) ==> i < n_entries),
    ensures
        *outcome matches Some(SelectionResult::Chosen(i)) ==> a == SelectorAction::View(i),
        *outcome == Some(SelectionResult::Cancelled) ==> a == SelectorAction::Exit(0),
        outcome is None ==> a == SelectorAction::Exit(1),
{
    match outcome {
        Some(SelectionResult::Chosen(i)) => SelectorAction::View(*i),
        Some(SelectionResult::Cancelled) => SelectorAction::Exit(0),
        None => SelectorAction::Exit(1),
    }
}

/// What the selector loop does after a viewing session ends.
#[derive(Clone, Copy, Debug, PartialEq, Eq, Structural)]
pub enum ViewFollowUp {
    /// The countdown ended normally: show the picker again.
    BackToPicker,
    /// The countdown failed: abort, propagating the error.
    Abort,
}

/// The move after viewing: only a successful countdown returns to the
/// picker; an error aborts the loop.
pub fn after_view(view_succeeded: bool) -> (f: ViewFollowUp)
    ensures
        f is BackToPicker <==> view_succeeded,
{
    if view_succeeded {
        ViewFollowUp::BackToPicker
    } else {
        ViewFollowUp::Abort
    }
}

/// The picker label of one entry: the trimmed issuer, then the trimmed
/// name in parentheses.
pub open spec fn label_of(e: Entry) -> Seq<char> {
    trimmed(e.issuer@) + " ("@ + trimmed(e.name@) + ")"@
}

/// Builds the fuzzy-picker label of one entry.
pub fn picker_label(e: &Entry) -> (r: String)
    ensures
        r@ == label_of(*e),
{
    let mut s = trim_str(e.issuer.as_str()).to_owned();
    s.append(" (");
    s.append(trim_str(e.name.as_str()));
    s.append(")");
    proof {
        assert(s@ =~= label_of(*e));
    }
    s
}

/// Builds the displayed labels of the fuzzy picker, one per entry, in
/// order.
pub fn picker_labels(entries: &Vec<Entry>) -> (labels: Vec<String>)
    ensures
        labels@.len() == entries@.len(),
        forall|i: int| 0 <= i < entries@.len() ==> (#[trigger] labels@[i])@ == label_of(entries@[i]),
{
    let mut labels: Vec<String> = Vec::new();
    let mut i: usize = 0;
    while i < entries.len()
        invariant
            i <= entries@.len(),
            labels@.len() == i as int,
            forall|k: int| 0 <= k < i as int ==> (#[trigger] labels@[k])@ == label_of(entries@[k]),
        decreases entries@.len() - i,
    {
        labels.push(picker_label(&entries[i]));
        i = i + 1;
    }
    labels
}

} // verus!
