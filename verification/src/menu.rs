use vstd::prelude::*;
use crate::task::Task;
use crate::text::label_of;

verus! {

/// A main-menu choice.
#[derive(Clone, Copy, Debug, PartialEq, Eq, Structural)]
pub enum MenuChoice {
    AddTask,
    ViewTasks,
    RemoveTasks,
    MarkComplete,
    Exit,
    Invalid,
}

/// What a sub-menu selection resolves to: return to the main menu, act
/// on the task at a position, or report the index as out of range.
#[derive(Clone, Copy, Debug, PartialEq, Eq, Structural)]
pub enum SelectionOutcome {
    Resume,
    ActOn(usize),
    OutOfRange,
}

/// The action each main-menu selection index stands for.
pub open spec fn main_choice_of(selection: Option<usize>) -> MenuChoice {
    if selection == Some(0usize) {
        MenuChoice::AddTask
    } else if selection == Some(1usize) {
        MenuChoice::ViewTasks
    } else if selection == Some(2usize) {
        MenuChoice::RemoveTasks
    } else if selection == Some(3usize) {
        MenuChoice::MarkComplete
    } else if selection == Some(4usize) {
        MenuChoice::Exit
    } else {
        MenuChoice::Invalid
    }
}

/// Maps the selection index from the main menu to the action it stands
/// for; anything past the five listed entries is invalid.
pub fn main_menu_choice(selection: Option<usize>) -> (c: MenuChoice)
    ensures
        c == main_choice_of(selection),
{
    match selection {
        Some(0) => MenuChoice::AddTask,
        Some(1) => MenuChoice::ViewTasks,
        Some(2) => MenuChoice::RemoveTasks,
        Some(3) => MenuChoice::MarkComplete,
        Some(4) => MenuChoice::Exit,
        _ => MenuChoice::Invalid,
    }
}

/// What a sub-menu selection over `count` listed tasks resolves to:
/// entry 0 resumes the main menu, entries 1 through `count` act on the
/// task at that position, and anything else is out of range.
pub open spec fn outcome_of(selection: Option<usize>, count: nat) -> SelectionOutcome {
    match selection {
        Some(i) => if i == 0 {
            SelectionOutcome::Resume
        } else if i <= count {
            SelectionOutcome::ActOn((i - 1) as usize)
        } else {
            SelectionOutcome::OutOfRange
        },
        None => SelectionOutcome::OutOfRange,
    }
}

/// Resolves the user's sub-menu selection against the number of tasks
/// that were listed.
pub fn resolve_selection(selection: Option<usize>, count: usize) -> (o: SelectionOutcome)
    ensures
        o == outcome_of(selection, count as nat),
        forall|k: usize| o == SelectionOutcome::ActOn(k) ==> k < count,
{
    match selection {
        Some(i) => {
            if i == 0 {
                SelectionOutcome::Resume
            } else if i <= count {
                SelectionOutcome::ActOn(i - 1)
            } else {
                SelectionOutcome::OutOfRange
            }
        },
        None => SelectionOutcome::OutOfRange,
    }
}

/// What the shell prints for one task: the name, struck through when
/// the task is complete.
pub fn display_label(t: &Task) -> (r: String)
    ensures
        r@ == label_of(t@),
{
    if t.status {
        crate::text::struck_label(t.name.as_str())
    } else {
        t.name.clone()
    }
}

/// The display labels for a listing, one per task in order.
pub fn display_labels(tasks: &Vec<Task>) -> (r: Vec<String>)
    ensures
        r@.len() == tasks@.len(),
        forall|i: int| 0 <= i < tasks@.len() ==> (#[trigger] r@[i])@ == label_of(tasks@[i]@),
{
    let mut r: Vec<String> = Vec::new();
    let mut i: usize = 0;
    while i < tasks.len()
        invariant
            i <= tasks@.len(),
            r@.len() == i,
            forall|j: int| 0 <= j < i ==> (#[trigger] r@[j])@ == label_of(tasks@[j]@),
        decreases tasks@.len() - i,
    {
        let label = display_label(&tasks[i]);
        r.push(label);
        i += 1;
    }
    r
}

} // verus!
