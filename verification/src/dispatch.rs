//! The dispatcher's part: one task for every file of a run, and the end of
//! the run once every task has ended.
//!
//! The tasks of a run share nothing but the configuration, which none of
//! them changes. A failed task is reported and otherwise ignored: it neither
//! stops the others nor changes how the run ends.

use vstd::prelude::*;
use crate::config::RunConfig;
use crate::task::{is_terminal, FileTask, StateModel, TaskState};

verus! {

/// Every task of `tasks` has ended.
pub open spec fn all_ended(tasks: Seq<FileTask>) -> bool {
    forall|i: int| 0 <= i < tasks.len() ==> is_terminal(#[trigger] tasks[i].state@)
}

/// The tasks of a run: one pending task for every file, in the order of the
/// files.
pub fn plan(config: &RunConfig) -> (tasks: Vec<FileTask>)
    ensures
        tasks.len() == config.files.len(),
        forall|i: int|
            0 <= i < tasks.len() ==> {
                &&& (#[trigger] tasks[i]).path@ == config.files[i]@
                &&& tasks[i].state@ == StateModel::Pending
            },
{
    let mut tasks: Vec<FileTask> = Vec::new();
    let mut i: usize = 0;
    while i < config.files.len()
        invariant
            i <= config.files.len(),
            tasks.len() == i,
            forall|j: int|
                0 <= j < i ==> {
                    &&& (#[trigger] tasks[j]).path@ == config.files[j]@
                    &&& tasks[j].state@ == StateModel::Pending
                },
        decreases config.files.len() - i,
    {
        tasks.push(FileTask::new(config.files[i].clone()));
        i = i + 1;
    }
    tasks
}

/// The exit status of a run, once it is over. A run is over when every one
/// of its tasks has ended, well or not, and its status is then zero: a file
/// that failed has been reported and does not fail the run. While a task is
/// still on its way there is no status.
pub fn completion(tasks: &Vec<FileTask>) -> (code: Option<i32>)
    ensures
        code is Some <==> all_ended(tasks@),
        code is Some ==> code == Some(0i32),
{
    let mut i: usize = 0;
    while i < tasks.len()
        invariant
            i <= tasks.len(),
            forall|j: int| 0 <= j < i ==> is_terminal(#[trigger] tasks[j].state@),
        decreases tasks.len() - i,
    {
        match &tasks[i].state {
            TaskState::Done { .. } => {},
            TaskState::Failed { .. } => {},
            _ => {
                assert(!is_terminal(tasks[i as int].state@));
                return None;
            },
        }
        i = i + 1;
    }
    Some(0)
}

} // verus!
