//! The rules of the log endpoints: which lines a tail shows, and what
//! becomes of a log file when the logs are deleted.

use vstd::prelude::*;

verus! {

/// The place of the first of the last `count` lines among `total` lines:
/// the beginning where there are no more than `count`.
pub open spec fn tail_start_of(total: int, count: int) -> int {
    if count >= total {
        0
    } else {
        total - count
    }
}

/// Where the tail of `count` lines begins among `total` lines.
pub fn tail_start(total: usize, count: usize) -> (r: usize)
    ensures
        r == tail_start_of(total as int, count as int),
        r <= total,
{
    if count >= total {
        0
    } else {
        total - count
    }
}

/// What deleting the logs does to one file.
#[derive(Clone, Copy, Debug, PartialEq, Eq, Structural)]
pub enum LogCleanup {
    /// The file is emptied and stays: it is the one being written.
    Truncate,
    /// The file is removed.
    Delete,
}

/// Decides what deleting the logs does to a file: the file of today, which
/// is being written, is emptied; every other file is removed.
pub fn cleanup_of(file_name: &String, file_of_today: &String) -> (r: LogCleanup)
    ensures
        r == if file_name@ == file_of_today@ {
            LogCleanup::Truncate
        } else {
            LogCleanup::Delete
        },
{
    if *file_name == *file_of_today {
        LogCleanup::Truncate
    } else {
        LogCleanup::Delete
    }
}

} // verus!
