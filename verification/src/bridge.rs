//! The slot through which a screen follows one background operation: the
//! operation is started elsewhere, its completion is reported here, and its
//! result is read once.

use vstd::prelude::*;

verus! {

/// What is known of a background operation.
#[derive(Clone, Debug, PartialEq, Eq)]
pub enum PendingTask<R> {
    /// Started, and not known to have ended.
    Running,
    /// Ended with this result, which nobody has read yet.
    Finished(R),
}

/// Room for at most one background operation.
pub struct TaskSlot<R> {
    pub task: Option<PendingTask<R>>,
}

impl<R> TaskSlot<R> {
    /// Whether an operation is in the slot, running or finished.
    pub open spec fn is_outstanding(&self) -> bool {
        self.task is Some
    }

    /// Whether the operation in the slot has ended.
    pub open spec fn finished(&self) -> bool {
        self.task is Some && self.task->Some_0 is Finished
    }

    /// An empty slot.
    pub fn new() -> (slot: Self)
        ensures
            slot.task is None,
    {
        Self { task: None }
    }

    /// Whether an operation is in the slot, running or finished.
    pub fn outstanding(&self) -> (held: bool)
        ensures
            held == self.is_outstanding(),
    {
        self.task.is_some()
    }

    /// Whether the operation in the slot has ended. An empty slot holds
    /// nothing that could have.
    pub fn is_finished(&self) -> (done: bool)
        ensures
            done == self.finished(),
    {
        match &self.task {
            Some(PendingTask::Finished(_)) => true,
            _ => false,
        }
    }

    /// Takes note that an operation was started. A slot that holds one
    /// already keeps it: the new one is refused.
    pub fn start(&mut self) -> (accepted: bool)
        ensures
            accepted == !old(self).is_outstanding(),
            accepted ==> final(self).task == Some(PendingTask::<R>::Running),
            !accepted ==> final(self).task == old(self).task,
    {
        if self.task.is_some() {
            false
        } else {
            self.task = Some(PendingTask::Running);
            true
        }
    }

    /// Takes note that the running operation ended with `result`. Where
    /// nothing runs, the result is handed back and the slot stays as it is.
    pub fn complete(&mut self, result: R) -> (rejected: Option<R>)
        ensures
            old(self).task == Some(PendingTask::<R>::Running) ==> rejected is None
                && final(self).task == Some(PendingTask::Finished(result)),
            old(self).task != Some(PendingTask::<R>::Running) ==> rejected == Some(result)
                && final(self).task == old(self).task,
    {
        match &self.task {
            Some(PendingTask::Running) => {
                self.task = Some(PendingTask::Finished(result));
                None
            },
            _ => Some(result),
        }
    }

    /// Reads the result of the finished operation and empties the slot. A
    /// running operation stays, and nothing is read.
    pub fn take(&mut self) -> (result: Option<R>)
        ensures
            old(self).finished() ==> result == Some(old(self).task->Some_0->Finished_0)
                && final(self).task is None,
            !old(self).finished() ==> result is None && final(self).task == old(self).task,
    {
        if self.is_finished() {
            let task = self.task.take();
            match task {
                Some(PendingTask::Finished(result)) => Some(result),
                _ => None,
            }
        } else {
            None
        }
    }

    /// Empties the slot, whatever it holds.
    pub fn clear(&mut self)
        ensures
            final(self).task is None,
    {
        self.task = None;
    }
}

} // verus!
