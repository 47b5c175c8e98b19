//! The decisions of applying a plan to a device, as a state machine.
//!
//! The caller owns the device. It performs the action that the machine asks
//! for, reports what happened as an event, and receives the next action, until
//! the action is `Finish`. Partitions are staged strictly in plan order, each
//! against a view read after the previous one was added, and the table is
//! committed once, after the last one.

use vstd::prelude::*;
use crate::geometry::{CompileError, compile, compiled};
use crate::plan::{LibpartedDevicePlan, disk_type_supported, is_supported_disk_type};
use crate::view::{DiskView, Geometry};

verus! {

/// Why applying a plan stopped.
#[derive(Debug, Clone, Copy, PartialEq, Eq)]
pub enum ExecError {
    DeviceOpenFailed,
    UnsupportedDiskType,
    TableCreateFailed,
    Compile(CompileError),
    PartitionCreateFailed,
    PartitionAddFailed,
    CommitFailed,
}

/// Where an execution stands.
#[derive(Debug, Clone, Copy)]
pub enum Phase {
    /// Waiting for the device to be opened.
    Opening,
    /// Waiting for a fresh table of the plan's type.
    Labeling,
    /// Waiting for a view of the table before staging partition `i`.
    Reading(usize),
    /// Waiting for partition `i` to be created and added with these bounds.
    Adding(usize, Geometry),
    /// Waiting for the table to be written to the device.
    Committing,
    /// Done, with this outcome.
    Finished(Result<(), ExecError>),
}

/// What the caller is asked to do next.
#[derive(Debug, Clone, Copy, PartialEq, Eq)]
pub enum Action {
    OpenDevice,
    CreateTable,
    ReadView,
    AddPartition(Geometry),
    Commit,
    Finish(Result<(), ExecError>),
}

/// What the caller reports after doing an action.
#[derive(Debug, Clone)]
pub enum Event {
    DeviceOpened,
    DeviceOpenFailed,
    TableCreated,
    TableTypeUnknown,
    TableCreateFailed,
    ViewRead(DiskView),
    PartitionAdded,
    PartitionCreateFailed,
    PartitionAddFailed,
    Committed,
    CommitFailed,
}

/// The action that waits in a phase.
pub open spec fn pending(phase: Phase) -> Action {
    match phase {
        Phase::Opening => Action::OpenDevice,
        Phase::Labeling => Action::CreateTable,
        Phase::Reading(_) => Action::ReadView,
        Phase::Adding(_, g) => Action::AddPartition(g),
        Phase::Committing => Action::Commit,
        Phase::Finished(r) => Action::Finish(r),
    }
}

/// The phase before partition `i` is staged: its view is read if the plan has
/// it, else the table is committed.
pub open spec fn staging(plan: LibpartedDevicePlan, i: int) -> Phase {
    if i < plan.partitions@.len() {
        Phase::Reading(i as usize)
    } else {
        Phase::Committing
    }
}

pub open spec fn failed(e: ExecError) -> Phase {
    Phase::Finished(Err(e))
}

/// The phase an event leads to. An event that does not answer the pending
/// action leaves the phase as it is.
pub open spec fn transition(plan: LibpartedDevicePlan, phase: Phase, event: Event) -> Phase {
    match phase {
        Phase::Opening => match event {
            Event::DeviceOpened => if is_supported_disk_type(plan.disk_type@) {
                Phase::Labeling
            } else {
                failed(ExecError::UnsupportedDiskType)
            },
            Event::DeviceOpenFailed => failed(ExecError::DeviceOpenFailed),
            _ => phase,
        },
        Phase::Labeling => match event {
            Event::TableCreated => staging(plan, 0),
            Event::TableTypeUnknown => failed(ExecError::UnsupportedDiskType),
            Event::TableCreateFailed => failed(ExecError::TableCreateFailed),
            _ => phase,
        },
        Phase::Reading(i) => match event {
            Event::ViewRead(v) => match compiled(
                plan.partitions@[i as int].size.spec_policy(),
                v.entries@,
                v.total_sectors,
                v.sector_size,
            ) {
                Ok(g) => Phase::Adding(i, g),
                Err(e) => failed(ExecError::Compile(e)),
            },
            _ => phase,
        },
        Phase::Adding(i, _) => match event {
            Event::PartitionAdded => staging(plan, i + 1),
            Event::PartitionCreateFailed => failed(ExecError::PartitionCreateFailed),
            Event::PartitionAddFailed => failed(ExecError::PartitionAddFailed),
            _ => phase,
        },
        Phase::Committing => match event {
            Event::Committed => Phase::Finished(Ok(())),
            Event::CommitFailed => failed(ExecError::CommitFailed),
            _ => phase,
        },
        Phase::Finished(_) => phase,
    }
}

/// A plan without partitions goes from a fresh table straight to its commit.
pub proof fn lemma_empty_plan_commits_fresh_table(plan: LibpartedDevicePlan)
    requires
        plan.partitions@.len() == 0,
    ensures
        transition(plan, Phase::Labeling, Event::TableCreated) == Phase::Committing,
        pending(Phase::Committing) == Action::Commit,
{
}

/// Whether an event carries a view with a positive sector size, if it carries one.
pub open spec fn event_wf(event: Event) -> bool {
    event matches Event::ViewRead(v) ==> v.wf()
}

/// One application of a plan to a device, from opening to commit.
pub struct PlanExecution {
    plan: LibpartedDevicePlan,
    phase: Phase,
}

impl PlanExecution {
    pub closed spec fn spec_plan(self) -> LibpartedDevicePlan {
        self.plan
    }

    pub closed spec fn spec_phase(self) -> Phase {
        self.phase
    }

    /// The partition a phase refers to is one of the plan's.
    pub closed spec fn wf(self) -> bool {
        match self.phase {
            Phase::Reading(i) => i < self.plan.partitions@.len(),
            Phase::Adding(i, _) => i < self.plan.partitions@.len(),
            _ => true,
        }
    }

    /// Starts an execution of `plan`; its first action is to open the device.
    pub fn new(plan: LibpartedDevicePlan) -> (r: PlanExecution)
        ensures
            r.wf(),
            r.spec_plan() == plan,
            r.spec_phase() == Phase::Opening,
    {
        PlanExecution { plan, phase: Phase::Opening }
    }

    /// The plan being applied.
    pub fn plan(&self) -> (r: &LibpartedDevicePlan)
        ensures
            *r == self.spec_plan(),
    {
        &self.plan
    }

    /// Where the execution stands.
    pub fn phase(&self) -> (r: Phase)
        ensures
            r == self.spec_phase(),
    {
        self.phase
    }

    /// The action the execution waits on.
    pub fn action(&self) -> (r: Action)
        ensures
            r == pending(self.spec_phase()),
    {
        match self.phase {
            Phase::Opening => Action::OpenDevice,
            Phase::Labeling => Action::CreateTable,
            Phase::Reading(_) => Action::ReadView,
            Phase::Adding(_, g) => Action::AddPartition(g),
            Phase::Committing => Action::Commit,
            Phase::Finished(r) => Action::Finish(r),
        }
    }

    fn staging_at(&self, i: usize) -> (r: Phase)
        requires
            i <= self.plan.partitions@.len(),
        ensures
            r == staging(self.plan, i as int),
    {
        if i < self.plan.partitions.len() {
            Phase::Reading(i)
        } else {
            Phase::Committing
        }
    }

    /// Takes the outcome of the pending action and returns the next action.
    pub fn step(&mut self, event: Event) -> (r: Action)
        requires
            old(self).wf(),
            event_wf(event),
        ensures
            final(self).wf(),
            final(self).spec_plan() == old(self).spec_plan(),
            final(self).spec_phase() == transition(
                old(self).spec_plan(),
                old(self).spec_phase(),
                event,
            ),
            r == pending(final(self).spec_phase()),
    {
        let next = match self.phase {
            Phase::Opening => match event {
                Event::DeviceOpened => if disk_type_supported(&self.plan.disk_type) {
                    Phase::Labeling
                } else {
                    Phase::Finished(Err(ExecError::UnsupportedDiskType))
                },
                Event::DeviceOpenFailed => Phase::Finished(Err(ExecError::DeviceOpenFailed)),
                _ => self.phase,
            },
            Phase::Labeling => match event {
                Event::TableCreated => self.staging_at(0),
                Event::TableTypeUnknown => Phase::Finished(Err(ExecError::UnsupportedDiskType)),
                Event::TableCreateFailed => Phase::Finished(Err(ExecError::TableCreateFailed)),
                _ => self.phase,
            },
            Phase::Reading(i) => match event {
                Event::ViewRead(v) => match compile(&self.plan.partitions[i], &v) {
                    Ok(g) => Phase::Adding(i, g),
                    Err(e) => Phase::Finished(Err(ExecError::Compile(e))),
                },
                _ => self.phase,
            },
            Phase::Adding(i, _) => match event {
                Event::PartitionAdded => {
                    let n = self.plan.partitions.len();
                    assert(i < n);
                    self.staging_at(i + 1)
                },
                Event::PartitionCreateFailed => Phase::Finished(
                    Err(ExecError::PartitionCreateFailed),
                ),
                Event::PartitionAddFailed => Phase::Finished(Err(ExecError::PartitionAddFailed)),
                _ => self.phase,
            },
            Phase::Committing => match event {
                Event::Committed => Phase::Finished(Ok(())),
                Event::CommitFailed => Phase::Finished(Err(ExecError::CommitFailed)),
                _ => self.phase,
            },
            Phase::Finished(_) => self.phase,
        };
        self.phase = next;
        self.action()
    }
}

} // verus!
