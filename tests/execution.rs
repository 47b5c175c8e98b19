use libndisk::executor::{Action, Event, ExecError, Phase, PlanExecution};
use libndisk::geometry::CompileError;
use libndisk::plan::{LibpartedDevicePlan, PartitionPlan};
use libndisk::size::{PartitionSize, PartitionSizeType};
use libndisk::view::{DiskView, Geometry, PartEntry};

fn entry(kind: &str, start: u64, end: u64) -> PartEntry {
    PartEntry { kind_name: kind.to_string(), start, end }
}

fn fresh_view() -> DiskView {
    DiskView {
        entries: vec![
            entry("metadata", 0, 33),
            entry("free", 34, 102366),
            entry("metadata", 102367, 102400),
        ],
        total_sectors: 102401,
        sector_size: 512,
    }
}

fn part(name: &str, kind: PartitionSizeType, start: Option<u64>, end: Option<u64>, offset: Option<u64>) -> PartitionPlan {
    PartitionPlan {
        name: name.to_string(),
        size: PartitionSize::new(kind, start, end, offset).expect("valid size"),
        part_flag: None,
    }
}

fn gpt_plan(partitions: Vec<PartitionPlan>) -> LibpartedDevicePlan {
    LibpartedDevicePlan { disk_type: "gpt".to_string(), partitions }
}

/// Runs the machine up to the point where it asks for the first view.
fn labelled(plan: LibpartedDevicePlan) -> PlanExecution {
    let mut exec = PlanExecution::new(plan);
    assert_eq!(exec.action(), Action::OpenDevice);
    assert_eq!(exec.step(Event::DeviceOpened), Action::CreateTable);
    exec.step(Event::TableCreated);
    exec
}

#[test]
fn empty_plan_labels_and_commits() {
    let mut exec = labelled(gpt_plan(vec![]));
    assert_eq!(exec.action(), Action::Commit);
    assert_eq!(exec.step(Event::Committed), Action::Finish(Ok(())));
    assert!(matches!(exec.phase(), Phase::Finished(Ok(()))));
}

#[test]
fn single_exact_partition_is_staged_then_committed() {
    let plan = gpt_plan(vec![part("root", PartitionSizeType::ExactSize, Some(10), Some(30), None)]);
    let mut exec = labelled(plan);
    assert_eq!(exec.action(), Action::ReadView);
    assert_eq!(
        exec.step(Event::ViewRead(fresh_view())),
        Action::AddPartition(Geometry { start: 10, end: 30 })
    );
    assert_eq!(exec.step(Event::PartitionAdded), Action::Commit);
    assert_eq!(exec.step(Event::Committed), Action::Finish(Ok(())));
    assert_eq!(exec.plan().partitions[0].name, "root");
}

#[test]
fn sequential_sector_offsets_do_not_overlap() {
    let plan = gpt_plan(vec![
        part("a", PartitionSizeType::NextAvailablePlusOffsetSectors, None, None, Some(100)),
        part("b", PartitionSizeType::NextAvailablePlusOffsetSectors, None, None, Some(100)),
    ]);
    let mut exec = labelled(plan);
    let first = match exec.step(Event::ViewRead(fresh_view())) {
        Action::AddPartition(g) => g,
        other => panic!("unexpected action {:?}", other),
    };
    assert_eq!(first, Geometry { start: 34, end: 134 });
    assert_eq!(exec.step(Event::PartitionAdded), Action::ReadView);
    let after_first = DiskView {
        entries: vec![
            entry("metadata", 0, 33),
            entry("primary", 34, 134),
            entry("free", 135, 102366),
            entry("metadata", 102367, 102400),
        ],
        total_sectors: 102401,
        sector_size: 512,
    };
    let second = match exec.step(Event::ViewRead(after_first)) {
        Action::AddPartition(g) => g,
        other => panic!("unexpected action {:?}", other),
    };
    assert_eq!(second, Geometry { start: 135, end: 235 });
    assert!(second.start >= first.end);
    assert_eq!(exec.step(Event::PartitionAdded), Action::Commit);
}

#[test]
fn unsupported_disk_type_stops_after_open() {
    let plan = LibpartedDevicePlan { disk_type: "msdos".to_string(), partitions: vec![] };
    let mut exec = PlanExecution::new(plan);
    assert_eq!(exec.step(Event::DeviceOpened), Action::Finish(Err(ExecError::UnsupportedDiskType)));
}

#[test]
fn device_open_failure() {
    let mut exec = PlanExecution::new(gpt_plan(vec![]));
    assert_eq!(exec.step(Event::DeviceOpenFailed), Action::Finish(Err(ExecError::DeviceOpenFailed)));
}

#[test]
fn table_failures() {
    let mut exec = PlanExecution::new(gpt_plan(vec![]));
    exec.step(Event::DeviceOpened);
    assert_eq!(exec.step(Event::TableTypeUnknown), Action::Finish(Err(ExecError::UnsupportedDiskType)));
    let mut exec = PlanExecution::new(gpt_plan(vec![]));
    exec.step(Event::DeviceOpened);
    assert_eq!(exec.step(Event::TableCreateFailed), Action::Finish(Err(ExecError::TableCreateFailed)));
}

#[test]
fn compile_failure_aborts_before_commit() {
    let plan = gpt_plan(vec![
        part("a", PartitionSizeType::ExactSize, Some(10), Some(30), None),
        part("b", PartitionSizeType::EntireDisk, None, None, None),
    ]);
    let mut exec = labelled(plan);
    exec.step(Event::ViewRead(fresh_view()));
    assert_eq!(exec.step(Event::PartitionAdded), Action::ReadView);
    let with_a = DiskView {
        entries: vec![entry("primary", 10, 30), entry("free", 34, 102366)],
        total_sectors: 102401,
        sector_size: 512,
    };
    assert_eq!(
        exec.step(Event::ViewRead(with_a)),
        Action::Finish(Err(ExecError::Compile(CompileError::DiskNotFresh)))
    );
}

#[test]
fn partition_failures() {
    let plan = gpt_plan(vec![part("root", PartitionSizeType::ExactSize, Some(10), Some(30), None)]);
    let mut exec = labelled(plan.clone());
    exec.step(Event::ViewRead(fresh_view()));
    assert_eq!(
        exec.step(Event::PartitionCreateFailed),
        Action::Finish(Err(ExecError::PartitionCreateFailed))
    );
    let mut exec = labelled(plan);
    exec.step(Event::ViewRead(fresh_view()));
    assert_eq!(exec.step(Event::PartitionAddFailed), Action::Finish(Err(ExecError::PartitionAddFailed)));
}

#[test]
fn commit_failure() {
    let mut exec = labelled(gpt_plan(vec![]));
    assert_eq!(exec.step(Event::CommitFailed), Action::Finish(Err(ExecError::CommitFailed)));
}

#[test]
fn unexpected_event_repeats_pending_action() {
    let mut exec = PlanExecution::new(gpt_plan(vec![]));
    assert_eq!(exec.step(Event::Committed), Action::OpenDevice);
    exec.step(Event::DeviceOpened);
    assert_eq!(exec.step(Event::PartitionAdded), Action::CreateTable);
    exec.step(Event::TableCreated);
    assert_eq!(exec.step(Event::ViewRead(fresh_view())), Action::Commit);
    exec.step(Event::Committed);
    assert_eq!(exec.step(Event::DeviceOpenFailed), Action::Finish(Ok(())));
}
