//! The values that flow decisions read and produce.

use vstd::prelude::*;

use crate::assoc::Key;
use crate::flow::outcome::FlowOutcome;
use crate::ids::{AccountID, DatasetID, FlowID, Multihash, TaskID};
use crate::time::{DateTime, TimeDelta};

verus! {

/// What a flow does to a dataset.
#[derive(Debug, Clone, Copy, PartialEq, Eq, Structural)]
pub enum DatasetFlowType {
    Ingest,
    ExecuteTransform,
    HardCompaction,
    Reset,
}

/// What a flow does to the system as a whole.
#[derive(Debug, Clone, Copy, PartialEq, Eq, Structural)]
pub enum SystemFlowType {
    GC,
}

#[derive(Debug, PartialEq, Eq)]
pub struct FlowKeyDataset {
    pub dataset_id: DatasetID,
    pub flow_type: DatasetFlowType,
}

#[derive(Debug, Clone, Copy, PartialEq, Eq, Structural)]
pub struct FlowKeySystem {
    pub flow_type: SystemFlowType,
}

/// What a flow is about. At most one flow is pending for a key.
#[derive(Debug, PartialEq, Eq)]
pub enum FlowKey {
    Dataset(FlowKeyDataset),
    System(FlowKeySystem),
}

/// A flow key, its dataset taken by its text.
pub enum FlowKeyView {
    Dataset(Seq<char>, DatasetFlowType),
    System(SystemFlowType),
}

/// When to run a flow again.
#[derive(Debug, PartialEq, Eq)]
pub enum Schedule {
    /// A fixed time after the last success
    TimeDelta(TimeDelta),
    /// At the moments that a cron expression describes
    Cron(String),
}

/// When enough input has accumulated to run a transform.
#[derive(Debug, Clone, Copy, PartialEq, Eq, Structural)]
pub struct TransformRule {
    pub min_records_to_await: u64,
    pub max_batching_interval: TimeDelta,
}

#[derive(Debug, PartialEq, Eq)]
pub struct IngestRule {
    pub fetch_uncacheable: bool,
    pub schedule_condition: Schedule,
}

#[derive(Debug, Clone, Copy, PartialEq, Eq, Structural)]
pub struct CompactionRuleFull {
    pub max_slice_size: u64,
    pub max_slice_records: u64,
    pub recursive: bool,
}

#[derive(Debug, Clone, Copy, PartialEq, Eq, Structural)]
pub struct CompactionRuleMetadataOnly {
    pub recursive: bool,
}

#[derive(Debug, Clone, Copy, PartialEq, Eq, Structural)]
pub enum CompactionRule {
    Full(CompactionRuleFull),
    MetadataOnly(CompactionRuleMetadataOnly),
}

#[derive(Debug, PartialEq, Eq)]
pub struct ResetRule {
    pub new_head_hash: Option<Multihash>,
    pub old_head_hash: Option<Multihash>,
    pub recursive: bool,
}

/// The configuration of one kind of flow of one dataset, or of the system.
#[derive(Debug, PartialEq, Eq)]
pub enum FlowConfigurationRule {
    TransformRule(TransformRule),
    CompactionRule(CompactionRule),
    IngestRule(IngestRule),
    ResetRule(ResetRule),
    Schedule(Schedule),
}

/// The configuration that a flow was started with.
#[derive(Debug, PartialEq, Eq)]
pub enum FlowConfigurationSnapshot {
    Transform(TransformRule),
    Compaction(CompactionRule),
    Ingest(IngestRule),
    Reset(ResetRule),
    Schedule(Schedule),
}

/// A configuration as it is stored.
#[derive(Debug, PartialEq, Eq)]
pub struct FlowConfiguration {
    pub flow_key: FlowKey,
    pub rule: FlowConfigurationRule,
}

#[derive(Debug, PartialEq, Eq)]
pub struct FlowResultDatasetUpdateChanged {
    pub old_head: Option<Multihash>,
    pub new_head: Multihash,
}

#[derive(Debug, PartialEq, Eq)]
pub enum FlowResultDatasetUpdate {
    Changed(FlowResultDatasetUpdateChanged),
    UpToDate,
}

/// What a successful flow has done.
#[derive(Debug, PartialEq, Eq)]
pub enum FlowResult {
    Empty,
    DatasetUpdate(FlowResultDatasetUpdate),
    DatasetCompact(Multihash),
    DatasetReset(Multihash),
}

#[derive(Debug, PartialEq, Eq)]
pub struct FlowTriggerManual {
    pub trigger_time: DateTime,
    pub initiator_account_id: AccountID,
}

#[derive(Debug, Clone, Copy, PartialEq, Eq, Structural)]
pub struct FlowTriggerAutoPolling {
    pub trigger_time: DateTime,
}

#[derive(Debug, PartialEq, Eq)]
pub struct FlowTriggerInputDatasetFlow {
    pub trigger_time: DateTime,
    pub dataset_id: DatasetID,
    pub flow_type: DatasetFlowType,
    pub flow_id: FlowID,
    pub flow_result: FlowResult,
}

/// Why a flow was started.
#[derive(Debug, PartialEq, Eq)]
pub enum FlowTrigger {
    Manual(FlowTriggerManual),
    AutoPolling(FlowTriggerAutoPolling),
    InputDatasetFlow(FlowTriggerInputDatasetFlow),
}

/// What a pending flow waits for.
#[derive(Debug, Clone, Copy, PartialEq, Eq, Structural)]
pub enum FlowStartCondition {
    Schedule(FlowStartConditionSchedule),
    Throttling(FlowStartConditionThrottling),
    Batching(FlowStartConditionBatching),
    Executor(FlowStartConditionExecutor),
}

#[derive(Debug, Clone, Copy, PartialEq, Eq, Structural)]
pub struct FlowStartConditionSchedule {
    pub wake_up_at: DateTime,
}

#[derive(Debug, Clone, Copy, PartialEq, Eq, Structural)]
pub struct FlowStartConditionThrottling {
    pub interval: TimeDelta,
    pub wake_up_at: DateTime,
    pub shifted_from: DateTime,
}

#[derive(Debug, Clone, Copy, PartialEq, Eq, Structural)]
pub struct FlowStartConditionBatching {
    pub active_transform_rule: TransformRule,
    pub batching_deadline: DateTime,
}

#[derive(Debug, Clone, Copy, PartialEq, Eq, Structural)]
pub struct FlowStartConditionExecutor {
    pub task_id: TaskID,
}

#[derive(Debug, Clone, Copy, PartialEq, Eq, Structural)]
pub enum FlowStatus {
    Waiting,
    Running,
    Finished,
}

/// What is known of a flow at the moment of a decision.
#[derive(Debug, PartialEq, Eq)]
pub struct FlowState {
    pub flow_id: FlowID,
    pub flow_key: FlowKey,
    /// The primary trigger comes first.
    pub triggers: Vec<FlowTrigger>,
    pub start_condition: Option<FlowStartCondition>,
    pub config_snapshot: Option<FlowConfigurationSnapshot>,
    pub task_ids: Vec<TaskID>,
    pub status: FlowStatus,
    pub outcome: Option<FlowOutcome>,
}

/// When flows of a key were last attempted, and when they last succeeded.
#[derive(Debug, Clone, Copy, PartialEq, Eq, Structural)]
pub struct FlowRunStats {
    pub last_success_time: Option<DateTime>,
    pub last_attempt_time: Option<DateTime>,
}

/// What a dataset has gained since some block.
#[derive(Debug, Clone, Copy, PartialEq, Eq, Structural)]
pub struct DatasetIntervalIncrement {
    pub num_records: u64,
    pub updated_watermark: Option<DateTime>,
}

/// How a task ended.
#[derive(Debug, PartialEq, Eq)]
pub enum TaskOutcome {
    Success(FlowResult),
    Failed,
    Cancelled,
}

#[derive(Debug, PartialEq, Eq)]
pub struct UpdateDataset {
    pub dataset_id: DatasetID,
    pub fetch_uncacheable: bool,
}

#[derive(Debug, PartialEq, Eq)]
pub struct HardCompactionDataset {
    pub dataset_id: DatasetID,
    pub max_slice_size: Option<u64>,
    pub max_slice_records: Option<u64>,
    pub keep_metadata_only: bool,
}

#[derive(Debug, PartialEq, Eq)]
pub struct ResetDataset {
    pub dataset_id: DatasetID,
    pub new_head_hash: Option<Multihash>,
    pub old_head_hash: Option<Multihash>,
    pub recursive: bool,
}

#[derive(Debug, PartialEq, Eq)]
pub struct Probe {
    pub dataset_id: Option<DatasetID>,
    /// How long to stay busy, in seconds
    pub busy_time: Option<u64>,
    pub end_with_outcome: Option<TaskOutcome>,
}

/// What a task executor is asked to do.
#[derive(Debug, PartialEq, Eq)]
pub enum LogicalPlan {
    UpdateDataset(UpdateDataset),
    HardCompactionDataset(HardCompactionDataset),
    Reset(ResetDataset),
    Probe(Probe),
}

/// What decides on the moment at which a triggered flow is to run.
#[derive(Debug, PartialEq, Eq)]
pub enum FlowTriggerContext {
    Unconditional,
    Scheduled(Schedule),
    Batching(TransformRule),
}

/// A flow to trigger because a flow that it depends on has succeeded.
#[derive(Debug, PartialEq, Eq)]
pub struct DownstreamDependencyFlowPlan {
    pub flow_key: FlowKey,
    pub flow_trigger_context: FlowTriggerContext,
    pub maybe_config_snapshot: Option<FlowConfigurationSnapshot>,
}

/// What the flow service has done.
#[derive(Debug, Clone, Copy, PartialEq, Eq, Structural)]
pub enum FlowServiceUpdateDetails {
    /// All configurations are in force
    Loaded,
    /// The flows of a timeslot have been scheduled
    ExecutedTimeslot,
    FlowRunning,
    FlowFinished,
}

/// News of the flow service.
#[derive(Debug, Clone, Copy, PartialEq, Eq, Structural)]
pub struct FlowServiceUpdatedMessage {
    pub update_time: DateTime,
    pub update_details: FlowServiceUpdateDetails,
}

impl View for DatasetFlowType {
    type V = DatasetFlowType;

    open spec fn view(&self) -> DatasetFlowType {
        *self
    }
}

impl View for SystemFlowType {
    type V = SystemFlowType;

    open spec fn view(&self) -> SystemFlowType {
        *self
    }
}

impl View for FlowKeyDataset {
    type V = (Seq<char>, DatasetFlowType);

    open spec fn view(&self) -> (Seq<char>, DatasetFlowType) {
        (self.dataset_id@, self.flow_type)
    }
}

impl View for FlowKey {
    type V = FlowKeyView;

    open spec fn view(&self) -> FlowKeyView {
        match self {
            FlowKey::Dataset(key) => FlowKeyView::Dataset(key.dataset_id@, key.flow_type),
            FlowKey::System(key) => FlowKeyView::System(key.flow_type),
        }
    }
}

impl Key for SystemFlowType {
    fn same(&self, other: &Self) -> (r: bool) {
        *self == *other
    }
}

impl Key for FlowKeyDataset {
    fn same(&self, other: &Self) -> (r: bool) {
        self.dataset_id.did == other.dataset_id.did && self.flow_type == other.flow_type
    }
}

impl Key for FlowKey {
    fn same(&self, other: &Self) -> (r: bool) {
        match (self, other) {
            (FlowKey::Dataset(a), FlowKey::Dataset(b)) => a.same(b),
            (FlowKey::System(a), FlowKey::System(b)) => a.flow_type == b.flow_type,
            _ => false,
        }
    }
}

impl DatasetFlowType {
    /// Every kind of dataset flow.
    pub fn all() -> (r: Vec<DatasetFlowType>)
        ensures
            r@ == all_dataset_flow_types(),
    {
        vec![
            DatasetFlowType::Ingest,
            DatasetFlowType::ExecuteTransform,
            DatasetFlowType::HardCompaction,
            DatasetFlowType::Reset,
        ]
    }
}

pub open spec fn all_dataset_flow_types() -> Seq<DatasetFlowType> {
    seq![
        DatasetFlowType::Ingest,
        DatasetFlowType::ExecuteTransform,
        DatasetFlowType::HardCompaction,
        DatasetFlowType::Reset,
    ]
}

impl CompactionRule {
    pub open spec fn spec_recursive(self) -> bool {
        match self {
            CompactionRule::Full(rule) => rule.recursive,
            CompactionRule::MetadataOnly(rule) => rule.recursive,
        }
    }

    pub open spec fn spec_max_slice_size(self) -> Option<u64> {
        match self {
            CompactionRule::Full(rule) => Some(rule.max_slice_size),
            CompactionRule::MetadataOnly(_) => None,
        }
    }

    pub open spec fn spec_max_slice_records(self) -> Option<u64> {
        match self {
            CompactionRule::Full(rule) => Some(rule.max_slice_records),
            CompactionRule::MetadataOnly(_) => None,
        }
    }

    pub fn recursive(&self) -> (r: bool)
        ensures
            r == self.spec_recursive(),
    {
        match self {
            CompactionRule::Full(rule) => rule.recursive,
            CompactionRule::MetadataOnly(rule) => rule.recursive,
        }
    }

    /// The slice size limit, where slices are rewritten at all.
    pub fn max_slice_size(&self) -> (r: Option<u64>)
        ensures
            r == self.spec_max_slice_size(),
    {
        match self {
            CompactionRule::Full(rule) => Some(rule.max_slice_size),
            CompactionRule::MetadataOnly(_) => None,
        }
    }

    /// The record count limit, where slices are rewritten at all.
    pub fn max_slice_records(&self) -> (r: Option<u64>)
        ensures
            r == self.spec_max_slice_records(),
    {
        match self {
            CompactionRule::Full(rule) => Some(rule.max_slice_records),
            CompactionRule::MetadataOnly(_) => None,
        }
    }
}

impl FlowTrigger {
    pub open spec fn spec_trigger_time(self) -> DateTime {
        match self {
            FlowTrigger::Manual(t) => t.trigger_time,
            FlowTrigger::AutoPolling(t) => t.trigger_time,
            FlowTrigger::InputDatasetFlow(t) => t.trigger_time,
        }
    }

    pub fn trigger_time(&self) -> (r: DateTime)
        ensures
            r == self.spec_trigger_time(),
    {
        match self {
            FlowTrigger::Manual(t) => t.trigger_time,
            FlowTrigger::AutoPolling(t) => t.trigger_time,
            FlowTrigger::InputDatasetFlow(t) => t.trigger_time,
        }
    }
}

impl TaskOutcome {
    pub fn is_success(&self) -> (r: bool)
        ensures
            r == (self is Success),
    {
        match self {
            TaskOutcome::Success(_) => true,
            _ => false,
        }
    }
}

impl FlowConfigurationRule {
    /// The snapshot that a flow started under this rule carries.
    pub open spec fn spec_snapshot(self) -> FlowConfigurationSnapshot {
        match self {
            FlowConfigurationRule::TransformRule(r) => FlowConfigurationSnapshot::Transform(r),
            FlowConfigurationRule::CompactionRule(r) => FlowConfigurationSnapshot::Compaction(r),
            FlowConfigurationRule::IngestRule(r) => FlowConfigurationSnapshot::Ingest(r),
            FlowConfigurationRule::ResetRule(r) => FlowConfigurationSnapshot::Reset(r),
            FlowConfigurationRule::Schedule(r) => FlowConfigurationSnapshot::Schedule(r),
        }
    }

    pub fn snapshot(&self) -> (r: FlowConfigurationSnapshot)
        ensures
            r == self.spec_snapshot(),
    {
        match self {
            FlowConfigurationRule::TransformRule(r) => FlowConfigurationSnapshot::Transform(*r),
            FlowConfigurationRule::CompactionRule(r) => FlowConfigurationSnapshot::Compaction(*r),
            FlowConfigurationRule::IngestRule(r) => FlowConfigurationSnapshot::Ingest(r.clone()),
            FlowConfigurationRule::ResetRule(r) => FlowConfigurationSnapshot::Reset(r.clone()),
            FlowConfigurationRule::Schedule(r) => FlowConfigurationSnapshot::Schedule(r.clone()),
        }
    }
}

impl Clone for Schedule {
    fn clone(&self) -> (r: Self)
        ensures
            r == *self,
    {
        match self {
            Schedule::TimeDelta(d) => Schedule::TimeDelta(*d),
            Schedule::Cron(s) => Schedule::Cron(s.clone()),
        }
    }
}

impl Clone for IngestRule {
    fn clone(&self) -> (r: Self)
        ensures
            r == *self,
    {
        IngestRule {
            fetch_uncacheable: self.fetch_uncacheable,
            schedule_condition: self.schedule_condition.clone(),
        }
    }
}

impl Clone for ResetRule {
    fn clone(&self) -> (r: Self)
        ensures
            r == *self,
    {
        ResetRule {
            new_head_hash: self.new_head_hash.clone(),
            old_head_hash: self.old_head_hash.clone(),
            recursive: self.recursive,
        }
    }
}

impl Clone for FlowConfigurationRule {
    fn clone(&self) -> (r: Self)
        ensures
            r == *self,
    {
        match self {
            FlowConfigurationRule::TransformRule(r) => FlowConfigurationRule::TransformRule(*r),
            FlowConfigurationRule::CompactionRule(r) => FlowConfigurationRule::CompactionRule(*r),
            FlowConfigurationRule::IngestRule(r) => FlowConfigurationRule::IngestRule(r.clone()),
            FlowConfigurationRule::ResetRule(r) => FlowConfigurationRule::ResetRule(r.clone()),
            FlowConfigurationRule::Schedule(r) => FlowConfigurationRule::Schedule(r.clone()),
        }
    }
}

impl Clone for FlowConfigurationSnapshot {
    fn clone(&self) -> (r: Self)
        ensures
            r == *self,
    {
        match self {
            FlowConfigurationSnapshot::Transform(r) => FlowConfigurationSnapshot::Transform(*r),
            FlowConfigurationSnapshot::Compaction(r) => FlowConfigurationSnapshot::Compaction(*r),
            FlowConfigurationSnapshot::Ingest(r) => FlowConfigurationSnapshot::Ingest(r.clone()),
            FlowConfigurationSnapshot::Reset(r) => FlowConfigurationSnapshot::Reset(r.clone()),
            FlowConfigurationSnapshot::Schedule(r) => FlowConfigurationSnapshot::Schedule(
                r.clone(),
            ),
        }
    }
}

impl Clone for FlowConfiguration {
    fn clone(&self) -> (r: Self)
        ensures
            r == *self,
    {
        FlowConfiguration { flow_key: self.flow_key.clone(), rule: self.rule.clone() }
    }
}

impl Clone for FlowKeyDataset {
    fn clone(&self) -> (r: Self)
        ensures
            r == *self,
    {
        FlowKeyDataset { dataset_id: self.dataset_id.clone(), flow_type: self.flow_type }
    }
}

impl Clone for FlowKey {
    fn clone(&self) -> (r: Self)
        ensures
            r == *self,
    {
        match self {
            FlowKey::Dataset(key) => FlowKey::Dataset(key.clone()),
            FlowKey::System(key) => FlowKey::System(*key),
        }
    }
}

impl Clone for FlowResultDatasetUpdate {
    fn clone(&self) -> (r: Self)
        ensures
            r == *self,
    {
        match self {
            FlowResultDatasetUpdate::Changed(c) => FlowResultDatasetUpdate::Changed(
                FlowResultDatasetUpdateChanged {
                    old_head: c.old_head.clone(),
                    new_head: c.new_head.clone(),
                },
            ),
            FlowResultDatasetUpdate::UpToDate => FlowResultDatasetUpdate::UpToDate,
        }
    }
}

impl Clone for FlowResult {
    fn clone(&self) -> (r: Self)
        ensures
            r == *self,
    {
        match self {
            FlowResult::Empty => FlowResult::Empty,
            FlowResult::DatasetUpdate(u) => FlowResult::DatasetUpdate(u.clone()),
            FlowResult::DatasetCompact(h) => FlowResult::DatasetCompact(h.clone()),
            FlowResult::DatasetReset(h) => FlowResult::DatasetReset(h.clone()),
        }
    }
}

impl Clone for FlowTrigger {
    fn clone(&self) -> (r: Self)
        ensures
            r == *self,
    {
        match self {
            FlowTrigger::Manual(t) => FlowTrigger::Manual(
                FlowTriggerManual {
                    trigger_time: t.trigger_time,
                    initiator_account_id: t.initiator_account_id.clone(),
                },
            ),
            FlowTrigger::AutoPolling(t) => FlowTrigger::AutoPolling(*t),
            FlowTrigger::InputDatasetFlow(t) => FlowTrigger::InputDatasetFlow(
                FlowTriggerInputDatasetFlow {
                    trigger_time: t.trigger_time,
                    dataset_id: t.dataset_id.clone(),
                    flow_type: t.flow_type,
                    flow_id: t.flow_id,
                    flow_result: t.flow_result.clone(),
                },
            ),
        }
    }
}

/// A snapshot holds the very rule that it was taken of, under the kind of that rule.
pub proof fn law_snapshot_keeps_the_rule(rule: FlowConfigurationRule)
    ensures
        rule matches FlowConfigurationRule::TransformRule(r) ==> rule.spec_snapshot()
            == FlowConfigurationSnapshot::Transform(r),
        rule matches FlowConfigurationRule::CompactionRule(r) ==> rule.spec_snapshot()
            == FlowConfigurationSnapshot::Compaction(r),
        rule matches FlowConfigurationRule::IngestRule(r) ==> rule.spec_snapshot()
            == FlowConfigurationSnapshot::Ingest(r),
        rule matches FlowConfigurationRule::ResetRule(r) ==> rule.spec_snapshot()
            == FlowConfigurationSnapshot::Reset(r),
        rule matches FlowConfigurationRule::Schedule(r) ==> rule.spec_snapshot()
            == FlowConfigurationSnapshot::Schedule(r),
{
}

/// A full compaction has the limits of its rule, and one of metadata none; either goes on
/// recursively where its rule says so.
pub proof fn law_compaction_limits(full: CompactionRuleFull, metadata: CompactionRuleMetadataOnly)
    ensures
        CompactionRule::Full(full).spec_max_slice_size() == Some(full.max_slice_size),
        CompactionRule::Full(full).spec_max_slice_records() == Some(full.max_slice_records),
        CompactionRule::Full(full).spec_recursive() == full.recursive,
        CompactionRule::MetadataOnly(metadata).spec_max_slice_size() is None,
        CompactionRule::MetadataOnly(metadata).spec_max_slice_records() is None,
        CompactionRule::MetadataOnly(metadata).spec_recursive() == metadata.recursive,
{
}

/// Every kind of dataset flow is listed, and none twice.
pub proof fn law_kinds_are_listed_once(kind: DatasetFlowType)
    ensures
        all_dataset_flow_types().contains(kind),
        all_dataset_flow_types().no_duplicates(),
{
    let all = all_dataset_flow_types();
    match kind {
        DatasetFlowType::Ingest => assert(all[0] == kind),
        DatasetFlowType::ExecuteTransform => assert(all[1] == kind),
        DatasetFlowType::HardCompaction => assert(all[2] == kind),
        DatasetFlowType::Reset => assert(all[3] == kind),
    }
}

} // verus!
