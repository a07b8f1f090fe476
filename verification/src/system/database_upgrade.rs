//! The database upgrade: how a preflight is classified, what the runner
//! does after it, the steps of an upgrade in order, the names of the
//! stages, and the results and messages a run reports.

use vstd::prelude::*;

use crate::numbers::{decimal_i64, decimal_text};

verus! {

/// Databases below this schema version get the legacy migration tasks.
pub const LEGACY_SCHEMA_VERSION: i64 = 16;

pub const COPRESENCE_DURATION_REPAIR_KEY: &'static str = "copresenceDurationRepairV1Done";

#[derive(Clone, Copy, Debug, PartialEq, Eq, Structural)]
pub enum DatabaseUpgradePreflightStatus {
    Current,
    UpgradeRequired,
    Running,
    Finished,
    Blocked,
    NewerSchema,
}

#[derive(Clone, Copy, Debug, PartialEq, Eq, Structural)]
pub enum DatabaseUpgradeRunStatus {
    Current,
    Upgraded,
    Blocked,
    NewerSchema,
    Failed,
}

#[derive(Clone, Copy, Debug, PartialEq, Eq, Structural)]
pub enum DatabaseUpgradeStage {
    Preflight,
    PrepareLegacySnapshot,
    PrepareLegacyConfiguration,
    FinalizeLegacyMigration,
    InitializeSchema,
    CreateWorkCopy,
    LegacySchemaMigration,
    LegacyPerformanceIndexes,
    GlobalPerformanceIndexes,
    NotificationPerformanceIndexes,
    SchemaMigrations,
    Optimize,
    WriteVersion,
    Commit,
}

/// Where an upgrade is, with its units of work where the stage counts them.
#[derive(Clone, Copy, Debug, PartialEq, Eq, Structural)]
pub struct DatabaseUpgradeProgress {
    pub stage: DatabaseUpgradeStage,
    pub completed_units: Option<u64>,
    pub total_units: Option<u64>,
}

impl DatabaseUpgradeProgress {
    pub fn indeterminate(stage: DatabaseUpgradeStage) -> (r: Self)
        ensures
            r == (DatabaseUpgradeProgress { stage, completed_units: None, total_units: None }),
    {
        DatabaseUpgradeProgress { stage, completed_units: None, total_units: None }
    }

    pub fn determinate(stage: DatabaseUpgradeStage, completed_units: u64, total_units: u64) -> (r:
        Self)
        ensures
            r == (DatabaseUpgradeProgress {
                stage,
                completed_units: Some(completed_units),
                total_units: Some(total_units),
            }),
    {
        DatabaseUpgradeProgress {
            stage,
            completed_units: Some(completed_units),
            total_units: Some(total_units),
        }
    }
}

/// What the migration preview says of the schema migrations.
#[derive(Clone, Copy, Debug, PartialEq, Eq, Structural)]
pub enum PreviewStatus {
    Current,
    Pending,
    NewerSchema,
}

/// The preflight of a database without a failed upgrade: newer than this
/// application (by its schema version or its migrations), in need of an
/// upgrade, or current; with the versions it reports.
pub open spec fn classified(
    schema_version: i64,
    supported_version: i64,
    preview: PreviewStatus,
    current_version: i64,
    target_version: i64,
) -> (DatabaseUpgradePreflightStatus, i64, i64) {
    if schema_version > supported_version {
        (DatabaseUpgradePreflightStatus::NewerSchema, schema_version, supported_version)
    } else if preview == PreviewStatus::NewerSchema {
        (DatabaseUpgradePreflightStatus::NewerSchema, current_version, target_version)
    } else if schema_version < supported_version || preview == PreviewStatus::Pending {
        (DatabaseUpgradePreflightStatus::UpgradeRequired, current_version, target_version)
    } else {
        (DatabaseUpgradePreflightStatus::Current, current_version, target_version)
    }
}

pub fn classify_preflight(
    schema_version: i64,
    supported_version: i64,
    preview: PreviewStatus,
    current_version: i64,
    target_version: i64,
) -> (r: (DatabaseUpgradePreflightStatus, i64, i64))
    ensures
        r == classified(schema_version, supported_version, preview, current_version, target_version),
{
    if schema_version > supported_version {
        (DatabaseUpgradePreflightStatus::NewerSchema, schema_version, supported_version)
    } else if preview == PreviewStatus::NewerSchema {
        (DatabaseUpgradePreflightStatus::NewerSchema, current_version, target_version)
    } else if schema_version < supported_version || preview == PreviewStatus::Pending {
        (DatabaseUpgradePreflightStatus::UpgradeRequired, current_version, target_version)
    } else {
        (DatabaseUpgradePreflightStatus::Current, current_version, target_version)
    }
}

/// The wire name of a stage.
pub open spec fn stage_name(stage: DatabaseUpgradeStage) -> Seq<char> {
    match stage {
        DatabaseUpgradeStage::Preflight => "preflight"@,
        DatabaseUpgradeStage::PrepareLegacySnapshot => "prepareLegacySnapshot"@,
        DatabaseUpgradeStage::PrepareLegacyConfiguration => "prepareLegacyConfiguration"@,
        DatabaseUpgradeStage::FinalizeLegacyMigration => "finalizeLegacyMigration"@,
        DatabaseUpgradeStage::InitializeSchema => "initializeSchema"@,
        DatabaseUpgradeStage::CreateWorkCopy => "createWorkCopy"@,
        DatabaseUpgradeStage::LegacySchemaMigration => "legacySchemaMigration"@,
        DatabaseUpgradeStage::LegacyPerformanceIndexes => "legacyPerformanceIndexes"@,
        DatabaseUpgradeStage::GlobalPerformanceIndexes => "globalPerformanceIndexes"@,
        DatabaseUpgradeStage::NotificationPerformanceIndexes => "notificationPerformanceIndexes"@,
        DatabaseUpgradeStage::SchemaMigrations => "schemaMigrations"@,
        DatabaseUpgradeStage::Optimize => "optimize"@,
        DatabaseUpgradeStage::WriteVersion => "writeVersion"@,
        DatabaseUpgradeStage::Commit => "commit"@,
    }
}

pub fn stage_label(stage: DatabaseUpgradeStage) -> (r: String)
    ensures
        r@ == stage_name(stage),
{
    let s = match stage {
        DatabaseUpgradeStage::Preflight => "preflight",
        DatabaseUpgradeStage::PrepareLegacySnapshot => "prepareLegacySnapshot",
        DatabaseUpgradeStage::PrepareLegacyConfiguration => "prepareLegacyConfiguration",
        DatabaseUpgradeStage::FinalizeLegacyMigration => "finalizeLegacyMigration",
        DatabaseUpgradeStage::InitializeSchema => "initializeSchema",
        DatabaseUpgradeStage::CreateWorkCopy => "createWorkCopy",
        DatabaseUpgradeStage::LegacySchemaMigration => "legacySchemaMigration",
        DatabaseUpgradeStage::LegacyPerformanceIndexes => "legacyPerformanceIndexes",
        DatabaseUpgradeStage::GlobalPerformanceIndexes => "globalPerformanceIndexes",
        DatabaseUpgradeStage::NotificationPerformanceIndexes => "notificationPerformanceIndexes",
        DatabaseUpgradeStage::SchemaMigrations => "schemaMigrations",
        DatabaseUpgradeStage::Optimize => "optimize",
        DatabaseUpgradeStage::WriteVersion => "writeVersion",
        DatabaseUpgradeStage::Commit => "commit",
    };
    s.to_string()
}

/// Whether an upgrade from this schema version runs the legacy migration
/// tasks.
pub fn needs_legacy_migration(schema_version: i64) -> (r: bool)
    ensures
        r == (schema_version < LEGACY_SCHEMA_VERSION),
{
    schema_version < LEGACY_SCHEMA_VERSION
}

/// The operation name recorded for a maintenance task.
pub fn maintenance_operation(task: &str) -> (r: String)
    ensures
        r@ == "database_maintenance_run:"@ + task@,
{
    let mut r = "database_maintenance_run:".to_string();
    r.append(task);
    r
}

/// The error of a database newer than this application.
pub fn newer_schema_message(from_version: i64, to_version: i64) -> (r: String)
    ensures
        r@ == "Database version "@ + decimal_text(from_version as int)
            + " is newer than this application supports ("@ + decimal_text(to_version as int)
            + ")."@,
{
    let mut r = "Database version ".to_string();
    let from = decimal_i64(from_version);
    r.append(from.as_str());
    r.append(" is newer than this application supports (");
    let to = decimal_i64(to_version);
    r.append(to.as_str());
    r.append(").");
    r
}

/// The error a failed run reports: the failure, then what went wrong while
/// keeping the work copy, then what went wrong reading the upgrade status.
pub fn failure_message(reason: &str, recovery_error: Option<&str>, status_error: Option<&str>) -> (r:
    String)
    ensures
        r@ == reason@ + match recovery_error {
            Some(e) => " Failed to preserve the database upgrade work copy: "@ + e@,
            None => Seq::<char>::empty(),
        } + match status_error {
            Some(e) => " Failed to read database upgrade status: "@ + e@,
            None => Seq::<char>::empty(),
        },
{
    let mut r = reason.to_string();
    match recovery_error {
        Some(e) => {
            r.append(" Failed to preserve the database upgrade work copy: ");
            r.append(e);
        },
        None => {},
    }
    match status_error {
        Some(e) => {
            r.append(" Failed to read database upgrade status: ");
            r.append(e);
        },
        None => {},
    }
    r
}

/// Whether a finished run goes on to the one-time copresence repair.
pub fn runs_copresence_repair(status: DatabaseUpgradeRunStatus) -> (r: bool)
    ensures
        r == (status == DatabaseUpgradeRunStatus::Current || status
            == DatabaseUpgradeRunStatus::Upgraded),
{
    match status {
        DatabaseUpgradeRunStatus::Current => true,
        DatabaseUpgradeRunStatus::Upgraded => true,
        _ => false,
    }
}

// ---------------------------------------------------------------------------
// The run

/// A failed upgrade that the database keeps until it is resolved.
#[derive(Clone, Debug)]
pub struct DatabaseUpgradeStatus {
    pub from_version: i64,
    pub to_version: i64,
    pub reason: Option<String>,
    pub app_version: Option<String>,
}

#[derive(Clone, Debug)]
pub struct DatabaseUpgradeRunResult {
    pub status: DatabaseUpgradeRunStatus,
    pub from_version: i64,
    pub to_version: i64,
    pub failed_stage: Option<DatabaseUpgradeStage>,
    pub error: Option<String>,
    pub failed_upgrade: Option<DatabaseUpgradeStatus>,
    pub repair_warning: Option<String>,
}

pub const PREFLIGHT_OPERATION: &'static str = "database_upgrade_preflight";

pub const BLOCKED_WITHOUT_STATUS_MESSAGE: &'static str =
    "Blocked database upgrade has no failure status.";

pub const RUNTIME_STATE_MESSAGE: &'static str =
    "Runtime-only database upgrade state reached the static runner.";

/// What the runner does once the preflight is known.
#[derive(Debug)]
pub enum PreflightDecision {
    /// The run ends here with this result.
    Finish(DatabaseUpgradeRunResult),
    /// The schema is current: make sure its tables exist, then report it
    /// current.
    EnsureSchema,
    /// Run the upgrade steps.
    Upgrade,
    /// The run fails in the preflight stage, before any upgrade began.
    Fail(String),
}

pub fn preflight_decision(
    status: DatabaseUpgradePreflightStatus,
    from_version: i64,
    to_version: i64,
    failed_upgrade: Option<DatabaseUpgradeStatus>,
) -> (r: PreflightDecision)
    ensures
        match status {
            DatabaseUpgradePreflightStatus::Blocked => match failed_upgrade {
                Some(f) => r matches PreflightDecision::Finish(res) && res.status
                    == DatabaseUpgradeRunStatus::Blocked && res.from_version == f.from_version
                    && res.to_version == f.to_version && res.failed_stage is None && res.error
                    == f.reason && res.failed_upgrade == Some(f) && res.repair_warning is None,
                None => r matches PreflightDecision::Fail(m) && m@ == BLOCKED_WITHOUT_STATUS_MESSAGE@,
            },
            DatabaseUpgradePreflightStatus::NewerSchema => r matches PreflightDecision::Finish(res)
                && res.status == DatabaseUpgradeRunStatus::NewerSchema && res.from_version
                == from_version && res.to_version == to_version && res.failed_stage is None
                && (res.error matches Some(e) && e@ == "Database version "@ + decimal_text(
                from_version as int,
            ) + " is newer than this application supports ("@ + decimal_text(to_version as int)
                + ")."@) && res.failed_upgrade is None && res.repair_warning is None,
            DatabaseUpgradePreflightStatus::Current => r is EnsureSchema,
            DatabaseUpgradePreflightStatus::UpgradeRequired => r is Upgrade,
            _ => r matches PreflightDecision::Fail(m) && m@ == RUNTIME_STATE_MESSAGE@,
        },
{
    match status {
        DatabaseUpgradePreflightStatus::Blocked => match failed_upgrade {
            Some(f) => {
                let error = f.reason.clone();
                PreflightDecision::Finish(
                    DatabaseUpgradeRunResult {
                        status: DatabaseUpgradeRunStatus::Blocked,
                        from_version: f.from_version,
                        to_version: f.to_version,
                        failed_stage: None,
                        error,
                        failed_upgrade: Some(f),
                        repair_warning: None,
                    },
                )
            },
            None => PreflightDecision::Fail(BLOCKED_WITHOUT_STATUS_MESSAGE.to_string()),
        },
        DatabaseUpgradePreflightStatus::NewerSchema => PreflightDecision::Finish(
            DatabaseUpgradeRunResult {
                status: DatabaseUpgradeRunStatus::NewerSchema,
                from_version,
                to_version,
                failed_stage: None,
                error: Some(newer_schema_message(from_version, to_version)),
                failed_upgrade: None,
                repair_warning: None,
            },
        ),
        DatabaseUpgradePreflightStatus::Current => PreflightDecision::EnsureSchema,
        DatabaseUpgradePreflightStatus::UpgradeRequired => PreflightDecision::Upgrade,
        _ => PreflightDecision::Fail(RUNTIME_STATE_MESSAGE.to_string()),
    }
}

/// A maintenance task of the database.
#[derive(Clone, Copy, Debug, PartialEq, Eq, Structural)]
pub enum DatabaseMaintenanceTask {
    CleanLegendFromFriendLog,
    FixGameLogTraveling,
    FixNegativeGPS,
    FixBrokenLeaveEntries,
    FixBrokenGroupInvites,
    FixBrokenNotifications,
    FixBrokenGroupChange,
    FixCancelFriendRequestTypo,
    FixBrokenGameLogDisplayNames,
    UpdateTableForGroupNames,
    AddFriendLogFriendNumber,
    UpdateTableForAvatarHistory,
    AddLegacyPerformanceIndexes,
    AddV17GlobalPerformanceIndexes,
    AddNotificationPerformanceIndexes,
    Optimize,
    RepairZeroCopresenceDurations,
}

/// What one step of an upgrade does.
#[derive(Clone, Copy, Debug, PartialEq, Eq, Structural)]
pub enum UpgradeAction {
    /// Copy the database to the work copy the upgrade runs on.
    BeginWorkCopy,
    /// Create the tables the application needs.
    EnsureSchema,
    /// A maintenance task whose failure fails the upgrade.
    RequiredTask(DatabaseMaintenanceTask),
    /// A maintenance task whose failure is only logged.
    OptionalTask(DatabaseMaintenanceTask),
    /// Apply the pending schema migrations.
    SchemaMigrations,
    /// Write the new schema version.
    WriteVersion,
    /// Replace the database with the work copy.
    Commit,
}

/// A step of an upgrade: the stage it reports and what it does. A step
/// that `reports` tells the listener its stage; the others only record
/// where the upgrade is.
#[derive(Clone, Copy, Debug, PartialEq, Eq, Structural)]
pub struct UpgradeStep {
    pub stage: DatabaseUpgradeStage,
    pub action: UpgradeAction,
    pub reports: bool,
}

/// The legacy data cleanup tasks, then the legacy schema tasks, in the
/// order they run.
pub open spec fn legacy_tasks() -> Seq<DatabaseMaintenanceTask> {
    seq![
        DatabaseMaintenanceTask::CleanLegendFromFriendLog,
        DatabaseMaintenanceTask::FixGameLogTraveling,
        DatabaseMaintenanceTask::FixNegativeGPS,
        DatabaseMaintenanceTask::FixBrokenLeaveEntries,
        DatabaseMaintenanceTask::FixBrokenGroupInvites,
        DatabaseMaintenanceTask::FixBrokenNotifications,
        DatabaseMaintenanceTask::FixBrokenGroupChange,
        DatabaseMaintenanceTask::FixCancelFriendRequestTypo,
        DatabaseMaintenanceTask::FixBrokenGameLogDisplayNames,
        DatabaseMaintenanceTask::UpdateTableForGroupNames,
        DatabaseMaintenanceTask::AddFriendLogFriendNumber,
        DatabaseMaintenanceTask::UpdateTableForAvatarHistory,
    ]
}

pub open spec fn step(stage: DatabaseUpgradeStage, action: UpgradeAction, reports: bool) -> UpgradeStep {
    UpgradeStep { stage, action, reports }
}

/// The legacy tasks as steps of the legacy stage, reported once.
pub open spec fn legacy_steps() -> Seq<UpgradeStep> {
    Seq::new(
        legacy_tasks().len(),
        |i: int|
            step(
                DatabaseUpgradeStage::LegacySchemaMigration,
                UpgradeAction::RequiredTask(legacy_tasks()[i]),
                i == 0,
            ),
    )
}

/// The steps of an upgrade from `schema_version`, in order.
pub open spec fn upgrade_plan(schema_version: i64) -> Seq<UpgradeStep> {
    seq![
        step(DatabaseUpgradeStage::CreateWorkCopy, UpgradeAction::BeginWorkCopy, true),
        step(DatabaseUpgradeStage::InitializeSchema, UpgradeAction::EnsureSchema, true),
    ] + (if schema_version < LEGACY_SCHEMA_VERSION {
        legacy_steps()
    } else {
        Seq::empty()
    }) + seq![
        step(
            DatabaseUpgradeStage::LegacyPerformanceIndexes,
            UpgradeAction::RequiredTask(DatabaseMaintenanceTask::AddLegacyPerformanceIndexes),
            true,
        ),
        step(
            DatabaseUpgradeStage::GlobalPerformanceIndexes,
            UpgradeAction::RequiredTask(DatabaseMaintenanceTask::AddV17GlobalPerformanceIndexes),
            true,
        ),
        step(
            DatabaseUpgradeStage::NotificationPerformanceIndexes,
            UpgradeAction::RequiredTask(DatabaseMaintenanceTask::AddNotificationPerformanceIndexes),
            true,
        ),
        step(DatabaseUpgradeStage::SchemaMigrations, UpgradeAction::SchemaMigrations, true),
        step(
            DatabaseUpgradeStage::Optimize,
            UpgradeAction::OptionalTask(DatabaseMaintenanceTask::Optimize),
            true,
        ),
        step(DatabaseUpgradeStage::WriteVersion, UpgradeAction::WriteVersion, true),
        step(DatabaseUpgradeStage::Commit, UpgradeAction::Commit, true),
    ]
}

fn push_step(
    steps: &mut Vec<UpgradeStep>,
    stage: DatabaseUpgradeStage,
    action: UpgradeAction,
    reports: bool,
)
    ensures
        final(steps)@ == old(steps)@.push(step(stage, action, reports)),
{
    steps.push(UpgradeStep { stage, action, reports });
}

pub fn upgrade_steps(schema_version: i64) -> (r: Vec<UpgradeStep>)
    ensures
        r@ == upgrade_plan(schema_version),
{
    let mut steps: Vec<UpgradeStep> = Vec::new();
    push_step(&mut steps, DatabaseUpgradeStage::CreateWorkCopy, UpgradeAction::BeginWorkCopy, true);
    push_step(&mut steps, DatabaseUpgradeStage::InitializeSchema, UpgradeAction::EnsureSchema, true);
    let ghost head = steps@;
    if needs_legacy_migration(schema_version) {
        let tasks = vec![
            DatabaseMaintenanceTask::CleanLegendFromFriendLog,
            DatabaseMaintenanceTask::FixGameLogTraveling,
            DatabaseMaintenanceTask::FixNegativeGPS,
            DatabaseMaintenanceTask::FixBrokenLeaveEntries,
            DatabaseMaintenanceTask::FixBrokenGroupInvites,
            DatabaseMaintenanceTask::FixBrokenNotifications,
            DatabaseMaintenanceTask::FixBrokenGroupChange,
            DatabaseMaintenanceTask::FixCancelFriendRequestTypo,
            DatabaseMaintenanceTask::FixBrokenGameLogDisplayNames,
            DatabaseMaintenanceTask::UpdateTableForGroupNames,
            DatabaseMaintenanceTask::AddFriendLogFriendNumber,
            DatabaseMaintenanceTask::UpdateTableForAvatarHistory,
        ];
        assert(tasks@ =~= legacy_tasks());
        let mut i: usize = 0;
        while i < tasks.len()
            invariant
                i <= tasks.len(),
                tasks@ == legacy_tasks(),
                steps@ == head + legacy_steps().take(i as int),
            decreases tasks.len() - i,
        {
            push_step(
                &mut steps,
                DatabaseUpgradeStage::LegacySchemaMigration,
                UpgradeAction::RequiredTask(tasks[i]),
                i == 0,
            );
            assert(legacy_steps().take(i + 1) =~= legacy_steps().take(i as int).push(
                legacy_steps()[i as int],
            ));
            i = i + 1;
        }
        assert(legacy_steps().take(tasks.len() as int) =~= legacy_steps());
    } else {
        assert(head + Seq::<UpgradeStep>::empty() =~= head);
    }
    let ghost middle = steps@;
    push_step(
        &mut steps,
        DatabaseUpgradeStage::LegacyPerformanceIndexes,
        UpgradeAction::RequiredTask(DatabaseMaintenanceTask::AddLegacyPerformanceIndexes),
        true,
    );
    push_step(
        &mut steps,
        DatabaseUpgradeStage::GlobalPerformanceIndexes,
        UpgradeAction::RequiredTask(DatabaseMaintenanceTask::AddV17GlobalPerformanceIndexes),
        true,
    );
    push_step(
        &mut steps,
        DatabaseUpgradeStage::NotificationPerformanceIndexes,
        UpgradeAction::RequiredTask(DatabaseMaintenanceTask::AddNotificationPerformanceIndexes),
        true,
    );
    push_step(&mut steps, DatabaseUpgradeStage::SchemaMigrations, UpgradeAction::SchemaMigrations, true);
    push_step(
        &mut steps,
        DatabaseUpgradeStage::Optimize,
        UpgradeAction::OptionalTask(DatabaseMaintenanceTask::Optimize),
        true,
    );
    push_step(&mut steps, DatabaseUpgradeStage::WriteVersion, UpgradeAction::WriteVersion, true);
    push_step(&mut steps, DatabaseUpgradeStage::Commit, UpgradeAction::Commit, true);
    assert(steps@ =~= upgrade_plan(schema_version));
    steps
}

/// A run that failed: where, doing what, and whether the upgrade had begun
/// (so that its work copy must be kept).
#[derive(Clone, Debug)]
pub struct UpgradeFailure {
    pub from_version: i64,
    pub stage: DatabaseUpgradeStage,
    pub operation: String,
    pub error: String,
    pub upgrade_started: bool,
}

/// The result of a failed run. `recovery_error` is what went wrong keeping
/// the work copy, for an upgrade that had begun; `status` is the failed
/// upgrade read back afterwards, or why it could not be read.
pub fn failed_run_result(
    failure: &UpgradeFailure,
    recovery_error: Option<&str>,
    status: Result<Option<DatabaseUpgradeStatus>, String>,
    target_version: i64,
) -> (r: DatabaseUpgradeRunResult)
    ensures
        r.status == DatabaseUpgradeRunStatus::Failed,
        r.from_version == failure.from_version,
        r.to_version == target_version,
        r.failed_stage == Some(failure.stage),
        r.error matches Some(e) && e@ == failure.error@ + match recovery_error {
            Some(x) => " Failed to preserve the database upgrade work copy: "@ + x@,
            None => Seq::<char>::empty(),
        } + match status {
            Err(x) => " Failed to read database upgrade status: "@ + x@,
            Ok(_) => Seq::<char>::empty(),
        },
        r.failed_upgrade == match status {
            Ok(s) => s,
            Err(_) => None,
        },
        r.repair_warning is None,
{
    let (failed_upgrade, status_error) = match status {
        Ok(s) => (s, None),
        Err(e) => (None, Some(e)),
    };
    let error = failure_message(
        failure.error.as_str(),
        recovery_error,
        match &status_error {
            Some(e) => Some(e.as_str()),
            None => None,
        },
    );
    DatabaseUpgradeRunResult {
        status: DatabaseUpgradeRunStatus::Failed,
        from_version: failure.from_version,
        to_version: target_version,
        failed_stage: Some(failure.stage),
        error: Some(error),
        failed_upgrade,
        repair_warning: None,
    }
}

/// The result of a run that left the database current or upgraded.
pub fn success_result(status: DatabaseUpgradeRunStatus, from_version: i64, target_version: i64) -> (r:
    DatabaseUpgradeRunResult)
    ensures
        r.status == status,
        r.from_version == from_version,
        r.to_version == target_version,
        r.failed_stage is None,
        r.error is None,
        r.failed_upgrade is None,
        r.repair_warning is None,
{
    DatabaseUpgradeRunResult {
        status,
        from_version,
        to_version: target_version,
        failed_stage: None,
        error: None,
        failed_upgrade: None,
        repair_warning: None,
    }
}

/// A failure in the preflight or before the work copy exists: nothing to
/// keep.
pub fn before_upgrade_failure(
    stage: DatabaseUpgradeStage,
    from_version: i64,
    operation: &str,
    error: &str,
) -> (r: UpgradeFailure)
    ensures
        r.stage == stage,
        r.from_version == from_version,
        r.operation@ == operation@,
        r.error@ == error@,
        !r.upgrade_started,
{
    UpgradeFailure {
        from_version,
        stage,
        operation: operation.to_string(),
        error: error.to_string(),
        upgrade_started: false,
    }
}

/// What a failed step of an upgrade means: an optional task's failure is
/// only logged (`None`); any other step fails the run at its stage, with
/// the work copy to keep once the step that creates it is past.
pub fn step_failure(step: UpgradeStep, from_version: i64, operation: &str, error: &str) -> (r: Option<
    UpgradeFailure,
>)
    ensures
        match step.action {
            UpgradeAction::OptionalTask(_) => r is None,
            _ => r matches Some(f) && f.stage == step.stage && f.from_version == from_version
                && f.operation@ == operation@ && f.error@ == error@ && f.upgrade_started == (
            step.action != UpgradeAction::BeginWorkCopy),
        },
{
    match step.action {
        UpgradeAction::OptionalTask(_) => None,
        UpgradeAction::BeginWorkCopy => Some(
            before_upgrade_failure(step.stage, from_version, operation, error),
        ),
        _ => Some(
            UpgradeFailure {
                from_version,
                stage: step.stage,
                operation: operation.to_string(),
                error: error.to_string(),
                upgrade_started: true,
            },
        ),
    }
}

/// What the failure log reports: the app version that started the upgrade
/// and its versions, taken from the failed upgrade the database keeps when
/// the upgrade had begun and one is kept (an empty app version counts as
/// none), else this application's version and the failure's versions.
pub fn failure_telemetry(
    failure: &UpgradeFailure,
    active_upgrade: Option<&DatabaseUpgradeStatus>,
    app_version: &str,
    target_version: i64,
) -> (r: (String, i64, i64))
    ensures
        match (if failure.upgrade_started { active_upgrade } else { None }) {
            Some(a) => {
                &&& r.0@ == match a.app_version {
                    Some(v) => if v@.len() > 0 { v@ } else { app_version@ },
                    None => app_version@,
                }
                &&& r.1 == a.from_version
                &&& r.2 == a.to_version
            },
            None => r.0@ == app_version@ && r.1 == failure.from_version && r.2 == target_version,
        },
{
    let active = if failure.upgrade_started {
        active_upgrade
    } else {
        None
    };
    match active {
        Some(a) => {
            let version = match &a.app_version {
                Some(v) => if v.as_str().is_empty() {
                    app_version.to_string()
                } else {
                    v.clone()
                },
                None => app_version.to_string(),
            };
            (version, a.from_version, a.to_version)
        },
        None => (app_version.to_string(), failure.from_version, target_version),
    }
}

/// The kinds of SQLite failure the failure log names.
#[derive(Clone, Copy, Debug, PartialEq, Eq, Structural)]
pub enum SqliteErrorCategory {
    Malformed,
    DiskFull,
    Locked,
    IoError,
}

/// The log label of a failure's SQLite kind. `sqlite` is `None` for a
/// failure that is not a SQLite error, `Some(None)` for one of no known
/// kind.
pub open spec fn sqlite_label(sqlite: Option<Option<SqliteErrorCategory>>) -> Seq<char> {
    match sqlite {
        Some(Some(SqliteErrorCategory::Malformed)) => "malformed"@,
        Some(Some(SqliteErrorCategory::DiskFull)) => "disk_full"@,
        Some(Some(SqliteErrorCategory::Locked)) => "locked"@,
        Some(Some(SqliteErrorCategory::IoError)) => "io_error"@,
        Some(None) => "unclassified"@,
        None => "none"@,
    }
}

pub fn sqlite_category_label(sqlite: Option<Option<SqliteErrorCategory>>) -> (r: &'static str)
    ensures
        r@ == sqlite_label(sqlite),
{
    proof {
        reveal_strlit("malformed");
        reveal_strlit("disk_full");
        reveal_strlit("locked");
        reveal_strlit("io_error");
        reveal_strlit("unclassified");
        reveal_strlit("none");
    }
    match sqlite {
        Some(Some(SqliteErrorCategory::Malformed)) => "malformed",
        Some(Some(SqliteErrorCategory::DiskFull)) => "disk_full",
        Some(Some(SqliteErrorCategory::Locked)) => "locked",
        Some(Some(SqliteErrorCategory::IoError)) => "io_error",
        Some(None) => "unclassified",
        None => "none",
    }
}

/// A legacy upgrade (schema version below `LEGACY_SCHEMA_VERSION`) runs,
/// right after the work copy and the schema, the legacy data cleanup tasks
/// and then the legacy schema tasks, each once, in this order, all in the
/// legacy stage, which is reported at its first step; then the index,
/// migration, optimize, version and commit steps. A current database runs no
/// legacy step at all.
pub proof fn law_legacy_upgrade_runs_each_legacy_task_once(schema_version: i64)
    ensures
        schema_version < LEGACY_SCHEMA_VERSION ==> {
            let plan = upgrade_plan(schema_version);
            &&& plan.len() == 21
            &&& forall|k: int|
                2 <= k < 14 ==> (#[trigger] plan[k]).stage == DatabaseUpgradeStage::LegacySchemaMigration
                    && plan[k].reports == (k == 2)
            &&& plan[2].action == UpgradeAction::RequiredTask(DatabaseMaintenanceTask::CleanLegendFromFriendLog)
            &&& plan[3].action == UpgradeAction::RequiredTask(DatabaseMaintenanceTask::FixGameLogTraveling)
            &&& plan[4].action == UpgradeAction::RequiredTask(DatabaseMaintenanceTask::FixNegativeGPS)
            &&& plan[5].action == UpgradeAction::RequiredTask(DatabaseMaintenanceTask::FixBrokenLeaveEntries)
            &&& plan[6].action == UpgradeAction::RequiredTask(DatabaseMaintenanceTask::FixBrokenGroupInvites)
            &&& plan[7].action == UpgradeAction::RequiredTask(DatabaseMaintenanceTask::FixBrokenNotifications)
            &&& plan[8].action == UpgradeAction::RequiredTask(DatabaseMaintenanceTask::FixBrokenGroupChange)
            &&& plan[9].action == UpgradeAction::RequiredTask(DatabaseMaintenanceTask::FixCancelFriendRequestTypo)
            &&& plan[10].action == UpgradeAction::RequiredTask(DatabaseMaintenanceTask::FixBrokenGameLogDisplayNames)
            &&& plan[11].action == UpgradeAction::RequiredTask(DatabaseMaintenanceTask::UpdateTableForGroupNames)
            &&& plan[12].action == UpgradeAction::RequiredTask(DatabaseMaintenanceTask::AddFriendLogFriendNumber)
            &&& plan[13].action == UpgradeAction::RequiredTask(DatabaseMaintenanceTask::UpdateTableForAvatarHistory)
            &&& forall|i: int, j: int|
                0 <= i < plan.len() && 0 <= j < plan.len() && i != j ==> #[trigger] plan[i].action
                    != #[trigger] plan[j].action
        },
        schema_version >= LEGACY_SCHEMA_VERSION ==> {
            let plan = upgrade_plan(schema_version);
            &&& plan.len() == 9
            &&& forall|k: int|
                0 <= k < plan.len() ==> (#[trigger] plan[k]).stage
                    != DatabaseUpgradeStage::LegacySchemaMigration
        },
{
    let plan = upgrade_plan(schema_version);
    if schema_version < LEGACY_SCHEMA_VERSION {
        assert(plan.len() == 21);
        assert forall|k: int| 2 <= k < 14 implies (#[trigger] plan[k]).stage
            == DatabaseUpgradeStage::LegacySchemaMigration && plan[k].reports == (k == 2) by {
            assert(plan[k] == legacy_steps()[k - 2]);
        }
        assert forall|k: int| 2 <= k < 14 implies (#[trigger] plan[k]).action
            == UpgradeAction::RequiredTask(legacy_tasks()[k - 2]) by {
            assert(plan[k] == legacy_steps()[k - 2]);
        }
        assert forall|k: int| 14 <= k < 21 implies #[trigger] plan[k] == seq![
            step(
                DatabaseUpgradeStage::LegacyPerformanceIndexes,
                UpgradeAction::RequiredTask(DatabaseMaintenanceTask::AddLegacyPerformanceIndexes),
                true,
            ),
            step(
                DatabaseUpgradeStage::GlobalPerformanceIndexes,
                UpgradeAction::RequiredTask(DatabaseMaintenanceTask::AddV17GlobalPerformanceIndexes),
                true,
            ),
            step(
                DatabaseUpgradeStage::NotificationPerformanceIndexes,
                UpgradeAction::RequiredTask(DatabaseMaintenanceTask::AddNotificationPerformanceIndexes),
                true,
            ),
            step(DatabaseUpgradeStage::SchemaMigrations, UpgradeAction::SchemaMigrations, true),
            step(
                DatabaseUpgradeStage::Optimize,
                UpgradeAction::OptionalTask(DatabaseMaintenanceTask::Optimize),
                true,
            ),
            step(DatabaseUpgradeStage::WriteVersion, UpgradeAction::WriteVersion, true),
            step(DatabaseUpgradeStage::Commit, UpgradeAction::Commit, true),
        ][k - 14] by {}
    } else {
        assert(plan.len() == 9);
    }
}

} // verus!
