//! JSON rendering of the model records.

use vstd::prelude::*;
use crate::json::{
    array, array_spec, bool_spec, bool_value, object, object_spec, string, string_spec, views,
};
use crate::model::{
    ExecutionPlan, ExecutionPlanView, MachineProbe, MachineProbeView, OperationJournal,
    OperationJournalView, OperationStepRecord, OperationStepRecordView, PayloadSpec,
    PayloadSpecView, PlanStep, PlanStepView, RiskFlag, RiskFlagView, VerificationReport,
    VerificationReportView, risk_views, step_views, record_views,
};
use crate::text::{decimal_spec, decimal_string};

verus! {

/// Each string rendered as a JSON string.
pub open spec fn strings_json(items: Seq<Seq<char>>) -> Seq<Seq<char>> {
    items.map_values(|s: Seq<char>| string_spec(s))
}

/// A JSON array of JSON strings.
pub fn string_list_json(items: &Vec<String>) -> (s: String)
    ensures
        s@ == array_spec(strings_json(views(items@))),
{
    let mut rendered: Vec<String> = Vec::new();
    let mut i: usize = 0;
    while i < items.len()
        invariant
            i <= items@.len(),
            views(rendered@) =~= strings_json(views(items@)).take(i as int),
        decreases items@.len() - i,
    {
        let r = string(items[i].as_str());
        let ghost before = rendered@;
        rendered.push(r);
        proof {
            assert(rendered@ == before.push(r));
            assert(views(rendered@) =~= views(before).push(r@));
            assert(strings_json(views(items@)).take(i + 1) =~= strings_json(views(items@)).take(
                i as int,
            ).push(string_spec(items@[i as int]@)));
        }
        i += 1;
    }
    assert(strings_json(views(items@)).take(items@.len() as int) =~= strings_json(views(items@)));
    array(rendered.as_slice())
}

impl RiskFlagView {
    pub open spec fn json(self) -> Seq<char> {
        object_spec(
            seq![
                ("code"@, string_spec(self.code)),
                ("level"@, string_spec(self.level.name_spec())),
                ("message"@, string_spec(self.message)),
            ],
        )
    }
}

impl RiskFlag {
    pub fn to_json(&self) -> (s: String)
        ensures
            s@ == self@.json(),
    {
        let fields = vec![
            ("code", string(self.code.as_str())),
            ("level", string(self.level.as_str())),
            ("message", string(self.message.as_str())),
        ];
        let s = object(fields.as_slice());
        proof {
            assert(crate::json::field_views(fields@) =~= seq![
                ("code"@, string_spec(self.code@)),
                ("level"@, string_spec(self.level.name_spec())),
                ("message"@, string_spec(self.message@)),
            ]);
        }
        s
    }
}


/// A JSON array of the rendered elements.
pub fn risk_flags_json(items: &Vec<RiskFlag>) -> (s: String)
    ensures
        s@ == array_spec(risk_views(items@).map_values(|r: RiskFlagView| r.json())),
{
    let ghost target = risk_views(items@).map_values(|r: RiskFlagView| r.json());
    let mut rendered: Vec<String> = Vec::new();
    let mut i: usize = 0;
    while i < items.len()
        invariant
            i <= items@.len(),
            target == risk_views(items@).map_values(|r: RiskFlagView| r.json()),
            views(rendered@) =~= target.take(i as int),
        decreases items@.len() - i,
    {
        let r = items[i].to_json();
        let ghost before = rendered@;
        rendered.push(r);
        proof {
            assert(views(rendered@) =~= views(before).push(r@));
            assert(target.take(i + 1) =~= target.take(i as int).push(target[i as int]));
        }
        i += 1;
    }
    assert(target.take(items@.len() as int) =~= target);
    array(rendered.as_slice())
}

/// A JSON array of the rendered elements.
pub fn plan_steps_json(items: &Vec<PlanStep>) -> (s: String)
    ensures
        s@ == array_spec(step_views(items@).map_values(|r: PlanStepView| r.json())),
{
    let ghost target = step_views(items@).map_values(|r: PlanStepView| r.json());
    let mut rendered: Vec<String> = Vec::new();
    let mut i: usize = 0;
    while i < items.len()
        invariant
            i <= items@.len(),
            target == step_views(items@).map_values(|r: PlanStepView| r.json()),
            views(rendered@) =~= target.take(i as int),
        decreases items@.len() - i,
    {
        let r = items[i].to_json();
        let ghost before = rendered@;
        rendered.push(r);
        proof {
            assert(views(rendered@) =~= views(before).push(r@));
            assert(target.take(i + 1) =~= target.take(i as int).push(target[i as int]));
        }
        i += 1;
    }
    assert(target.take(items@.len() as int) =~= target);
    array(rendered.as_slice())
}

/// A JSON array of the rendered elements.
pub fn step_records_json(items: &Vec<OperationStepRecord>) -> (s: String)
    ensures
        s@ == array_spec(record_views(items@).map_values(|r: OperationStepRecordView| r.json())),
{
    let ghost target = record_views(items@).map_values(|r: OperationStepRecordView| r.json());
    let mut rendered: Vec<String> = Vec::new();
    let mut i: usize = 0;
    while i < items.len()
        invariant
            i <= items@.len(),
            target == record_views(items@).map_values(|r: OperationStepRecordView| r.json()),
            views(rendered@) =~= target.take(i as int),
        decreases items@.len() - i,
    {
        let r = items[i].to_json();
        let ghost before = rendered@;
        rendered.push(r);
        proof {
            assert(views(rendered@) =~= views(before).push(r@));
            assert(target.take(i + 1) =~= target.take(i as int).push(target[i as int]));
        }
        i += 1;
    }
    assert(target.take(items@.len() as int) =~= target);
    array(rendered.as_slice())
}

impl PlanStepView {
    pub open spec fn json(self) -> Seq<char> {
        object_spec(
            seq![
                ("id"@, decimal_spec(self.id as nat)),
                ("kind"@, string_spec(self.kind.name_spec())),
                ("requiresElevation"@, bool_spec(self.requires_elevation)),
                ("description"@, string_spec(self.description)),
            ],
        )
    }
}

impl PlanStep {
    pub fn to_json(&self) -> (s: String)
        ensures
            s@ == self@.json(),
    {
        let fields = vec![
            ("id", decimal_string(self.id as u64)),
            ("kind", string(self.kind.as_str())),
            ("requiresElevation", bool_value(self.requires_elevation).to_owned()),
            ("description", string(self.description.as_str())),
        ];
        let s = object(fields.as_slice());
        proof {
            assert(crate::json::field_views(fields@) =~= seq![
                ("id"@, decimal_spec(self.id as nat)),
                ("kind"@, string_spec(self.kind.name_spec())),
                ("requiresElevation"@, bool_spec(self.requires_elevation)),
                ("description"@, string_spec(self.description@)),
            ]);
        }
        s
    }
}

impl OperationStepRecordView {
    pub open spec fn json(self) -> Seq<char> {
        object_spec(
            seq![
                ("stepId"@, decimal_spec(self.step_id as nat)),
                ("kind"@, string_spec(self.kind.name_spec())),
                ("outcome"@, string_spec(self.outcome.name_spec())),
                ("detail"@, string_spec(self.detail)),
            ],
        )
    }
}

impl OperationStepRecord {
    pub fn to_json(&self) -> (s: String)
        ensures
            s@ == self@.json(),
    {
        let fields = vec![
            ("stepId", decimal_string(self.step_id as u64)),
            ("kind", string(self.kind.as_str())),
            ("outcome", string(self.outcome.as_str())),
            ("detail", string(self.detail.as_str())),
        ];
        let s = object(fields.as_slice());
        proof {
            assert(crate::json::field_views(fields@) =~= seq![
                ("stepId"@, decimal_spec(self.step_id as nat)),
                ("kind"@, string_spec(self.kind.name_spec())),
                ("outcome"@, string_spec(self.outcome.name_spec())),
                ("detail"@, string_spec(self.detail@)),
            ]);
        }
        s
    }
}

impl PayloadSpecView {
    pub open spec fn json(self) -> Seq<char> {
        object_spec(
            seq![
                ("sourcePath"@, string_spec(self.source_path)),
                ("kind"@, string_spec(self.kind.name_spec())),
                ("displayName"@, string_spec(self.display_name)),
                ("profile"@, string_spec(self.profile)),
                ("supported"@, bool_spec(self.supported)),
                ("notes"@, array_spec(strings_json(self.notes))),
            ],
        )
    }
}

impl PayloadSpec {
    pub fn to_json(&self) -> (s: String)
        ensures
            s@ == self@.json(),
    {
        let fields = vec![
            ("sourcePath", string(self.source_path.as_str())),
            ("kind", string(self.kind.as_str())),
            ("displayName", string(self.display_name.as_str())),
            ("profile", string(self.profile.as_str())),
            ("supported", bool_value(self.supported).to_owned()),
            ("notes", string_list_json(&self.notes)),
        ];
        let s = object(fields.as_slice());
        proof {
            assert(crate::json::field_views(fields@) =~= seq![
                ("sourcePath"@, string_spec(self.source_path@)),
                ("kind"@, string_spec(self.kind.name_spec())),
                ("displayName"@, string_spec(self.display_name@)),
                ("profile"@, string_spec(self.profile@)),
                ("supported"@, bool_spec(self.supported)),
                ("notes"@, array_spec(strings_json(views(self.notes@)))),
            ]);
        }
        s
    }
}

impl MachineProbeView {
    pub open spec fn esp_json(self) -> Seq<char> {
        object_spec(
            seq![
                ("volume"@, string_spec(self.esp.volume)),
                ("mountPoint"@, string_spec(self.esp.mount_point)),
                ("filesystem"@, string_spec(self.esp.filesystem)),
                ("freeSpaceMb"@, decimal_spec(self.esp.free_space_mb as nat)),
            ],
        )
    }

    pub open spec fn json(self) -> Seq<char> {
        object_spec(
            seq![
                ("hostPlatform"@, string_spec(self.host_platform.name_spec())),
                ("firmwareMode"@, string_spec(self.firmware_mode.name_spec())),
                ("partitionStyle"@, string_spec(self.partition_style.name_spec())),
                ("secureBootEnabled"@, bool_spec(self.secure_boot_enabled)),
                ("bitlockerDetected"@, bool_spec(self.bitlocker_detected)),
                ("esp"@, self.esp_json()),
                ("warnings"@, array_spec(strings_json(self.warnings))),
                ("supported"@, bool_spec(self.supported)),
            ],
        )
    }
}

impl MachineProbe {
    pub fn to_json(&self) -> (s: String)
        ensures
            s@ == self@.json(),
    {
        let esp_fields = vec![
            ("volume", string(self.esp.volume.as_str())),
            ("mountPoint", string(self.esp.mount_point.as_str())),
            ("filesystem", string(self.esp.filesystem.as_str())),
            ("freeSpaceMb", decimal_string(self.esp.free_space_mb)),
        ];
        let esp = object(esp_fields.as_slice());
        proof {
            assert(crate::json::field_views(esp_fields@) =~= seq![
                ("volume"@, string_spec(self.esp.volume@)),
                ("mountPoint"@, string_spec(self.esp.mount_point@)),
                ("filesystem"@, string_spec(self.esp.filesystem@)),
                ("freeSpaceMb"@, decimal_spec(self.esp.free_space_mb as nat)),
            ]);
        }
        let fields = vec![
            ("hostPlatform", string(self.host_platform.as_str())),
            ("firmwareMode", string(self.firmware_mode.as_str())),
            ("partitionStyle", string(self.partition_style.as_str())),
            ("secureBootEnabled", bool_value(self.secure_boot_enabled).to_owned()),
            ("bitlockerDetected", bool_value(self.bitlocker_detected).to_owned()),
            ("esp", esp),
            ("warnings", string_list_json(&self.warnings)),
            ("supported", bool_value(self.supported).to_owned()),
        ];
        let s = object(fields.as_slice());
        proof {
            assert(crate::json::field_views(fields@) =~= seq![
                ("hostPlatform"@, string_spec(self.host_platform.name_spec())),
                ("firmwareMode"@, string_spec(self.firmware_mode.name_spec())),
                ("partitionStyle"@, string_spec(self.partition_style.name_spec())),
                ("secureBootEnabled"@, bool_spec(self.secure_boot_enabled)),
                ("bitlockerDetected"@, bool_spec(self.bitlocker_detected)),
                ("esp"@, self@.esp_json()),
                ("warnings"@, array_spec(strings_json(views(self.warnings@)))),
                ("supported"@, bool_spec(self.supported)),
            ]);
        }
        s
    }
}

impl ExecutionPlanView {
    pub open spec fn json(self) -> Seq<char> {
        object_spec(
            seq![
                ("version"@, decimal_spec(self.version as nat)),
                ("planId"@, string_spec(self.plan_id)),
                ("targetVolume"@, string_spec(self.target_volume)),
                ("payload"@, self.payload.json()),
                ("backupRoot"@, string_spec(self.backup_root)),
                ("additivePolicy"@, object_spec(
                    seq![("replaceDefaultBootPath"@, bool_spec(self.replace_default_boot_path))],
                )),
                ("riskFlags"@, array_spec(self.risk_flags.map_values(|r: RiskFlagView| r.json()))),
                ("steps"@, array_spec(self.steps.map_values(|r: PlanStepView| r.json()))),
                ("createdAt"@, string_spec(self.created_at)),
            ],
        )
    }
}

impl ExecutionPlan {
    pub fn to_json(&self) -> (s: String)
        ensures
            s@ == self@.json(),
    {
        let policy_fields = vec![
            (
                "replaceDefaultBootPath",
                bool_value(self.additive_policy.replace_default_boot_path).to_owned(),
            ),
        ];
        let policy = object(policy_fields.as_slice());
        proof {
            assert(crate::json::field_views(policy_fields@) =~= seq![
                (
                    "replaceDefaultBootPath"@,
                    bool_spec(self.additive_policy.replace_default_boot_path),
                ),
            ]);
        }
        let fields = vec![
            ("version", decimal_string(self.version as u64)),
            ("planId", string(self.plan_id.as_str())),
            ("targetVolume", string(self.target_volume.as_str())),
            ("payload", self.payload.to_json()),
            ("backupRoot", string(self.backup_root.as_str())),
            ("additivePolicy", policy),
            ("riskFlags", risk_flags_json(&self.risk_flags)),
            ("steps", plan_steps_json(&self.steps)),
            ("createdAt", string(self.created_at.as_str())),
        ];
        let s = object(fields.as_slice());
        proof {
            assert(crate::json::field_views(fields@) =~= seq![
                ("version"@, decimal_spec(self.version as nat)),
                ("planId"@, string_spec(self.plan_id@)),
                ("targetVolume"@, string_spec(self.target_volume@)),
                ("payload"@, self.payload@.json()),
                ("backupRoot"@, string_spec(self.backup_root@)),
                ("additivePolicy"@, object_spec(
                    seq![
                        (
                            "replaceDefaultBootPath"@,
                            bool_spec(self.additive_policy.replace_default_boot_path),
                        ),
                    ],
                )),
                ("riskFlags"@, array_spec(
                    risk_views(self.risk_flags@).map_values(|r: RiskFlagView| r.json()),
                )),
                ("steps"@, array_spec(
                    step_views(self.steps@).map_values(|r: PlanStepView| r.json()),
                )),
                ("createdAt"@, string_spec(self.created_at@)),
            ]);
        }
        s
    }
}

impl OperationJournalView {
    pub open spec fn json(self) -> Seq<char> {
        object_spec(
            seq![
                ("operationId"@, string_spec(self.operation_id)),
                ("planId"@, string_spec(self.plan_id)),
                ("backupRoot"@, string_spec(self.backup_root)),
                ("status"@, string_spec(self.status.name_spec())),
                ("steps"@, array_spec(
                    self.steps.map_values(|r: OperationStepRecordView| r.json()),
                )),
                ("summary"@, string_spec(self.summary)),
            ],
        )
    }
}

impl OperationJournal {
    pub fn to_json(&self) -> (s: String)
        ensures
            s@ == self@.json(),
    {
        let fields = vec![
            ("operationId", string(self.operation_id.as_str())),
            ("planId", string(self.plan_id.as_str())),
            ("backupRoot", string(self.backup_root.as_str())),
            ("status", string(self.status.as_str())),
            ("steps", step_records_json(&self.steps)),
            ("summary", string(self.summary.as_str())),
        ];
        let s = object(fields.as_slice());
        proof {
            assert(crate::json::field_views(fields@) =~= seq![
                ("operationId"@, string_spec(self.operation_id@)),
                ("planId"@, string_spec(self.plan_id@)),
                ("backupRoot"@, string_spec(self.backup_root@)),
                ("status"@, string_spec(self.status.name_spec())),
                ("steps"@, array_spec(
                    record_views(self.steps@).map_values(|r: OperationStepRecordView| r.json()),
                )),
                ("summary"@, string_spec(self.summary@)),
            ]);
        }
        s
    }
}

impl VerificationReportView {
    pub open spec fn json(self) -> Seq<char> {
        object_spec(
            seq![
                ("operationId"@, string_spec(self.operation_id)),
                ("bootEntryRegistered"@, bool_spec(self.boot_entry_registered)),
                ("stagedArtifactsPresent"@, bool_spec(self.staged_artifacts_present)),
                ("warnings"@, array_spec(strings_json(self.warnings))),
                ("verified"@, bool_spec(self.verified)),
            ],
        )
    }
}

impl VerificationReport {
    pub fn to_json(&self) -> (s: String)
        ensures
            s@ == self@.json(),
    {
        let fields = vec![
            ("operationId", string(self.operation_id.as_str())),
            ("bootEntryRegistered", bool_value(self.boot_entry_registered).to_owned()),
            ("stagedArtifactsPresent", bool_value(self.staged_artifacts_present).to_owned()),
            ("warnings", string_list_json(&self.warnings)),
            ("verified", bool_value(self.verified).to_owned()),
        ];
        let s = object(fields.as_slice());
        proof {
            assert(crate::json::field_views(fields@) =~= seq![
                ("operationId"@, string_spec(self.operation_id@)),
                ("bootEntryRegistered"@, bool_spec(self.boot_entry_registered)),
                ("stagedArtifactsPresent"@, bool_spec(self.staged_artifacts_present)),
                ("warnings"@, array_spec(strings_json(views(self.warnings@)))),
                ("verified"@, bool_spec(self.verified)),
            ]);
        }
        s
    }
}

}
