//! Laws relating the file writers to the file readers.

use vstd::prelude::*;
use crate::json::{bool_spec, encode_field_spec, field_encoding_round_trip, lemma_encoded_field_plain};
use crate::lines::{is_record_line, lemma_field_line, lemma_lines_join, lines_spec, split_spec};
use crate::model::{
    ExecutionPlanView, PlanStepView, RiskFlagView, is_plain_token, payload_kind_name_round_trip, plan_step_kind_name_round_trip,
    risk_level_name_round_trip,
};
use crate::plan_file::{
    PlanDraftView, empty_plan_draft, note_line, parse_u8_spec, plan_file_lines, plan_file_spec,
    plan_finish_spec, plan_head_lines, plan_line_spec, plan_lines_spec, read_plan_spec, risk_line,
    step_line, tab_join,
};
use crate::record_file::{
    RecordDraftView, empty_record_draft, read_record_spec, record_file_lines, record_file_spec,
    record_finish_spec, record_head_lines, record_line_spec, record_lines_spec, record_step_line,
};
use crate::model::{
    OperationJournalView, OperationStepRecordView, action_outcome_name_round_trip,
    operation_status_name_round_trip,
};
use crate::text::{decimal_round_trip, decimal_spec, lemma_decimal_plain};
use vstd::utf8::is_ascii_chars;

verus! {

broadcast use vstd::seq_lib::group_seq_properties;

/// Every text field of the plan is ASCII.
pub open spec fn plan_text_is_ascii(p: ExecutionPlanView) -> bool {
    &&& is_ascii_chars(p.plan_id)
    &&& is_ascii_chars(p.target_volume)
    &&& is_ascii_chars(p.backup_root)
    &&& is_ascii_chars(p.created_at)
    &&& is_ascii_chars(p.payload.source_path)
    &&& is_ascii_chars(p.payload.display_name)
    &&& is_ascii_chars(p.payload.profile)
    &&& forall|i: int|
        0 <= i < p.payload.notes.len() ==> is_ascii_chars(#[trigger] p.payload.notes[i])
    &&& forall|i: int|
        0 <= i < p.risk_flags.len() ==> is_ascii_chars(#[trigger] p.risk_flags[i].code)
            && is_ascii_chars(p.risk_flags[i].message)
    &&& forall|i: int|
        0 <= i < p.steps.len() ==> is_ascii_chars(#[trigger] p.steps[i].description)
}

proof fn lemma_literal_facts()
    ensures
        "PARTBOOTER_PLAN_V1"@.len() == 18,
        "PARTBOOTER_PLAN_V1"@[0] == 'P',
        is_record_line("PARTBOOTER_PLAN_V1"@),
        "version"@.len() == 7 && "version"@[0] == 'v' && is_plain_token("version"@),
        "plan_id"@.len() == 7 && "plan_id"@[0] == 'p' && "plan_id"@[1] == 'l' && is_plain_token(
            "plan_id"@,
        ),
        "target_volume"@.len() == 13 && is_plain_token("target_volume"@),
        "backup_root"@.len() == 11 && is_plain_token("backup_root"@),
        "created_at"@.len() == 10 && is_plain_token("created_at"@),
        "replace_default_boot_path"@.len() == 25 && is_plain_token("replace_default_boot_path"@),
        "payload"@.len() == 7 && "payload"@[0] == 'p' && "payload"@[1] == 'a' && is_plain_token(
            "payload"@,
        ),
        "payload_note"@.len() == 12 && is_plain_token("payload_note"@),
        "risk"@.len() == 4 && "risk"@[0] == 'r' && is_plain_token("risk"@),
        "step"@.len() == 4 && "step"@[0] == 's' && is_plain_token("step"@),
        "true"@.len() == 4,
        "false"@.len() == 5,
        is_plain_token("true"@),
        is_plain_token("false"@),
{
    reveal_strlit("PARTBOOTER_PLAN_V1");
    reveal_strlit("version");
    reveal_strlit("plan_id");
    reveal_strlit("target_volume");
    reveal_strlit("backup_root");
    reveal_strlit("created_at");
    reveal_strlit("replace_default_boot_path");
    reveal_strlit("payload");
    reveal_strlit("payload_note");
    reveal_strlit("risk");
    reveal_strlit("step");
    reveal_strlit("true");
    reveal_strlit("false");
}

proof fn lemma_bool_token(b: bool)
    ensures
        is_plain_token(bool_spec(b)),
        bool_spec(b).len() > 0,
        (bool_spec(b) == "true"@) == b,
{
    lemma_literal_facts();
}

pub proof fn lemma_plan_lines_concat(d: PlanDraftView, a: Seq<Seq<char>>, b: Seq<Seq<char>>)
    ensures
        plan_lines_spec(d, a + b) == match plan_lines_spec(d, a) {
            Ok(d2) => plan_lines_spec(d2, b),
            Err(e) => Err(e),
        },
    decreases a.len(),
{
    if a.len() == 0 {
        assert(a + b =~= b);
    } else {
        assert((a + b)[0] == a[0]);
        assert((a + b).skip(1) =~= a.skip(1) + b);
        match plan_line_spec(d, a[0]) {
            Ok(d2) => {
                lemma_plan_lines_concat(d2, a.skip(1), b);
            },
            Err(e) => {},
        }
    }
}

proof fn lemma_plan_lines_one(d: PlanDraftView, l: Seq<char>)
    ensures
        plan_lines_spec(d, seq![l]) == plan_line_spec(d, l),
{
    assert(seq![l].skip(1) =~= Seq::<Seq<char>>::empty());
    match plan_line_spec(d, l) {
        Ok(d2) => {
            assert(plan_lines_spec(d2, Seq::<Seq<char>>::empty()) == Ok::<_, Seq<char>>(d2));
        },
        Err(e) => {},
    }
}

proof fn lemma_note_lines(d: PlanDraftView, notes: Seq<Seq<char>>)
    requires
        forall|i: int| 0 <= i < notes.len() ==> is_ascii_chars(#[trigger] notes[i]),
    ensures
        plan_lines_spec(d, notes.map_values(|n: Seq<char>| note_line(n))) == Ok::<_, Seq<char>>(
            PlanDraftView { payload_notes: d.payload_notes + notes, ..d },
        ),
    decreases notes.len(),
{
    let ls = notes.map_values(|n: Seq<char>| note_line(n));
    if notes.len() == 0 {
        assert(d.payload_notes + notes =~= d.payload_notes);
        assert(PlanDraftView { payload_notes: d.payload_notes + notes, ..d } =~= d);
    } else {
        let n0 = notes[0];
        assert(is_ascii_chars(n0));
        lemma_literal_facts();
        lemma_encoded_field_plain(n0);
        field_encoding_round_trip(n0);
        let fields = seq!["payload_note"@, encode_field_spec(n0)];
        lemma_field_line(fields);
        reveal(plan_line_spec);
        let d1 = PlanDraftView { payload_notes: d.payload_notes.push(n0), ..d };
        assert(plan_line_spec(d, ls[0]) == Ok::<_, Seq<char>>(d1));
        let rest = notes.skip(1);
        assert(ls.skip(1) =~= rest.map_values(|n: Seq<char>| note_line(n)));
        lemma_note_lines(d1, rest);
        assert(d1.payload_notes + rest =~= d.payload_notes + notes);
    }
}

proof fn lemma_risk_lines(d: PlanDraftView, risks: Seq<RiskFlagView>)
    requires
        forall|i: int|
            0 <= i < risks.len() ==> is_ascii_chars(#[trigger] risks[i].code) && is_ascii_chars(
                risks[i].message,
            ),
    ensures
        plan_lines_spec(d, risks.map_values(|r: RiskFlagView| risk_line(r))) == Ok::<_, Seq<char>>(
            PlanDraftView { risk_flags: d.risk_flags + risks, ..d },
        ),
    decreases risks.len(),
{
    let ls = risks.map_values(|r: RiskFlagView| risk_line(r));
    if risks.len() == 0 {
        assert(d.risk_flags + risks =~= d.risk_flags);
        assert(PlanDraftView { risk_flags: d.risk_flags + risks, ..d } =~= d);
    } else {
        let r0 = risks[0];
        assert(is_ascii_chars(r0.code) && is_ascii_chars(r0.message));
        lemma_literal_facts();
        lemma_encoded_field_plain(r0.code);
        lemma_encoded_field_plain(r0.message);
        field_encoding_round_trip(r0.code);
        field_encoding_round_trip(r0.message);
        risk_level_name_round_trip(r0.level);
        let fields = seq![
            "risk"@,
            r0.level.name_spec(),
            encode_field_spec(r0.code),
            encode_field_spec(r0.message),
        ];
        lemma_field_line(fields);
        reveal(plan_line_spec);
        let d1 = PlanDraftView { risk_flags: d.risk_flags.push(r0), ..d };
        assert(plan_line_spec(d, ls[0]) == Ok::<_, Seq<char>>(d1));
        let rest = risks.skip(1);
        assert(ls.skip(1) =~= rest.map_values(|r: RiskFlagView| risk_line(r)));
        lemma_risk_lines(d1, rest);
        assert(d1.risk_flags + rest =~= d.risk_flags + risks);
    }
}

proof fn lemma_step_lines(d: PlanDraftView, steps: Seq<PlanStepView>)
    requires
        forall|i: int| 0 <= i < steps.len() ==> is_ascii_chars(#[trigger] steps[i].description),
    ensures
        plan_lines_spec(d, steps.map_values(|s: PlanStepView| step_line(s))) == Ok::<_, Seq<char>>(
            PlanDraftView { steps: d.steps + steps, ..d },
        ),
    decreases steps.len(),
{
    let ls = steps.map_values(|s: PlanStepView| step_line(s));
    if steps.len() == 0 {
        assert(d.steps + steps =~= d.steps);
        assert(PlanDraftView { steps: d.steps + steps, ..d } =~= d);
    } else {
        let s0 = steps[0];
        assert(is_ascii_chars(s0.description));
        lemma_literal_facts();
        lemma_encoded_field_plain(s0.description);
        field_encoding_round_trip(s0.description);
        plan_step_kind_name_round_trip(s0.kind);
        lemma_decimal_plain(s0.id as nat);
        decimal_round_trip(s0.id as nat, 255);
        lemma_bool_token(s0.requires_elevation);
        let fields = seq![
            "step"@,
            decimal_spec(s0.id as nat),
            s0.kind.name_spec(),
            bool_spec(s0.requires_elevation),
            encode_field_spec(s0.description),
        ];
        lemma_field_line(fields);
        reveal(plan_line_spec);
        assert(parse_u8_spec(decimal_spec(s0.id as nat)) == Some(s0.id));
        let d1 = PlanDraftView { steps: d.steps.push(s0), ..d };
        assert(plan_line_spec(d, ls[0]) == Ok::<_, Seq<char>>(d1));
        let rest = steps.skip(1);
        assert(ls.skip(1) =~= rest.map_values(|s: PlanStepView| step_line(s)));
        lemma_step_lines(d1, rest);
        assert(d1.steps + rest =~= d.steps + steps);
    }
}

/// The draft after the scalar and payload lines of `p`'s plan file.
pub open spec fn head_draft(p: ExecutionPlanView) -> PlanDraftView {
    PlanDraftView {
        version: Some(p.version),
        plan_id: Some(p.plan_id),
        target_volume: Some(p.target_volume),
        backup_root: Some(p.backup_root),
        created_at: Some(p.created_at),
        replace_default_boot_path: p.replace_default_boot_path,
        payload_kind: Some(p.payload.kind),
        payload_source_path: Some(p.payload.source_path),
        payload_display_name: Some(p.payload.display_name),
        payload_profile: Some(p.payload.profile),
        payload_supported: Some(p.payload.supported),
        payload_notes: seq![],
        risk_flags: seq![],
        steps: seq![],
    }
}

proof fn lemma_two_field_line(key: Seq<char>, value: Seq<char>)
    requires
        key.len() > 0,
        is_plain_token(key),
        is_plain_token(value),
    ensures
        split_spec(tab_join(seq![key, value]), '\t') == seq![key, value],
        is_record_line(tab_join(seq![key, value])),
{
    lemma_field_line(seq![key, value]);
}

#[verifier::rlimit(60)]
proof fn lemma_plan_head(p: ExecutionPlanView)
    requires
        plan_text_is_ascii(p),
    ensures
        plan_lines_spec(empty_plan_draft(), plan_head_lines(p).skip(1)) == Ok::<_, Seq<char>>(head_draft(p)),
        forall|k: int|
            0 <= k < plan_head_lines(p).len() ==> is_record_line(#[trigger] plan_head_lines(p)[k]),
{
    let h = plan_head_lines(p);
    lemma_literal_facts();
    lemma_decimal_plain(p.version as nat);
    decimal_round_trip(p.version as nat, 255);
    assert(parse_u8_spec(decimal_spec(p.version as nat)) == Some(p.version));
    lemma_encoded_field_plain(p.plan_id);
    field_encoding_round_trip(p.plan_id);
    lemma_encoded_field_plain(p.target_volume);
    field_encoding_round_trip(p.target_volume);
    lemma_encoded_field_plain(p.backup_root);
    field_encoding_round_trip(p.backup_root);
    lemma_encoded_field_plain(p.created_at);
    field_encoding_round_trip(p.created_at);
    lemma_encoded_field_plain(p.payload.source_path);
    field_encoding_round_trip(p.payload.source_path);
    lemma_encoded_field_plain(p.payload.display_name);
    field_encoding_round_trip(p.payload.display_name);
    lemma_encoded_field_plain(p.payload.profile);
    field_encoding_round_trip(p.payload.profile);
    lemma_bool_token(p.replace_default_boot_path);
    lemma_bool_token(p.payload.supported);
    payload_kind_name_round_trip(p.payload.kind);

    lemma_two_field_line("version"@, decimal_spec(p.version as nat));
    lemma_two_field_line("plan_id"@, encode_field_spec(p.plan_id));
    lemma_two_field_line("target_volume"@, encode_field_spec(p.target_volume));
    lemma_two_field_line("backup_root"@, encode_field_spec(p.backup_root));
    lemma_two_field_line("created_at"@, encode_field_spec(p.created_at));
    lemma_two_field_line("replace_default_boot_path"@, bool_spec(p.replace_default_boot_path));
    let payload_fields = seq![
        "payload"@,
        p.payload.kind.name_spec(),
        encode_field_spec(p.payload.source_path),
        encode_field_spec(p.payload.display_name),
        encode_field_spec(p.payload.profile),
        bool_spec(p.payload.supported),
    ];
    lemma_field_line(payload_fields);

    reveal(plan_line_spec);
    let d0 = empty_plan_draft();
    let d1 = PlanDraftView { version: Some(p.version), ..d0 };
    let d2 = PlanDraftView { plan_id: Some(p.plan_id), ..d1 };
    let d3 = PlanDraftView { target_volume: Some(p.target_volume), ..d2 };
    let d4 = PlanDraftView { backup_root: Some(p.backup_root), ..d3 };
    let d5 = PlanDraftView { created_at: Some(p.created_at), ..d4 };
    let d6 = PlanDraftView { replace_default_boot_path: p.replace_default_boot_path, ..d5 };
    assert(plan_line_spec(d0, h[1]) == Ok::<_, Seq<char>>(d1));
    assert(plan_line_spec(d1, h[2]) == Ok::<_, Seq<char>>(d2));
    assert(plan_line_spec(d2, h[3]) == Ok::<_, Seq<char>>(d3));
    assert(plan_line_spec(d3, h[4]) == Ok::<_, Seq<char>>(d4));
    assert(plan_line_spec(d4, h[5]) == Ok::<_, Seq<char>>(d5));
    assert(plan_line_spec(d5, h[6]) == Ok::<_, Seq<char>>(d6));
    assert(plan_line_spec(d6, h[7]) == Ok::<_, Seq<char>>(head_draft(p)));
    let body = h.skip(1);
    assert(body =~= seq![h[1]] + seq![h[2]] + seq![h[3]] + seq![h[4]] + seq![h[5]] + seq![h[6]]
        + seq![h[7]]);
    lemma_plan_lines_one(d0, h[1]);
    lemma_plan_lines_one(d1, h[2]);
    lemma_plan_lines_one(d2, h[3]);
    lemma_plan_lines_one(d3, h[4]);
    lemma_plan_lines_one(d4, h[5]);
    lemma_plan_lines_one(d5, h[6]);
    lemma_plan_lines_one(d6, h[7]);
    lemma_plan_lines_concat(d0, seq![h[1]], seq![h[2]]);
    lemma_plan_lines_concat(d0, seq![h[1]] + seq![h[2]], seq![h[3]]);
    lemma_plan_lines_concat(d0, seq![h[1]] + seq![h[2]] + seq![h[3]], seq![h[4]]);
    lemma_plan_lines_concat(d0, seq![h[1]] + seq![h[2]] + seq![h[3]] + seq![h[4]], seq![h[5]]);
    lemma_plan_lines_concat(
        d0,
        seq![h[1]] + seq![h[2]] + seq![h[3]] + seq![h[4]] + seq![h[5]],
        seq![h[6]],
    );
    lemma_plan_lines_concat(
        d0,
        seq![h[1]] + seq![h[2]] + seq![h[3]] + seq![h[4]] + seq![h[5]] + seq![h[6]],
        seq![h[7]],
    );
}

/// Reading back a written plan file gives the plan that was written,
/// for every plan whose text fields are ASCII.
pub proof fn plan_file_round_trip(p: ExecutionPlanView)
    requires
        plan_text_is_ascii(p),
    ensures
        read_plan_spec(plan_file_spec(p)) == Ok::<_, Seq<char>>(p),
{
    let h = plan_head_lines(p);
    let notes = p.payload.notes.map_values(|n: Seq<char>| note_line(n));
    let risks = p.risk_flags.map_values(|r: RiskFlagView| risk_line(r));
    let steps = p.steps.map_values(|s: PlanStepView| step_line(s));
    let all = plan_file_lines(p);
    lemma_plan_head(p);
    lemma_literal_facts();
    assert forall|k: int| 0 <= k < all.len() implies is_record_line(#[trigger] all[k]) by {
        if k < 8 {
            assert(all[k] == h[k]);
        } else if k < 8 + notes.len() {
            let n = p.payload.notes[k - 8];
            assert(all[k] == note_line(n));
            assert(is_ascii_chars(n));
            lemma_encoded_field_plain(n);
            lemma_field_line(seq!["payload_note"@, encode_field_spec(n)]);
        } else if k < 8 + notes.len() + risks.len() {
            let r = p.risk_flags[k - 8 - notes.len()];
            assert(all[k] == risk_line(r));
            assert(is_ascii_chars(r.code) && is_ascii_chars(r.message));
            lemma_encoded_field_plain(r.code);
            lemma_encoded_field_plain(r.message);
            risk_level_name_round_trip(r.level);
            lemma_field_line(
                seq!["risk"@, r.level.name_spec(), encode_field_spec(r.code), encode_field_spec(r.message)],
            );
        } else {
            let s = p.steps[k - 8 - notes.len() - risks.len()];
            assert(all[k] == step_line(s));
            assert(is_ascii_chars(s.description));
            lemma_encoded_field_plain(s.description);
            plan_step_kind_name_round_trip(s.kind);
            lemma_decimal_plain(s.id as nat);
            lemma_bool_token(s.requires_elevation);
            lemma_field_line(
                seq![
                    "step"@,
                    decimal_spec(s.id as nat),
                    s.kind.name_spec(),
                    bool_spec(s.requires_elevation),
                    encode_field_spec(s.description),
                ],
            );
        }
    }
    lemma_lines_join(all);
    assert(lines_spec(plan_file_spec(p)) == all);
    assert(all[0] == "PARTBOOTER_PLAN_V1"@);
    let body = all.skip(1);
    assert(body =~= h.skip(1) + notes + risks + steps);
    let d_head = head_draft(p);
    lemma_plan_lines_concat(empty_plan_draft(), h.skip(1), notes);
    lemma_note_lines(d_head, p.payload.notes);
    let d_notes = PlanDraftView { payload_notes: d_head.payload_notes + p.payload.notes, ..d_head };
    lemma_plan_lines_concat(empty_plan_draft(), h.skip(1) + notes, risks);
    lemma_risk_lines(d_notes, p.risk_flags);
    let d_risks = PlanDraftView { risk_flags: d_notes.risk_flags + p.risk_flags, ..d_notes };
    lemma_plan_lines_concat(empty_plan_draft(), h.skip(1) + notes + risks, steps);
    lemma_step_lines(d_risks, p.steps);
    let d_all = PlanDraftView { steps: d_risks.steps + p.steps, ..d_risks };
    assert(plan_lines_spec(empty_plan_draft(), body) == Ok::<_, Seq<char>>(d_all));
    assert(seq![] + p.payload.notes =~= p.payload.notes);
    assert(Seq::<RiskFlagView>::empty() + p.risk_flags =~= p.risk_flags);
    assert(Seq::<PlanStepView>::empty() + p.steps =~= p.steps);
    assert(plan_finish_spec(d_all) == Ok::<_, Seq<char>>(p));
}


// ---------------------------------------------------------------------
// Operation record files
// ---------------------------------------------------------------------

/// Every text field of the journal is ASCII.
pub open spec fn journal_text_is_ascii(j: OperationJournalView) -> bool {
    &&& is_ascii_chars(j.operation_id)
    &&& is_ascii_chars(j.plan_id)
    &&& is_ascii_chars(j.backup_root)
    &&& is_ascii_chars(j.summary)
    &&& forall|i: int| 0 <= i < j.steps.len() ==> is_ascii_chars(#[trigger] j.steps[i].detail)
}

proof fn lemma_record_literal_facts()
    ensures
        is_record_line("PARTBOOTER_OPERATION_V1"@),
        "operation_id"@.len() == 12 && "operation_id"@[0] == 'o' && is_plain_token("operation_id"@),
        "plan_id"@.len() == 7 && "plan_id"@[0] == 'p' && is_plain_token("plan_id"@),
        "backup_root"@.len() == 11 && is_plain_token("backup_root"@),
        "status"@.len() == 6 && is_plain_token("status"@),
        "summary"@.len() == 7 && "summary"@[0] == 's' && is_plain_token("summary"@),
        "step"@.len() == 4 && is_plain_token("step"@),
{
    reveal_strlit("PARTBOOTER_OPERATION_V1");
    reveal_strlit("operation_id");
    reveal_strlit("plan_id");
    reveal_strlit("backup_root");
    reveal_strlit("status");
    reveal_strlit("summary");
    reveal_strlit("step");
}

proof fn lemma_record_lines_concat(d: RecordDraftView, a: Seq<Seq<char>>, b: Seq<Seq<char>>)
    ensures
        record_lines_spec(d, a + b) == match record_lines_spec(d, a) {
            Ok(d2) => record_lines_spec(d2, b),
            Err(e) => Err(e),
        },
    decreases a.len(),
{
    if a.len() == 0 {
        assert(a + b =~= b);
    } else {
        assert((a + b)[0] == a[0]);
        assert((a + b).skip(1) =~= a.skip(1) + b);
        match record_line_spec(d, a[0]) {
            Ok(d2) => {
                lemma_record_lines_concat(d2, a.skip(1), b);
            },
            Err(e) => {},
        }
    }
}

proof fn lemma_record_lines_one(d: RecordDraftView, l: Seq<char>)
    ensures
        record_lines_spec(d, seq![l]) == record_line_spec(d, l),
{
    assert(seq![l].skip(1) =~= Seq::<Seq<char>>::empty());
    match record_line_spec(d, l) {
        Ok(d2) => {
            assert(record_lines_spec(d2, Seq::<Seq<char>>::empty()) == Ok::<_, Seq<char>>(d2));
        },
        Err(e) => {},
    }
}

proof fn lemma_record_step_line_plain(s: OperationStepRecordView)
    requires
        is_ascii_chars(s.detail),
    ensures
        split_spec(record_step_line(s), '\t') == seq![
            "step"@,
            decimal_spec(s.step_id as nat),
            s.kind.name_spec(),
            s.outcome.name_spec(),
            encode_field_spec(s.detail),
        ],
        is_record_line(record_step_line(s)),
{
    lemma_record_literal_facts();
    lemma_encoded_field_plain(s.detail);
    plan_step_kind_name_round_trip(s.kind);
    action_outcome_name_round_trip(s.outcome);
    lemma_decimal_plain(s.step_id as nat);
    lemma_field_line(
        seq![
            "step"@,
            decimal_spec(s.step_id as nat),
            s.kind.name_spec(),
            s.outcome.name_spec(),
            encode_field_spec(s.detail),
        ],
    );
}

proof fn lemma_record_step_lines(d: RecordDraftView, steps: Seq<OperationStepRecordView>)
    requires
        forall|i: int| 0 <= i < steps.len() ==> is_ascii_chars(#[trigger] steps[i].detail),
    ensures
        record_lines_spec(d, steps.map_values(|s: OperationStepRecordView| record_step_line(s)))
            == Ok::<_, Seq<char>>(RecordDraftView { steps: d.steps + steps, ..d }),
    decreases steps.len(),
{
    let ls = steps.map_values(|s: OperationStepRecordView| record_step_line(s));
    if steps.len() == 0 {
        assert(d.steps + steps =~= d.steps);
        assert(RecordDraftView { steps: d.steps + steps, ..d } =~= d);
    } else {
        let s0 = steps[0];
        assert(is_ascii_chars(s0.detail));
        lemma_record_literal_facts();
        lemma_record_step_line_plain(s0);
        field_encoding_round_trip(s0.detail);
        plan_step_kind_name_round_trip(s0.kind);
        action_outcome_name_round_trip(s0.outcome);
        decimal_round_trip(s0.step_id as nat, 255);
        assert(parse_u8_spec(decimal_spec(s0.step_id as nat)) == Some(s0.step_id));
        reveal(record_line_spec);
        let d1 = RecordDraftView { steps: d.steps.push(s0), ..d };
        assert(record_line_spec(d, ls[0]) == Ok::<_, Seq<char>>(d1));
        let rest = steps.skip(1);
        assert(ls.skip(1) =~= rest.map_values(|s: OperationStepRecordView| record_step_line(s)));
        lemma_record_step_lines(d1, rest);
        assert(d1.steps + rest =~= d.steps + steps);
    }
}

/// The draft after the scalar lines of `j`'s record file.
pub open spec fn record_head_draft(j: OperationJournalView) -> RecordDraftView {
    RecordDraftView {
        operation_id: Some(j.operation_id),
        plan_id: Some(j.plan_id),
        backup_root: Some(j.backup_root),
        status: Some(j.status),
        summary: Some(j.summary),
        steps: seq![],
    }
}

#[verifier::rlimit(40)]
proof fn lemma_record_head(j: OperationJournalView)
    requires
        journal_text_is_ascii(j),
    ensures
        record_lines_spec(empty_record_draft(), record_head_lines(j).skip(1)) == Ok::<
            _,
            Seq<char>,
        >(record_head_draft(j)),
        forall|k: int|
            0 <= k < record_head_lines(j).len() ==> is_record_line(
                #[trigger] record_head_lines(j)[k],
            ),
{
    let h = record_head_lines(j);
    lemma_record_literal_facts();
    lemma_encoded_field_plain(j.operation_id);
    field_encoding_round_trip(j.operation_id);
    lemma_encoded_field_plain(j.plan_id);
    field_encoding_round_trip(j.plan_id);
    lemma_encoded_field_plain(j.backup_root);
    field_encoding_round_trip(j.backup_root);
    lemma_encoded_field_plain(j.summary);
    field_encoding_round_trip(j.summary);
    operation_status_name_round_trip(j.status);
    lemma_two_field_line("operation_id"@, encode_field_spec(j.operation_id));
    lemma_two_field_line("plan_id"@, encode_field_spec(j.plan_id));
    lemma_two_field_line("backup_root"@, encode_field_spec(j.backup_root));
    lemma_two_field_line("status"@, j.status.name_spec());
    lemma_two_field_line("summary"@, encode_field_spec(j.summary));
    reveal(record_line_spec);
    let d0 = empty_record_draft();
    let d1 = RecordDraftView { operation_id: Some(j.operation_id), ..d0 };
    let d2 = RecordDraftView { plan_id: Some(j.plan_id), ..d1 };
    let d3 = RecordDraftView { backup_root: Some(j.backup_root), ..d2 };
    let d4 = RecordDraftView { status: Some(j.status), ..d3 };
    assert(record_line_spec(d0, h[1]) == Ok::<_, Seq<char>>(d1));
    assert(record_line_spec(d1, h[2]) == Ok::<_, Seq<char>>(d2));
    assert(record_line_spec(d2, h[3]) == Ok::<_, Seq<char>>(d3));
    assert(record_line_spec(d3, h[4]) == Ok::<_, Seq<char>>(d4));
    assert(record_line_spec(d4, h[5]) == Ok::<_, Seq<char>>(record_head_draft(j)));
    assert(h.skip(1) =~= seq![h[1]] + seq![h[2]] + seq![h[3]] + seq![h[4]] + seq![h[5]]);
    lemma_record_lines_one(d0, h[1]);
    lemma_record_lines_one(d1, h[2]);
    lemma_record_lines_one(d2, h[3]);
    lemma_record_lines_one(d3, h[4]);
    lemma_record_lines_one(d4, h[5]);
    lemma_record_lines_concat(d0, seq![h[1]], seq![h[2]]);
    lemma_record_lines_concat(d0, seq![h[1]] + seq![h[2]], seq![h[3]]);
    lemma_record_lines_concat(d0, seq![h[1]] + seq![h[2]] + seq![h[3]], seq![h[4]]);
    lemma_record_lines_concat(d0, seq![h[1]] + seq![h[2]] + seq![h[3]] + seq![h[4]], seq![h[5]]);
}

/// Every line of a record file is a record line.
proof fn lemma_record_file_lines_plain(j: OperationJournalView)
    requires
        journal_text_is_ascii(j),
    ensures
        forall|k: int|
            0 <= k < record_file_lines(j).len() ==> is_record_line(#[trigger] record_file_lines(j)[k]),
{
    let h = record_head_lines(j);
    let all = record_file_lines(j);
    lemma_record_head(j);
    assert forall|k: int| 0 <= k < all.len() implies is_record_line(#[trigger] all[k]) by {
        if k < 6 {
            assert(all[k] == h[k]);
        } else {
            let s = j.steps[k - 6];
            assert(all[k] == record_step_line(s));
            assert(is_ascii_chars(s.detail));
            lemma_record_step_line_plain(s);
        }
    }
}

/// Reading the body lines of `j`'s record file gives `j`'s fields.
proof fn lemma_record_body(j: OperationJournalView)
    requires
        journal_text_is_ascii(j),
    ensures
        record_lines_spec(empty_record_draft(), record_file_lines(j).skip(1)) == Ok::<_, Seq<char>>(
            RecordDraftView { steps: j.steps, ..record_head_draft(j) },
        ),
{
    let h = record_head_lines(j);
    let steps = j.steps.map_values(|s: OperationStepRecordView| record_step_line(s));
    let all = record_file_lines(j);
    lemma_record_head(j);
    let body = all.skip(1);
    assert(body =~= h.skip(1) + steps);
    let d_head = record_head_draft(j);
    lemma_record_lines_concat(empty_record_draft(), h.skip(1), steps);
    lemma_record_step_lines(d_head, j.steps);
    assert(Seq::<OperationStepRecordView>::empty() + j.steps =~= j.steps);
}

/// Reading back a written operation record file gives the journal that
/// was written, for every journal whose text fields are ASCII.
pub proof fn record_file_round_trip(j: OperationJournalView)
    requires
        journal_text_is_ascii(j),
    ensures
        read_record_spec(record_file_spec(j)) == Ok::<_, Seq<char>>(j),
{
    let all = record_file_lines(j);
    lemma_record_literal_facts();
    lemma_record_file_lines_plain(j);
    lemma_lines_join(all);
    assert(all[0] == "PARTBOOTER_OPERATION_V1"@);
    lemma_record_body(j);
    let d_all = RecordDraftView { steps: j.steps, ..record_head_draft(j) };
    assert(record_finish_spec(d_all) == Ok::<_, Seq<char>>(j));
}

}
