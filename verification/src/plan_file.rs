//! The line-oriented plan file: writing a plan and reading it back.

use vstd::prelude::*;
use crate::error::{AppError, AppErrorKind, error_from_str};
use crate::json::{
    bool_spec, bool_value, decode_field, decode_field_spec, encode_field, encode_field_spec,
    join_spec, push_joined, views,
};
use crate::lines::{
    lacks, lemma_lines_around, lemma_split_drop_last, lemma_split_nonempty, lemma_split_plain,
    lines_spec, split_chars, split_lines, split_spec, strip_cr,
};
use crate::round_trip::lemma_plan_lines_concat;
use crate::model::{
    AdditiveBootPolicy, ExecutionPlan, ExecutionPlanView, PayloadKind, PayloadSpec,
    PayloadSpecView, PlanStep, PlanStepKind, PlanStepView, RiskFlag, RiskFlagView, RiskLevel,
    risk_views, step_views,
};
use crate::text::{chars_of, decimal_spec, decimal_string, parse_unsigned, parse_unsigned_spec, text_eq};

verus! {

broadcast use vstd::seq_lib::group_seq_properties;

// ---------------------------------------------------------------------
// Writing
// ---------------------------------------------------------------------

/// Fields joined by tabs into one record line.
pub open spec fn tab_join(fields: Seq<Seq<char>>) -> Seq<char> {
    join_spec(fields, seq!['\t'])
}

pub open spec fn note_line(note: Seq<char>) -> Seq<char> {
    tab_join(seq!["payload_note"@, encode_field_spec(note)])
}

pub open spec fn risk_line(r: RiskFlagView) -> Seq<char> {
    tab_join(
        seq!["risk"@, r.level.name_spec(), encode_field_spec(r.code), encode_field_spec(r.message)],
    )
}

pub open spec fn step_line(s: PlanStepView) -> Seq<char> {
    tab_join(
        seq![
            "step"@,
            decimal_spec(s.id as nat),
            s.kind.name_spec(),
            bool_spec(s.requires_elevation),
            encode_field_spec(s.description),
        ],
    )
}

/// The first eight lines of a plan file: header, scalar fields, payload.
pub open spec fn plan_head_lines(p: ExecutionPlanView) -> Seq<Seq<char>> {
    seq![
        "PARTBOOTER_PLAN_V1"@,
        tab_join(seq!["version"@, decimal_spec(p.version as nat)]),
        tab_join(seq!["plan_id"@, encode_field_spec(p.plan_id)]),
        tab_join(seq!["target_volume"@, encode_field_spec(p.target_volume)]),
        tab_join(seq!["backup_root"@, encode_field_spec(p.backup_root)]),
        tab_join(seq!["created_at"@, encode_field_spec(p.created_at)]),
        tab_join(seq!["replace_default_boot_path"@, bool_spec(p.replace_default_boot_path)]),
        tab_join(
            seq![
                "payload"@,
                p.payload.kind.name_spec(),
                encode_field_spec(p.payload.source_path),
                encode_field_spec(p.payload.display_name),
                encode_field_spec(p.payload.profile),
                bool_spec(p.payload.supported),
            ],
        ),
    ]
}

/// All lines of the plan file for `p`.
pub open spec fn plan_file_lines(p: ExecutionPlanView) -> Seq<Seq<char>> {
    plan_head_lines(p) + p.payload.notes.map_values(|n: Seq<char>| note_line(n))
        + p.risk_flags.map_values(|r: RiskFlagView| risk_line(r)) + p.steps.map_values(
        |s: PlanStepView| step_line(s),
    )
}

/// The text of the plan file for `p`.
pub open spec fn plan_file_spec(p: ExecutionPlanView) -> Seq<char> {
    join_spec(plan_file_lines(p), seq!['\n'])
}

/// One record line from its fields.
pub fn tab_line(fields: Vec<String>) -> (line: String)
    ensures
        line@ == tab_join(views(fields@)),
{
    let mut line = String::new();
    push_joined(&mut line, fields.as_slice(), '\t');
    assert(Seq::<char>::empty() + tab_join(views(fields@)) =~= tab_join(views(fields@)));
    line
}

impl ExecutionPlan {
    /// The header, scalar and payload lines of this plan's file.
    fn head_lines(&self) -> (lines: Vec<String>)
        ensures
            views(lines@) == plan_head_lines(self@),
    {
        let ghost head = plan_head_lines(self@);
        let mut lines: Vec<String> = Vec::new();
        lines.push("PARTBOOTER_PLAN_V1".to_owned());
        let f = vec!["version".to_owned(), decimal_string(self.version as u64)];
        assert(views(f@) =~= seq!["version"@, decimal_spec(self.version as nat)]);
        lines.push(tab_line(f));
        let f = vec!["plan_id".to_owned(), encode_field(self.plan_id.as_str())];
        assert(views(f@) =~= seq!["plan_id"@, encode_field_spec(self.plan_id@)]);
        lines.push(tab_line(f));
        let f = vec!["target_volume".to_owned(), encode_field(self.target_volume.as_str())];
        assert(views(f@) =~= seq!["target_volume"@, encode_field_spec(self.target_volume@)]);
        lines.push(tab_line(f));
        let f = vec!["backup_root".to_owned(), encode_field(self.backup_root.as_str())];
        assert(views(f@) =~= seq!["backup_root"@, encode_field_spec(self.backup_root@)]);
        lines.push(tab_line(f));
        let f = vec!["created_at".to_owned(), encode_field(self.created_at.as_str())];
        assert(views(f@) =~= seq!["created_at"@, encode_field_spec(self.created_at@)]);
        lines.push(tab_line(f));
        let f = vec![
            "replace_default_boot_path".to_owned(),
            bool_value(self.additive_policy.replace_default_boot_path).to_owned(),
        ];
        assert(views(f@) =~= seq![
            "replace_default_boot_path"@,
            bool_spec(self.additive_policy.replace_default_boot_path),
        ]);
        lines.push(tab_line(f));
        let f = vec![
            "payload".to_owned(),
            self.payload.kind.as_str().to_owned(),
            encode_field(self.payload.source_path.as_str()),
            encode_field(self.payload.display_name.as_str()),
            encode_field(self.payload.profile.as_str()),
            bool_value(self.payload.supported).to_owned(),
        ];
        assert(views(f@) =~= seq![
            "payload"@,
            self.payload.kind.name_spec(),
            encode_field_spec(self.payload.source_path@),
            encode_field_spec(self.payload.display_name@),
            encode_field_spec(self.payload.profile@),
            bool_spec(self.payload.supported),
        ]);
        lines.push(tab_line(f));
        assert(views(lines@) =~= head);
        lines
    }

    pub fn to_plan_file(&self) -> (text: String)
        ensures
            text@ == plan_file_spec(self@),
    {
        let ghost head = plan_head_lines(self@);
        let ghost notes = self@.payload.notes.map_values(|n: Seq<char>| note_line(n));
        let ghost risks = self@.risk_flags.map_values(|r: RiskFlagView| risk_line(r));
        let ghost steps = self@.steps.map_values(|s: PlanStepView| step_line(s));
        let mut lines = self.head_lines();

        let mut i: usize = 0;
        while i < self.payload.notes.len()
            invariant
                i <= self.payload.notes@.len(),
                notes == self@.payload.notes.map_values(|n: Seq<char>| note_line(n)),
                views(lines@) =~= head + notes.take(i as int),
            decreases self.payload.notes@.len() - i,
        {
            let line = note_line_text(self.payload.notes[i].as_str());
            let ghost before = lines@;
            lines.push(line);
            proof {
                assert(views(lines@) =~= views(before).push(line@));
                assert(notes.take(i + 1) =~= notes.take(i as int).push(notes[i as int]));
            }
            i += 1;
        }
        assert(notes.take(notes.len() as int) =~= notes);

        let mut i: usize = 0;
        while i < self.risk_flags.len()
            invariant
                i <= self.risk_flags@.len(),
                risks == self@.risk_flags.map_values(|r: RiskFlagView| risk_line(r)),
                views(lines@) =~= head + notes + risks.take(i as int),
            decreases self.risk_flags@.len() - i,
        {
            let line = risk_line_text(&self.risk_flags[i]);
            let ghost before = lines@;
            lines.push(line);
            proof {
                assert(views(lines@) =~= views(before).push(line@));
                assert(risks.take(i + 1) =~= risks.take(i as int).push(risks[i as int]));
            }
            i += 1;
        }
        assert(risks.take(risks.len() as int) =~= risks);

        let mut i: usize = 0;
        while i < self.steps.len()
            invariant
                i <= self.steps@.len(),
                steps == self@.steps.map_values(|s: PlanStepView| step_line(s)),
                views(lines@) =~= head + notes + risks + steps.take(i as int),
            decreases self.steps@.len() - i,
        {
            let line = step_line_text(&self.steps[i]);
            let ghost before = lines@;
            lines.push(line);
            proof {
                assert(views(lines@) =~= views(before).push(line@));
                assert(steps.take(i + 1) =~= steps.take(i as int).push(steps[i as int]));
            }
            i += 1;
        }
        assert(steps.take(steps.len() as int) =~= steps);
        assert(views(lines@) =~= plan_file_lines(self@));
        let mut text = String::new();
        push_joined(&mut text, lines.as_slice(), '\n');
        assert(Seq::<char>::empty() + plan_file_spec(self@) =~= plan_file_spec(self@));
        text
    }
}

/// The record line of a payload note.
fn note_line_text(note: &str) -> (line: String)
    ensures
        line@ == note_line(note@),
{
    let f = vec!["payload_note".to_owned(), encode_field(note)];
    assert(views(f@) =~= seq!["payload_note"@, encode_field_spec(note@)]);
    tab_line(f)
}

/// The record line of a risk flag.
fn risk_line_text(r: &RiskFlag) -> (line: String)
    ensures
        line@ == risk_line(r@),
{
    let f = vec![
        "risk".to_owned(),
        r.level.as_str().to_owned(),
        encode_field(r.code.as_str()),
        encode_field(r.message.as_str()),
    ];
    assert(views(f@) =~= seq![
        "risk"@,
        r.level.name_spec(),
        encode_field_spec(r.code@),
        encode_field_spec(r.message@),
    ]);
    tab_line(f)
}

/// The record line of a plan step.
fn step_line_text(st: &PlanStep) -> (line: String)
    ensures
        line@ == step_line(st@),
{
    let f = vec![
        "step".to_owned(),
        decimal_string(st.id as u64),
        st.kind.as_str().to_owned(),
        bool_value(st.requires_elevation).to_owned(),
        encode_field(st.description.as_str()),
    ];
    assert(views(f@) =~= seq![
        "step"@,
        decimal_spec(st.id as nat),
        st.kind.name_spec(),
        bool_spec(st.requires_elevation),
        encode_field_spec(st.description@),
    ]);
    tab_line(f)
}


// ---------------------------------------------------------------------
// Reading
// ---------------------------------------------------------------------

/// What has been read from a plan file so far.
#[verifier::ext_equal]
pub struct PlanDraftView {
    pub version: Option<u8>,
    pub plan_id: Option<Seq<char>>,
    pub target_volume: Option<Seq<char>>,
    pub backup_root: Option<Seq<char>>,
    pub created_at: Option<Seq<char>>,
    pub replace_default_boot_path: bool,
    pub payload_kind: Option<PayloadKind>,
    pub payload_source_path: Option<Seq<char>>,
    pub payload_display_name: Option<Seq<char>>,
    pub payload_profile: Option<Seq<char>>,
    pub payload_supported: Option<bool>,
    pub payload_notes: Seq<Seq<char>>,
    pub risk_flags: Seq<RiskFlagView>,
    pub steps: Seq<PlanStepView>,
}

/// Nothing read yet.
pub open spec fn empty_plan_draft() -> PlanDraftView {
    PlanDraftView {
        version: None,
        plan_id: None,
        target_volume: None,
        backup_root: None,
        created_at: None,
        replace_default_boot_path: false,
        payload_kind: None,
        payload_source_path: None,
        payload_display_name: None,
        payload_profile: None,
        payload_supported: None,
        payload_notes: seq![],
        risk_flags: seq![],
        steps: seq![],
    }
}

/// A `u8` field as the plan file spells it.
pub open spec fn parse_u8_spec(s: Seq<char>) -> Option<u8> {
    match parse_unsigned_spec(s, 255) {
        Some(v) => Some(v as u8),
        None => None,
    }
}

/// The effect of one body line on the draft; an unknown key, or a known
/// key with the wrong number of fields, leaves the draft as it is.
#[verifier::opaque]
pub open spec fn plan_line_spec(d: PlanDraftView, line: Seq<char>) -> Result<
    PlanDraftView,
    Seq<char>,
> {
    let parts = split_spec(line, '\t');
    let key = parts[0];
    let n = parts.len();
    if key == "version"@ && n == 2 {
        Ok(PlanDraftView { version: parse_u8_spec(parts[1]), ..d })
    } else if key == "plan_id"@ && n == 2 {
        Ok(PlanDraftView { plan_id: decode_field_spec(parts[1]), ..d })
    } else if key == "target_volume"@ && n == 2 {
        Ok(PlanDraftView { target_volume: decode_field_spec(parts[1]), ..d })
    } else if key == "backup_root"@ && n == 2 {
        Ok(PlanDraftView { backup_root: decode_field_spec(parts[1]), ..d })
    } else if key == "created_at"@ && n == 2 {
        Ok(PlanDraftView { created_at: decode_field_spec(parts[1]), ..d })
    } else if key == "replace_default_boot_path"@ && n == 2 {
        Ok(PlanDraftView { replace_default_boot_path: parts[1] == "true"@, ..d })
    } else if key == "payload"@ && n == 6 {
        Ok(
            PlanDraftView {
                payload_kind: PayloadKind::parse_spec(parts[1]),
                payload_source_path: decode_field_spec(parts[2]),
                payload_display_name: decode_field_spec(parts[3]),
                payload_profile: decode_field_spec(parts[4]),
                payload_supported: Some(parts[5] == "true"@),
                ..d
            },
        )
    } else if key == "payload_note"@ && n == 2 {
        match decode_field_spec(parts[1]) {
            Some(note) => Ok(PlanDraftView { payload_notes: d.payload_notes.push(note), ..d }),
            None => Err("invalid payload note encoding"@),
        }
    } else if key == "risk"@ && n == 4 {
        match RiskLevel::parse_spec(parts[1]) {
            None => Err("invalid risk level"@),
            Some(level) => match decode_field_spec(parts[2]) {
                None => Err("invalid risk code encoding"@),
                Some(code) => match decode_field_spec(parts[3]) {
                    None => Err("invalid risk message encoding"@),
                    Some(message) => Ok(
                        PlanDraftView {
                            risk_flags: d.risk_flags.push(RiskFlagView { code, level, message }),
                            ..d
                        },
                    ),
                },
            },
        }
    } else if key == "step"@ && n == 5 {
        match parse_u8_spec(parts[1]) {
            None => Err("invalid step id"@),
            Some(id) => match PlanStepKind::parse_spec(parts[2]) {
                None => Err("invalid step kind"@),
                Some(kind) => match decode_field_spec(parts[4]) {
                    None => Err("invalid step description encoding"@),
                    Some(description) => Ok(
                        PlanDraftView {
                            steps: d.steps.push(
                                PlanStepView {
                                    id,
                                    kind,
                                    requires_elevation: parts[3] == "true"@,
                                    description,
                                },
                            ),
                            ..d
                        },
                    ),
                },
            },
        }
    } else {
        Ok(d)
    }
}

/// The effect of a sequence of body lines, stopping at the first error.
pub open spec fn plan_lines_spec(d: PlanDraftView, lines: Seq<Seq<char>>) -> Result<
    PlanDraftView,
    Seq<char>,
>
    decreases lines.len(),
{
    if lines.len() == 0 {
        Ok(d)
    } else {
        match plan_line_spec(d, lines[0]) {
            Err(e) => Err(e),
            Ok(d2) => plan_lines_spec(d2, lines.skip(1)),
        }
    }
}

/// The plan a complete draft describes, or the first missing field.
pub open spec fn plan_finish_spec(d: PlanDraftView) -> Result<ExecutionPlanView, Seq<char>> {
    match d.payload_source_path {
        None => Err("missing payload source path"@),
        Some(source_path) => match d.payload_kind {
            None => Err("missing payload kind"@),
            Some(kind) => match d.payload_display_name {
                None => Err("missing payload display name"@),
                Some(display_name) => match d.payload_profile {
                    None => Err("missing payload profile"@),
                    Some(profile) => match d.payload_supported {
                        None => Err("missing payload support state"@),
                        Some(supported) => match d.version {
                            None => Err("missing plan version"@),
                            Some(version) => match d.plan_id {
                                None => Err("missing plan id"@),
                                Some(plan_id) => match d.target_volume {
                                    None => Err("missing target volume"@),
                                    Some(target_volume) => match d.backup_root {
                                        None => Err("missing backup root"@),
                                        Some(backup_root) => match d.created_at {
                                            None => Err("missing plan timestamp"@),
                                            Some(created_at) => Ok(
                                                ExecutionPlanView {
                                                    version,
                                                    plan_id,
                                                    target_volume,
                                                    payload: PayloadSpecView {
                                                        source_path,
                                                        kind,
                                                        display_name,
                                                        profile,
                                                        supported,
                                                        notes: d.payload_notes,
                                                    },
                                                    backup_root,
                                                    replace_default_boot_path:
                                                        d.replace_default_boot_path,
                                                    risk_flags: d.risk_flags,
                                                    steps: d.steps,
                                                    created_at,
                                                },
                                            ),
                                        },
                                    },
                                },
                            },
                        },
                    },
                },
            },
        },
    }
}

/// What reading `text` as a plan file gives: the plan, or the message of
/// the validation error.
pub open spec fn read_plan_spec(text: Seq<char>) -> Result<ExecutionPlanView, Seq<char>> {
    let ls = lines_spec(text);
    if ls.len() == 0 || ls[0] != "PARTBOOTER_PLAN_V1"@ {
        Err("invalid PartBooter plan file header"@)
    } else {
        match plan_lines_spec(empty_plan_draft(), ls.skip(1)) {
            Err(e) => Err(e),
            Ok(d) => plan_finish_spec(d),
        }
    }
}

/// The keys a plan file body line can carry.
pub open spec fn is_plan_key(k: Seq<char>) -> bool {
    ||| k == "version"@
    ||| k == "plan_id"@
    ||| k == "target_volume"@
    ||| k == "backup_root"@
    ||| k == "created_at"@
    ||| k == "replace_default_boot_path"@
    ||| k == "payload"@
    ||| k == "payload_note"@
    ||| k == "risk"@
    ||| k == "step"@
}

/// A body line whose first field is not a key leaves the draft as it is,
/// with or without a trailing carriage return.
pub proof fn lemma_unknown_line(d: PlanDraftView, line: Seq<char>)
    requires
        !is_plan_key(split_spec(line, '\t')[0]),
    ensures
        plan_line_spec(d, line) == Ok::<_, Seq<char>>(d),
        plan_line_spec(d, strip_cr(line)) == Ok::<_, Seq<char>>(d),
{
    reveal(plan_line_spec);
    if line.len() > 0 && line.last() == '\r' {
        lemma_split_drop_last(line, '\t');
        let parts = split_spec(line, '\t');
        if parts.len() > 1 {
            assert(split_spec(line.drop_last(), '\t')[0] == parts[0]);
        }
    }
}

/// Reading a plan file is blind to a line whose first field is not a
/// key: putting such a line (with no newline in it) after any line of
/// the text leaves what the text reads as unchanged.
pub proof fn plan_read_ignores_unknown_lines(before: Seq<char>, line: Seq<char>, after: Seq<char>)
    requires
        lacks(line, '\n'),
        !is_plan_key(split_spec(line, '\t')[0]),
    ensures
        read_plan_spec(before + seq!['\n'] + line + seq!['\n'] + after) == read_plan_spec(
            before + seq!['\n'] + after,
        ),
{
    let t1 = before + seq!['\n'] + after;
    let t2 = before + seq!['\n'] + line + seq!['\n'] + after;
    let head = split_spec(before, '\n').map_values(|l: Seq<char>| strip_cr(l));
    lemma_split_nonempty(before, '\n');
    lemma_lines_around(before, after);
    assert(t2 == before + seq!['\n'] + (line + seq!['\n'] + after));
    lemma_lines_around(before, line + seq!['\n'] + after);
    lemma_lines_around(line, after);
    lemma_split_plain(line, '\n');
    assert(seq![line].map_values(|l: Seq<char>| strip_cr(l)) =~= seq![strip_cr(line)]);
    let rest = lines_spec(after);
    let l1 = lines_spec(t1);
    let l2 = lines_spec(t2);
    assert(l1 == head + rest);
    assert(l2 == head + (seq![strip_cr(line)] + rest));
    assert(l1[0] == head[0]);
    assert(l2[0] == head[0]);
    assert(l1.skip(1) =~= head.skip(1) + rest);
    assert(l2.skip(1) =~= (head.skip(1) + seq![strip_cr(line)]) + rest);
    let d0 = empty_plan_draft();
    lemma_plan_lines_concat(d0, head.skip(1), rest);
    lemma_plan_lines_concat(d0, head.skip(1) + seq![strip_cr(line)], rest);
    lemma_plan_lines_concat(d0, head.skip(1), seq![strip_cr(line)]);
    match plan_lines_spec(d0, head.skip(1)) {
        Ok(d1) => {
            lemma_unknown_line(d1, line);
            let one = seq![strip_cr(line)];
            assert(one.skip(1) =~= Seq::<Seq<char>>::empty());
            assert(one[0] == strip_cr(line));
            assert(plan_line_spec(d1, one[0]) == Ok::<_, Seq<char>>(d1));
            assert(plan_lines_spec(d1, one.skip(1)) == Ok::<_, Seq<char>>(d1));
            assert(plan_lines_spec(d1, one) == Ok::<_, Seq<char>>(d1));
        },
        Err(e) => {},
    }
}

/// The same for a line put after the last line of a text that ends
/// without a newline, provided that last line does not end with a
/// carriage return (which the final line keeps and a middle line loses).
pub proof fn plan_read_ignores_appended_unknown_line(text: Seq<char>, line: Seq<char>)
    requires
        lacks(line, '\n'),
        !is_plan_key(split_spec(line, '\t')[0]),
        text.len() > 0,
        text.last() != '\n',
        text.last() != '\r',
    ensures
        read_plan_spec(text + seq!['\n'] + line) == read_plan_spec(text),
{
    let p = split_spec(text, '\n');
    let n = p.len() as int;
    let cut = |l: Seq<char>| strip_cr(l);
    lemma_split_nonempty(text, '\n');
    lemma_split_drop_last(text, '\n');
    assert(p[n - 1].len() > 0 && p[n - 1].last() == text.last());
    assert(strip_cr(p[n - 1]) == p[n - 1]);
    let l1 = lines_spec(text);
    assert(l1 =~= p.map_values(cut));
    lemma_lines_around(text, line);
    lemma_split_plain(line, '\n');
    let l2 = lines_spec(text + seq!['\n'] + line);
    assert(l2 == l1 + lines_spec(line));
    assert(seq![line].take(0).map_values(cut) =~= Seq::<Seq<char>>::empty());
    if line.len() == 0 {
        assert(lines_spec(line) =~= Seq::<Seq<char>>::empty());
        assert(l2 =~= l1);
    } else {
        assert(lines_spec(line) =~= seq![line]);
        assert(l2[0] == l1[0]);
        assert(l2.skip(1) =~= l1.skip(1) + seq![line]);
        let d0 = empty_plan_draft();
        lemma_plan_lines_concat(d0, l1.skip(1), seq![line]);
        match plan_lines_spec(d0, l1.skip(1)) {
            Ok(d1) => {
                lemma_unknown_line(d1, line);
                let one = seq![line];
                assert(one.skip(1) =~= Seq::<Seq<char>>::empty());
                assert(one[0] == line);
                assert(plan_lines_spec(d1, one.skip(1)) == Ok::<_, Seq<char>>(d1));
                assert(plan_lines_spec(d1, one) == Ok::<_, Seq<char>>(d1));
            },
            Err(e) => {},
        }
    }
}

/// Whether `r` is the outcome `spec` describes, a validation error
/// carrying the described message in the error case.
pub open spec fn matches_outcome<T: View>(r: Result<T, AppError>, spec: Result<T::V, Seq<char>>) -> bool {
    match spec {
        Ok(v) => r is Ok && r->Ok_0@ == v,
        Err(m) => r is Err && r->Err_0.is(AppErrorKind::Validation, m),
    }
}

/// The characters of an optional string.
pub open spec fn opt_view(o: Option<String>) -> Option<Seq<char>> {
    match o {
        Some(s) => Some(s@),
        None => None,
    }
}

struct PlanDraft {
    version: Option<u8>,
    plan_id: Option<String>,
    target_volume: Option<String>,
    backup_root: Option<String>,
    created_at: Option<String>,
    replace_default_boot_path: bool,
    payload_kind: Option<PayloadKind>,
    payload_source_path: Option<String>,
    payload_display_name: Option<String>,
    payload_profile: Option<String>,
    payload_supported: Option<bool>,
    payload_notes: Vec<String>,
    risk_flags: Vec<RiskFlag>,
    steps: Vec<PlanStep>,
}

impl View for PlanDraft {
    type V = PlanDraftView;

    closed spec fn view(&self) -> PlanDraftView {
        PlanDraftView {
            version: self.version,
            plan_id: opt_view(self.plan_id),
            target_volume: opt_view(self.target_volume),
            backup_root: opt_view(self.backup_root),
            created_at: opt_view(self.created_at),
            replace_default_boot_path: self.replace_default_boot_path,
            payload_kind: self.payload_kind,
            payload_source_path: opt_view(self.payload_source_path),
            payload_display_name: opt_view(self.payload_display_name),
            payload_profile: opt_view(self.payload_profile),
            payload_supported: self.payload_supported,
            payload_notes: views(self.payload_notes@),
            risk_flags: risk_views(self.risk_flags@),
            steps: step_views(self.steps@),
        }
    }
}

/// Reads a `u8` field.
pub fn parse_u8(s: &str) -> (r: Option<u8>)
    ensures
        r == parse_u8_spec(s@),
{
    match parse_unsigned(s, 255) {
        Some(v) => Some(v as u8),
        None => None,
    }
}

/// Decodes an encoded field.
pub fn decode_opt(s: &str) -> (r: Option<String>)
    ensures
        opt_view(r) == decode_field_spec(s@),
{
    decode_field(s)
}

fn validation(message: &str) -> (e: AppError)
    ensures
        e.is(AppErrorKind::Validation, message@),
{
    error_from_str(AppErrorKind::Validation, message)
}

impl PlanDraft {
    fn new() -> (d: Self)
        ensures
            d@ == empty_plan_draft(),
    {
        let d = PlanDraft {
            version: None,
            plan_id: None,
            target_volume: None,
            backup_root: None,
            created_at: None,
            replace_default_boot_path: false,
            payload_kind: None,
            payload_source_path: None,
            payload_display_name: None,
            payload_profile: None,
            payload_supported: None,
            payload_notes: Vec::new(),
            risk_flags: Vec::new(),
            steps: Vec::new(),
        };
        assert(d@ =~= empty_plan_draft());
        d
    }

    fn apply_line(&mut self, line: &str) -> (r: Result<(), AppError>)
        ensures
            match plan_line_spec(old(self)@, line@) {
                Ok(d) => r is Ok && final(self)@ == d,
                Err(m) => r is Err && r->Err_0.is(AppErrorKind::Validation, m),
            },
    {
        reveal(plan_line_spec);
        let chars = chars_of(line);
        let parts = split_chars(&chars, '\t');
        let ghost pv = views(parts@);
        let n = parts.len();
        let key = parts[0].as_str();
        if text_eq(key, "version") && n == 2 {
            self.version = parse_u8(parts[1].as_str());
            Ok(())
        } else if text_eq(key, "plan_id") && n == 2 {
            self.plan_id = decode_opt(parts[1].as_str());
            Ok(())
        } else if text_eq(key, "target_volume") && n == 2 {
            self.target_volume = decode_opt(parts[1].as_str());
            Ok(())
        } else if text_eq(key, "backup_root") && n == 2 {
            self.backup_root = decode_opt(parts[1].as_str());
            Ok(())
        } else if text_eq(key, "created_at") && n == 2 {
            self.created_at = decode_opt(parts[1].as_str());
            Ok(())
        } else if text_eq(key, "replace_default_boot_path") && n == 2 {
            self.replace_default_boot_path = text_eq(parts[1].as_str(), "true");
            Ok(())
        } else if text_eq(key, "payload") && n == 6 {
            self.payload_kind = PayloadKind::from_str(parts[1].as_str());
            self.payload_source_path = decode_opt(parts[2].as_str());
            self.payload_display_name = decode_opt(parts[3].as_str());
            self.payload_profile = decode_opt(parts[4].as_str());
            self.payload_supported = Some(text_eq(parts[5].as_str(), "true"));
            Ok(())
        } else if text_eq(key, "payload_note") && n == 2 {
            match decode_field(parts[1].as_str()) {
                Some(note) => {
                    self.payload_notes.push(note);
                    proof {
                        assert(views(self.payload_notes@) =~= views(old(self).payload_notes@).push(
                            note@,
                        ));
                    }
                    Ok(())
                },
                None => Err(validation("invalid payload note encoding")),
            }
        } else if text_eq(key, "risk") && n == 4 {
            let level = match RiskLevel::from_str(parts[1].as_str()) {
                Some(level) => level,
                None => {
                    return Err(validation("invalid risk level"));
                },
            };
            let code = match decode_field(parts[2].as_str()) {
                Some(code) => code,
                None => {
                    return Err(validation("invalid risk code encoding"));
                },
            };
            let message = match decode_field(parts[3].as_str()) {
                Some(message) => message,
                None => {
                    return Err(validation("invalid risk message encoding"));
                },
            };
            let flag = RiskFlag { code, level, message };
            self.risk_flags.push(flag);
            proof {
                assert(risk_views(self.risk_flags@) =~= risk_views(old(self).risk_flags@).push(
                    flag@,
                ));
            }
            Ok(())
        } else if text_eq(key, "step") && n == 5 {
            let id = match parse_u8(parts[1].as_str()) {
                Some(id) => id,
                None => {
                    return Err(validation("invalid step id"));
                },
            };
            let kind = match PlanStepKind::from_str(parts[2].as_str()) {
                Some(kind) => kind,
                None => {
                    return Err(validation("invalid step kind"));
                },
            };
            let requires_elevation = text_eq(parts[3].as_str(), "true");
            let description = match decode_field(parts[4].as_str()) {
                Some(description) => description,
                None => {
                    return Err(validation("invalid step description encoding"));
                },
            };
            let step = PlanStep { id, kind, requires_elevation, description };
            self.steps.push(step);
            proof {
                assert(step_views(self.steps@) =~= step_views(old(self).steps@).push(step@));
            }
            Ok(())
        } else {
            Ok(())
        }
    }

    fn finish(self) -> (r: Result<ExecutionPlan, AppError>)
        ensures
            matches_outcome(r, plan_finish_spec(self@)),
    {
        let source_path = match self.payload_source_path {
            Some(v) => v,
            None => {
                return Err(validation("missing payload source path"));
            },
        };
        let kind = match self.payload_kind {
            Some(v) => v,
            None => {
                return Err(validation("missing payload kind"));
            },
        };
        let display_name = match self.payload_display_name {
            Some(v) => v,
            None => {
                return Err(validation("missing payload display name"));
            },
        };
        let profile = match self.payload_profile {
            Some(v) => v,
            None => {
                return Err(validation("missing payload profile"));
            },
        };
        let supported = match self.payload_supported {
            Some(v) => v,
            None => {
                return Err(validation("missing payload support state"));
            },
        };
        let payload = PayloadSpec {
            source_path,
            kind,
            display_name,
            profile,
            supported,
            notes: self.payload_notes,
        };
        let version = match self.version {
            Some(v) => v,
            None => {
                return Err(validation("missing plan version"));
            },
        };
        let plan_id = match self.plan_id {
            Some(v) => v,
            None => {
                return Err(validation("missing plan id"));
            },
        };
        let target_volume = match self.target_volume {
            Some(v) => v,
            None => {
                return Err(validation("missing target volume"));
            },
        };
        let backup_root = match self.backup_root {
            Some(v) => v,
            None => {
                return Err(validation("missing backup root"));
            },
        };
        let created_at = match self.created_at {
            Some(v) => v,
            None => {
                return Err(validation("missing plan timestamp"));
            },
        };
        let plan = ExecutionPlan {
            version,
            plan_id,
            target_volume,
            payload,
            backup_root,
            additive_policy: AdditiveBootPolicy {
                replace_default_boot_path: self.replace_default_boot_path,
            },
            risk_flags: self.risk_flags,
            steps: self.steps,
            created_at,
        };
        assert(plan@ =~= plan_finish_spec(self@)->Ok_0);
        Ok(plan)
    }
}

impl ExecutionPlan {
    pub fn from_plan_file(input: &str) -> (r: Result<ExecutionPlan, AppError>)
        ensures
            matches_outcome(r, read_plan_spec(input@)),
    {
        let lines = split_lines(input);
        let ghost ls = views(lines@);
        if lines.len() == 0 || !text_eq(lines[0].as_str(), "PARTBOOTER_PLAN_V1") {
            return Err(validation("invalid PartBooter plan file header"));
        }
        let mut draft = PlanDraft::new();
        let mut i: usize = 1;
        while i < lines.len()
            invariant
                ls == views(lines@),
                ls == lines_spec(input@),
                1 <= i <= ls.len(),
                ls[0] == "PARTBOOTER_PLAN_V1"@,
                plan_lines_spec(empty_plan_draft(), ls.skip(1)) == plan_lines_spec(
                    draft@,
                    ls.skip(i as int),
                ),
            decreases ls.len() - i,
        {
            proof {
                assert(ls.skip(i as int)[0] == lines@[i as int]@);
                assert(ls.skip(i as int).skip(1) =~= ls.skip(i + 1));
            }
            let step = draft.apply_line(lines[i].as_str());
            match step {
                Ok(()) => {},
                Err(e) => {
                    return Err(e);
                },
            }
            i += 1;
        }
        proof {
            assert(ls.skip(i as int) =~= Seq::<Seq<char>>::empty());
        }
        draft.finish()
    }
}

}
