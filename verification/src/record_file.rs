//! The line-oriented operation record file: writing a journal and
//! reading it back.

use vstd::prelude::*;
use crate::error::{AppError, AppErrorKind, error_from_str};
use crate::json::{decode_field, decode_field_spec, encode_field, encode_field_spec, join_spec, push_joined, views};
use crate::lines::{lines_spec, split_chars, split_lines, split_spec};
use crate::model::{
    ActionOutcome, OperationJournal, OperationJournalView, OperationStatus, OperationStepRecord,
    OperationStepRecordView, PlanStepKind, record_views,
};
use crate::plan_file::{matches_outcome, opt_view, parse_u8, parse_u8_spec, tab_join, tab_line};
use crate::text::{chars_of, decimal_spec, decimal_string, text_eq};

verus! {

broadcast use vstd::seq_lib::group_seq_properties;

// ---------------------------------------------------------------------
// Writing
// ---------------------------------------------------------------------

pub open spec fn record_step_line(s: OperationStepRecordView) -> Seq<char> {
    tab_join(
        seq![
            "step"@,
            decimal_spec(s.step_id as nat),
            s.kind.name_spec(),
            s.outcome.name_spec(),
            encode_field_spec(s.detail),
        ],
    )
}

/// The header and scalar lines of the record file for `j`.
pub open spec fn record_head_lines(j: OperationJournalView) -> Seq<Seq<char>> {
    seq![
        "PARTBOOTER_OPERATION_V1"@,
        tab_join(seq!["operation_id"@, encode_field_spec(j.operation_id)]),
        tab_join(seq!["plan_id"@, encode_field_spec(j.plan_id)]),
        tab_join(seq!["backup_root"@, encode_field_spec(j.backup_root)]),
        tab_join(seq!["status"@, j.status.name_spec()]),
        tab_join(seq!["summary"@, encode_field_spec(j.summary)]),
    ]
}

/// All lines of the record file for `j`.
pub open spec fn record_file_lines(j: OperationJournalView) -> Seq<Seq<char>> {
    record_head_lines(j) + j.steps.map_values(|s: OperationStepRecordView| record_step_line(s))
}

/// The text of the record file for `j`.
pub open spec fn record_file_spec(j: OperationJournalView) -> Seq<char> {
    join_spec(record_file_lines(j), seq!['\n'])
}

impl OperationJournal {
    /// The header and scalar lines of this journal's record file.
    fn head_lines(&self) -> (lines: Vec<String>)
        ensures
            views(lines@) == record_head_lines(self@),
    {
        let mut lines: Vec<String> = Vec::new();
        lines.push("PARTBOOTER_OPERATION_V1".to_owned());
        let f = vec!["operation_id".to_owned(), encode_field(self.operation_id.as_str())];
        assert(views(f@) =~= seq!["operation_id"@, encode_field_spec(self.operation_id@)]);
        lines.push(tab_line(f));
        let f = vec!["plan_id".to_owned(), encode_field(self.plan_id.as_str())];
        assert(views(f@) =~= seq!["plan_id"@, encode_field_spec(self.plan_id@)]);
        lines.push(tab_line(f));
        let f = vec!["backup_root".to_owned(), encode_field(self.backup_root.as_str())];
        assert(views(f@) =~= seq!["backup_root"@, encode_field_spec(self.backup_root@)]);
        lines.push(tab_line(f));
        let f = vec!["status".to_owned(), self.status.as_str().to_owned()];
        assert(views(f@) =~= seq!["status"@, self.status.name_spec()]);
        lines.push(tab_line(f));
        let f = vec!["summary".to_owned(), encode_field(self.summary.as_str())];
        assert(views(f@) =~= seq!["summary"@, encode_field_spec(self.summary@)]);
        lines.push(tab_line(f));
        assert(views(lines@) =~= record_head_lines(self@));
        lines
    }

    pub fn to_record_file(&self) -> (text: String)
        ensures
            text@ == record_file_spec(self@),
    {
        let ghost head = record_head_lines(self@);
        let ghost steps = self@.steps.map_values(|s: OperationStepRecordView| record_step_line(s));
        let mut lines = self.head_lines();
        let mut i: usize = 0;
        while i < self.steps.len()
            invariant
                i <= self.steps@.len(),
                steps == self@.steps.map_values(|s: OperationStepRecordView| record_step_line(s)),
                views(lines@) =~= head + steps.take(i as int),
            decreases self.steps@.len() - i,
        {
            let line = step_record_line_text(&self.steps[i]);
            let ghost before = lines@;
            lines.push(line);
            proof {
                assert(views(lines@) =~= views(before).push(line@));
                assert(steps.take(i + 1) =~= steps.take(i as int).push(steps[i as int]));
            }
            i += 1;
        }
        assert(steps.take(steps.len() as int) =~= steps);
        assert(views(lines@) =~= record_file_lines(self@));
        let mut text = String::new();
        push_joined(&mut text, lines.as_slice(), '\n');
        assert(Seq::<char>::empty() + record_file_spec(self@) =~= record_file_spec(self@));
        text
    }
}

/// The record line of one step record.
fn step_record_line_text(st: &OperationStepRecord) -> (line: String)
    ensures
        line@ == record_step_line(st@),
{
    let f = vec![
        "step".to_owned(),
        decimal_string(st.step_id as u64),
        st.kind.as_str().to_owned(),
        st.outcome.as_str().to_owned(),
        encode_field(st.detail.as_str()),
    ];
    assert(views(f@) =~= seq![
        "step"@,
        decimal_spec(st.step_id as nat),
        st.kind.name_spec(),
        st.outcome.name_spec(),
        encode_field_spec(st.detail@),
    ]);
    tab_line(f)
}

// ---------------------------------------------------------------------
// Reading
// ---------------------------------------------------------------------

/// What has been read from a record file so far.
#[verifier::ext_equal]
pub struct RecordDraftView {
    pub operation_id: Option<Seq<char>>,
    pub plan_id: Option<Seq<char>>,
    pub backup_root: Option<Seq<char>>,
    pub status: Option<OperationStatus>,
    pub summary: Option<Seq<char>>,
    pub steps: Seq<OperationStepRecordView>,
}

pub open spec fn empty_record_draft() -> RecordDraftView {
    RecordDraftView {
        operation_id: None,
        plan_id: None,
        backup_root: None,
        status: None,
        summary: None,
        steps: seq![],
    }
}

/// The effect of one body line of a record file.
#[verifier::opaque]
pub open spec fn record_line_spec(d: RecordDraftView, line: Seq<char>) -> Result<
    RecordDraftView,
    Seq<char>,
> {
    let parts = split_spec(line, '\t');
    let key = parts[0];
    let n = parts.len();
    if key == "operation_id"@ && n == 2 {
        Ok(RecordDraftView { operation_id: decode_field_spec(parts[1]), ..d })
    } else if key == "plan_id"@ && n == 2 {
        Ok(RecordDraftView { plan_id: decode_field_spec(parts[1]), ..d })
    } else if key == "backup_root"@ && n == 2 {
        Ok(RecordDraftView { backup_root: decode_field_spec(parts[1]), ..d })
    } else if key == "status"@ && n == 2 {
        Ok(RecordDraftView { status: OperationStatus::parse_spec(parts[1]), ..d })
    } else if key == "summary"@ && n == 2 {
        Ok(RecordDraftView { summary: decode_field_spec(parts[1]), ..d })
    } else if key == "step"@ && n == 5 {
        match parse_u8_spec(parts[1]) {
            None => Err("invalid operation step id"@),
            Some(step_id) => match PlanStepKind::parse_spec(parts[2]) {
                None => Err("invalid operation step kind"@),
                Some(kind) => match ActionOutcome::parse_spec(parts[3]) {
                    None => Err("invalid operation step outcome"@),
                    Some(outcome) => match decode_field_spec(parts[4]) {
                        None => Err("invalid operation step detail"@),
                        Some(detail) => Ok(
                            RecordDraftView {
                                steps: d.steps.push(
                                    OperationStepRecordView { step_id, kind, outcome, detail },
                                ),
                                ..d
                            },
                        ),
                    },
                },
            },
        }
    } else {
        Ok(d)
    }
}

pub open spec fn record_lines_spec(d: RecordDraftView, lines: Seq<Seq<char>>) -> Result<
    RecordDraftView,
    Seq<char>,
>
    decreases lines.len(),
{
    if lines.len() == 0 {
        Ok(d)
    } else {
        match record_line_spec(d, lines[0]) {
            Err(e) => Err(e),
            Ok(d2) => record_lines_spec(d2, lines.skip(1)),
        }
    }
}

pub open spec fn record_finish_spec(d: RecordDraftView) -> Result<OperationJournalView, Seq<char>> {
    match d.operation_id {
        None => Err("missing operation id"@),
        Some(operation_id) => match d.plan_id {
            None => Err("missing plan id"@),
            Some(plan_id) => match d.backup_root {
                None => Err("missing backup root"@),
                Some(backup_root) => match d.status {
                    None => Err("missing status"@),
                    Some(status) => match d.summary {
                        None => Err("missing summary"@),
                        Some(summary) => Ok(
                            OperationJournalView {
                                operation_id,
                                plan_id,
                                backup_root,
                                status,
                                steps: d.steps,
                                summary,
                            },
                        ),
                    },
                },
            },
        },
    }
}

/// What reading `text` as an operation record file gives.
pub open spec fn read_record_spec(text: Seq<char>) -> Result<OperationJournalView, Seq<char>> {
    let ls = lines_spec(text);
    if ls.len() == 0 || ls[0] != "PARTBOOTER_OPERATION_V1"@ {
        Err("invalid PartBooter operation file header"@)
    } else {
        match record_lines_spec(empty_record_draft(), ls.skip(1)) {
            Err(e) => Err(e),
            Ok(d) => record_finish_spec(d),
        }
    }
}

struct RecordDraft {
    operation_id: Option<String>,
    plan_id: Option<String>,
    backup_root: Option<String>,
    status: Option<OperationStatus>,
    summary: Option<String>,
    steps: Vec<OperationStepRecord>,
}

impl View for RecordDraft {
    type V = RecordDraftView;

    closed spec fn view(&self) -> RecordDraftView {
        RecordDraftView {
            operation_id: opt_view(self.operation_id),
            plan_id: opt_view(self.plan_id),
            backup_root: opt_view(self.backup_root),
            status: self.status,
            summary: opt_view(self.summary),
            steps: record_views(self.steps@),
        }
    }
}

fn validation(message: &str) -> (e: AppError)
    ensures
        e.is(AppErrorKind::Validation, message@),
{
    error_from_str(AppErrorKind::Validation, message)
}

impl RecordDraft {
    fn new() -> (d: Self)
        ensures
            d@ == empty_record_draft(),
    {
        let d = RecordDraft {
            operation_id: None,
            plan_id: None,
            backup_root: None,
            status: None,
            summary: None,
            steps: Vec::new(),
        };
        assert(d@ =~= empty_record_draft());
        d
    }

    fn apply_line(&mut self, line: &str) -> (r: Result<(), AppError>)
        ensures
            match record_line_spec(old(self)@, line@) {
                Ok(d) => r is Ok && final(self)@ == d,
                Err(m) => r is Err && r->Err_0.is(AppErrorKind::Validation, m),
            },
    {
        reveal(record_line_spec);
        let chars = chars_of(line);
        let parts = split_chars(&chars, '\t');
        let n = parts.len();
        let key = parts[0].as_str();
        if text_eq(key, "operation_id") && n == 2 {
            self.operation_id = decode_field(parts[1].as_str());
            Ok(())
        } else if text_eq(key, "plan_id") && n == 2 {
            self.plan_id = decode_field(parts[1].as_str());
            Ok(())
        } else if text_eq(key, "backup_root") && n == 2 {
            self.backup_root = decode_field(parts[1].as_str());
            Ok(())
        } else if text_eq(key, "status") && n == 2 {
            self.status = OperationStatus::from_str(parts[1].as_str());
            Ok(())
        } else if text_eq(key, "summary") && n == 2 {
            self.summary = decode_field(parts[1].as_str());
            Ok(())
        } else if text_eq(key, "step") && n == 5 {
            let step_id = match parse_u8(parts[1].as_str()) {
                Some(id) => id,
                None => {
                    return Err(validation("invalid operation step id"));
                },
            };
            let kind = match PlanStepKind::from_str(parts[2].as_str()) {
                Some(kind) => kind,
                None => {
                    return Err(validation("invalid operation step kind"));
                },
            };
            let outcome = match ActionOutcome::from_str(parts[3].as_str()) {
                Some(outcome) => outcome,
                None => {
                    return Err(validation("invalid operation step outcome"));
                },
            };
            let detail = match decode_field(parts[4].as_str()) {
                Some(detail) => detail,
                None => {
                    return Err(validation("invalid operation step detail"));
                },
            };
            let record = OperationStepRecord { step_id, kind, outcome, detail };
            self.steps.push(record);
            proof {
                assert(record_views(self.steps@) =~= record_views(old(self).steps@).push(record@));
            }
            Ok(())
        } else {
            Ok(())
        }
    }

    fn finish(self) -> (r: Result<OperationJournal, AppError>)
        ensures
            matches_outcome(r, record_finish_spec(self@)),
    {
        let operation_id = match self.operation_id {
            Some(v) => v,
            None => {
                return Err(validation("missing operation id"));
            },
        };
        let plan_id = match self.plan_id {
            Some(v) => v,
            None => {
                return Err(validation("missing plan id"));
            },
        };
        let backup_root = match self.backup_root {
            Some(v) => v,
            None => {
                return Err(validation("missing backup root"));
            },
        };
        let status = match self.status {
            Some(v) => v,
            None => {
                return Err(validation("missing status"));
            },
        };
        let summary = match self.summary {
            Some(v) => v,
            None => {
                return Err(validation("missing summary"));
            },
        };
        let journal = OperationJournal {
            operation_id,
            plan_id,
            backup_root,
            status,
            steps: self.steps,
            summary,
        };
        assert(journal@ =~= record_finish_spec(self@)->Ok_0);
        Ok(journal)
    }
}

impl OperationJournal {
    pub fn from_record_file(input: &str) -> (r: Result<OperationJournal, AppError>)
        ensures
            matches_outcome(r, read_record_spec(input@)),
    {
        let lines = split_lines(input);
        let ghost ls = views(lines@);
        if lines.len() == 0 || !text_eq(lines[0].as_str(), "PARTBOOTER_OPERATION_V1") {
            return Err(validation("invalid PartBooter operation file header"));
        }
        let mut draft = RecordDraft::new();
        let mut i: usize = 1;
        while i < lines.len()
            invariant
                ls == views(lines@),
                ls == lines_spec(input@),
                1 <= i <= ls.len(),
                ls[0] == "PARTBOOTER_OPERATION_V1"@,
                record_lines_spec(empty_record_draft(), ls.skip(1)) == record_lines_spec(
                    draft@,
                    ls.skip(i as int),
                ),
            decreases ls.len() - i,
        {
            proof {
                assert(ls.skip(i as int)[0] == lines@[i as int]@);
                assert(ls.skip(i as int).skip(1) =~= ls.skip(i + 1));
            }
            let step = draft.apply_line(lines[i].as_str());
            match step {
                Ok(()) => {},
                Err(e) => {
                    return Err(e);
                },
            }
            i += 1;
        }
        proof {
            assert(ls.skip(i as int) =~= Seq::<Seq<char>>::empty());
        }
        draft.finish()
    }
}

}
