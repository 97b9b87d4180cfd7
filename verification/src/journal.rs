//! The on-disk layout of the journal store: where operations, saved plans
//! and backups live below the state root, what a backup manifest holds,
//! and which recorded operation is the latest.

use vstd::prelude::*;
use crate::error::{AppError, AppErrorKind};
use crate::json::{join_spec, join_strings, views};
use crate::model::{ExecutionPlan, ExecutionPlanView};
use crate::text::push_str;

verus! {

broadcast use vstd::seq_lib::group_seq_properties;

/// A path component that joins the same way on every host: non-empty, not
/// starting with `.` (so neither `.` nor `..`), and free of `/`, `\`, `:`
/// and `?`, so it can be neither a root, a drive prefix nor part of a
/// verbatim prefix.
pub open spec fn plain_component(part: Seq<char>) -> bool {
    &&& part.len() > 0
    &&& part[0] != '.'
    &&& forall|i: int|
        0 <= i < part.len() ==> #[trigger] part[i] != '/' && part[i] != '\\' && part[i] != ':'
            && part[i] != '?'
}

/// A path without `?`, so without a verbatim (`\\?\`) prefix, under which
/// a join on Windows would normalize the whole path.
pub open spec fn ordinary_path(path: Seq<char>) -> bool {
    forall|i: int| 0 <= i < path.len() ==> #[trigger] path[i] != '?'
}

/// `r` is `base` extended by `part` the way a path join does it on some
/// host: directly (after a trailing separator, an empty base or a bare
/// drive), or with `/` or `\` in between.
pub open spec fn joined(base: Seq<char>, part: Seq<char>, r: Seq<char>) -> bool {
    ||| r == base + part
    ||| r == base + seq!['/'] + part
    ||| r == base + seq!['\\'] + part
}

/// `r` is `base` extended by `first` and then by `second`.
pub open spec fn joined_twice(base: Seq<char>, first: Seq<char>, second: Seq<char>, r: Seq<char>) -> bool {
    exists|m: Seq<char>| #[trigger] joined(base, first, m) && joined(m, second, r)
}

/// An ordinary path joined with a plain component is ordinary.
pub proof fn lemma_joined_ordinary(base: Seq<char>, part: Seq<char>, r: Seq<char>)
    requires
        ordinary_path(base),
        plain_component(part),
        joined(base, part, r),
    ensures
        ordinary_path(r),
{
    assert forall|i: int| 0 <= i < r.len() implies #[trigger] r[i] != '?' by {
        if i < base.len() {
            assert(r[i] == base[i]);
        } else if r == base + part {
            assert(r[i] == part[i - base.len()]);
        } else if i > base.len() {
            assert(r[i] == part[i - base.len() - 1]);
        }
    }
}

/// `base` joined with `part` (std `Path::join`, read back as text).
/// Claims: for a plain component and a base without `?`, the result is
/// `base` followed by `part`, with at most one separator (`/` or `\`) put
/// between them. Which separator, and whether one is put, depends on the
/// host's path syntax and is left unsaid; so is what a join does under a
/// verbatim prefix, where Windows normalizes the path.
#[verifier::external_body]
pub(crate) fn join_path(base: &str, part: &str) -> (r: String)
    ensures
        plain_component(part@) && ordinary_path(base@) ==> joined(base@, part@, r@),
{
    std::path::Path::new(base).join(part).to_string_lossy().into_owned()
}

/// The journal store below a state root.
#[derive(Debug, Clone)]
pub struct FileJournalStore {
    root: String,
}

impl FileJournalStore {
    /// The state root this store lives under.
    pub closed spec fn root_view(&self) -> Seq<char> {
        self.root@
    }

    pub fn new(root: &str) -> (s: Self)
        ensures
            s.root_view() == root@,
    {
        FileJournalStore { root: root.to_owned() }
    }

    pub fn root(&self) -> (r: &str)
        ensures
            r@ == self.root_view(),
    {
        self.root.as_str()
    }

    /// The directory holding the operation records.
    pub fn operations_dir(&self) -> (r: String)
        ensures
            ordinary_path(self.root_view()) ==> joined(self.root_view(), "operations"@, r@)
                && ordinary_path(r@),
    {
        proof {
            reveal_strlit("operations");
            lemma_word_plain("operations"@);
        }
        let r = join_path(self.root.as_str(), "operations");
        proof {
            if ordinary_path(self.root_view()) {
                lemma_joined_ordinary(self.root_view(), "operations"@, r@);
            }
        }
        r
    }

    /// The directory holding the backups, one directory per plan.
    pub fn backups_dir(&self) -> (r: String)
        ensures
            ordinary_path(self.root_view()) ==> joined(self.root_view(), "backups"@, r@)
                && ordinary_path(r@),
    {
        proof {
            reveal_strlit("backups");
            lemma_word_plain("backups"@);
        }
        let r = join_path(self.root.as_str(), "backups");
        proof {
            if ordinary_path(self.root_view()) {
                lemma_joined_ordinary(self.root_view(), "backups"@, r@);
            }
        }
        r
    }

    /// The directory of one operation's artifacts.
    pub fn operation_dir(&self, operation_id: &str) -> (r: String)
        ensures
            ordinary_path(self.root_view()) && plain_component(operation_id@) ==> joined_twice(
                self.root_view(),
                "operations"@,
                operation_id@,
                r@,
            ) && ordinary_path(r@),
    {
        let dir = self.operations_dir();
        let r = join_path(dir.as_str(), operation_id);
        proof {
            if ordinary_path(self.root_view()) && plain_component(operation_id@) {
                assert(joined(self.root_view(), "operations"@, dir@));
                lemma_joined_ordinary(dir@, operation_id@, r@);
            }
        }
        r
    }

    /// Where the plan an operation applied is saved.
    pub fn operation_plan_path(&self, operation_id: &str) -> (r: String)
        ensures
            ordinary_path(self.root_view()) && plain_component(operation_id@) ==> exists|
                d: Seq<char>,
            |
                #[trigger] joined_twice(self.root_view(), "operations"@, operation_id@, d)
                    && joined(d, "plan.pbplan"@, r@),
    {
        proof {
            reveal_strlit("plan.pbplan");
            lemma_word_plain("plan.pbplan"@);
        }
        let dir = self.operation_dir(operation_id);
        let r = join_path(dir.as_str(), "plan.pbplan");
        proof {
            if ordinary_path(self.root_view()) && plain_component(operation_id@) {
                assert(joined_twice(self.root_view(), "operations"@, operation_id@, dir@));
            }
        }
        r
    }

    /// The backup directory of a plan.
    pub fn backup_root_for_plan(&self, plan_id: &str) -> (r: String)
        ensures
            ordinary_path(self.root_view()) && plain_component(plan_id@) ==> joined_twice(
                self.root_view(),
                "backups"@,
                plan_id@,
                r@,
            ) && ordinary_path(r@),
    {
        let dir = self.backups_dir();
        let r = join_path(dir.as_str(), plan_id);
        proof {
            if ordinary_path(self.root_view()) && plain_component(plan_id@) {
                assert(joined(self.root_view(), "backups"@, dir@));
                lemma_joined_ordinary(dir@, plan_id@, r@);
            }
        }
        r
    }

    /// The record file of an operation: `<operation_id>.pbop` in the
    /// operations directory.
    pub fn journal_path(&self, operation_id: &str) -> (r: String)
        ensures
            ordinary_path(self.root_view()) && plain_component(operation_id@) ==> joined_twice(
                self.root_view(),
                "operations"@,
                journal_file_name(operation_id@),
                r@,
            ),
    {
        let dir = self.operations_dir();
        let mut name = operation_id.to_owned();
        push_str(&mut name, ".pbop");
        proof {
            reveal_strlit(".pbop");
            if plain_component(operation_id@) {
                assert(name@ == journal_file_name(operation_id@));
                assert(name@[0] == operation_id@[0]);
                assert(plain_component(name@)) by {
                    assert forall|i: int| 0 <= i < name@.len() implies #[trigger] name@[i] != '/'
                        && name@[i] != '\\' && name@[i] != ':' && name@[i] != '?' by {
                        if i < operation_id@.len() {
                            assert(name@[i] == operation_id@[i]);
                        } else {
                            assert(name@[i] == ".pbop"@[i - operation_id@.len()]);
                        }
                    }
                }
            }
        }
        let r = join_path(dir.as_str(), name.as_str());
        proof {
            if ordinary_path(self.root_view()) && plain_component(operation_id@) {
                assert(joined(self.root_view(), "operations"@, dir@));
            }
        }
        r
    }
}

/// A literal word of lower-case letters, `.` and `-` that starts with a
/// letter is a plain component.
pub proof fn lemma_word_plain(name: Seq<char>)
    requires
        name.len() > 0,
        'a' <= name[0] <= 'z',
        forall|i: int|
            0 <= i < name.len() ==> ('a' <= #[trigger] name[i] <= 'z' || name[i] == '.' || name[i]
                == '-'),
    ensures
        plain_component(name),
{
}

/// The record file name of an operation.
pub open spec fn journal_file_name(operation_id: Seq<char>) -> Seq<char> {
    operation_id + ".pbop"@
}

/// The lines of a backup manifest.
pub open spec fn manifest_lines(
    plan: ExecutionPlanView,
    esp_backup_dir: Seq<char>,
    bcd_store_path: Seq<char>,
    notes: Seq<Seq<char>>,
) -> Seq<Seq<char>> {
    seq![
        "PARTBOOTER_BACKUP_MANIFEST_V1"@,
        "plan_id="@ + plan.plan_id,
        "payload="@ + plan.payload.source_path,
        "target_volume="@ + plan.target_volume,
        "esp_backup_dir="@ + esp_backup_dir,
        "bcd_store_path="@ + bcd_store_path,
    ] + notes.map_values(|n: Seq<char>| "note="@ + n)
}

/// The text of the backup manifest written next to a plan's backup: a
/// header, the plan and payload it protects, where the ESP copy and the
/// BCD export are, and one `note=` line per checkpoint note.
pub fn backup_manifest_text(
    plan: &ExecutionPlan,
    esp_backup_dir: &str,
    bcd_store_path: &str,
    notes: &[String],
) -> (r: String)
    ensures
        r@ == join_spec(manifest_lines(plan@, esp_backup_dir@, bcd_store_path@, views(notes@)), "\n"@),
{
    let mut lines: Vec<String> = Vec::new();
    lines.push("PARTBOOTER_BACKUP_MANIFEST_V1".to_owned());
    let mut l1 = "plan_id=".to_owned();
    push_str(&mut l1, plan.plan_id.as_str());
    lines.push(l1);
    let mut l2 = "payload=".to_owned();
    push_str(&mut l2, plan.payload.source_path.as_str());
    lines.push(l2);
    let mut l3 = "target_volume=".to_owned();
    push_str(&mut l3, plan.target_volume.as_str());
    lines.push(l3);
    let mut l4 = "esp_backup_dir=".to_owned();
    push_str(&mut l4, esp_backup_dir);
    lines.push(l4);
    let mut l5 = "bcd_store_path=".to_owned();
    push_str(&mut l5, bcd_store_path);
    lines.push(l5);
    let ghost head = views(lines@);
    let ghost ns = views(notes@);
    let mut i: usize = 0;
    while i < notes.len()
        invariant
            i <= notes@.len(),
            ns == views(notes@),
            head.len() == 6,
            views(lines@) =~= head + ns.take(i as int).map_values(|n: Seq<char>| "note="@ + n),
        decreases notes@.len() - i,
    {
        let mut line = "note=".to_owned();
        push_str(&mut line, notes[i].as_str());
        let ghost before = lines@;
        lines.push(line);
        proof {
            assert(views(lines@) =~= views(before).push(line@));
            assert(ns.take(i + 1).map_values(|n: Seq<char>| "note="@ + n) =~= ns.take(
                i as int,
            ).map_values(|n: Seq<char>| "note="@ + n).push("note="@ + ns[i as int]));
        }
        i += 1;
    }
    proof {
        assert(ns.take(notes@.len() as int) =~= ns);
        assert(views(lines@) =~= manifest_lines(plan@, esp_backup_dir@, bcd_store_path@, ns));
    }
    join_strings(lines.as_slice(), "\n")
}

/// A recorded operation found in the journal store: its identifier and
/// when its record was last modified (nanoseconds from the Unix epoch,
/// negative before it).
pub struct RecordedOperation {
    pub operation_id: String,
    pub modified: i128,
}

/// Whether the extension of a file in the operations directory marks an
/// operation record.
pub fn is_record_extension(extension: Option<&str>) -> (r: bool)
    ensures
        r == (extension matches Some(e) && e@ == "pbop"@),
{
    match extension {
        Some(e) => crate::text::text_eq(e, "pbop"),
        None => false,
    }
}

/// `k` is the first position at which the latest modification time occurs.
pub open spec fn is_latest(ops: Seq<RecordedOperation>, k: int) -> bool {
    &&& 0 <= k < ops.len()
    &&& forall|j: int| 0 <= j < k ==> ops[j].modified < ops[k].modified
    &&& forall|j: int| k < j < ops.len() ==> ops[j].modified <= ops[k].modified
}

/// The latest recorded operation: the one modified last, the first found
/// among equally recent ones; a validation error when there is none.
pub fn latest_operation_id(ops: &Vec<RecordedOperation>) -> (r: Result<String, AppError>)
    ensures
        ops@.len() == 0 ==> r is Err && r->Err_0.is(
            AppErrorKind::Validation,
            "no recorded operations exist in the journal store"@,
        ),
        ops@.len() > 0 ==> r is Ok && exists|k: int|
            #[trigger] is_latest(ops@, k) && r->Ok_0@ == ops@[k].operation_id@,
{
    if ops.len() == 0 {
        return Err(
            AppError::new(
                AppErrorKind::Validation,
                "no recorded operations exist in the journal store".to_owned(),
            ),
        );
    }
    let mut best: usize = 0;
    let mut i: usize = 1;
    while i < ops.len()
        invariant
            1 <= i <= ops@.len(),
            best < i,
            forall|j: int| 0 <= j < best ==> ops@[j].modified < ops@[best as int].modified,
            forall|j: int| best < j < i ==> ops@[j].modified <= ops@[best as int].modified,
        decreases ops@.len() - i,
    {
        if ops[i].modified > ops[best].modified {
            best = i;
        }
        i += 1;
    }
    proof {
        assert(is_latest(ops@, best as int));
    }
    Ok(ops[best].operation_id.clone())
}

}
