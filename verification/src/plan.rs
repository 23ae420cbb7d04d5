//! Assembling the row groups that matched a query into one access plan per
//! file.

use vstd::prelude::*;
use datafusion::datasource::physical_plan::parquet::ParquetAccessPlan;
use datafusion::datasource::physical_plan::parquet::RowGroupAccess;

verus! {

/// `ParquetAccessPlan` of `datafusion`: for each row group of a file, how a
/// scan reads it.
#[verifier::external_type_specification]
#[verifier::external_body]
pub struct ExParquetAccessPlan(ParquetAccessPlan);

/// No entry of an access plan takes more bytes than this. A plan is one
/// allocation, which cannot exceed `isize::MAX` bytes.
pub const PLAN_ENTRY_BYTES: u64 = 32;

/// For each row group of an access plan, whether it is read.
pub uninterp spec fn plan_scans(plan: ParquetAccessPlan) -> Seq<bool>;

/// `ParquetAccessPlan::new_none`: a plan of `row_group_count` row groups,
/// none of which is read. The outside function allocates the plan at once
/// and panics on a size that no allocation can have.
#[verifier::external_body]
fn access_plan_none(row_group_count: usize) -> (plan: ParquetAccessPlan)
    requires
        row_group_count * PLAN_ENTRY_BYTES <= isize::MAX,
    ensures
        plan_scans(plan) == Seq::new(row_group_count as nat, |i: int| false),
{
    ParquetAccessPlan::new_none(row_group_count)
}

/// `ParquetAccessPlan::set` with `RowGroupAccess::Scan`: row group `idx` is
/// read in full, the others stay as they are. The outside function panics on
/// an index past the end.
#[verifier::external_body]
fn access_plan_scan(plan: &mut ParquetAccessPlan, idx: usize)
    requires
        idx < plan_scans(*old(plan)).len(),
    ensures
        plan_scans(*final(plan)) == plan_scans(*old(plan)).update(idx as int, true),
{
    plan.set(idx, RowGroupAccess::Scan)
}

/// What to read of one file: its size, and which of its row groups.
#[derive(Debug)]
pub struct FileScanPlan {
    pub file_size: u64,
    pub access_plan: ParquetAccessPlan,
}

/// One row of the answer to a candidates query: a row group that may hold
/// matching rows, with the size and the number of row groups of its file.
#[derive(Debug, Clone, PartialEq, Eq)]
pub struct CandidateRow {
    pub file_name: String,
    pub file_size: i64,
    pub row_group_count: i64,
    pub row_group: i64,
}

/// The candidate row that a file's plan could not be built from.
#[derive(Clone, Copy, Debug, PartialEq, Eq, Structural)]
pub struct MalformedRow {
    /// Position of the first such row.
    pub index: usize,
}

/// The mathematical value of one entry of a scan plan: a file name with the
/// file's size and, for each of its row groups, whether it is read.
pub struct PlanEntry {
    pub name: Seq<char>,
    pub file_size: u64,
    pub scans: Seq<bool>,
}

pub open spec fn entry_view(entry: (String, FileScanPlan)) -> PlanEntry {
    PlanEntry {
        name: entry.0@,
        file_size: entry.1.file_size,
        scans: plan_scans(entry.1.access_plan),
    }
}

pub open spec fn entries_view(entries: Seq<(String, FileScanPlan)>) -> Seq<PlanEntry> {
    Seq::new(entries.len(), |i: int| entry_view(entries[i]))
}

/// Row `f` is the first row of the file called `name`.
pub open spec fn first_row(rows: Seq<CandidateRow>, name: Seq<char>, f: int) -> bool {
    &&& 0 <= f < rows.len()
    &&& rows[f].file_name@ == name
    &&& forall|j: int| 0 <= j < f ==> (#[trigger] rows[j]).file_name@ != name
}

/// A plan can be made from the file's first row, and `row` names one of the
/// row groups that this plan has.
pub open spec fn row_fits(first: CandidateRow, row: CandidateRow) -> bool {
    &&& 0 <= first.file_size
    &&& 0 <= first.row_group_count
    &&& first.row_group_count * PLAN_ENTRY_BYTES <= isize::MAX
    &&& 0 <= row.row_group < first.row_group_count
}

/// Row `k` fits the plan of its file, which the file's first row sizes.
pub open spec fn row_valid(rows: Seq<CandidateRow>, k: int) -> bool {
    forall|f: int| first_row(rows, rows[k].file_name@, f) ==> row_fits(rows[f], rows[k])
}

/// Row `k`, one of the first `n`, is row group `g` of the file called `name`.
pub open spec fn candidate_at(rows: Seq<CandidateRow>, n: int, name: Seq<char>, g: int, k: int) -> bool {
    0 <= k < n && k < rows.len() && rows[k].file_name@ == name && rows[k].row_group == g
}

/// Row group `g` of the file called `name` is among the first `n` rows.
pub open spec fn is_candidate(rows: Seq<CandidateRow>, n: int, name: Seq<char>, g: int) -> bool {
    exists|k: int| #[trigger] candidate_at(rows, n, name, g, k)
}

/// `entry` is the plan of the file whose first row is `f`: it has the size
/// and the number of row groups that row `f` gives, and reads exactly the
/// row groups of that file that are among the first `n` rows.
pub open spec fn entry_of(rows: Seq<CandidateRow>, n: int, f: int, entry: PlanEntry) -> bool {
    &&& first_row(rows, entry.name, f)
    &&& f < n
    &&& entry.file_size == rows[f].file_size
    &&& entry.scans.len() == rows[f].row_group_count
    &&& forall|g: int|
        0 <= g < entry.scans.len() ==> (#[trigger] entry.scans[g]) == is_candidate(
            rows,
            n,
            entry.name,
            g,
        )
}

/// Entry `i` is the one of the file called `name`.
pub open spec fn names_entry(entries: Seq<PlanEntry>, name: Seq<char>, i: int) -> bool {
    0 <= i < entries.len() && entries[i].name == name
}

/// The file of row `k` has an entry.
pub open spec fn row_covered(rows: Seq<CandidateRow>, entries: Seq<PlanEntry>, k: int) -> bool {
    exists|i: int| #[trigger] names_entry(entries, rows[k].file_name@, i)
}

/// `entries` is the scan plan of the first `n` rows, and `firsts` gives the
/// first row of each entry's file: every file with a row has one entry,
/// the entries stand in the order in which their files first occur, and a file
/// without a row has none.
pub open spec fn plan_witness(
    rows: Seq<CandidateRow>,
    n: int,
    entries: Seq<PlanEntry>,
    firsts: Seq<int>,
) -> bool {
    &&& firsts.len() == entries.len()
    &&& forall|i: int| 0 <= i < entries.len() ==> entry_of(rows, n, #[trigger] firsts[i], entries[i])
    &&& forall|i: int, j: int|
        0 <= i < j < entries.len() ==> (#[trigger] firsts[i]) < (#[trigger] firsts[j])
    &&& forall|k: int| 0 <= k < n ==> #[trigger] row_covered(rows, entries, k)
}

/// `entries` is the scan plan of `rows`.
pub open spec fn is_plan_of(rows: Seq<CandidateRow>, entries: Seq<PlanEntry>) -> bool {
    exists|firsts: Seq<int>| #[trigger] plan_witness(rows, rows.len() as int, entries, firsts)
}


/// Taking one more row into account adds its row group to its own file's
/// candidates and changes nothing for the other files and row groups.
proof fn lemma_candidate_step(rows: Seq<CandidateRow>, k: int, name: Seq<char>, g: int)
    requires
        0 <= k < rows.len(),
    ensures
        is_candidate(rows, k + 1, name, g) == (is_candidate(rows, k, name, g) || (
        rows[k].file_name@ == name && rows[k].row_group == g)),
{
    let n = k + 1;
    if is_candidate(rows, n, name, g) {
        let w = choose|w: int| #[trigger] candidate_at(rows, n, name, g, w);
        if w != k {
            assert(candidate_at(rows, k, name, g, w));
        }
    }
    if is_candidate(rows, k, name, g) {
        let w = choose|w: int| #[trigger] candidate_at(rows, k, name, g, w);
        assert(candidate_at(rows, n, name, g, w));
    }
    if rows[k].file_name@ == name && rows[k].row_group == g {
        assert(candidate_at(rows, n, name, g, k));
    }
}

/// The first row of a file is unique.
proof fn lemma_first_row_unique(rows: Seq<CandidateRow>, name: Seq<char>, a: int, b: int)
    requires
        first_row(rows, name, a),
        first_row(rows, name, b),
    ensures
        a == b,
{
    if a < b {
        assert(rows[a].file_name@ == name);
    }
    if b < a {
        assert(rows[b].file_name@ == name);
    }
}

/// The position of the entry of the file called `name`, if it has one.
fn find_entry(entries: &Vec<(String, FileScanPlan)>, name: &String) -> (found: Option<usize>)
    ensures
        match found {
            Some(i) => names_entry(entries_view(entries@), name@, i as int),
            None => forall|i: int| !names_entry(entries_view(entries@), name@, i),
        },
{
    let mut i: usize = 0;
    while i < entries.len()
        invariant
            i <= entries@.len(),
            forall|j: int| 0 <= j < i ==> !names_entry(entries_view(entries@), name@, j),
        decreases entries@.len() - i,
    {
        if entries[i].0 == *name {
            return Some(i);
        }
        i += 1;
    }
    None
}

/// Groups the candidate rows by file and builds one access plan per file.
///
/// The plan of a file has as many row groups as the file's first row says,
/// reads exactly the row groups that the file's rows name and skips the
/// others. Files stand in the order in which they first occur; a file without
/// a row has no entry. A row that does not fit its file's plan, or a file
/// whose first row gives a negative size or a number of row groups that no
/// plan can have, is reported with the position of the first such row.
pub fn plan(rows: &Vec<CandidateRow>) -> (result: Result<Vec<(String, FileScanPlan)>, MalformedRow>)
    ensures
        match result {
            Ok(entries) => {
                &&& forall|k: int| 0 <= k < rows@.len() ==> row_valid(rows@, k)
                &&& is_plan_of(rows@, entries_view(entries@))
            },
            Err(e) => {
                &&& e.index < rows@.len()
                &&& !row_valid(rows@, e.index as int)
                &&& forall|k: int| 0 <= k < e.index ==> row_valid(rows@, k)
            },
        },
{
    let mut entries: Vec<(String, FileScanPlan)> = Vec::new();
    let mut firsts: Vec<usize> = Vec::new();
    let mut k: usize = 0;
    while k < rows.len()
        invariant
            k <= rows@.len(),
            forall|j: int| 0 <= j < k ==> row_valid(rows@, j),
            plan_witness(
                rows@,
                k as int,
                entries_view(entries@),
                Seq::new(firsts@.len(), |i: int| firsts@[i] as int),
            ),
        decreases rows@.len() - k,
    {
        let ghost old_entries = entries_view(entries@);
        let ghost old_firsts = Seq::new(firsts@.len(), |i: int| firsts@[i] as int);
        let row = &rows[k];
        let ghost name = row.file_name@;
        let found = find_entry(&entries, &row.file_name);
        match found {
            Some(i) => {
                let f = firsts[i];
                assert(old_firsts[i as int] == f);
                assert(entry_of(rows@, k as int, f as int, old_entries[i as int]));
                let first = &rows[f];
                proof {
                    assert(row_valid(rows@, f as int));
                    assert(row_fits(rows@[f as int], rows@[f as int]));
                    assert forall|a: int| first_row(rows@, name, a) implies a == f by {
                        lemma_first_row_unique(rows@, name, a, f as int);
                    }
                }
                if row.row_group < 0 || row.row_group >= first.row_group_count {
                    assert(!row_fits(rows@[f as int], rows@[k as int]));
                    return Err(MalformedRow { index: k });
                }
                assert(row_valid(rows@, k as int));
                access_plan_scan(&mut entries[i].1.access_plan, row.row_group as usize);
                proof {
                    let new_entries = entries_view(entries@);
                    assert forall|j: int| 0 <= j < new_entries.len() implies entry_of(
                        rows@,
                        k + 1,
                        #[trigger] old_firsts[j],
                        new_entries[j],
                    ) by {
                        assert(entry_of(rows@, k as int, old_firsts[j], old_entries[j]));
                        if j != i {
                            assert(new_entries[j] == old_entries[j]);
                            if old_entries[j].name == name {
                                lemma_first_row_unique(rows@, name, old_firsts[j], f as int);
                            }
                        }
                        assert forall|g: int| 0 <= g < new_entries[j].scans.len() implies (
                        #[trigger] new_entries[j].scans[g]) == is_candidate(
                            rows@,
                            k + 1,
                            new_entries[j].name,
                            g,
                        ) by {
                            lemma_candidate_step(rows@, k as int, new_entries[j].name, g);
                            assert(old_entries[j].scans[g] == is_candidate(
                                rows@,
                                k as int,
                                old_entries[j].name,
                                g,
                            ));
                        }
                    }
                    assert forall|q: int| 0 <= q < k + 1 implies #[trigger] row_covered(
                        rows@,
                        new_entries,
                        q,
                    ) by {
                        if q < k {
                            assert(row_covered(rows@, old_entries, q));
                            let j = choose|j: int| #[trigger] names_entry(old_entries, rows@[q].file_name@, j);
                            assert(names_entry(new_entries, rows@[q].file_name@, j));
                        } else {
                            assert(names_entry(new_entries, rows@[q].file_name@, i as int));
                        }
                    }
                }
            },
            None => {
                proof {
                    assert forall|j: int| 0 <= j < k implies (#[trigger] rows@[j]).file_name@
                        != name by {
                        assert(row_covered(rows@, old_entries, j));
                        let i = choose|i: int| #[trigger] names_entry(old_entries, rows@[j].file_name@, i);
                        assert(names_entry(old_entries, rows@[j].file_name@, i));
                    }
                    assert(first_row(rows@, name, k as int));
                }
                if row.file_size < 0 || row.row_group_count < 0 || row.row_group_count as u64 > (
                isize::MAX as u64) / PLAN_ENTRY_BYTES || row.row_group < 0 || row.row_group
                    >= row.row_group_count {
                    assert(!row_fits(rows@[k as int], rows@[k as int]));
                    return Err(MalformedRow { index: k });
                }
                proof {
                    assert forall|a: int| first_row(rows@, name, a) implies row_fits(
                        rows@[a],
                        rows@[k as int],
                    ) by {
                        lemma_first_row_unique(rows@, name, a, k as int);
                    }
                }
                let mut access_plan = access_plan_none(row.row_group_count as usize);
                access_plan_scan(&mut access_plan, row.row_group as usize);
                let entry = (
                    row.file_name.clone(),
                    FileScanPlan { file_size: row.file_size as u64, access_plan },
                );
                entries.push(entry);
                firsts.push(k);
                proof {
                    let new_entries = entries_view(entries@);
                    let new_firsts = Seq::new(firsts@.len(), |i: int| firsts@[i] as int);
                    let last = old_entries.len() as int;
                    assert forall|j: int| 0 <= j < new_entries.len() implies entry_of(
                        rows@,
                        k + 1,
                        #[trigger] new_firsts[j],
                        new_entries[j],
                    ) by {
                        if j < last {
                            assert(entry_of(rows@, k as int, old_firsts[j], old_entries[j]));
                        }
                        assert forall|g: int| 0 <= g < new_entries[j].scans.len() implies (
                        #[trigger] new_entries[j].scans[g]) == is_candidate(
                            rows@,
                            k + 1,
                            new_entries[j].name,
                            g,
                        ) by {
                            lemma_candidate_step(rows@, k as int, new_entries[j].name, g);
                            if j < last {
                                assert(old_entries[j].scans[g] == is_candidate(
                                    rows@,
                                    k as int,
                                    old_entries[j].name,
                                    g,
                                ));
                            } else {
                                if is_candidate(rows@, k as int, name, g) {
                                    let w = choose|w: int| #[trigger] candidate_at(rows@, k as int, name, g, w);
                                    assert(rows@[w].file_name@ == name);
                                }
                            }
                        }
                    }
                    assert forall|a: int, b: int| 0 <= a < b < new_entries.len() implies (
                    #[trigger] new_firsts[a]) < (#[trigger] new_firsts[b]) by {
                        if b < last {
                            assert(old_firsts[a] < old_firsts[b]);
                        } else {
                            assert(entry_of(rows@, k as int, old_firsts[a], old_entries[a]));
                        }
                    }
                    assert forall|q: int| 0 <= q < k + 1 implies #[trigger] row_covered(
                        rows@,
                        new_entries,
                        q,
                    ) by {
                        if q < k {
                            assert(row_covered(rows@, old_entries, q));
                            let j = choose|j: int| #[trigger] names_entry(old_entries, rows@[q].file_name@, j);
                            assert(names_entry(new_entries, rows@[q].file_name@, j));
                        } else {
                            assert(names_entry(new_entries, rows@[q].file_name@, last));
                        }
                    }
                }
            },
        }
        k += 1;
    }
    Ok(entries)
}


/// No candidate is lost: whatever rows the store gave, the plan has an entry
/// for the file of each row, and that entry reads the row group that the
/// row names.
pub proof fn plan_keeps_every_candidate(rows: Seq<CandidateRow>, entries: Seq<PlanEntry>, k: int)
    requires
        is_plan_of(rows, entries),
        0 <= k < rows.len(),
        row_valid(rows, k),
    ensures
        exists|i: int| #[trigger]
            names_entry(entries, rows[k].file_name@, i) && 0 <= rows[k].row_group
                < entries[i].scans.len() && entries[i].scans[rows[k].row_group as int],
{
    let n = rows.len() as int;
    let firsts = choose|firsts: Seq<int>| #[trigger] plan_witness(rows, n, entries, firsts);
    assert(row_covered(rows, entries, k));
    let name = rows[k].file_name@;
    let i = choose|i: int| #[trigger] names_entry(entries, name, i);
    assert(entry_of(rows, n, firsts[i], entries[i]));
    assert(row_fits(rows[firsts[i]], rows[k]));
    let g = rows[k].row_group as int;
    assert(candidate_at(rows, n, name, g, k));
    assert(entries[i].scans[g] == is_candidate(rows, n, name, g));
    assert(names_entry(entries, rows[k].file_name@, i) && 0 <= rows[k].row_group
        < entries[i].scans.len() && entries[i].scans[rows[k].row_group as int]);
}

/// No file has two entries.
pub proof fn plan_names_each_file_once(
    rows: Seq<CandidateRow>,
    entries: Seq<PlanEntry>,
    i: int,
    j: int,
)
    requires
        is_plan_of(rows, entries),
        0 <= i < j < entries.len(),
    ensures
        entries[i].name != entries[j].name,
{
    let n = rows.len() as int;
    let firsts = choose|firsts: Seq<int>| #[trigger] plan_witness(rows, n, entries, firsts);
    assert(entry_of(rows, n, firsts[i], entries[i]));
    assert(entry_of(rows, n, firsts[j], entries[j]));
    assert(firsts[i] < firsts[j]);
    if entries[i].name == entries[j].name {
        lemma_first_row_unique(rows, entries[i].name, firsts[i], firsts[j]);
    }
}

/// Where the rows are row groups of one file and every one of its `n` row
/// groups is among them, in whatever order and however often, the plan is
/// that file alone with all of its row groups read.
pub proof fn plan_of_whole_file(
    rows: Seq<CandidateRow>,
    entries: Seq<PlanEntry>,
    name: Seq<char>,
    n: int,
)
    requires
        is_plan_of(rows, entries),
        rows.len() > 0,
        forall|k: int|
            0 <= k < rows.len() ==> (#[trigger] rows[k]).file_name@ == name
                && rows[k].row_group_count == n,
        forall|g: int| 0 <= g < n ==> is_candidate(rows, rows.len() as int, name, g),
    ensures
        entries.len() == 1,
        entries[0].name == name,
        entries[0].scans == Seq::new(n as nat, |g: int| true),
{
    let len = rows.len() as int;
    let firsts = choose|firsts: Seq<int>| #[trigger] plan_witness(rows, len, entries, firsts);
    assert(row_covered(rows, entries, 0));
    assert(entries.len() >= 1);
    assert forall|j: int| 0 <= j < entries.len() implies (#[trigger] entries[j]).name == name by {
        assert(entry_of(rows, len, firsts[j], entries[j]));
        assert(rows[firsts[j]].file_name@ == name);
    }
    if entries.len() > 1 {
        plan_names_each_file_once(rows, entries, 0, 1);
        assert(entries[0].name == name);
        assert(entries[1].name == name);
    }
    assert(entry_of(rows, len, firsts[0], entries[0]));
    assert(rows[firsts[0]].row_group_count == n);
    assert(entries[0].scans =~= Seq::new(n as nat, |g: int| true));
}

} // verus!
