//! Bulk upload of employees from a CSV file: the records are cut into
//! chunks that are inserted concurrently, and the chunks' outcomes are
//! tallied into the answer.
use vstd::prelude::*;
use crate::errors::AppError;

verus! {

/// One row of an uploaded CSV file (columns `name` and `department`).
#[derive(Debug, Clone, PartialEq, Eq)]
pub struct CsvRecord {
    pub name: String,
    pub department: String,
}

/// The answer to a bulk upload.
#[derive(Debug, Clone, PartialEq, Eq)]
pub struct BulkUploadResponse {
    /// Rows inserted by the chunks that succeeded.
    pub total_inserted: usize,
    /// Chunks that were processed, successful or not.
    pub chunks_processed: usize,
}

/// The multipart form of a bulk upload.
#[derive(Debug, Clone, PartialEq, Eq)]
pub struct BulkUploadForm {
    /// The CSV file to upload.
    pub file: Vec<u8>,
}

/// The number of records in each chunk but the last.
pub const CHUNK_SIZE: usize = 500;

/// The number of chunks that `n` records make.
pub open spec fn chunk_count(n: nat) -> nat {
    ((n + 499) / 500) as nat
}

/// The `i`-th chunk of `records`: records `500 i` up to `500 i + 500`, or
/// to the end.
pub open spec fn chunk_at(records: Seq<CsvRecord>, i: int) -> Seq<CsvRecord> {
    let end: int = if 500 * i + 500 <= records.len() {
        500 * i + 500
    } else {
        records.len() as int
    };
    records.subrange(500 * i, end)
}

/// The chunks of `records` put back one after the other.
pub open spec fn joined(chunks: Seq<Seq<CsvRecord>>) -> Seq<CsvRecord>
    decreases chunks.len(),
{
    if chunks.len() == 0 {
        Seq::empty()
    } else {
        joined(chunks.drop_last()) + chunks.last()
    }
}

/// The rows inserted by the chunks that succeeded (`Some` holds a chunk's
/// inserted rows, `None` a failed chunk).
pub open spec fn sum_inserted(outcomes: Seq<Option<usize>>) -> nat
    decreases outcomes.len(),
{
    if outcomes.len() == 0 {
        0
    } else {
        sum_inserted(outcomes.drop_last()) + match outcomes.last() {
            Some(k) => k as nat,
            None => 0nat,
        }
    }
}

/// The tally adds up over runs of chunks: the rows of two runs together are
/// the rows of the first plus the rows of the second, whatever chunks failed.
pub proof fn lemma_sum_inserted_additive(a: Seq<Option<usize>>, b: Seq<Option<usize>>)
    ensures
        sum_inserted(a + b) == sum_inserted(a) + sum_inserted(b),
    decreases b.len(),
{
    if b.len() == 0 {
        assert(a + b =~= a);
    } else {
        lemma_sum_inserted_additive(a, b.drop_last());
        assert((a + b).drop_last() =~= a + b.drop_last());
        assert((a + b).last() == b.last());
    }
}

/// A failed chunk adds no rows; a successful chunk adds the rows it inserted.
pub proof fn lemma_sum_inserted_single(k: usize)
    ensures
        sum_inserted(seq![None]) == 0,
        sum_inserted(seq![Some(k)]) == k,
{
    let none: Seq<Option<usize>> = seq![None];
    let some: Seq<Option<usize>> = seq![Some(k)];
    assert(sum_inserted(Seq::<Option<usize>>::empty()) == 0);
    assert(none.drop_last() =~= Seq::<Option<usize>>::empty());
    assert(some.drop_last() =~= Seq::<Option<usize>>::empty());
    assert(none.last() == None::<usize>);
    assert(some.last() == Some(k));
    assert(sum_inserted(none) == 0);
    assert(sum_inserted(some) == k);
}

/// Fails with "No file uploaded" (internal error) when no file content was
/// received.
pub fn check_upload(raw: &[u8]) -> (r: Result<(), AppError>)
    ensures
        r is Ok <==> raw@.len() > 0,
        r is Err ==> (r matches Err(AppError::Internal(m)) && m@ == "No file uploaded"@),
{
    if raw.len() == 0 {
        Err(AppError::Internal(String::from_str("No file uploaded")))
    } else {
        Ok(())
    }
}

proof fn lemma_chunk_step(n: nat, k: nat)
    requires
        500 * k < n,
    ensures
        n <= 500 * k + 500 ==> chunk_count(n) == k + 1,
        500 * k + 500 < n ==> k + 1 < chunk_count(n),
        k < chunk_count(n),
{
    assert(n <= 500 * k + 500 ==> (n + 499) / 500 == k + 1) by (nonlinear_arith)
        requires 500 * k < n;
    assert(500 * k + 500 < n ==> k + 1 < (n + 499) / 500) by (nonlinear_arith);
    assert(k < (n + 499) / 500) by (nonlinear_arith)
        requires 500 * k < n;
}

/// How many records the first `k` chunks of `n` records hold.
pub open spec fn covered(n: nat, k: nat) -> int {
    if 500 * k <= n {
        (500 * k) as int
    } else {
        n as int
    }
}

/// Every chunk starts before the end of the records.
proof fn lemma_chunk_start(n: nat, k: nat)
    requires
        k < chunk_count(n),
    ensures
        500 * k < n,
{
    assert(500 * k < n) by (nonlinear_arith)
        requires k < (n + 499) / 500;
}

/// Every chunk holds between 1 and 500 records, and every chunk but the last
/// exactly 500.
pub proof fn lemma_chunk_sizes(records: Seq<CsvRecord>, i: int)
    requires
        0 <= i < chunk_count(records.len()),
    ensures
        1 <= chunk_at(records, i).len() <= 500,
        i + 1 < chunk_count(records.len()) ==> chunk_at(records, i).len() == 500,
{
    lemma_chunk_start(records.len(), i as nat);
    if i + 1 < chunk_count(records.len()) {
        lemma_chunk_start(records.len(), (i + 1) as nat);
    }
}

proof fn lemma_rejoin_prefix(records: Seq<CsvRecord>, chunks: Seq<Seq<CsvRecord>>, k: nat)
    requires
        chunks.len() == chunk_count(records.len()),
        forall|i: int| 0 <= i < chunks.len() ==> #[trigger] chunks[i] == chunk_at(records, i),
        k <= chunks.len(),
    ensures
        joined(chunks.take(k as int)) == records.take(covered(records.len(), k)),
    decreases k,
{
    if k == 0 {
        assert(chunks.take(0) =~= Seq::<Seq<CsvRecord>>::empty());
        assert(records.take(0) =~= Seq::<CsvRecord>::empty());
    } else {
        let j: nat = (k - 1) as nat;
        lemma_rejoin_prefix(records, chunks, j);
        lemma_chunk_start(records.len(), j);
        assert(chunks.take(k as int).drop_last() =~= chunks.take(j as int));
        assert(chunks.take(k as int).last() == chunks[j as int]);
        assert(records.take((500 * j) as int) + chunk_at(records, j as int) =~= records.take(
            covered(records.len(), k),
        ));
    }
}

/// The chunks, put back one after the other, give the records back: no
/// record is lost, repeated or moved.
pub proof fn lemma_chunks_rejoin(records: Seq<CsvRecord>, chunks: Seq<Seq<CsvRecord>>)
    requires
        chunks.len() == chunk_count(records.len()),
        forall|i: int| 0 <= i < chunks.len() ==> #[trigger] chunks[i] == chunk_at(records, i),
    ensures
        joined(chunks) == records,
{
    let k: nat = chunks.len();
    lemma_rejoin_prefix(records, chunks, k);
    assert(chunks.take(k as int) =~= chunks);
    assert(500 * k >= records.len()) by (nonlinear_arith)
        requires k == (records.len() + 499) / 500;
    assert(records.take(records.len() as int) =~= records);
}

proof fn lemma_full_success_prefix(records: Seq<CsvRecord>, outcomes: Seq<Option<usize>>, k: nat)
    requires
        outcomes.len() == chunk_count(records.len()),
        forall|i: int|
            0 <= i < outcomes.len() ==> #[trigger] outcomes[i] == Some(
                chunk_at(records, i).len() as usize,
            ),
        k <= outcomes.len(),
    ensures
        sum_inserted(outcomes.take(k as int)) == covered(records.len(), k),
    decreases k,
{
    if k > 0 {
        let j: nat = (k - 1) as nat;
        lemma_full_success_prefix(records, outcomes, j);
        lemma_chunk_start(records.len(), j);
        assert(outcomes.take(k as int).drop_last() =~= outcomes.take(j as int));
        assert(outcomes.take(k as int).last() == outcomes[j as int]);
    }
}

/// When every chunk inserts all of its records, the tally counts every
/// record of the upload.
pub proof fn lemma_full_success_inserts_all(records: Seq<CsvRecord>, outcomes: Seq<Option<usize>>)
    requires
        outcomes.len() == chunk_count(records.len()),
        forall|i: int|
            0 <= i < outcomes.len() ==> #[trigger] outcomes[i] == Some(
                chunk_at(records, i).len() as usize,
            ),
    ensures
        sum_inserted(outcomes) == records.len(),
{
    let k: nat = outcomes.len();
    lemma_full_success_prefix(records, outcomes, k);
    assert(outcomes.take(k as int) =~= outcomes);
    assert(500 * k >= records.len()) by (nonlinear_arith)
        requires k == (records.len() + 499) / 500;
}

/// Whether each chunk's outcome is a failure or at most the chunk's size.
pub open spec fn outcomes_within_chunks(records: Seq<CsvRecord>, outcomes: Seq<Option<usize>>) -> bool {
    &&& outcomes.len() == chunk_count(records.len())
    &&& forall|i: int|
        0 <= i < outcomes.len() ==> (#[trigger] outcomes[i] matches Some(k) ==> k <= chunk_at(
            records,
            i,
        ).len())
}

proof fn lemma_bounded_prefix(records: Seq<CsvRecord>, outcomes: Seq<Option<usize>>, k: nat)
    requires
        outcomes_within_chunks(records, outcomes),
        k <= outcomes.len(),
    ensures
        sum_inserted(outcomes.take(k as int)) <= covered(records.len(), k),
    decreases k,
{
    if k > 0 {
        let j: nat = (k - 1) as nat;
        lemma_bounded_prefix(records, outcomes, j);
        lemma_chunk_start(records.len(), j);
        assert(outcomes.take(k as int).drop_last() =~= outcomes.take(j as int));
        assert(outcomes.take(k as int).last() == outcomes[j as int]);
    }
}

/// When no chunk reports more rows than it holds (failed chunks report
/// none), the tally never counts more rows than the upload has records.
pub proof fn lemma_tally_at_most_records(records: Seq<CsvRecord>, outcomes: Seq<Option<usize>>)
    requires
        outcomes_within_chunks(records, outcomes),
    ensures
        sum_inserted(outcomes) <= records.len(),
{
    let k: nat = outcomes.len();
    lemma_bounded_prefix(records, outcomes, k);
    assert(outcomes.take(k as int) =~= outcomes);
}

/// Cuts `records` into chunks of 500, in order; the last chunk holds the
/// rest.
pub fn chunk_records(records: &Vec<CsvRecord>) -> (chunks: Vec<Vec<CsvRecord>>)
    ensures
        chunks.len() == chunk_count(records.len() as nat),
        forall|i: int| 0 <= i < chunks.len() ==> (#[trigger] chunks[i])@ == chunk_at(records@, i),
{
    let n: usize = records.len();
    let mut chunks: Vec<Vec<CsvRecord>> = Vec::new();
    let mut start: usize = 0;
    while start < n
        invariant
            n == records.len(),
            start <= n,
            start < n ==> start == 500 * chunks.len(),
            start < n ==> chunks.len() < chunk_count(n as nat),
            start == n ==> chunks.len() == chunk_count(n as nat),
            forall|i: int| 0 <= i < chunks.len() ==> (#[trigger] chunks[i])@ == chunk_at(records@, i),
        decreases n - start,
    {
        let end: usize = if n - start > CHUNK_SIZE {
            start + CHUNK_SIZE
        } else {
            n
        };
        let mut chunk: Vec<CsvRecord> = Vec::new();
        let mut j: usize = start;
        while j < end
            invariant
                n == records.len(),
                start <= j <= end <= n,
                chunk@ == records@.subrange(start as int, j as int),
            decreases end - j,
        {
            let rec = &records[j];
            chunk.push(CsvRecord { name: rec.name.clone(), department: rec.department.clone() });
            j = j + 1;
            assert(chunk@ =~= records@.subrange(start as int, j as int));
        }
        proof {
            lemma_chunk_step(n as nat, chunks.len() as nat);
        }
        let ghost k = chunks.len();
        assert(chunk@ == chunk_at(records@, k as int));
        chunks.push(chunk);
        start = end;
    }
    chunks
}

proof fn lemma_sum_prefix_le(outcomes: Seq<Option<usize>>, i: int)
    requires
        0 <= i <= outcomes.len(),
    ensures
        sum_inserted(outcomes.take(i)) <= sum_inserted(outcomes),
    decreases outcomes.len() - i,
{
    if i < outcomes.len() {
        lemma_sum_prefix_le(outcomes, i + 1);
        assert(outcomes.take(i + 1).drop_last() =~= outcomes.take(i));
    } else {
        assert(outcomes.take(i) =~= outcomes);
    }
}

/// The answer to a bulk upload whose chunks ended in `outcomes`: every chunk
/// counts as processed, and the rows of the successful ones are added up.
pub fn tally_chunks(outcomes: &Vec<Option<usize>>) -> (r: BulkUploadResponse)
    requires
        sum_inserted(outcomes@) <= usize::MAX,
    ensures
        r.total_inserted == sum_inserted(outcomes@),
        r.chunks_processed == outcomes.len(),
{
    let mut total: usize = 0;
    let mut i: usize = 0;
    while i < outcomes.len()
        invariant
            i <= outcomes.len(),
            total == sum_inserted(outcomes@.take(i as int)),
            sum_inserted(outcomes@) <= usize::MAX,
        decreases outcomes.len() - i,
    {
        proof {
            lemma_sum_prefix_le(outcomes@, i + 1);
            assert(outcomes@.take(i + 1).drop_last() =~= outcomes@.take(i as int));
        }
        match outcomes[i] {
            Some(k) => {
                total = total + k;
            },
            None => {},
        }
        i = i + 1;
    }
    assert(outcomes@.take(i as int) =~= outcomes@);
    BulkUploadResponse { total_inserted: total, chunks_processed: outcomes.len() }
}

} // verus!
