use employee_hub::bulk::{check_upload, chunk_records, tally_chunks, CsvRecord, CHUNK_SIZE};
use employee_hub::errors::AppError;

fn records(n: usize) -> Vec<CsvRecord> {
    (0..n).map(|i| CsvRecord { name: format!("name{}", i), department: format!("dept{}", i % 7) }).collect()
}

#[test]
fn empty_upload_is_refused() {
    assert_eq!(check_upload(&[]), Err(AppError::Internal("No file uploaded".to_string())));
    assert_eq!(check_upload(b"name,department\n"), Ok(()));
}

#[test]
fn chunk_sizes() {
    assert_eq!(CHUNK_SIZE, 500);
    for (n, expected) in [(0usize, vec![]), (1, vec![1]), (500, vec![500]), (501, vec![500, 1]), (1200, vec![500, 500, 200])] {
        let chunks = chunk_records(&records(n));
        let sizes: Vec<usize> = chunks.iter().map(|c| c.len()).collect();
        assert_eq!(sizes, expected);
    }
}

#[test]
fn chunks_rejoin_to_records() {
    let rs = records(1234);
    let chunks = chunk_records(&rs);
    let joined: Vec<CsvRecord> = chunks.into_iter().flatten().collect();
    assert_eq!(joined, rs);
}

#[test]
fn tally_counts_successful_chunks() {
    let r = tally_chunks(&vec![Some(500), None, Some(200)]);
    assert_eq!(r.total_inserted, 700);
    assert_eq!(r.chunks_processed, 3);
    let empty = tally_chunks(&vec![]);
    assert_eq!((empty.total_inserted, empty.chunks_processed), (0, 0));
}

#[test]
fn full_success_counts_every_record() {
    let rs = records(1001);
    let outcomes: Vec<Option<usize>> = chunk_records(&rs).iter().map(|c| Some(c.len())).collect();
    let r = tally_chunks(&outcomes);
    assert_eq!(r.total_inserted, 1001);
    assert_eq!(r.chunks_processed, 3);
}

#[test]
fn partial_success_counts_at_most_records() {
    let rs = records(1001);
    let chunks = chunk_records(&rs);
    let outcomes: Vec<Option<usize>> = vec![Some(chunks[0].len()), None, Some(chunks[2].len())];
    let r = tally_chunks(&outcomes);
    assert_eq!(r.total_inserted, 501);
    assert!(r.total_inserted <= rs.len());
    assert_eq!(r.chunks_processed, 3);
}
