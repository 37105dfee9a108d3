use std::collections::BTreeMap;
use std::io::Read;

use couchdb_backup::key::RunDate;
use couchdb_backup::pipeline::encode_page;
use couchdb_backup::pipeline::BackupOutcome;
use couchdb_backup::pipeline::ChunkError;
use couchdb_backup::pipeline::CollectionState;
use couchdb_backup::pipeline::Pipeline;
use couchdb_backup::store::error::StoreError;
use serde_json::Value;

fn date() -> RunDate {
    match RunDate::new(2024, 3, 5) {
        Some(date) => date,
        None => panic!("a date"),
    }
}

fn page(first: u64, count: u64) -> Vec<Value> {
    (first..first + count)
        .map(|n| {
            let mut doc = serde_json::Map::new();
            doc.insert("_id".to_string(), Value::from(format!("doc{n}")));
            doc.insert("n".to_string(), Value::from(n));
            Value::Object(doc)
        })
        .collect()
}

fn gunzip(stream: &[u8]) -> String {
    let mut text = String::new();
    let mut decoder = flate2::read::GzDecoder::new(stream);
    match decoder.read_to_string(&mut text) {
        Ok(_) => text,
        Err(e) => panic!("not a gzip stream: {e}"),
    }
}

fn streaming() -> Pipeline {
    let mut pipeline = Pipeline::new("backup", date(), "couchdb", "users");
    pipeline.opened();
    pipeline
}

#[test]
fn page_is_written_as_json_and_compressed() {
    let records = page(0, 2);
    let body = match encode_page(&records) {
        Ok(body) => body,
        Err(e) => panic!("not encoded: {e:?}"),
    };
    assert_eq!(&body[..3], &[0x1f, 0x8b, 8]);
    assert_eq!(gunzip(&body), r#"[{"_id":"doc0","n":0},{"_id":"doc1","n":1}]"#);
}

#[test]
fn empty_page_is_an_empty_array() {
    let body = match encode_page(&Vec::new()) {
        Ok(body) => body,
        Err(e) => panic!("not encoded: {e:?}"),
    };
    assert_eq!(gunzip(&body), "[]");
}

#[test]
fn encoding_is_the_same_each_time() {
    assert_eq!(encode_page(&page(0, 50)), encode_page(&page(0, 50)));
}

#[test]
fn pipeline_starts_connecting() {
    let pipeline = Pipeline::new("backup", date(), "couchdb", "users");
    assert_eq!(pipeline.state(), CollectionState::Connecting);
    assert_eq!(pipeline.chunks_seen(), 0);
    assert_eq!(pipeline.chunks_uploaded(), 0);
    assert_eq!(pipeline.chunks_dropped(), 0);
}

#[test]
fn pages_before_opening_are_not_taken() {
    let mut pipeline = Pipeline::new("backup", date(), "couchdb", "users");
    assert!(pipeline.accept_page(&page(0, 1)).is_none());
    assert!(pipeline.plan_chunk(Ok(vec![1])).is_none());
    assert_eq!(pipeline.chunks_seen(), 0);
    assert_eq!(pipeline.chunks_dropped(), 0);
    assert_eq!(pipeline.state(), CollectionState::Connecting);
}

#[test]
fn each_page_becomes_one_upload() {
    let mut pipeline = streaming();
    assert_eq!(pipeline.state(), CollectionState::Streaming);
    let upload = match pipeline.accept_page(&page(0, 3)) {
        Some(upload) => upload,
        None => panic!("an upload"),
    };
    assert_eq!(upload.key, "backup/2024/03/05/couchdb/users/000.json.gz");
    assert_eq!(upload.object.content_type, Some("application/json".to_string()));
    assert_eq!(upload.object.content_length, Some(upload.object.body.len() as i64));
    assert_eq!(Ok(upload.object.body), encode_page(&page(0, 3)));
    let upload = match pipeline.accept_page(&page(3, 3)) {
        Some(upload) => upload,
        None => panic!("an upload"),
    };
    assert_eq!(upload.key, "backup/2024/03/05/couchdb/users/001.json.gz");
    assert_eq!(pipeline.chunks_seen(), 2);
}

#[test]
fn failed_chunk_leaves_a_gap_and_the_collection_is_processed() {
    let mut pipeline = streaming();
    let mut store: BTreeMap<String, Vec<u8>> = BTreeMap::new();
    let encoded = [encode_page(&page(0, 2)), Err(ChunkError::Finish), encode_page(&page(4, 2))];
    for chunk in encoded {
        if let Some(upload) = pipeline.plan_chunk(chunk) {
            store.insert(upload.key, upload.object.body);
            pipeline.upload_finished(&Ok(()));
        }
    }
    let outcome = pipeline.close(Ok(6));
    let keys: Vec<&str> = store.keys().map(|k| k.as_str()).collect();
    assert_eq!(
        keys,
        vec![
            "backup/2024/03/05/couchdb/users/000.json.gz",
            "backup/2024/03/05/couchdb/users/002.json.gz",
        ]
    );
    assert_eq!(outcome, BackupOutcome::Processed(6));
    assert_eq!(pipeline.state(), CollectionState::Done);
    assert_eq!(pipeline.chunks_seen(), 3);
    assert_eq!(pipeline.chunks_uploaded(), 2);
    assert_eq!(pipeline.chunks_dropped(), 1);
}

#[test]
fn serialize_failure_drops_the_chunk_too() {
    let mut pipeline = streaming();
    assert!(pipeline.plan_chunk(Err(ChunkError::Serialize)).is_none());
    assert!(pipeline.plan_chunk(Err(ChunkError::Write)).is_none());
    assert_eq!(pipeline.chunks_seen(), 2);
    assert_eq!(pipeline.chunks_dropped(), 2);
    let upload = pipeline.plan_chunk(Ok(vec![1, 2, 3]));
    assert_eq!(
        upload.map(|u| u.key),
        Some("backup/2024/03/05/couchdb/users/002.json.gz".to_string())
    );
}

#[test]
fn every_page_that_arrives_while_streaming_is_uploaded() {
    let mut pipeline = streaming();
    for n in 0..5u64 {
        let upload = pipeline.accept_page(&page(n, 2));
        assert_eq!(upload.map(|u| Ok(u.object.body)), Some(encode_page(&page(n, 2))));
    }
    assert_eq!(pipeline.chunks_seen(), 5);
    assert_eq!(pipeline.chunks_dropped(), 0);
}

#[test]
fn one_page_is_held_between_source_and_pipeline() {
    assert_eq!(couchdb_backup::pipeline::PAGES_IN_FLIGHT, 1);
}

#[test]
fn failed_upload_is_counted_and_the_number_is_spent() {
    let mut pipeline = streaming();
    assert!(pipeline.plan_chunk(Ok(vec![1])).is_some());
    pipeline.upload_finished(&Err(StoreError::Failed("timeout".to_string())));
    assert_eq!(pipeline.chunks_dropped(), 1);
    assert_eq!(pipeline.chunks_uploaded(), 0);
    let next = pipeline.plan_chunk(Ok(vec![2]));
    assert_eq!(
        next.map(|u| u.key),
        Some("backup/2024/03/05/couchdb/users/001.json.gz".to_string())
    );
    pipeline.upload_finished(&Ok(()));
    assert_eq!(pipeline.chunks_uploaded(), 1);
    assert_eq!(pipeline.close(Ok(2)), BackupOutcome::Processed(2));
}

#[test]
fn report_without_upload_changes_nothing() {
    let mut pipeline = streaming();
    pipeline.upload_finished(&Ok(()));
    pipeline.upload_finished(&Err(StoreError::Failed("late".to_string())));
    assert_eq!(pipeline.chunks_uploaded(), 0);
    assert_eq!(pipeline.chunks_dropped(), 0);
}

#[test]
fn failure_to_open_fails_the_collection() {
    let mut pipeline = Pipeline::new("backup", date(), "couchdb", "users");
    let outcome = pipeline.close(Err("no such database".to_string()));
    assert_eq!(outcome, BackupOutcome::Failed("no such database".to_string()));
    assert_eq!(pipeline.state(), CollectionState::Failed);
    pipeline.opened();
    assert_eq!(pipeline.state(), CollectionState::Failed);
    assert!(pipeline.plan_chunk(Ok(vec![1])).is_none());
}

#[test]
fn failure_of_the_fetch_fails_the_collection() {
    let mut pipeline = streaming();
    assert!(pipeline.plan_chunk(Ok(vec![1])).is_some());
    let outcome = pipeline.close(Err("connection lost".to_string()));
    assert_eq!(outcome, BackupOutcome::Failed("connection lost".to_string()));
    assert_eq!(pipeline.state(), CollectionState::Failed);
}

#[test]
fn closed_pipeline_stays_closed() {
    let mut pipeline = streaming();
    assert_eq!(pipeline.close(Ok(0)), BackupOutcome::Processed(0));
    assert_eq!(pipeline.state(), CollectionState::Done);
    let _ = pipeline.close(Err("late".to_string()));
    assert_eq!(pipeline.state(), CollectionState::Done);
    assert!(pipeline.accept_page(&page(0, 1)).is_none());
    assert_eq!(pipeline.chunks_seen(), 0);
}
