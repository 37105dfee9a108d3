use std::collections::BTreeMap;

use chrono::Datelike;
use couchdb_backup::cli::Args;
use couchdb_backup::cli::Command;
use couchdb_backup::key::RunDate;
use couchdb_backup::pipeline::BackupOutcome;
use couchdb_backup::run::BackupRun;
use couchdb_backup::run::CollectionReport;
use couchdb_backup::run::Phase;
use couchdb_backup::run::RunAction;
use couchdb_backup::run::RunError;
use couchdb_backup::run::RunEvent;
use couchdb_backup::settings::Mode;
use couchdb_backup::settings::Settings;
use couchdb_backup::settings::SettingsDatabase;
use couchdb_backup::settings::SettingsTask;
use couchdb_backup::settings::SettingsTaskMonthly;
use couchdb_backup::settings::SettingsTaskWeekly;
use serde_json::Value;

fn strings(items: &[&str]) -> Vec<String> {
    items.iter().map(|s| s.to_string()).collect()
}

fn settings(weekly: &[&str], monthly: &[&str]) -> Settings {
    Settings {
        database: SettingsDatabase {
            url: "http://localhost:5984".to_string(),
            login: "admin".to_string(),
            password: "SECRET-REDACTED".to_string(),
        },
        task: SettingsTask {
            weekly: SettingsTaskWeekly {
                cron: "0 3 * * 0".to_string(),
                databases: strings(weekly),
                delay: 0,
                chunk: Some(500),
            },
            monthly: SettingsTaskMonthly {
                cron: "0 4 1 * *".to_string(),
                databases: strings(monthly),
                delay: 0,
                chunk: None,
                backup_only_previus: false,
            },
        },
        bucket: "backups".to_string(),
        token: "token".to_string(),
        secret: "SECRET-REDACTED".to_string(),
        prefix: "backup/ippbx".to_string(),
        suffix: "couchdb".to_string(),
        loki: String::new(),
    }
}

fn today() -> RunDate {
    let now = chrono::Utc::now();
    match RunDate::new(now.year() as u32, now.month(), now.day()) {
        Some(date) => date,
        None => panic!("today is a date"),
    }
}

fn begin(settings: &Settings, mode: Mode) -> BackupRun {
    match BackupRun::begin(settings, mode, today()) {
        Ok(run) => run,
        Err(e) => panic!("no run: {e:?}"),
    }
}

fn done(outcome: BackupOutcome) -> RunEvent {
    RunEvent::CollectionDone { outcome, chunks_uploaded: 0, chunks_dropped: 0 }
}

fn done_with(uploaded: u64, dropped: u64) -> RunEvent {
    RunEvent::CollectionDone {
        outcome: BackupOutcome::Processed(1),
        chunks_uploaded: uploaded,
        chunks_dropped: dropped,
    }
}

#[test]
fn settings_go_by_mode() {
    let s = settings(&["^a"], &["^b", "^c"]);
    assert_eq!(s.patterns(Mode::Weekly), &strings(&["^a"]));
    assert_eq!(s.patterns(Mode::Monthly), &strings(&["^b", "^c"]));
    assert_eq!(s.page_size(Mode::Weekly), 500);
    assert_eq!(s.page_size(Mode::Monthly), 0);
}

#[test]
fn command_names_the_mode() {
    assert_eq!(Command::Weekly.mode(), Mode::Weekly);
    assert_eq!(Command::Monthly.mode(), Mode::Monthly);
}

#[test]
fn config_path_falls_back() {
    let mut args = Args {
        workdir: None,
        config: Some("named.yaml".to_string()),
        test_config: false,
        no_show_opts: false,
        cmd: None,
    };
    assert_eq!(args.config_path(Some("env.yaml".to_string())), "named.yaml");
    args.config = None;
    assert_eq!(args.config_path(Some("env.yaml".to_string())), "env.yaml");
    assert_eq!(args.config_path(None), "config.yaml");
}

#[test]
fn run_without_usable_patterns_does_not_begin() {
    let s = settings(&["(", "["], &["."]);
    assert_eq!(BackupRun::begin(&s, Mode::Weekly, today()).err(), Some(RunError::NoUsablePatterns));
    assert!(BackupRun::begin(&s, Mode::Monthly, today()).is_ok());
    let none = settings(&[], &[]);
    assert_eq!(BackupRun::begin(&none, Mode::Weekly, today()).err(), Some(RunError::NoUsablePatterns));
}

#[test]
fn run_is_given_up_when_the_source_fails() {
    let mut run = begin(&settings(&["."], &["."]), Mode::Weekly);
    assert_eq!(run.phase(), Phase::Listing);
    assert!(run.pipeline().is_none());
    let action = run.step(RunEvent::SourceFailed("connection refused".to_string()));
    assert_eq!(action, RunAction::Abort(RunError::SourceUnavailable("connection refused".to_string())));
    assert_eq!(run.phase(), Phase::Aborted);
    assert_eq!(run.step(RunEvent::Collections(strings(&["a"]))), RunAction::Ignore);
    assert_eq!(run.phase(), Phase::Aborted);
}

#[test]
fn run_is_given_up_when_the_store_fails() {
    let mut run = begin(&settings(&["."], &["."]), Mode::Weekly);
    let action = run.step(RunEvent::StoreFailed("no keys".to_string()));
    assert_eq!(action, RunAction::Abort(RunError::StoreUnavailable("no keys".to_string())));
    assert_eq!(run.phase(), Phase::Aborted);
}

#[test]
fn run_with_nothing_selected_reports_at_once() {
    let mut run = begin(&settings(&["^x"], &["."]), Mode::Weekly);
    assert_eq!(run.step(RunEvent::Collections(strings(&["a", "b"]))), RunAction::Report);
    assert_eq!(run.phase(), Phase::Finished);
    let summary = run.summary(12);
    assert!(summary.selected.is_empty());
    assert!(summary.reports.is_empty());
    assert_eq!((summary.processed, summary.failed, summary.elapsed_millis), (0, 0, 12));
    assert_eq!(summary.chunks_dropped, 0);
}

#[test]
fn failed_collection_does_not_stop_the_run() {
    let mut run = begin(&settings(&["."], &["."]), Mode::Monthly);
    let action = run.step(RunEvent::Collections(strings(&["b", "a", "c"])));
    assert_eq!(action, RunAction::Backup { collection: "a".to_string(), page_size: 0 });
    assert_eq!(run.step(done(BackupOutcome::Failed("gone".to_string()))), RunAction::Backup {
        collection: "b".to_string(),
        page_size: 0,
    });
    assert_eq!(run.phase(), Phase::Working);
    assert_eq!(run.step(RunEvent::SourceFailed("late".to_string())), RunAction::Ignore);
    assert_eq!(run.step(done(BackupOutcome::Processed(5))), RunAction::Backup {
        collection: "c".to_string(),
        page_size: 0,
    });
    assert_eq!(run.step(done(BackupOutcome::Failed("lost".to_string()))), RunAction::Report);
    assert_eq!(run.phase(), Phase::Finished);
    assert_eq!(run.step(done(BackupOutcome::Processed(1))), RunAction::Ignore);
    let summary = run.summary(0);
    assert_eq!(summary.mode, Mode::Monthly);
    assert_eq!(summary.selected, strings(&["a", "b", "c"]));
    assert_eq!((summary.processed, summary.failed), (1, 2));
    assert_eq!(summary.reports[1], CollectionReport {
        name: "b".to_string(),
        outcome: BackupOutcome::Processed(5),
        chunks_uploaded: 0,
        chunks_dropped: 0,
    });
}

#[test]
fn summary_adds_up_the_lost_pages() {
    let mut run = begin(&settings(&["."], &["."]), Mode::Weekly);
    let _ = run.step(RunEvent::Collections(strings(&["a", "b", "c"])));
    let _ = run.step(done_with(3, 2));
    let _ = run.step(done_with(0, 5));
    let _ = run.step(done_with(7, 0));
    let summary = run.summary(0);
    assert_eq!(summary.chunks_dropped, 7);
    assert_eq!((summary.processed, summary.failed), (3, 0));
}

#[test]
fn summary_of_lost_pages_stops_at_the_largest_number() {
    let mut run = begin(&settings(&["."], &["."]), Mode::Weekly);
    let _ = run.step(RunEvent::Collections(strings(&["a", "b"])));
    let _ = run.step(done_with(0, u64::MAX - 1));
    let _ = run.step(done_with(0, 5));
    assert_eq!(run.summary(0).chunks_dropped, u64::MAX);
}

/// A source of three collections of two pages each, and a store that keeps
/// what it is given.
#[test]
fn run_backs_up_the_selected_collections() {
    let source = strings(&["users", "orders", "tmp_cache"]);
    let mut store: BTreeMap<String, Vec<u8>> = BTreeMap::new();
    let s = settings(&["^(users|orders)$"], &[]);
    let date = today();
    let mut run = match BackupRun::begin(&s, Mode::Weekly, date) {
        Ok(run) => run,
        Err(e) => panic!("no run: {e:?}"),
    };
    let mut action = run.step(RunEvent::Collections(source));
    assert_eq!(run.selected(), &strings(&["orders", "users"]));
    let mut taken = Vec::new();
    while let RunAction::Backup { collection, page_size } = action {
        assert_eq!(page_size, 500);
        let mut pipeline = match run.pipeline() {
            Some(pipeline) => pipeline,
            None => panic!("a collection is in hand"),
        };
        pipeline.opened();
        for page in 0..2u64 {
            let records = vec![Value::from(format!("{collection}-{page}")), Value::from(page)];
            match pipeline.accept_page(&records) {
                Some(upload) => {
                    store.insert(upload.key, upload.object.body);
                    pipeline.upload_finished(&Ok(()));
                },
                None => panic!("page not encoded"),
            }
        }
        let outcome = pipeline.close(Ok(4));
        taken.push(collection);
        action = run.step(RunEvent::CollectionDone {
            outcome,
            chunks_uploaded: pipeline.chunks_uploaded(),
            chunks_dropped: pipeline.chunks_dropped(),
        });
    }
    assert_eq!(action, RunAction::Report);
    assert_eq!(taken, strings(&["orders", "users"]));

    let day = format!("{:4}/{:02}/{:02}", date.year(), date.month(), date.day());
    let expected: Vec<String> = ["orders/000", "orders/001", "users/000", "users/001"]
        .iter()
        .map(|tail| format!("backup/ippbx/{day}/couchdb/{tail}.json.gz"))
        .collect();
    assert_eq!(store.keys().cloned().collect::<Vec<String>>(), expected);

    let summary = run.summary(1500);
    assert_eq!(summary.mode, Mode::Weekly);
    assert_eq!(summary.selected, strings(&["orders", "users"]));
    assert_eq!((summary.processed, summary.failed), (2, 0));
    assert_eq!(summary.chunks_dropped, 0);
    assert_eq!(summary.elapsed_millis, 1500);
    for (report, name) in summary.reports.iter().zip(["orders", "users"]) {
        assert_eq!(report, &CollectionReport {
            name: name.to_string(),
            outcome: BackupOutcome::Processed(4),
            chunks_uploaded: 2,
            chunks_dropped: 0,
        });
    }
}
