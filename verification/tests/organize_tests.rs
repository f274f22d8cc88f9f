use file_manager_cli::bucket::{bucket_key_by_type, date_bucket_key, Policy};
use file_manager_cli::date::date_from_epoch;
use file_manager_cli::entry::{regular_file_paths, EntryKind, FileEntry};
use file_manager_cli::organize::plan_organize;
use file_manager_cli::stats::compute_stats;
use file_manager_cli::text::join_path;

fn entry(path: &str, name: &str, size: u64, mtime: i64, kind: EntryKind) -> FileEntry {
    FileEntry {
        path: path.to_string(),
        name: name.to_string(),
        size,
        mtime,
        kind,
    }
}

fn file(path: &str, name: &str) -> FileEntry {
    entry(path, name, 1, 0, EntryKind::File)
}

#[test]
fn type_key_simple_extension() {
    assert_eq!(bucket_key_by_type("a.txt"), "txt");
    assert_eq!(bucket_key_by_type("b.log"), "log");
}

#[test]
fn type_key_takes_last_dot() {
    assert_eq!(bucket_key_by_type("archive.tar.gz"), "gz");
}

#[test]
fn type_key_no_extension_is_unknown() {
    assert_eq!(bucket_key_by_type("Makefile"), "unknown");
    assert_eq!(bucket_key_by_type(""), "unknown");
}

#[test]
fn type_key_trailing_dot_is_unknown() {
    assert_eq!(bucket_key_by_type("foo."), "unknown");
    assert_eq!(bucket_key_by_type("a.b."), "unknown");
}

#[test]
fn type_key_leading_dot_counts() {
    assert_eq!(bucket_key_by_type(".gitignore"), "gitignore");
}

#[test]
fn type_key_preserves_case() {
    assert_eq!(bucket_key_by_type("A.TXT"), "TXT");
}

#[test]
fn date_of_epoch_start() {
    let d = date_from_epoch(0).unwrap();
    assert_eq!((d.year, d.month, d.day), (1970, 1, 1));
    assert_eq!(d.format(), "1970-01-01");
}

#[test]
fn date_key_of_leap_day() {
    assert_eq!(date_bucket_key(1582934400).unwrap(), "2020-02-29");
}

#[test]
fn date_key_before_epoch() {
    assert_eq!(date_bucket_key(-86400).unwrap(), "1969-12-31");
}

#[test]
fn date_key_is_zero_padded() {
    assert_eq!(date_bucket_key(-62135596800).unwrap(), "0001-01-01");
}

#[test]
fn date_key_beyond_year_9999_fails() {
    assert_eq!(date_bucket_key(253402300799).unwrap(), "9999-12-31");
    assert!(date_bucket_key(253402300800).is_none());
}

#[test]
fn join_path_inserts_separator() {
    assert_eq!(join_path("root", "txt"), "root/txt");
}

#[test]
fn by_type_plan_buckets_every_file() {
    let entries = vec![
        file("root/a.txt", "a.txt"),
        file("root/b.log", "b.log"),
        file("root/c.txt", "c.txt"),
        file("root/noext", "noext"),
        entry("root/sub", "sub", 0, 0, EntryKind::Dir),
    ];
    let plan = plan_organize("root", &entries, Policy::ByType);
    assert_eq!(plan.moves.len(), 4);
    assert_eq!(plan.moves[0].src, "root/a.txt");
    assert_eq!(plan.moves[0].bucket, "txt");
    assert_eq!(plan.moves[0].dest_dir, "root/txt");
    assert_eq!(plan.moves[0].dest, "root/txt/a.txt");
    assert_eq!(plan.moves[1].dest, "root/log/b.log");
    assert_eq!(plan.moves[2].dest, "root/txt/c.txt");
    assert_eq!(plan.moves[3].dest, "root/unknown/noext");
    let dirs: Vec<&str> = plan.dirs.iter().map(|d| d.as_str()).collect();
    assert_eq!(dirs, vec!["root/txt", "root/log", "root/unknown"]);
    assert!(plan.skipped.is_empty());
}

#[test]
fn by_date_plan_buckets_by_calendar_date() {
    let entries = vec![
        entry("root/a.txt", "a.txt", 3, 0, EntryKind::File),
        entry("root/b.txt", "b.txt", 3, 1582934400, EntryKind::File),
    ];
    let plan = plan_organize("root", &entries, Policy::ByDate);
    assert_eq!(plan.moves.len(), 2);
    assert_eq!(plan.moves[0].dest, "root/1970-01-01/a.txt");
    assert_eq!(plan.moves[1].dest, "root/2020-02-29/b.txt");
    assert!(plan.skipped.is_empty());
}

#[test]
fn by_date_plan_skips_unrepresentable_dates() {
    let entries = vec![
        entry("root/far.txt", "far.txt", 3, 253402300800, EntryKind::File),
        entry("root/ok.txt", "ok.txt", 3, 0, EntryKind::File),
    ];
    let plan = plan_organize("root", &entries, Policy::ByDate);
    assert_eq!(plan.moves.len(), 1);
    assert_eq!(plan.moves[0].dest, "root/1970-01-01/ok.txt");
    assert_eq!(plan.skipped, vec!["root/far.txt".to_string()]);
}

#[test]
fn second_run_over_bucket_dirs_plans_nothing() {
    let after_first_run = vec![
        entry("root/txt", "txt", 0, 0, EntryKind::Dir),
        entry("root/log", "log", 0, 0, EntryKind::Dir),
        entry("root/unknown", "unknown", 0, 0, EntryKind::Dir),
    ];
    let plan = plan_organize("root", &after_first_run, Policy::ByType);
    assert!(plan.moves.is_empty());
    assert!(plan.dirs.is_empty());
    assert!(plan.skipped.is_empty());
}

#[test]
fn stats_of_empty_snapshot() {
    let stats = compute_stats(&vec![]);
    assert_eq!(stats.count, 0);
    assert_eq!(stats.total, 0);
}

#[test]
fn stats_counts_only_regular_files() {
    let entries = vec![
        entry("d/a", "a", 10, 0, EntryKind::File),
        entry("d/b", "b", 32, 0, EntryKind::File),
        entry("d/sub", "sub", 4096, 0, EntryKind::Dir),
        entry("d/link", "link", 7, 0, EntryKind::Other),
    ];
    let stats = compute_stats(&entries);
    assert_eq!(stats.count, 2);
    assert_eq!(stats.total, 42);
}

#[test]
fn stats_total_saturates() {
    let entries = vec![
        entry("d/a", "a", u64::MAX, 0, EntryKind::File),
        entry("d/b", "b", 1, 0, EntryKind::File),
    ];
    let stats = compute_stats(&entries);
    assert_eq!(stats.count, 2);
    assert_eq!(stats.total, u64::MAX);
}

#[test]
fn listing_keeps_only_files() {
    let entries = vec![
        file("d/a", "a"),
        entry("d/sub", "sub", 0, 0, EntryKind::Dir),
        file("d/b", "b"),
    ];
    let paths = regular_file_paths(&entries);
    assert_eq!(paths, vec!["d/a".to_string(), "d/b".to_string()]);
}
