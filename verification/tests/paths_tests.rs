use archivio_search::db::DbError;
use archivio_search::paths::{candidate_paths, find_db_path, first_match};

#[test]
fn candidates_prefer_executable_layouts_over_cwd() {
    let c = candidate_paths(Some("/opt/app/bin"), Some("/work"));
    assert_eq!(
        c,
        vec![
            "/opt/app/bin/../data/db.sqlite".to_string(),
            "/opt/app/bin/../../data/db.sqlite".to_string(),
            "/opt/app/bin/../../../data/db.sqlite".to_string(),
            "/work/data/db.sqlite".to_string(),
            "/work/../data/db.sqlite".to_string(),
        ]
    );
}

#[test]
fn candidates_without_directories_are_empty() {
    let c = candidate_paths(None, None);
    assert!(c.is_empty());
    assert_eq!(find_db_path(None, None), "data/db.sqlite");
}

#[test]
fn first_match_takes_the_earliest_existing_candidate() {
    let paths = vec!["a".to_string(), "b".to_string(), "c".to_string()];
    assert_eq!(first_match(&paths, &vec![false, true, true]), "b");
    assert_eq!(first_match(&paths, &vec![true, false, false]), "a");
    assert_eq!(first_match(&paths, &vec![false, false, false]), "data/db.sqlite");
    assert_eq!(first_match(&vec![], &vec![]), "data/db.sqlite");
}

#[test]
fn error_messages_match_each_kind() {
    let e = DbError::NotFound { path: "data/db.sqlite".to_string() };
    assert_eq!(e.message(), "db.sqlite non trovato. Percorso provato: data/db.sqlite");
    let e = DbError::Open { detail: "unable to open database file".to_string() };
    assert_eq!(e.message(), "open db failed: unable to open database file");
    let e = DbError::Pragma { detail: "disk I/O error".to_string() };
    assert_eq!(e.message(), "disk I/O error");
    let e = DbError::Statement { detail: "no such table: records".to_string() };
    assert_eq!(e.message(), "no such table: records");
}
