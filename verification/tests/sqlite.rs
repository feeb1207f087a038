use std::path::Path;

use rusqlite::{Connection, OpenFlags};

use puttanesca::hunters::test::TestHunter;
use puttanesca::models::{Match, MatchDate};
use puttanesca::processors::sqlite::{
    check_valid_connection, get_version, interpret_version, prepare_db, schema_action,
    upsert_match, SchemaAction, SqliteProcessor, VERSION,
};
use puttanesca::processors::Processor;

#[test]
fn check_valid_connection_success() {
    // Arrange
    let conn = Connection::open_in_memory().unwrap();

    // Act
    let valid = check_valid_connection(&conn);

    // Assert
    assert!(valid.is_ok());
}

#[test]
fn check_valid_connection_failure() {
    // Arrange
    let path = Path::new("/etc/os-release"); // wrong file, it is not a valid db3 file
    let conn = Connection::open_with_flags(
        path,
        OpenFlags::SQLITE_OPEN_READ_WRITE | OpenFlags::SQLITE_OPEN_NO_MUTEX,
    )
    .unwrap();

    // Act
    let valid = check_valid_connection(&conn);

    // Assert
    assert!(valid.is_err());
}

#[test]
fn prepare_db_success() {
    // Arrange
    let conn = Connection::open_in_memory().unwrap();
    prepare_db(&conn).unwrap();

    // Act
    let version = get_version(&conn).unwrap().unwrap();

    // Assert
    assert_eq!(version, VERSION);
}

#[test]
fn prepare_db_failure() {
    // Arrange
    let conn = Connection::open_in_memory().unwrap();

    // Act
    // table tVersion not exists
    let version = get_version(&conn).unwrap();

    // Assert
    assert!(version.is_none());
}

#[test]
fn upsert_match_success() {
    // Arrange
    let conn = Connection::open_in_memory().unwrap();
    prepare_db(&conn).unwrap();
    let matches = vec![
        Match {
            match_day: 2,
            match_date: MatchDate::from("2000-01-01").unwrap(),
            team1: "Blue".to_string(),
            team2: "Red".to_string(),
            team1_score: None,
            team2_score: None,
            team1_icon: None,
            team2_icon: None,
        },
        Match {
            match_day: 2,
            match_date: MatchDate::from("2000-01-02").unwrap(),
            team1: "Blue".to_string(),
            team2: "Red".to_string(),
            team1_score: None,
            team2_score: None,
            team1_icon: None,
            team2_icon: None,
        },
    ];

    // Act
    // second match overwrites first
    for m in matches.iter() {
        upsert_match(&conn, m).unwrap();
    }

    // Assert
    let m = conn
        .query_row(
            "SELECT match_day,match_date,team1,team2,team1_score,team2_score FROM tMatches",
            (),
            |row| {
                Ok(Match {
                    match_day: row.get(0).unwrap(),
                    match_date: MatchDate::from(row.get::<_, String>(1).unwrap().as_str())
                        .unwrap(),
                    team1: row.get(2).unwrap(),
                    team2: row.get(3).unwrap(),
                    team1_score: row.get(4).unwrap(),
                    team2_score: row.get(5).unwrap(),
                    team1_icon: None,
                    team2_icon: None,
                })
            },
        )
        .unwrap();
    assert_eq!(*matches.get(1).unwrap(), m);
}

#[test]
fn schema_bootstrap_on_fresh_storage() {
    // a preexisting empty file lacking the version table: a direct version
    // query returns "absent", not an error
    let conn = Connection::open_in_memory().unwrap();
    assert!(get_version(&conn).unwrap().is_none());

    prepare_db(&conn).unwrap();

    // the version table holds the current version
    assert_eq!(get_version(&conn).unwrap(), Some(1));

    // and the match table exists
    let matches_table: usize = conn
        .query_row(
            "SELECT EXISTS(SELECT 1 FROM sqlite_master WHERE type=\"table\" AND name=\"tMatches\")",
            (),
            |row| row.get(0),
        )
        .unwrap();
    assert_eq!(matches_table, 1);
}

#[test]
fn process_bootstraps_and_upserts() {
    // one full process pass over a fresh in-memory storage file
    let p = SqliteProcessor::new(":memory:".to_string()).unwrap();
    let hunter = TestHunter;
    assert!(p.process(&hunter).is_ok());
}

#[test]
fn upsert_match_same_record_twice_keeps_one_row() {
    let conn = Connection::open_in_memory().unwrap();
    prepare_db(&conn).unwrap();
    let m = Match {
        match_day: 2,
        match_date: MatchDate::from("2000-01-01").unwrap(),
        team1: "Blue".to_string(),
        team2: "Red".to_string(),
        team1_score: Some(1),
        team2_score: Some(1),
        team1_icon: None,
        team2_icon: None,
    };
    upsert_match(&conn, &m).unwrap();
    upsert_match(&conn, &m).unwrap();
    let count: usize = conn
        .query_row("SELECT COUNT(*) FROM tMatches", (), |row| row.get(0))
        .unwrap();
    assert_eq!(count, 1);
}

#[test]
fn schema_action_decides_bootstrap_or_migration() {
    assert_eq!(schema_action(None), SchemaAction::Initialize);
    assert_eq!(schema_action(Some(1)), SchemaAction::Migrate(1));
    assert_eq!(schema_action(Some(3)), SchemaAction::Migrate(3));
}

#[test]
fn interpret_version_reads_the_engine_answers() {
    // exists-flag zero: the version table is absent, not an error
    assert_eq!(interpret_version(0, None), None);
    assert_eq!(interpret_version(0, Some(9)), None);
    // otherwise the version row's value is the answer
    assert_eq!(interpret_version(1, Some(1)), Some(1));
    assert_eq!(interpret_version(1, None), None);
}
