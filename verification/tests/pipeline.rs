use puttanesca::error::PipelineError;
use puttanesca::hunters::{create_hunter, Hunter, HunterChoice};
use puttanesca::processors::{create_processor, Processor, ProcessorChoice};

#[test]
fn end_to_end_test_source_console_sink() {
    // resolving source "test" and sink "console" and running process
    // prints exactly one line for the fixed record
    let hunter = match create_hunter("test") {
        Ok(HunterChoice::Test(h)) => h,
        _ => panic!("expected the test hunter"),
    };
    let processor = match create_processor("console") {
        Ok(ProcessorChoice::Console(p)) => p,
        _ => panic!("expected the console processor"),
    };

    let records = hunter.find_matches().unwrap();
    assert_eq!(records.len(), 1);
    assert_eq!(
        "Match #0 2023-01-01: Blue vs Red (? - ?)",
        records[0].to_string()
    );

    assert!(processor.process(&hunter).is_ok());
}

#[test]
fn unknown_hunter_fails_closed() {
    let r = create_hunter("doesnotexist");
    match r {
        Err(PipelineError::HunterNotFound(name)) => assert_eq!(name, "doesnotexist"),
        _ => panic!("expected HunterNotFound"),
    }
}

#[test]
fn unknown_processor_fails_closed() {
    let r = create_processor("doesnotexist");
    match r {
        Err(PipelineError::ProcessorNotFound(name)) => assert_eq!(name, "doesnotexist"),
        _ => panic!("expected ProcessorNotFound"),
    }
}

#[test]
fn hunter_names_are_case_sensitive_exact_tokens() {
    assert!(matches!(create_hunter("test"), Ok(HunterChoice::Test(_))));
    assert!(matches!(create_hunter("sky"), Ok(HunterChoice::Sky(_))));
    assert!(matches!(
        create_hunter("Test"),
        Err(PipelineError::HunterNotFound(_))
    ));
    assert!(matches!(
        create_hunter(""),
        Err(PipelineError::HunterNotFound(_))
    ));
}

#[test]
fn sqlite_processor_name_needs_a_path() {
    match create_processor("sqlite") {
        Err(PipelineError::ProcessorError(msg)) => {
            assert_eq!(msg, "expected \"sqlite:<dbname>\"")
        },
        _ => panic!("expected ProcessorError"),
    }
    match create_processor("sqlite:matches.db3") {
        Ok(ProcessorChoice::Sqlite(p)) => assert_eq!(p.db_name, "matches.db3"),
        _ => panic!("expected the sqlite processor"),
    }
}
