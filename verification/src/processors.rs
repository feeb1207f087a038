//! The sink abstraction: a capability contract `{name, process(source)}`
//! with a fixed set of concrete variants, resolved by a factory keyed on a
//! name token.

use vstd::prelude::*;
use vstd::string::StringExecFns;
use crate::error::PipelineError;
use crate::hunters::Hunter;
use crate::strutil::{spec_split, spec_starts_with, split_char, starts_with_check, str_eq_check};

pub mod console;
pub mod sqlite;

verus! {

broadcast use vstd::string::group_string_axioms;

/// The sink capability: a display name, and one `process` pass that calls
/// the source once and then applies every record it returned.
pub trait Processor {
    fn name(&self) -> String;

    fn process<H: Hunter>(&self, hunter: &H) -> Result<(), PipelineError>;
}

/// The concrete sinks the factory can resolve.
pub enum ProcessorChoice {
    Console(console::ConsoleProcessor),
    Sqlite(sqlite::SqliteProcessor),
}

/// Resolves a sink by name: `console` exactly; any name starting with
/// `sqlite` must carry a colon-separated storage path
/// (`sqlite:<dbname>`), else it fails with a configuration error stating
/// the expected form; exactly every other name fails with
/// `ProcessorNotFound` carrying that name.
pub fn create_processor(name: &str) -> (r: Result<ProcessorChoice, PipelineError>)
    ensures
        name@ == "console"@ ==> r matches Ok(ProcessorChoice::Console(_)),
        (name@ != "console"@ && spec_starts_with(name@, "sqlite"@) && spec_split(name@, ':').len()
            >= 2) ==> (r matches Ok(ProcessorChoice::Sqlite(p)) && p.db_name@ == spec_split(
            name@,
            ':',
        )[1]),
        (name@ != "console"@ && spec_starts_with(name@, "sqlite"@) && spec_split(name@, ':').len()
            < 2) ==> (r matches Err(PipelineError::ProcessorError(m)) && m@
            == "expected \"sqlite:<dbname>\""@),
        (name@ != "console"@ && !spec_starts_with(name@, "sqlite"@)) ==> (r matches Err(
            PipelineError::ProcessorNotFound(n),
        ) && n@ == name@),
{
    proof {
        reveal_strlit("console");
        reveal_strlit("sqlite");
        assert("console"@.len() == 7);
        assert("sqlite"@.len() == 6);
        assert("console"@[0] != "sqlite"@[0]);
    }
    if str_eq_check(name, "console") {
        proof {
            assert(!spec_starts_with(name@, "sqlite"@));
        }
        return Ok(ProcessorChoice::Console(console::ConsoleProcessor));
    }
    if starts_with_check(name, "sqlite") {
        let parts = split_char(name, ':');
        let ghost sp = spec_split(name@, ':');
        proof {
            assert(parts@.map_values(|p: String| p@).len() == sp.len());
        }
        if parts.len() >= 2 {
            proof {
                assert(parts@.map_values(|p: String| p@)[1] == sp[1]);
            }
            let db_name = parts[1].clone();
            let p = match sqlite::SqliteProcessor::new(db_name) {
                Ok(p) => p,
                Err(e) => {
                    return Err(e);
                },
            };
            return Ok(ProcessorChoice::Sqlite(p));
        }
        return Err(PipelineError::ProcessorError(String::from_str("expected \"sqlite:<dbname>\"")));
    }
    Err(PipelineError::ProcessorNotFound(String::from_str(name)))
}

} // verus!
