//! The console sink: prints one human-readable line per record.

use vstd::prelude::*;
use vstd::string::StringExecFns;
use std::io::Write;
use crate::error::PipelineError;
use crate::hunters::Hunter;
use crate::models::Match;

verus! {

pub struct ConsoleProcessor;

/// Relies on std's writeln to standard output: prints one line of text.
#[verifier::external_body]
fn print_line(s: &str) {
    let mut out = std::io::stdout();
    let _ = writeln!(out, "{}", s);
}

impl crate::processors::Processor for ConsoleProcessor {
    fn name(&self) -> String {
        String::from_str("Console Processor")
    }

    /// Calls the source once and prints every record it returned, in
    /// order, one line each, then returns Ok; a source failure is
    /// returned unchanged, with nothing printed. The printed text itself
    /// is fixed by `Match::to_string`'s contract; the printing is I/O and
    /// stands behind a wrapper.
    fn process<H: Hunter>(&self, hunter: &H) -> (r: Result<(), PipelineError>)
        ensures
            r matches Err(e) ==> call_ensures(
                H::find_matches,
                (hunter,),
                Err::<Vec<Match>, PipelineError>(e),
            ),
            r is Ok ==> exists|ms: Vec<Match>|
                call_ensures(H::find_matches, (hunter,), Ok::<Vec<Match>, PipelineError>(ms)),
    {
        let records = match hunter.find_matches() {
            Ok(r) => r,
            Err(e) => {
                return Err(e);
            },
        };
        let mut i: usize = 0;
        while i < records.len()
            decreases records.len() - i,
        {
            let line = records[i].to_string();
            print_line(line.as_str());
            i = i + 1;
        }
        Ok(())
    }
}

} // verus!
