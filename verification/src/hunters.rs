//! The source abstraction: a capability contract `{name, find_matches}`
//! with a fixed set of concrete variants, resolved by a factory keyed on a
//! case-sensitive name token.

use vstd::prelude::*;
use vstd::string::StringExecFns;
use crate::error::PipelineError;
use crate::models::Match;
use crate::strutil::str_eq_check;

pub mod sky;
pub mod test;

verus! {

broadcast use vstd::string::group_string_axioms;

/// The source capability: a display name, and one pass that returns a
/// finite, already-materialized sequence of everything currently
/// discoverable from this source.
pub trait Hunter {
    fn name(&self) -> String;

    fn find_matches(&self) -> Result<Vec<Match>, PipelineError>;
}

/// The concrete sources the factory can resolve. The live variant needs a
/// network client, so fetching for it is the caller's part; its parsing
/// engine lives in [`sky::SkyHunter`].
pub enum HunterChoice {
    Test(test::TestHunter),
    Sky(sky::SkyHunter),
}

/// Resolves a source by its case-sensitive name token: `test` and `sky`
/// are known, and exactly every other name fails with `HunterNotFound`
/// carrying that name.
pub fn create_hunter(name: &str) -> (r: Result<HunterChoice, PipelineError>)
    ensures
        name@ == "test"@ ==> r matches Ok(HunterChoice::Test(_)),
        name@ == "sky"@ ==> r matches Ok(HunterChoice::Sky(_)),
        name@ != "test"@ && name@ != "sky"@ ==> (r matches Err(PipelineError::HunterNotFound(n))
            && n@ == name@),
{
    proof {
        reveal_strlit("test");
        reveal_strlit("sky");
        assert("test"@.len() == 4);
        assert("sky"@.len() == 3);
    }
    if str_eq_check(name, "test") {
        return Ok(HunterChoice::Test(test::TestHunter));
    }
    if str_eq_check(name, "sky") {
        return Ok(HunterChoice::Sky(sky::SkyHunter));
    }
    Err(PipelineError::HunterNotFound(String::from_str(name)))
}

} // verus!
