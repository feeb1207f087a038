//! The fixed-output test source: exactly one record, independent of any
//! network or parsing behavior, to validate the pipeline end to end.

use vstd::prelude::*;
use vstd::string::StringExecFns;
use crate::error::PipelineError;
use crate::models::{is_canonical_date_str, lemma_date_round_trip, Match, MatchDate};

verus! {

pub struct TestHunter;

impl TestHunter {
    /// The one record this source always returns: round 0, the fixed date,
    /// two fixed team names, no scores, no icons.
    pub fn fixed_matches() -> (r: Vec<Match>)
        ensures
            r@.len() == 1,
            r@[0].match_day == 0,
            r@[0].match_date.year@ == "2023"@,
            r@[0].match_date.month@ == "01"@,
            r@[0].match_date.day@ == "01"@,
            r@[0].team1@ == "Blue"@,
            r@[0].team2@ == "Red"@,
            r@[0].team1_score is None,
            r@[0].team2_score is None,
            r@[0].team1_icon is None,
            r@[0].team2_icon is None,
    {
        proof {
            reveal_strlit("2023-01-01");
            reveal_strlit("2023");
            reveal_strlit("01");
            assert(is_canonical_date_str("2023-01-01"@));
            lemma_date_round_trip("2023-01-01"@);
            assert("2023-01-01"@.take(4) =~= "2023"@);
            assert("2023-01-01"@.subrange(5, 7) =~= "01"@);
            assert("2023-01-01"@.skip(8) =~= "01"@);
        }
        let date = MatchDate::from("2023-01-01").unwrap();
        let m = Match {
            match_day: 0,
            match_date: date,
            team1: String::from_str("Blue"),
            team2: String::from_str("Red"),
            team1_score: None,
            team2_score: None,
            team1_icon: None,
            team2_icon: None,
        };
        let mut out: Vec<Match> = Vec::new();
        out.push(m);
        out
    }
}

impl crate::hunters::Hunter for TestHunter {
    fn name(&self) -> String {
        String::from_str("Test Hunter")
    }

    /// Always succeeds with exactly the fixed record of `fixed_matches`.
    fn find_matches(&self) -> (r: Result<Vec<Match>, PipelineError>)
        ensures
            (r matches Ok(ms) && ms@.len() == 1 && ms@[0].match_day == 0
                && ms@[0].match_date.year@ == "2023"@ && ms@[0].match_date.month@ == "01"@
                && ms@[0].match_date.day@ == "01"@ && ms@[0].team1@ == "Blue"@ && ms@[0].team2@
                == "Red"@ && ms@[0].team1_score is None && ms@[0].team2_score is None
                && ms@[0].team1_icon is None && ms@[0].team2_icon is None),
    {
        Ok(TestHunter::fixed_matches())
    }
}

} // verus!
