//! The normalized record model: a calendar date held as text tokens, and
//! the match record every source produces and every sink consumes.

use vstd::prelude::*;
use vstd::string::StringExecFns;
use crate::strutil::{
    is_digit_char, nat_to_digits, pad_left, spec_pad_left, spec_split, split_char, usize_to_string,
};

verus! {

/// A calendar date decomposed as (year, month, day), each a normalized text
/// token. Equality is token-wise text equality, not numeric equality.
#[derive(Debug, Clone)]
pub struct MatchDate {
    pub year: String,
    pub month: String,
    pub day: String,
}

/// Two dates are equal exactly when their three component strings are
/// equal; callers must not expect numeric comparison.
impl PartialEq for MatchDate {
    fn eq(&self, other: &Self) -> (r: bool) {
        self.year == other.year && self.month == other.month && self.day == other.day
    }
}

impl vstd::std_specs::cmp::PartialEqSpecImpl for MatchDate {
    open spec fn obeys_eq_spec() -> bool {
        true
    }

    open spec fn eq_spec(&self, other: &Self) -> bool {
        self.year@ == other.year@ && self.month@ == other.month@ && self.day@ == other.day@
    }
}

/// The canonical rendering of a date: year zero-padded to width 4, month
/// and day to width 2, joined with dashes.
pub open spec fn spec_render_date(year: Seq<char>, month: Seq<char>, day: Seq<char>) -> Seq<char> {
    spec_pad_left(year, '0', 4) + seq!['-'] + spec_pad_left(month, '0', 2) + seq!['-']
        + spec_pad_left(day, '0', 2)
}

impl MatchDate {
    /// Builds a date from three raw tokens, kept as given.
    pub fn new(year: String, month: String, day: String) -> (d: Self)
        ensures
            d.year@ == year@,
            d.month@ == month@,
            d.day@ == day@,
    {
        MatchDate { year, month, day }
    }

    /// Splits a `YYYY-MM-DD`-shaped string into its three dash-separated
    /// tokens; None when the string has fewer than three such tokens.
    pub fn from(value: &str) -> (r: Option<Self>)
        ensures
            ({
                let t = spec_split(value@, '-');
                match r {
                    Some(d) => t.len() >= 3 && d.year@ == t[0] && d.month@ == t[1] && d.day@
                        == t[2],
                    None => t.len() < 3,
                }
            }),
    {
        let tokens = split_char(value, '-');
        let ghost t = spec_split(value@, '-');
        proof {
            assert(tokens@.map_values(|p: String| p@).len() == t.len());
        }
        if tokens.len() >= 3 {
            let year = tokens[0].clone();
            let month = tokens[1].clone();
            let day = tokens[2].clone();
            proof {
                assert(tokens@.map_values(|p: String| p@)[0] == t[0]);
                assert(tokens@.map_values(|p: String| p@)[1] == t[1]);
                assert(tokens@.map_values(|p: String| p@)[2] == t[2]);
            }
            Some(MatchDate { year, month, day })
        } else {
            None
        }
    }

    /// Renders the date as `YYYY-MM-DD`, zero-padding month and day to
    /// width 2 and the year to width 4, whatever the input padding was.
    pub fn to_string(&self) -> (r: String)
        ensures
            r@ == spec_render_date(self.year@, self.month@, self.day@),
    {
        let mut out = pad_left(self.year.as_str(), '0', 4);
        crate::strutil::push_char(&mut out, '-');
        let m = pad_left(self.month.as_str(), '0', 2);
        out.append(m.as_str());
        crate::strutil::push_char(&mut out, '-');
        let d = pad_left(self.day.as_str(), '0', 2);
        out.append(d.as_str());
        proof {
            assert(out@ =~= spec_render_date(self.year@, self.month@, self.day@));
        }
        out
    }
}

/// The unit record of the pipeline: one fixture discovered by a source.
/// Scores are present only once the fixture has been played; icons are
/// optional badge URLs.
#[derive(Debug, PartialEq)]
pub struct Match {
    pub match_day: usize,
    pub match_date: MatchDate,
    pub team1: String,
    pub team2: String,
    pub team1_score: Option<usize>,
    pub team2_score: Option<usize>,
    pub team1_icon: Option<String>,
    pub team2_icon: Option<String>,
}

/// A score rendered for display: its decimal digits, or `?` when the
/// fixture has not been played.
pub open spec fn spec_score_text(s: Option<usize>) -> Seq<char> {
    match s {
        Some(v) => nat_to_digits(v as nat),
        None => "?"@,
    }
}

/// The one-line human-readable rendering of a record.
pub open spec fn spec_match_line(m: Match) -> Seq<char> {
    "Match #"@ + nat_to_digits(m.match_day as nat) + " "@ + spec_render_date(
        m.match_date.year@,
        m.match_date.month@,
        m.match_date.day@,
    ) + ": "@ + m.team1@ + " vs "@ + m.team2@ + " ("@ + spec_score_text(m.team1_score) + " - "@
        + spec_score_text(m.team2_score) + ")"@
}

fn score_text(s: &Option<usize>) -> (r: String)
    ensures
        r@ == spec_score_text(*s),
{
    match s {
        Some(v) => usize_to_string(*v),
        None => String::from_str("?"),
    }
}

impl Match {
    /// Renders the record as one line in the form
    /// `Match #<round> <date>: <team1> vs <team2> (<score1-or-?> - <score2-or-?>)`.
    pub fn to_string(&self) -> (r: String)
        ensures
            r@ == spec_match_line(*self),
    {
        let mut out = String::from_str("Match #");
        let day = usize_to_string(self.match_day);
        out.append(day.as_str());
        out.append(" ");
        let date = self.match_date.to_string();
        out.append(date.as_str());
        out.append(": ");
        out.append(self.team1.as_str());
        out.append(" vs ");
        out.append(self.team2.as_str());
        out.append(" (");
        let s1 = score_text(&self.team1_score);
        out.append(s1.as_str());
        out.append(" - ");
        let s2 = score_text(&self.team2_score);
        out.append(s2.as_str());
        out.append(")");
        proof {
            assert(out@ =~= spec_match_line(*self));
        }
        out
    }
}

/// The shape of a canonical date string: ten characters, digits everywhere
/// but for the two dashes after the year and after the month.
pub open spec fn is_canonical_date_str(s: Seq<char>) -> bool {
    &&& s.len() == 10
    &&& s[4] == '-'
    &&& s[7] == '-'
    &&& forall|i: int| 0 <= i < 10 && i != 4 && i != 7 ==> is_digit_char(s[i])
}

proof fn lemma_split_no_sep(a: Seq<char>, sep: char)
    requires
        forall|i: int| 0 <= i < a.len() ==> a[i] != sep,
    ensures
        spec_split(a, sep) == seq![a],
    decreases a.len(),
{
    if a.len() == 0 {
        assert(a =~= Seq::<char>::empty());
        assert(spec_split(a, sep) =~~= seq![a]);
    } else {
        lemma_split_no_sep(a.drop_first(), sep);
        assert(seq![a[0]].add(a.drop_first()) =~= a);
        assert(spec_split(a, sep) =~~= seq![a]);
    }
}

proof fn lemma_split_concat(x: Seq<char>, y: Seq<char>, sep: char)
    ensures
        spec_split(x + seq![sep] + y, sep) == spec_split(x, sep) + spec_split(y, sep),
    decreases x.len(),
{
    let w = x + seq![sep] + y;
    crate::strutil::lemma_split_len(x, sep);
    if x.len() == 0 {
        assert(w[0] == sep);
        assert(w.drop_first() =~= y);
        assert(spec_split(w, sep) =~~= spec_split(x, sep) + spec_split(y, sep));
    } else {
        lemma_split_concat(x.drop_first(), y, sep);
        crate::strutil::lemma_split_len(x.drop_first(), sep);
        assert(w.drop_first() =~= x.drop_first() + seq![sep] + y);
        let r = spec_split(x.drop_first() + seq![sep] + y, sep);
        assert(r == spec_split(x.drop_first(), sep) + spec_split(y, sep));
        if x[0] == sep {
            assert(w[0] == sep);
            assert(spec_split(w, sep) =~~= spec_split(x, sep) + spec_split(y, sep));
        } else {
            assert(w[0] == x[0]);
            assert(r[0] == spec_split(x.drop_first(), sep)[0]);
            assert(r.drop_first() =~~= spec_split(x.drop_first(), sep).drop_first() + spec_split(
                y,
                sep,
            ));
            assert(spec_split(w, sep) =~~= spec_split(x, sep) + spec_split(y, sep));
        }
    }
}

/// Date round-trip: a canonical `YYYY-MM-DD` string splits into exactly its
/// year, month and day tokens, and rendering those three tokens back yields
/// the identical string.
pub proof fn lemma_date_round_trip(s: Seq<char>)
    requires
        is_canonical_date_str(s),
    ensures
        ({
            let t = spec_split(s, '-');
            &&& t.len() == 3
            &&& t[0] == s.take(4)
            &&& t[1] == s.subrange(5, 7)
            &&& t[2] == s.skip(8)
            &&& spec_render_date(t[0], t[1], t[2]) == s
        }),
{
    let y = s.take(4);
    let m = s.subrange(5, 7);
    let d = s.skip(8);
    assert(s =~= y + seq!['-'] + (m + seq!['-'] + d));
    lemma_split_concat(y, m + seq!['-'] + d, '-');
    lemma_split_concat(m, d, '-');
    assert(forall|i: int| 0 <= i < y.len() ==> is_digit_char(#[trigger] y[i]));
    assert(forall|i: int| 0 <= i < m.len() ==> is_digit_char(#[trigger] m[i]));
    assert(forall|i: int| 0 <= i < d.len() ==> is_digit_char(#[trigger] d[i]));
    assert('-' as u32 == 45);
    lemma_split_no_sep(y, '-');
    lemma_split_no_sep(m, '-');
    lemma_split_no_sep(d, '-');
    let t = spec_split(s, '-');
    assert(t =~~= seq![y, m, d]);
    assert(spec_render_date(y, m, d) =~= s);
}

} // verus!
