//! The live HTML-scraping source. The extraction engine turns a document
//! tree into match records with a deliberate best-effort policy: every
//! structural mismatch degrades to "this item contributes nothing" and is
//! never an error. Tree navigation goes through trusted wrappers over the
//! `select` crate; everything read out of the tree is plain text, and all
//! decisions over that text are verified.

use vstd::prelude::*;
use select::document::Document;
use select::node::Node;
use select::predicate::{Attr, Class, Name, Predicate};
use crate::models::{Match, MatchDate};
use crate::strutil::{
    nat_to_digits, spec_after_first, spec_parse_usize, spec_split, spec_split_once_at,
    after_first_char, parse_usize, split_char, split_once_str, usize_to_string,
};

verus! {

/// Declares select's document type: an HTML page parsed into a node tree.
#[verifier::external_type_specification]
#[verifier::external_body]
pub struct ExDocument(Document);

/// Declares select's node handle, a view into one node of a document.
#[verifier::external_type_specification]
#[verifier::external_body]
pub struct ExNode<'a>(Node<'a>);

/// The document that select's HTML parser yields for given text; the
/// parse is deterministic, a function of the text alone.
pub uninterp spec fn spec_parse_document(html: Seq<char>) -> Document;

/// Relies on select's Document::from(&str): parses HTML text into a
/// document tree.
#[verifier::external_body]
fn parse_document(html: &str) -> (r: Document)
    ensures
        r == spec_parse_document(html@),
{
    Document::from(html)
}

/// The nodes that Document::find yields for the Name-and-Attr predicate,
/// in document order; a function of the document and the three tokens.
pub uninterp spec fn spec_elems_with_attr(
    d: &Document,
    elem: Seq<char>,
    key: Seq<char>,
    value: Seq<char>,
) -> Seq<Node>;

/// Relies on select's Document::find with the predicate
/// Name(elem).and(Attr(key, value)): every element with that tag name
/// carrying that exact attribute value, in document order.
#[verifier::external_body]
fn find_elems_with_attr<'a>(
    doc: &'a Document,
    elem: &str,
    key: &str,
    value: &str,
) -> (r: Vec<Node<'a>>)
    ensures
        r@ == spec_elems_with_attr(doc, elem@, key@, value@),
{
    doc.find(Name(elem).and(Attr(key, value))).collect()
}

/// The first hit of Node::find under the Class predicate.
pub uninterp spec fn spec_first_class(n: Node, class: Seq<char>) -> Option<Node>;

/// Relies on select's Node::find with the predicate Class(class), taking
/// the first hit in document order.
#[verifier::external_body]
fn find_first_class<'a>(node: &Node<'a>, class: &str) -> (r: Option<Node<'a>>)
    ensures
        r == spec_first_class(*node, class@),
{
    node.find(Class(class)).next()
}

/// All hits of Node::find under the Class-then-two-descendant-names
/// predicate, in document order.
pub uninterp spec fn spec_class_desc2(
    n: Node,
    class: Seq<char>,
    e1: Seq<char>,
    e2: Seq<char>,
) -> Seq<Node>;

/// Relies on select's Node::find with the predicate
/// Class(class).descendant(Name(e1).descendant(Name(e2))): every hit in
/// document order.
#[verifier::external_body]
fn find_class_desc2<'a>(node: &Node<'a>, class: &str, e1: &str, e2: &str) -> (r: Vec<Node<'a>>)
    ensures
        r@ == spec_class_desc2(*node, class@, e1@, e2@),
{
    node.find(Class(class).descendant(Name(e1).descendant(Name(e2)))).collect()
}

/// The first hit of Node::find under the Class-then-two-descendant-names
/// predicate.
pub uninterp spec fn spec_first_class_desc2(
    n: Node,
    class: Seq<char>,
    e1: Seq<char>,
    e2: Seq<char>,
) -> Option<Node>;

/// Relies on select's Node::find with the predicate
/// Class(class).descendant(Name(e1).descendant(Name(e2))), taking the
/// first hit.
#[verifier::external_body]
fn find_first_class_desc2<'a>(
    node: &Node<'a>,
    class: &str,
    e1: &str,
    e2: &str,
) -> (r: Option<Node<'a>>)
    ensures
        r == spec_first_class_desc2(*node, class@, e1@, e2@),
{
    node.find(Class(class).descendant(Name(e1).descendant(Name(e2)))).next()
}

/// The first hit of Node::find under the Class-then-descendant-name
/// predicate.
pub uninterp spec fn spec_first_class_desc(n: Node, class: Seq<char>, e: Seq<char>) -> Option<
    Node,
>;

/// Relies on select's Node::find with the predicate
/// Class(class).descendant(Name(e)), taking the first hit.
#[verifier::external_body]
fn find_first_class_desc<'a>(node: &Node<'a>, class: &str, e: &str) -> (r: Option<Node<'a>>)
    ensures
        r == spec_first_class_desc(*node, class@, e@),
{
    node.find(Class(class).descendant(Name(e))).next()
}

/// The first hit of Node::find under the name-then-descendant-name
/// predicate.
pub uninterp spec fn spec_first_elem_desc(n: Node, e1: Seq<char>, e2: Seq<char>) -> Option<Node>;

/// Relies on select's Node::find with the predicate
/// Name(e1).descendant(Name(e2)), taking the first hit.
#[verifier::external_body]
fn find_first_elem_desc<'a>(node: &Node<'a>, e1: &str, e2: &str) -> (r: Option<Node<'a>>)
    ensures
        r == spec_first_elem_desc(*node, e1@, e2@),
{
    node.find(Name(e1).descendant(Name(e2))).next()
}

/// The first hit of Node::find under the Name predicate.
pub uninterp spec fn spec_first_elem(n: Node, e: Seq<char>) -> Option<Node>;

/// Relies on select's Node::find with the predicate Name(e), taking the
/// first hit.
#[verifier::external_body]
fn find_first_elem<'a>(node: &Node<'a>, e: &str) -> (r: Option<Node<'a>>)
    ensures
        r == spec_first_elem(*node, e@),
{
    node.find(Name(e)).next()
}

/// Whether Node::is holds under the Class predicate.
pub uninterp spec fn spec_node_is_class(n: Node, class: Seq<char>) -> bool;

/// Relies on select's Node::is with the predicate Class(class): whether
/// the node carries that class.
#[verifier::external_body]
fn node_is_class(node: &Node<'_>, class: &str) -> (r: bool)
    ensures
        r == spec_node_is_class(*node, class@),
{
    node.is(Class(class))
}

/// The text that Node::text returns: a function of the node alone.
pub uninterp spec fn spec_node_text(n: Node) -> Seq<char>;

/// Relies on select's Node::text: the concatenated text content of the
/// node's subtree.
#[verifier::external_body]
fn node_text(node: &Node<'_>) -> (r: String)
    ensures
        r@ == spec_node_text(*node),
{
    node.text()
}

/// The value that Node::attr returns for the named attribute, if the node
/// carries one.
pub uninterp spec fn spec_node_attr(n: Node, name: Seq<char>) -> Option<Seq<char>>;

/// An optional string seen at the view level, for contracts over optional
/// text.
pub open spec fn opt_str_view(o: Option<String>) -> Option<Seq<char>> {
    match o {
        Some(s) => Some(s@),
        None => None,
    }
}

/// Relies on select's Node::attr: the value of the named attribute, if the
/// node carries one.
#[verifier::external_body]
fn node_attr(node: &Node<'_>, name: &str) -> (r: Option<String>)
    ensures
        opt_str_view(r) == spec_node_attr(*node, name@),
{
    node.attr(name).map(|s| s.to_string())
}

/// The n-th child that Node::children yields, if there is one.
pub uninterp spec fn spec_child_at(n: Node, i: int) -> Option<Node>;

/// Relies on select's Node::children, taking the n-th child node.
#[verifier::external_body]
fn child_at<'a>(node: &Node<'a>, n: usize) -> (r: Option<Node<'a>>)
    ensures
        r == spec_child_at(*node, n as int),
{
    node.children().nth(n)
}

/// The fixed 12-entry lookup table of month abbreviations, 0-based.
pub open spec fn month_abbrev(i: int) -> Seq<char> {
    if i == 0 {
        "Gen"@
    } else if i == 1 {
        "Feb"@
    } else if i == 2 {
        "Mar"@
    } else if i == 3 {
        "Apr"@
    } else if i == 4 {
        "Mag"@
    } else if i == 5 {
        "Giu"@
    } else if i == 6 {
        "Lug"@
    } else if i == 7 {
        "Ago"@
    } else if i == 8 {
        "Set"@
    } else if i == 9 {
        "Ott"@
    } else if i == 10 {
        "Nov"@
    } else {
        "Dic"@
    }
}

/// The first table index whose abbreviation equals the token, scanning
/// from position `i` on.
pub open spec fn spec_month_index_from(s: Seq<char>, i: int) -> Option<int>
    decreases 12 - i when i <= 12
{
    if i >= 12 {
        None
    } else if s == month_abbrev(i) {
        Some(i)
    } else {
        spec_month_index_from(s, i + 1)
    }
}

/// What month lookup returns: the 0-based index of the token in the fixed
/// table, or nothing for any other token.
pub open spec fn spec_month_index(s: Seq<char>) -> Option<int> {
    spec_month_index_from(s, 0)
}

/// Month lookup totality over the known tokens: looking up the table's own
/// entry at any index yields exactly that index back.
pub proof fn lemma_month_lookup_totality(i: int)
    requires
        0 <= i < 12,
    ensures
        spec_month_index(month_abbrev(i)) == Some(i),
{
    reveal_strlit("Gen");
    reveal_strlit("Feb");
    reveal_strlit("Mar");
    reveal_strlit("Apr");
    reveal_strlit("Mag");
    reveal_strlit("Giu");
    reveal_strlit("Lug");
    reveal_strlit("Ago");
    reveal_strlit("Set");
    reveal_strlit("Ott");
    reveal_strlit("Nov");
    reveal_strlit("Dic");
    assert(forall|a: int, b: int|
        #![trigger month_abbrev(a), month_abbrev(b)]
        0 <= a < 12 && 0 <= b < 12 && a != b ==> month_abbrev(a) != month_abbrev(b)) by {
        assert(forall|a: int, b: int|
            #![trigger month_abbrev(a), month_abbrev(b)]
            0 <= a < 12 && 0 <= b < 12 && a != b ==> month_abbrev(a)[0] != month_abbrev(b)[0]
                || month_abbrev(a)[1] != month_abbrev(b)[1] || month_abbrev(a)[2]
                != month_abbrev(b)[2]);
    };
    reveal_with_fuel(spec_month_index_from, 13);
    assert(spec_month_index_from(month_abbrev(i), 0) == Some(i));
}

/// Resolves a three-letter month abbreviation to its 0-based table index;
/// any token outside the table yields None.
pub fn get_month_index(month: &str) -> (r: Option<usize>)
    ensures
        match r {
            Some(i) => spec_month_index(month@) == Some(i as int),
            None => spec_month_index(month@) is None,
        },
{
    let table = month_table();
    let mut i: usize = 0;
    while i < 12
        invariant
            i <= 12,
            table@.len() == 12,
            forall|j: int| 0 <= j < 12 ==> table@[j]@ == month_abbrev(j),
            spec_month_index(month@) == spec_month_index_from(month@, i as int),
        decreases 12 - i,
    {
        if crate::strutil::str_eq_check(month, table[i]) {
            return Some(i);
        }
        i = i + 1;
    }
    None
}

/// The table of month abbreviations as it stands in `month_abbrev`.
fn month_table() -> (r: Vec<&'static str>)
    ensures
        r@.len() == 12,
        forall|j: int| 0 <= j < 12 ==> r@[j]@ == month_abbrev(j),
{
    let mut t: Vec<&'static str> = Vec::new();
    t.push("Gen");
    t.push("Feb");
    t.push("Mar");
    t.push("Apr");
    t.push("Mag");
    t.push("Giu");
    t.push("Lug");
    t.push("Ago");
    t.push("Set");
    t.push("Ott");
    t.push("Nov");
    t.push("Dic");
    t
}

/// An in-progress accumulator for one match row: team names, optional
/// scores and optional icon URLs, still lacking the round index and the
/// date that the enclosing section supplies.
#[derive(Debug)]
pub struct PartialMatch {
    pub team1: String,
    pub team2: String,
    pub team1_score: Option<usize>,
    pub team2_score: Option<usize>,
    pub team1_icon: Option<String>,
    pub team2_icon: Option<String>,
}

fn clone_opt_string(s: &Option<String>) -> (r: Option<String>)
    ensures
        r == *s,
{
    match s {
        Some(v) => Some(v.clone()),
        None => None,
    }
}

impl PartialMatch {
    /// Promotes the accumulator to a full record by attaching the
    /// section's round index and the current date.
    pub fn create_match(self, index: usize, date: MatchDate) -> (m: Match)
        ensures
            m == spec_promote(self, index, date),
    {
        Match {
            match_day: index,
            match_date: date,
            team1: self.team1,
            team2: self.team2,
            team1_score: self.team1_score,
            team2_score: self.team2_score,
            team1_icon: self.team1_icon,
            team2_icon: self.team2_icon,
        }
    }

    fn duplicate(&self) -> (r: Self)
        ensures
            r == *self,
    {
        PartialMatch {
            team1: self.team1.clone(),
            team2: self.team2.clone(),
            team1_score: self.team1_score,
            team2_score: self.team2_score,
            team1_icon: clone_opt_string(&self.team1_icon),
            team2_icon: clone_opt_string(&self.team2_icon),
        }
    }
}

/// The record that a promoted accumulator yields.
pub open spec fn spec_promote(pm: PartialMatch, index: usize, date: MatchDate) -> Match {
    Match {
        match_day: index,
        match_date: date,
        team1: pm.team1,
        team2: pm.team2,
        team1_score: pm.team1_score,
        team2_score: pm.team2_score,
        team1_icon: pm.team1_icon,
        team2_icon: pm.team2_icon,
    }
}

fn duplicate_date(d: &MatchDate) -> (r: MatchDate)
    ensures
        r == *d,
{
    MatchDate { year: d.year.clone(), month: d.month.clone(), day: d.day.clone() }
}

/// The round index a heading text yields: everything after the first
/// space, read as an unsigned integer; no space or no number, no index.
pub open spec fn spec_index_of_text(t: Seq<char>) -> Option<usize> {
    match spec_after_first(t, ' ') {
        Some(rest) => spec_parse_usize(rest),
        None => None,
    }
}

/// Extracts the round index from a heading text: everything after the
/// first space, parsed as an unsigned integer.
pub fn parse_heading_index(text: &str) -> (r: Option<usize>)
    ensures
        r == spec_index_of_text(text@),
{
    match after_first_char(text, ' ') {
        Some(rest) => parse_usize(rest),
        None => None,
    }
}

/// The (year, month, day) token views a date row's text yields: the text
/// must split on spaces into a discarded weekday and exactly three more
/// tokens (day, month abbreviation, year), the abbreviation must be in
/// the month table, and the date keeps the raw day and year tokens with
/// the month's 0-based index rendered in decimal.
pub open spec fn spec_date_of_text(t: Seq<char>) -> Option<(Seq<char>, Seq<char>, Seq<char>)> {
    let sp = spec_split(t, ' ');
    if sp.len() == 4 && spec_month_index(sp[2]) is Some {
        Some((sp[3], nat_to_digits(spec_month_index(sp[2])->0 as nat), sp[1]))
    } else {
        None
    }
}

/// Whether an optional date carries exactly the given optional token
/// views.
pub open spec fn date_views_eq(
    r: Option<MatchDate>,
    v: Option<(Seq<char>, Seq<char>, Seq<char>)>,
) -> bool {
    match (r, v) {
        (Some(d), Some(t)) => d.year@ == t.0 && d.month@ == t.1 && d.day@ == t.2,
        (None, None) => true,
        _ => false,
    }
}

/// Extracts a date from a date row's text, e.g. `Sabato 19 Ago 2023`, as
/// `spec_date_of_text` describes.
pub fn parse_date_tokens(text: &str) -> (r: Option<MatchDate>)
    ensures
        date_views_eq(r, spec_date_of_text(text@)),
{
    let tokens = split_char(text, ' ');
    let ghost sp = spec_split(text@, ' ');
    proof {
        assert(tokens@.map_values(|p: String| p@).len() == sp.len());
    }
    if tokens.len() != 4 {
        return None;
    }
    proof {
        assert(tokens@.map_values(|p: String| p@)[1] == sp[1]);
        assert(tokens@.map_values(|p: String| p@)[2] == sp[2]);
        assert(tokens@.map_values(|p: String| p@)[3] == sp[3]);
    }
    let month_index = match get_month_index(tokens[2].as_str()) {
        Some(i) => i,
        None => {
            return None;
        },
    };
    let date = MatchDate::new(
        tokens[3].clone(),
        usize_to_string(month_index),
        tokens[1].clone(),
    );
    Some(date)
}

/// The optional score pair a result text yields: the text around the
/// first ` - ` separator, each side read as an unsigned integer
/// independently, so one side can carry a score and the other not; no
/// separator, no scores at all.
pub open spec fn spec_scores_of(t: Seq<char>) -> (Option<usize>, Option<usize>) {
    match spec_split_once_at(t, " - "@) {
        Some(p) => (spec_parse_usize(p.0), spec_parse_usize(p.1)),
        None => (None, None),
    }
}

/// Extracts an optional score pair from a result text, as
/// `spec_scores_of` describes.
pub fn parse_score_pair(text: &str) -> (r: (Option<usize>, Option<usize>))
    ensures
        r == spec_scores_of(text@),
{
    proof {
        reveal_strlit(" - ");
    }
    match split_once_str(text, " - ") {
        Some((left, right)) => (parse_usize(left), parse_usize(right)),
        None => (None, None),
    }
}

/// One table row of a section, as the extraction engine sees it after all
/// tree navigation and text parsing: a date row with its parsed date if it
/// had one, a match row with its accumulator if it parsed, or any other
/// row.
pub enum ParsedRow {
    Date(Option<MatchDate>),
    Game(Option<PartialMatch>),
    Other,
}

/// The row state machine of one section: rows are walked in document
/// order, a parsed date row updates the current date (an unparsed one
/// leaves it unchanged), and a parsed match row is promoted with the
/// section's index and the current date, or dropped while no date has been
/// seen yet.
pub open spec fn spec_collect(rows: Seq<ParsedRow>, index: usize, cur: Option<MatchDate>) -> Seq<
    Match,
>
    decreases rows.len(),
{
    if rows.len() == 0 {
        Seq::<Match>::empty()
    } else {
        match rows[0] {
            ParsedRow::Date(opt) => match opt {
                Some(d) => spec_collect(rows.drop_first(), index, Some(d)),
                None => spec_collect(rows.drop_first(), index, cur),
            },
            ParsedRow::Game(opt) => match (cur, opt) {
                (Some(d), Some(pm)) => seq![spec_promote(pm, index, d)].add(
                    spec_collect(rows.drop_first(), index, cur),
                ),
                _ => spec_collect(rows.drop_first(), index, cur),
            },
            ParsedRow::Other => spec_collect(rows.drop_first(), index, cur),
        }
    }
}

/// Runs the row state machine over one section's parsed rows, starting
/// with no current date.
pub fn collect_section(index: usize, rows: &Vec<ParsedRow>) -> (r: Vec<Match>)
    ensures
        r@ == spec_collect(rows@, index, None),
{
    let mut out: Vec<Match> = Vec::new();
    let mut cur: Option<MatchDate> = None;
    let mut i: usize = 0;
    proof {
        assert(rows@.skip(0) =~= rows@);
    }
    while i < rows.len()
        invariant
            i <= rows@.len(),
            spec_collect(rows@, index, None) == out@ + spec_collect(
                rows@.skip(i as int),
                index,
                cur,
            ),
        decreases rows@.len() - i,
    {
        let ghost tail = rows@.skip(i as int);
        proof {
            assert(tail[0] == rows@[i as int]);
            assert(tail.drop_first() =~= rows@.skip(i + 1));
        }
        match &rows[i] {
            ParsedRow::Date(opt) => {
                match opt {
                    Some(d) => {
                        cur = Some(duplicate_date(d));
                    },
                    None => {},
                }
            },
            ParsedRow::Game(opt) => {
                match (&cur, opt) {
                    (Some(d), Some(pm)) => {
                        let ghost out0 = out@;
                        let m = pm.duplicate().create_match(index, duplicate_date(d));
                        out.push(m);
                        proof {
                            assert(out@ =~= out0 + seq![m]);
                            assert(out0 + (seq![m] + spec_collect(rows@.skip(i + 1), index, cur))
                                =~= (out0 + seq![m]) + spec_collect(rows@.skip(i + 1), index, cur));
                        }
                    },
                    _ => {},
                }
            },
            ParsedRow::Other => {},
        }
        proof {
            assert(out@ + spec_collect(rows@.skip(i + 1), index, cur) =~= spec_collect(
                rows@,
                index,
                None,
            ));
        }
        i = i + 1;
    }
    proof {
        assert(rows@.skip(rows@.len() as int) =~= Seq::<ParsedRow>::empty());
        assert(out@ =~= spec_collect(rows@, index, None));
    }
    out
}

/// Every record the state machine emits carries the section's own round
/// index.
pub proof fn lemma_collect_all_match_day(rows: Seq<ParsedRow>, index: usize, cur: Option<MatchDate>)
    ensures
        forall|k: int|
            0 <= k < spec_collect(rows, index, cur).len() ==> spec_collect(
                rows,
                index,
                cur,
            )[k].match_day == index,
    decreases rows.len(),
{
    if rows.len() > 0 {
        match rows[0] {
            ParsedRow::Date(opt) => match opt {
                Some(d) => lemma_collect_all_match_day(rows.drop_first(), index, Some(d)),
                None => lemma_collect_all_match_day(rows.drop_first(), index, cur),
            },
            ParsedRow::Game(_) => lemma_collect_all_match_day(rows.drop_first(), index, cur),
            ParsedRow::Other => lemma_collect_all_match_day(rows.drop_first(), index, cur),
        }
    }
}

/// Extraction best-effort, first half: a section none of whose rows is a
/// parseable match row collects to the empty sequence, never to an error.
pub proof fn lemma_collect_no_valid_games(
    rows: Seq<ParsedRow>,
    index: usize,
    cur: Option<MatchDate>,
)
    requires
        forall|i: int| 0 <= i < rows.len() ==> !(#[trigger] rows[i] matches ParsedRow::Game(Some(_))),
    ensures
        spec_collect(rows, index, cur) == Seq::<Match>::empty(),
    decreases rows.len(),
{
    if rows.len() > 0 {
        assert(!(rows[0] matches ParsedRow::Game(Some(_))));
        assert(forall|i: int|
            0 <= i < rows.drop_first().len() ==> !(#[trigger] rows.drop_first()[i]
                matches ParsedRow::Game(Some(_))));
        match rows[0] {
            ParsedRow::Date(opt) => match opt {
                Some(d) => lemma_collect_no_valid_games(rows.drop_first(), index, Some(d)),
                None => lemma_collect_no_valid_games(rows.drop_first(), index, cur),
            },
            ParsedRow::Game(_) => lemma_collect_no_valid_games(rows.drop_first(), index, cur),
            ParsedRow::Other => lemma_collect_no_valid_games(rows.drop_first(), index, cur),
        }
    }
}

/// Extraction best-effort, second half: a match row standing before any
/// parsed date row is dropped, and the collected sequence is the same as
/// if that row were absent.
pub proof fn lemma_game_before_date_dropped(rows: Seq<ParsedRow>, index: usize, i: int)
    requires
        0 <= i < rows.len(),
        rows[i] is Game,
        forall|j: int| 0 <= j < i ==> !(#[trigger] rows[j] matches ParsedRow::Date(Some(_))),
    ensures
        spec_collect(rows, index, None) == spec_collect(rows.remove(i), index, None),
    decreases i,
{
    if i == 0 {
        assert(rows.remove(0) =~= rows.drop_first());
    } else {
        assert(!(rows[0] matches ParsedRow::Date(Some(_))));
        assert(rows.remove(i).drop_first() =~= rows.drop_first().remove(i - 1));
        assert(rows.drop_first()[i - 1] == rows[i]);
        assert(forall|j: int|
            0 <= j < i - 1 ==> !(#[trigger] rows.drop_first()[j] matches ParsedRow::Date(
                Some(_),
            )));
        lemma_game_before_date_dropped(rows.drop_first(), index, i - 1);
        assert(rows.remove(i)[0] == rows[0]);
    }
}

/// The round index a title node yields: the text of its first heading
/// node, parsed; no heading or no parseable index, no records.
pub open spec fn spec_extract_index(n: Node) -> Option<usize> {
    match spec_first_class(n, "ftbl__results-title__heading"@) {
        Some(el) => spec_index_of_text(spec_node_text(el)),
        None => None,
    }
}

fn extract_index(node: &Node<'_>) -> (r: Option<usize>)
    ensures
        r == spec_extract_index(*node),
{
    let el = match find_first_class(node, "ftbl__results-title__heading") {
        Some(el) => el,
        None => {
            return None;
        },
    };
    let text = node_text(&el);
    parse_heading_index(text.as_str())
}

/// The date token views a date row yields: the text of the first span
/// under a td, read as `spec_date_of_text` describes.
pub open spec fn spec_date_row_views(n: Node) -> Option<(Seq<char>, Seq<char>, Seq<char>)> {
    match spec_first_elem_desc(n, "td"@, "span"@) {
        Some(el) => spec_date_of_text(spec_node_text(el)),
        None => None,
    }
}

fn extract_match_date(node: &Node<'_>) -> (r: Option<MatchDate>)
    ensures
        date_views_eq(r, spec_date_row_views(*node)),
{
    let el = match find_first_elem_desc(node, "td", "span") {
        Some(el) => el,
        None => {
            return None;
        },
    };
    let text = node_text(&el);
    parse_date_tokens(text.as_str())
}

/// The team cell of a match row for one side: the first span-in-span
/// under the side's class.
pub open spec fn spec_team_node(n: Node, side: Seq<char>) -> Option<Node> {
    spec_first_class_desc2(n, side, "span"@, "span"@)
}

/// The node holding the team name: the third child of the team cell.
pub open spec fn spec_team_name_node(n: Node, side: Seq<char>) -> Option<Node> {
    match spec_team_node(n, side) {
        Some(el) => spec_child_at(el, 2),
        None => None,
    }
}

/// The badge icon URL of one side, if any: the `src` attribute of the
/// first img under the icon wrapper in the team cell. The icon is
/// optional: a missing wrapper, img or attribute yields None.
pub open spec fn spec_team_icon(n: Node, side: Seq<char>) -> Option<Seq<char>> {
    match spec_team_node(n, side) {
        Some(el) => match spec_first_class_desc(el, "ftbl__team__icon-wrapper"@, "img"@) {
            Some(ic) => spec_node_attr(ic, "src"@),
            None => None,
        },
        None => None,
    }
}

/// The node holding the score text: the first span under the result cell.
pub open spec fn spec_score_text_node(n: Node) -> Option<Node> {
    match spec_first_class(n, "ftbl__match-row__result"@) {
        Some(el) => spec_first_elem(el, "span"@),
        None => None,
    }
}

/// What a match row yields. Some exactly when both team name nodes and
/// the score node exist; the accumulator then carries the two name texts,
/// each side's optional badge URL, and the scores read from the score
/// text.
pub open spec fn partial_match_view_ok(r: Option<PartialMatch>, n: Node) -> bool {
    let home = "ftbl__match-row__home"@;
    let away = "ftbl__match-row__away"@;
    match r {
        Some(pm) => {
            &&& spec_team_name_node(n, home) is Some
            &&& spec_team_name_node(n, away) is Some
            &&& spec_score_text_node(n) is Some
            &&& pm.team1@ == spec_node_text(spec_team_name_node(n, home)->0)
            &&& pm.team2@ == spec_node_text(spec_team_name_node(n, away)->0)
            &&& opt_str_view(pm.team1_icon) == spec_team_icon(n, home)
            &&& opt_str_view(pm.team2_icon) == spec_team_icon(n, away)
            &&& pm.team1_score == spec_scores_of(spec_node_text(spec_score_text_node(n)->0)).0
            &&& pm.team2_score == spec_scores_of(spec_node_text(spec_score_text_node(n)->0)).1
        },
        None => spec_team_name_node(n, home) is None || spec_team_name_node(n, away) is None
            || spec_score_text_node(n) is None,
    }
}

fn extract_partial_match(node: &Node<'_>) -> (r: Option<PartialMatch>)
    ensures
        partial_match_view_ok(r, *node),
{
    let el_team1 = match find_first_class_desc2(node, "ftbl__match-row__home", "span", "span") {
        Some(el) => el,
        None => {
            return None;
        },
    };
    let name1 = match child_at(&el_team1, 2) {
        Some(n) => n,
        None => {
            return None;
        },
    };
    let team1 = node_text(&name1);
    let team1_icon = match find_first_class_desc(&el_team1, "ftbl__team__icon-wrapper", "img") {
        Some(icon) => node_attr(&icon, "src"),
        None => None,
    };

    let el_team2 = match find_first_class_desc2(node, "ftbl__match-row__away", "span", "span") {
        Some(el) => el,
        None => {
            return None;
        },
    };
    let name2 = match child_at(&el_team2, 2) {
        Some(n) => n,
        None => {
            return None;
        },
    };
    let team2 = node_text(&name2);
    let team2_icon = match find_first_class_desc(&el_team2, "ftbl__team__icon-wrapper", "img") {
        Some(icon) => node_attr(&icon, "src"),
        None => None,
    };

    let el_score = match find_first_class(node, "ftbl__match-row__result") {
        Some(el) => el,
        None => {
            return None;
        },
    };
    let score_span = match find_first_elem(&el_score, "span") {
        Some(el) => el,
        None => {
            return None;
        },
    };
    let score_str = node_text(&score_span);
    let (team1_score, team2_score) = parse_score_pair(score_str.as_str());

    Some(PartialMatch { team1, team2, team1_score, team2_score, team1_icon, team2_icon })
}

/// The round index of a section node: the index its first title node's
/// heading yields; no title or no parseable heading, no index.
pub open spec fn spec_section_index(n: Node) -> Option<usize> {
    match spec_first_class(n, "ftbl__results-title"@) {
        Some(t) => spec_extract_index(t),
        None => None,
    }
}

/// A section's table rows: every tr under a tbody under the results
/// table, in document order.
pub open spec fn spec_section_rows(n: Node) -> Seq<Node> {
    spec_class_desc2(n, "ftbl__results-table"@, "tbody"@, "tr"@)
}

/// What one table row node yields for the row state machine: a date row's
/// parsed date views, a match row's accumulator, or nothing for any other
/// row.
pub open spec fn row_matches_view(pr: ParsedRow, n: Node) -> bool {
    if spec_node_is_class(n, "ftbl__match-data-row"@) {
        (pr matches ParsedRow::Date(opt) && date_views_eq(opt, spec_date_row_views(n)))
    } else if spec_node_is_class(n, "ftbl__match-row"@) {
        (pr matches ParsedRow::Game(opt) && partial_match_view_ok(opt, n))
    } else {
        pr is Other
    }
}

/// Whether `rows` is exactly the section's table rows, each seen through
/// the row state machine's eyes.
pub open spec fn section_rows_ok(rows: Seq<ParsedRow>, n: Node) -> bool {
    let rns = spec_section_rows(n);
    rows.len() == rns.len() && (forall|i: int|
        0 <= i < rows.len() ==> #[trigger] row_matches_view(rows[i], rns[i]))
}

/// Whether `ms` is what a section with round index `idx` yields: the row
/// state machine, run from no current date over the section's rows.
pub open spec fn section_records_given_index(ms: Seq<Match>, n: Node, idx: usize) -> bool {
    exists|rows: Seq<ParsedRow>|
        #[trigger] section_rows_ok(rows, n) && ms == spec_collect(rows, idx, None)
}

/// What one section node contributes to the harvest: its collected
/// records when its heading yields an index, nothing otherwise.
pub open spec fn section_records_ok(ms: Seq<Match>, n: Node) -> bool {
    match spec_section_index(n) {
        Some(idx) => section_records_given_index(ms, n, idx),
        None => ms == Seq::<Match>::empty(),
    }
}

/// Turns one section node into its match records: Some exactly when the
/// heading supplies a round index, and then exactly the records the row
/// state machine collects from the section's rows under that index.
pub fn parse_matches(node: &Node<'_>) -> (r: Option<Vec<Match>>)
    ensures
        match r {
            Some(ms) => spec_section_index(*node) is Some && section_records_given_index(
                ms@,
                *node,
                spec_section_index(*node)->0,
            ),
            None => spec_section_index(*node) is None,
        },
{
    let el_title = match find_first_class(node, "ftbl__results-title") {
        Some(t) => t,
        None => {
            return None;
        },
    };
    let index = match extract_index(&el_title) {
        Some(i) => i,
        None => {
            return None;
        },
    };
    let row_nodes = find_class_desc2(node, "ftbl__results-table", "tbody", "tr");
    let ghost rns = spec_section_rows(*node);
    let mut rows: Vec<ParsedRow> = Vec::new();
    let mut i: usize = 0;
    while i < row_nodes.len()
        invariant
            row_nodes@ == rns,
            rns == spec_section_rows(*node),
            i <= rns.len(),
            rows@.len() == i,
            forall|j: int| 0 <= j < i ==> #[trigger] row_matches_view(rows@[j], rns[j]),
        decreases row_nodes.len() - i,
    {
        let row = &row_nodes[i];
        if node_is_class(row, "ftbl__match-data-row") {
            rows.push(ParsedRow::Date(extract_match_date(row)));
        } else if node_is_class(row, "ftbl__match-row") {
            rows.push(ParsedRow::Game(extract_partial_match(row)));
        } else {
            rows.push(ParsedRow::Other);
        }
        i = i + 1;
    }
    let ms = collect_section(index, &rows);
    proof {
        assert(section_rows_ok(rows@, *node));
        assert(section_records_given_index(ms@, *node, index));
    }
    Some(ms)
}

/// The live source bound to one external site. Fetching the page needs a
/// network client and stays with the caller; this type owns the extraction
/// engine that turns the fetched page into records.
pub struct SkyHunter;

/// What a fetched page yields: one record sequence per section node of
/// the parsed document, each as `section_records_ok` describes, joined in
/// document order.
pub open spec fn scrape_records_ok(r: Seq<Match>, html: Seq<char>) -> bool {
    let secs = spec_elems_with_attr(
        &spec_parse_document(html),
        "div"@,
        "data-intersect"@,
        "true"@,
    );
    exists|parts: Seq<Seq<Match>>|
        {
            &&& #[trigger] parts.flatten() == r
            &&& parts.len() == secs.len()
            &&& forall|j: int| 0 <= j < secs.len() ==> #[trigger] section_records_ok(
                parts[j],
                secs[j],
            )
        }
}

impl SkyHunter {
    /// Turns one fetched page into records: every section node matching
    /// the fixed structural signature contributes its collected matches,
    /// in document order; malformed sections contribute nothing.
    pub fn scrape(html: &str) -> (r: Vec<Match>)
        ensures
            scrape_records_ok(r@, html@),
    {
        let doc = parse_document(html);
        let sections = find_elems_with_attr(&doc, "div", "data-intersect", "true");
        let ghost secs = spec_elems_with_attr(
            &spec_parse_document(html@),
            "div"@,
            "data-intersect"@,
            "true"@,
        );
        let mut out: Vec<Match> = Vec::new();
        let ghost mut parts: Seq<Seq<Match>> = Seq::empty();
        let mut i: usize = 0;
        proof {
            assert(parts.flatten() =~= out@);
        }
        while i < sections.len()
            invariant
                sections@ == secs,
                i <= secs.len(),
                parts.len() == i,
                forall|j: int| 0 <= j < i ==> #[trigger] section_records_ok(parts[j], secs[j]),
                out@ == parts.flatten(),
            decreases sections@.len() - i,
        {
            match parse_matches(&sections[i]) {
                Some(mut ms) => {
                    proof {
                        Seq::lemma_flatten_push(parts, ms@);
                        assert(section_records_ok(ms@, secs[i as int]));
                        parts = parts.push(ms@);
                    }
                    out.append(&mut ms);
                },
                None => {
                    proof {
                        Seq::lemma_flatten_push(parts, Seq::<Match>::empty());
                        assert(section_records_ok(Seq::<Match>::empty(), secs[i as int]));
                        parts = parts.push(Seq::<Match>::empty());
                        assert(parts.flatten() =~= out@);
                    }
                },
            }
            i = i + 1;
        }
        proof {
            assert(scrape_records_ok(out@, html@));
        }
        out
    }
}

} // verus!
