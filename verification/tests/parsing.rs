use puttanesca::hunters::sky::{
    collect_section, get_month_index, parse_date_tokens, parse_heading_index, parse_score_pair,
    ParsedRow, PartialMatch, SkyHunter,
};
use puttanesca::models::MatchDate;
use puttanesca::strutil::{parse_usize, usize_to_string};

#[test]
fn month_lookup_all_twelve() {
    let months = [
        "Gen", "Feb", "Mar", "Apr", "Mag", "Giu", "Lug", "Ago", "Set", "Ott", "Nov", "Dic",
    ];
    for (i, m) in months.iter().enumerate() {
        assert_eq!(get_month_index(m), Some(i));
    }
}

#[test]
fn month_lookup_unknown_tokens() {
    assert_eq!(get_month_index("Xyz"), None);
    assert_eq!(get_month_index("gen"), None);
    assert_eq!(get_month_index("Genn"), None);
    assert_eq!(get_month_index(""), None);
}

#[test]
fn heading_index_extraction() {
    assert_eq!(parse_heading_index("Giornata 12"), Some(12));
    assert_eq!(parse_heading_index("Round 0"), Some(0));
    assert_eq!(parse_heading_index("Giornata"), None);
    assert_eq!(parse_heading_index("Giornata x"), None);
    assert_eq!(parse_heading_index("Giornata -3"), None);
}

#[test]
fn date_tokens_extraction() {
    let d = parse_date_tokens("Sabato 19 Ago 2023").unwrap();
    assert_eq!(d.year, "2023");
    assert_eq!(d.month, "7");
    assert_eq!(d.day, "19");
    assert_eq!(d.to_string(), "2023-07-19");
}

#[test]
fn date_tokens_rejections() {
    // unknown month abbreviation: no date update
    assert!(parse_date_tokens("Sabato 19 Xyz 2023").is_none());
    // wrong token count
    assert!(parse_date_tokens("19 Ago 2023").is_none());
    assert!(parse_date_tokens("Sabato 19 Ago 2023 extra").is_none());
    assert!(parse_date_tokens("").is_none());
}

#[test]
fn score_pair_extraction() {
    assert_eq!(parse_score_pair("2 - 1"), (Some(2), Some(1)));
    assert_eq!(parse_score_pair("0 - 0"), (Some(0), Some(0)));
    // one side can carry a score and the other not
    assert_eq!(parse_score_pair("x - 2"), (None, Some(2)));
    assert_eq!(parse_score_pair("3 - "), (Some(3), None));
    // no separator: no scores at all
    assert_eq!(parse_score_pair("2-1"), (None, None));
    assert_eq!(parse_score_pair(""), (None, None));
}

#[test]
fn parse_usize_cases() {
    assert_eq!(parse_usize("0"), Some(0));
    assert_eq!(parse_usize("+42"), Some(42));
    assert_eq!(parse_usize("007"), Some(7));
    assert_eq!(parse_usize(""), None);
    assert_eq!(parse_usize("+"), None);
    assert_eq!(parse_usize("12a"), None);
    assert_eq!(parse_usize("-1"), None);
    assert_eq!(parse_usize("99999999999999999999999999"), None);
}

#[test]
fn usize_rendering() {
    assert_eq!(usize_to_string(0), "0");
    assert_eq!(usize_to_string(7), "7");
    assert_eq!(usize_to_string(1234), "1234");
}

fn partial(team1: &str, team2: &str) -> PartialMatch {
    PartialMatch {
        team1: team1.to_string(),
        team2: team2.to_string(),
        team1_score: None,
        team2_score: None,
        team1_icon: None,
        team2_icon: None,
    }
}

fn date(s: &str) -> MatchDate {
    MatchDate::from(s).unwrap()
}

#[test]
fn collect_drops_game_before_any_date() {
    // a match row preceding any date row is dropped, the rest collected
    let rows = vec![
        ParsedRow::Game(Some(partial("Early", "Bird"))),
        ParsedRow::Date(Some(date("2023-08-19"))),
        ParsedRow::Game(Some(partial("Blue", "Red"))),
    ];
    let ms = collect_section(3, &rows);
    assert_eq!(ms.len(), 1);
    assert_eq!(ms[0].team1, "Blue");
    assert_eq!(ms[0].match_day, 3);
    assert_eq!(ms[0].match_date.to_string(), "2023-08-19");
}

#[test]
fn collect_without_valid_games_is_empty() {
    let rows = vec![
        ParsedRow::Date(Some(date("2023-08-19"))),
        ParsedRow::Other,
        ParsedRow::Game(None),
    ];
    let ms = collect_section(1, &rows);
    assert!(ms.is_empty());
}

#[test]
fn collect_unparsed_date_row_keeps_current_date() {
    // a date row that yields no update leaves the current date as it was
    let rows = vec![
        ParsedRow::Date(Some(date("2023-08-19"))),
        ParsedRow::Date(None),
        ParsedRow::Game(Some(partial("Blue", "Red"))),
    ];
    let ms = collect_section(2, &rows);
    assert_eq!(ms.len(), 1);
    assert_eq!(ms[0].match_date.to_string(), "2023-08-19");
}

#[test]
fn collect_threads_date_across_rows() {
    let rows = vec![
        ParsedRow::Date(Some(date("2023-08-19"))),
        ParsedRow::Game(Some(partial("A", "B"))),
        ParsedRow::Game(Some(partial("C", "D"))),
        ParsedRow::Date(Some(date("2023-08-20"))),
        ParsedRow::Game(Some(partial("E", "F"))),
    ];
    let ms = collect_section(1, &rows);
    assert_eq!(ms.len(), 3);
    assert_eq!(ms[0].match_date.to_string(), "2023-08-19");
    assert_eq!(ms[1].match_date.to_string(), "2023-08-19");
    assert_eq!(ms[2].match_date.to_string(), "2023-08-20");
}

fn section_html(heading: &str, rows: &str) -> String {
    format!(
        "<div data-intersect=\"true\">\
           <div class=\"ftbl__results-title\">\
             <h3 class=\"ftbl__results-title__heading\">{}</h3>\
           </div>\
           <table class=\"ftbl__results-table\"><tbody>{}</tbody></table>\
         </div>",
        heading, rows
    )
}

fn date_row_html(text: &str) -> String {
    format!("<tr class=\"ftbl__match-data-row\"><td><span>{}</span></td></tr>", text)
}

fn match_row_html(team1: &str, icon1: &str, team2: &str, icon2: &str, score: &str) -> String {
    let team = |name: &str, icon: &str, side: &str| {
        format!(
            "<td class=\"ftbl__match-row__{}\"><span><span>\
               <span class=\"ftbl__team__icon-wrapper\"><img src=\"{}\"></span>\
               <i></i>{}\
             </span></span></td>",
            side, icon, name
        )
    };
    format!(
        "<tr class=\"ftbl__match-row\">{}{}<td class=\"ftbl__match-row__result\"><span>{}</span></td></tr>",
        team(team1, icon1, "home"),
        team(team2, icon2, "away"),
        score
    )
}

#[test]
fn scrape_extracts_a_full_section() {
    let rows = format!(
        "{}{}",
        date_row_html("Sabato 19 Ago 2023"),
        match_row_html("Blue", "http://b.png", "Red", "http://r.png", "2 - 1"),
    );
    let html = format!("<html><body>{}</body></html>", section_html("Giornata 3", &rows));
    let ms = SkyHunter::scrape(&html);
    assert_eq!(ms.len(), 1);
    assert_eq!(ms[0].match_day, 3);
    assert_eq!(ms[0].match_date.to_string(), "2023-07-19");
    assert_eq!(ms[0].team1, "Blue");
    assert_eq!(ms[0].team2, "Red");
    assert_eq!(ms[0].team1_score, Some(2));
    assert_eq!(ms[0].team2_score, Some(1));
    assert_eq!(ms[0].team1_icon.as_deref(), Some("http://b.png"));
    assert_eq!(ms[0].team2_icon.as_deref(), Some("http://r.png"));
}

#[test]
fn scrape_section_without_valid_rows_is_empty_not_error() {
    // a section with a heading but zero valid match rows contributes an
    // empty sequence
    let html = format!(
        "<html><body>{}</body></html>",
        section_html("Giornata 3", &date_row_html("Sabato 19 Ago 2023"))
    );
    let ms = SkyHunter::scrape(&html);
    assert!(ms.is_empty());
}

#[test]
fn scrape_drops_match_row_before_any_date_row() {
    let rows = format!(
        "{}{}{}",
        match_row_html("Early", "e", "Bird", "b", "0 - 0"),
        date_row_html("Sabato 19 Ago 2023"),
        match_row_html("Blue", "b", "Red", "r", "2 - 1"),
    );
    let html = format!("<html><body>{}</body></html>", section_html("Giornata 3", &rows));
    let ms = SkyHunter::scrape(&html);
    assert_eq!(ms.len(), 1);
    assert_eq!(ms[0].team1, "Blue");
}

#[test]
fn scrape_skips_section_with_unparsable_heading() {
    let rows = format!(
        "{}{}",
        date_row_html("Sabato 19 Ago 2023"),
        match_row_html("Blue", "b", "Red", "r", "2 - 1"),
    );
    let html = format!("<html><body>{}</body></html>", section_html("NoIndexHere", &rows));
    let ms = SkyHunter::scrape(&html);
    assert!(ms.is_empty());
}

fn match_row_html_without_icons(team1: &str, team2: &str, score: &str) -> String {
    let team = |name: &str, side: &str| {
        format!(
            "<td class=\"ftbl__match-row__{}\"><span><span>\
               <em></em><i></i>{}\
             </span></span></td>",
            side, name
        )
    };
    format!(
        "<tr class=\"ftbl__match-row\">{}{}<td class=\"ftbl__match-row__result\"><span>{}</span></td></tr>",
        team(team1, "home"),
        team(team2, "away"),
        score
    )
}

#[test]
fn scrape_keeps_row_when_icons_are_missing() {
    // icons are optional: a match row without badge icons is kept, with
    // both icon fields absent
    let rows = format!(
        "{}{}",
        date_row_html("Sabato 19 Ago 2023"),
        match_row_html_without_icons("Blue", "Red", "2 - 1"),
    );
    let html = format!("<html><body>{}</body></html>", section_html("Giornata 3", &rows));
    let ms = SkyHunter::scrape(&html);
    assert_eq!(ms.len(), 1);
    assert_eq!(ms[0].team1, "Blue");
    assert_eq!(ms[0].team2, "Red");
    assert_eq!(ms[0].team1_score, Some(2));
    assert_eq!(ms[0].team1_icon, None);
    assert_eq!(ms[0].team2_icon, None);
}
