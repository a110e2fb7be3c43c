use adsabs::export::FormatType;
use adsabs::search::Search;
use adsabs::AdsBuilder;
use adsabs::AdsError;
use adsabs::Database;
use adsabs::DocType;
use adsabs::Sort;

fn params_of(query: &Search) -> Vec<(String, String)> {
    query.to_params()
}

#[test]
fn basic_query() {
    let query = Search::new("au:foreman-mackey")
        .rows(10)
        .start(5)
        .fl("id")
        .fl("author")
        .fq("au:hogg")
        .sort(Sort::from("citation_count"));

    assert_eq!(
        params_of(&query),
        vec![
            ("q".to_string(), "au:foreman-mackey".to_string()),
            ("rows".to_string(), "10".to_string()),
            ("start".to_string(), "5".to_string()),
            ("fl".to_string(), "id,author".to_string()),
            ("fq".to_string(), "au:hogg".to_string()),
            ("sort".to_string(), "citation_count desc".to_string()),
        ]
    );
}

#[test]
fn vec_fls() {
    let query = Search::new("au:foreman-mackey").fl("id,author");

    assert_eq!(
        params_of(&query),
        vec![
            ("q".to_string(), "au:foreman-mackey".to_string()),
            ("fl".to_string(), "id,author".to_string()),
        ]
    );
}

#[test]
fn empty_field_list_uses_default_set() {
    let query = Search::new("supernova");
    assert_eq!(
        params_of(&query),
        vec![
            ("q".to_string(), "supernova".to_string()),
            (
                "fl".to_string(),
                "author,first_author,bibcode,id,year,title".to_string()
            ),
        ]
    );
}

#[test]
fn multi_key_sort_renders_in_insertion_order() {
    let query = Search::new("q")
        .sort(Sort::asc("date"))
        .sort(Sort::desc("read_count"))
        .sort(Sort::from("bibcode".to_string()));
    let params = params_of(&query);
    let sort = params.iter().find(|(k, _)| k == "sort").unwrap();
    assert_eq!(sort.1, "date asc,read_count desc,bibcode desc");
}

#[test]
fn empty_sort_omits_the_key() {
    let params = params_of(&Search::new("q").fl("id"));
    assert!(params.iter().all(|(k, _)| k != "sort"));
}

#[test]
fn serialization_is_deterministic() {
    let build = || {
        Search::new("au:hogg")
            .rows(7)
            .fl("bibcode")
            .sort(Sort::asc("date"))
    };
    let first = params_of(&build());
    let second = params_of(&build());
    assert_eq!(first, second);
}

#[test]
fn rows_above_server_maximum_are_clamped() {
    let params = params_of(&Search::new("q").rows(3000));
    let rows = params.iter().find(|(k, _)| k == "rows").unwrap();
    assert_eq!(rows.1, "2000");
}

#[test]
fn numbers_render_in_decimal() {
    let params = params_of(&Search::new("q").rows(2000).start(0));
    assert_eq!(
        params[1],
        ("rows".to_string(), "2000".to_string())
    );
    assert_eq!(params[2], ("start".to_string(), "0".to_string()));

    let params = params_of(&Search::new("q").start(18446744073709551615));
    assert_eq!(
        params[1],
        ("start".to_string(), "18446744073709551615".to_string())
    );
}

#[test]
fn sort_renders_wire_syntax() {
    assert_eq!(Sort::asc("date").to_string(), "date asc");
    assert_eq!(Sort::desc("date").to_string(), "date desc");
    assert_eq!(Sort::from("date").to_string(), "date desc");
    assert_eq!(Sort::from("date".to_string()).to_string(), "date desc");
}

#[test]
fn token_precedence_is_fixed() {
    let token = adsabs::get_token(
        Some("a".to_string()),
        Some("b".to_string()),
        Some("c".to_string()),
        Some("d".to_string()),
    );
    assert_eq!(token.unwrap(), "a");

    let token = adsabs::get_token(None, Some("b".to_string()), Some("c".to_string()), None);
    assert_eq!(token.unwrap(), "b");

    let token = adsabs::get_token(None, None, Some("c".to_string()), Some("d".to_string()));
    assert_eq!(token.unwrap(), "c");

    let token = adsabs::get_token(None, None, None, Some("d".to_string()));
    assert_eq!(token.unwrap(), "d");

    let token = adsabs::get_token(None, None, None, None);
    assert!(matches!(token, Err(AdsError::Token)));
}

#[test]
fn builder_holds_plain_configuration() {
    let builder = AdsBuilder::new("token");
    assert_eq!(builder.base_url_str(), "https://api.adsabs.harvard.edu/v1/");
    assert_eq!(builder.auth_header_value(), "Bearer token");

    let builder = AdsBuilder::new("t")
        .base_url("http://localhost:9999/v1/")
        .token("other")
        .user_agent("my-user-agent");
    assert_eq!(builder.base_url_str(), "http://localhost:9999/v1/");
    assert_eq!(builder.auth_header_value(), "Bearer other");
    assert_eq!(builder.user_agent_str(), "my-user-agent");
}

#[test]
fn builder_from_env_needs_one_source() {
    let builder = AdsBuilder::from_env(Some("tok".to_string()), None, None, None).unwrap();
    assert_eq!(builder.auth_header_value(), "Bearer tok");
    assert!(matches!(
        AdsBuilder::from_env(None, None, None, None),
        Err(AdsError::Token)
    ));
}

#[test]
fn format_names_round_trip() {
    let formats = [
        (FormatType::BibTeX, "bibtex"),
        (FormatType::BibTeXABS, "bibtexabs"),
        (FormatType::ADS, "ads"),
        (FormatType::EndNote, "endnote"),
        (FormatType::ProCite, "procite"),
        (FormatType::RIS, "ris"),
        (FormatType::RefWorks, "refworks"),
        (FormatType::RSS, "rss"),
        (FormatType::MEDLARS, "medlars"),
        (FormatType::DCXML, "dcxml"),
        (FormatType::REFXML, "refxml"),
        (FormatType::REFABSXML, "refabsxml"),
        (FormatType::AASTeX, "aastex"),
        (FormatType::Icarus, "icarus"),
        (FormatType::MNRAS, "mnras"),
        (FormatType::SoPh, "soph"),
        (FormatType::VOTable, "votable"),
        (FormatType::Custom, "custom"),
    ];
    for (format, name) in formats {
        assert_eq!(format.wire_name(), name);
        assert_eq!(FormatType::from_str(name).unwrap(), format);
    }
    assert!(matches!(
        FormatType::from_str("parquet"),
        Err(AdsError::Json(_))
    ));
}

#[test]
fn database_wire_names_round_trip() {
    let databases = [
        (Database::Astronomy, "astronomy"),
        (Database::Physics, "physics"),
        (Database::General, "general"),
    ];
    for (database, name) in databases {
        assert_eq!(database.wire_name(), name);
        assert_eq!(Database::from_wire(name).unwrap(), database);
    }
    assert!(matches!(
        Database::from_wire("chemistry"),
        Err(AdsError::Json(_))
    ));
}

#[test]
fn doctype_wire_names_are_lowercase() {
    assert_eq!(DocType::Article.wire_name(), "article");
    assert_eq!(DocType::Mastersthesis.wire_name(), "mastersthesis");
    assert_eq!(DocType::Misc.wire_name(), "misc");
}

#[test]
fn error_messages_carry_their_text() {
    assert_eq!(AdsError::Ads("server says no".to_string()).message(), "server says no");
    assert_eq!(AdsError::Json("bad shape".to_string()).message(), "bad shape");
    assert_eq!(AdsError::Transport("timed out".to_string()).message(), "timed out");
    assert!(!AdsError::Token.message().is_empty());
    assert!(!AdsError::MissingFormat.message().is_empty());
    assert!(!AdsError::MissingBibcode.message().is_empty());
}
