use primer::grep::{search, search_case_insensitive, Config};

#[test]
fn one_result() {
    let query = "duct";
    let contents = "\
Rust:
safe, fast, productive.
Pick three.";

    assert_eq!(vec!["safe, fast, productive."], search(query, contents));
}

#[test]
fn case_sensitive() {
    let query = "duct";
    let contents = "\
Rust:
safe, fast, productive.
Pick three.
Duct tape.";

    assert_eq!(vec!["safe, fast, productive."], search(query, contents));
}

#[test]
fn case_insensitive() {
    let query = "rUsT";
    let contents = "\
Rust:
safe, fast, productive.
Pick three.
Trust me.";

    assert_eq!(vec!["Rust:", "Trust me."], search_case_insensitive(query, contents));
}

#[test]
fn empty_query_matches_every_line() {
    let contents = "one\ntwo";
    assert_eq!(vec!["one", "two"], search("", contents));
}

#[test]
fn no_match_yields_nothing() {
    let contents = "one\ntwo";
    assert!(search("three", contents).is_empty());
}

#[test]
fn lines_keep_no_carriage_return() {
    let contents = "one\r\ntwo\r\nthree";
    assert_eq!(vec!["two"], search("w", contents));
}

#[test]
fn trailing_newline_adds_no_line() {
    let contents = "one\ntwo\n";
    assert_eq!(vec!["one", "two"], search("o", contents));
}

#[test]
fn case_insensitive_folds_both_sides() {
    assert_eq!(
        vec!["HAYSTACK"],
        search_case_insensitive("hay", "HAYSTACK\nneedle")
    );
}

#[test]
fn run_search_obeys_the_case_flag() {
    let args = vec![
        String::from("minigrep"),
        String::from("rUsT"),
        String::from("unused.txt"),
    ];
    let contents = "Rust:\nTrust me.\nrUsT itself";
    let sensitive = Config::new(&args, true).unwrap();
    assert_eq!(
        vec!["rUsT itself"],
        primer::grep::run_search(&sensitive, contents)
    );
    let insensitive = Config::new(&args, false).unwrap();
    assert_eq!(
        vec!["Rust:", "Trust me.", "rUsT itself"],
        primer::grep::run_search(&insensitive, contents)
    );
}

#[test]
fn config_reads_query_and_filename() {
    let args = vec![
        String::from("minigrep"),
        String::from("needle"),
        String::from("haystack.txt"),
    ];
    let config = Config::new(&args, true).unwrap();
    assert_eq!(config.query, "needle");
    assert_eq!(config.filename, "haystack.txt");
    assert!(config.case_sensitive);
}

#[test]
fn config_rejects_short_argument_lists() {
    let args = vec![String::from("minigrep"), String::from("needle")];
    assert!(Config::new(&args, false).is_err());
}
