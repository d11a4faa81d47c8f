use notedeck::args::{classify, Answer, ArgColumn, Args, Ask, AskKind, Flag, PubkeySource};

type Parsed = Args<String, String, String>;
type Reply = Answer<String, String, String>;

fn line(args: &[&str]) -> Vec<String> {
    args.iter().map(|arg| arg.to_string()).collect()
}

/// Stands in for the caller: keys start with `npub` or `nsec`, filters with
/// `{`, and a file can be read unless its path starts with `-` or `missing`.
fn resolve(ask: &Ask) -> Reply {
    let text = ask.text.as_str();
    match ask.kind {
        AskKind::PublicKey if text.starts_with("npub") => Answer::Keypair(format!("pub {}", text)),
        AskKind::SecretKey if text.starts_with("nsec") => Answer::Keypair(format!("sec {}", text)),
        AskKind::ContactsOf if text.starts_with("npub") => Answer::Pubkey(text.to_owned()),
        AskKind::Filter if text.starts_with('{') => Answer::Filter(text.to_owned()),
        AskKind::FilterFile if text.starts_with('-') || text.starts_with("missing") => {
            Answer::Unreadable
        }
        AskKind::FilterFile if text.ends_with(".json") => Answer::Filter(format!("from {}", text)),
        _ => Answer::Rejected,
    }
}

fn parse(args: &[&str]) -> Parsed {
    let args = line(args);
    let mut parser = Parsed::parse(&args);
    let mut asked = 0;
    while let Some(ask) = parser.ask() {
        asked += 1;
        assert!(asked <= args.len());
        parser.answer(resolve(&ask));
    }
    assert!(parser.is_done());
    parser.finish()
}

fn asks(args: &[&str]) -> Vec<(AskKind, String)> {
    let args = line(args);
    let mut parser = Parsed::parse(&args);
    let mut seen = Vec::new();
    while let Some(ask) = parser.ask() {
        parser.answer(resolve(&ask));
        seen.push((ask.kind, ask.text));
    }
    seen
}

fn deck_author() -> ArgColumn<String, String> {
    ArgColumn::Contacts(PubkeySource::DeckAuthor)
}

fn defaults() -> Parsed {
    Args {
        columns: vec![deck_author()],
        relays: vec![],
        is_mobile: None,
        keys: vec![],
        since_optimize: true,
        light: false,
        dbpath: None,
    }
}

#[test]
fn flags_are_told_apart() {
    assert_eq!(classify("--mobile"), Flag::Mobile);
    assert_eq!(classify("--light"), Flag::Light);
    assert_eq!(classify("--dark"), Flag::Dark);
    assert_eq!(classify("--pub"), Flag::PublicKey);
    assert_eq!(classify("--npub"), Flag::PublicKey);
    assert_eq!(classify("--sec"), Flag::SecretKey);
    assert_eq!(classify("--nsec"), Flag::SecretKey);
    assert_eq!(classify("--no-since-optimize"), Flag::NoSinceOptimize);
    assert_eq!(classify("--filter"), Flag::Filter);
    assert_eq!(classify("--dbpath"), Flag::DbPath);
    assert_eq!(classify("-r"), Flag::Relay);
    assert_eq!(classify("--relay"), Flag::Relay);
    assert_eq!(classify("--column"), Flag::Column);
    assert_eq!(classify("-c"), Flag::Column);
    assert_eq!(classify("--filter-file"), Flag::FilterFile);
    assert_eq!(classify("-f"), Flag::FilterFile);
}

#[test]
fn what_is_no_flag_is_other() {
    for arg in ["", "-", "--", "mobile", "--Mobile", "--mobile ", " --mobile", "--relays", "-rr", "-R", "--filter-files", "contacts", "--no-since", "\u{2d}\u{2d}lig"] {
        assert_eq!(classify(arg), Flag::Other, "for {:?}", arg);
    }
}

#[test]
fn empty_command_line_gives_the_defaults() {
    assert_eq!(parse(&[]), defaults());
}

#[test]
fn unknown_arguments_are_passed_over() {
    assert_eq!(parse(&["notedeck", "--verbose", "x", ""]), defaults());
}

#[test]
fn mobile_is_set() {
    let args = parse(&["--mobile"]);
    assert_eq!(args.is_mobile, Some(true));
    assert_eq!(args, Args { is_mobile: Some(true), ..defaults() });
}

#[test]
fn last_of_light_and_dark_counts() {
    assert!(parse(&["--light"]).light);
    assert!(!parse(&["--dark"]).light);
    assert!(!parse(&["--light", "--dark"]).light);
    assert!(parse(&["--dark", "--light"]).light);
    assert!(parse(&["--light", "--dark", "--mobile", "--light"]).light);
}

#[test]
fn since_optimize_can_be_switched_off() {
    assert!(parse(&["--mobile"]).since_optimize);
    assert!(!parse(&["--no-since-optimize"]).since_optimize);
}

#[test]
fn dbpath_takes_the_next_argument() {
    assert_eq!(parse(&["--dbpath", "/var/db"]).dbpath, Some("/var/db".to_owned()));
    assert_eq!(parse(&["--dbpath", "a", "--dbpath", "b"]).dbpath, Some("b".to_owned()));
}

#[test]
fn value_that_looks_like_a_flag_is_a_value() {
    let args = parse(&["--dbpath", "--light", "-r", "--mobile"]);
    assert_eq!(args.dbpath, Some("--light".to_owned()));
    assert_eq!(args.relays, vec!["--mobile".to_owned()]);
    assert!(!args.light);
    assert_eq!(args.is_mobile, None);
}

#[test]
fn relays_are_kept_in_order() {
    let args = parse(&["-r", "wss://a", "--relay", "wss://b", "-r", "wss://a"]);
    assert_eq!(args.relays, line(&["wss://a", "wss://b", "wss://a"]));
}

#[test]
fn flag_without_its_value_ends_the_reading() {
    for flag in ["--pub", "--npub", "--sec", "--nsec", "--filter", "--dbpath", "-r", "--relay", "--column", "-c", "--filter-file", "-f"] {
        assert_eq!(parse(&["--light", flag]), Args { light: true, ..defaults() }, "for {}", flag);
        assert!(asks(&[flag]).is_empty(), "for {}", flag);
    }
}

#[test]
fn public_keys_become_accounts() {
    let args = parse(&["--pub", "npub1", "--npub", "npub2"]);
    assert_eq!(args.keys, line(&["pub npub1", "pub npub2"]));
    assert_eq!(args.columns, vec![deck_author()]);
}

#[test]
fn secret_keys_become_accounts() {
    let args = parse(&["--sec", "nsec1", "--pub", "npub1", "--nsec", "nsec2"]);
    assert_eq!(args.keys, line(&["sec nsec1", "pub npub1", "sec nsec2"]));
}

#[test]
fn rejected_keys_are_dropped() {
    let args = parse(&["--pub", "nsec1", "--sec", "npub1", "--pub", "--mobile", "--light"]);
    assert_eq!(args, Args { light: true, ..defaults() });
}

#[test]
fn filters_become_columns() {
    let args = parse(&["--filter", "{\"kinds\":[1]}", "--filter", "{}"]);
    assert_eq!(
        args.columns,
        vec![
            ArgColumn::Generic(vec!["{\"kinds\":[1]}".to_owned()]),
            ArgColumn::Generic(vec!["{}".to_owned()]),
        ]
    );
}

#[test]
fn rejected_filter_leaves_the_default_column() {
    assert_eq!(parse(&["--filter", "kinds"]), defaults());
}

#[test]
fn contacts_columns() {
    let args = parse(&["--column", "contacts", "-c", "contacts:npub1", "-c", "contacts"]);
    assert_eq!(
        args.columns,
        vec![
            deck_author(),
            ArgColumn::Contacts(PubkeySource::Explicit("npub1".to_owned())),
            deck_author(),
        ]
    );
}

#[test]
fn contacts_with_a_rejected_key_is_dropped() {
    assert_eq!(parse(&["-c", "contacts:xyz", "--light"]), Args { light: true, ..defaults() });
    assert_eq!(parse(&["-c", "contacts:"]), defaults());
    assert_eq!(
        asks(&["-c", "contacts:", "-c", "contacts:xyz"]),
        vec![(AskKind::ContactsOf, String::new()), (AskKind::ContactsOf, "xyz".to_owned())]
    );
}

#[test]
fn unknown_column_names_are_passed_over() {
    assert_eq!(parse(&["--column", "universe", "--light"]), Args { light: true, ..defaults() });
    assert_eq!(parse(&["--column", "Contacts"]), defaults());
    assert_eq!(parse(&["--column", "contact:npub1"]), defaults());
    assert_eq!(parse(&["--column", "--light"]), defaults());
    assert!(asks(&["--column", "universe", "-c", " contacts:npub1"]).is_empty());
}

#[test]
fn filter_files_become_columns() {
    let args = parse(&["--filter-file", "a.json", "-f", "b.json"]);
    assert_eq!(
        args.columns,
        vec![
            ArgColumn::Generic(vec!["from a.json".to_owned()]),
            ArgColumn::Generic(vec!["from b.json".to_owned()]),
        ]
    );
}

#[test]
fn file_without_a_filter_is_dropped() {
    assert_eq!(parse(&["-f", "notes.txt", "--light"]), Args { light: true, ..defaults() });
}

#[test]
fn path_of_an_unreadable_file_is_read_again_as_a_flag() {
    assert_eq!(parse(&["-f", "--light"]), Args { light: true, ..defaults() });
    let args = parse(&["-f", "-r", "wss://a"]);
    assert_eq!(args.relays, line(&["wss://a"]));
    assert_eq!(parse(&["-f", "missing.json", "--mobile"]).is_mobile, Some(true));
    assert_eq!(
        asks(&["-f", "-f", "a.json"]),
        vec![(AskKind::FilterFile, "-f".to_owned()), (AskKind::FilterFile, "a.json".to_owned())]
    );
    assert_eq!(
        parse(&["-f", "-f", "a.json"]).columns,
        vec![ArgColumn::Generic(vec!["from a.json".to_owned()])]
    );
}

#[test]
fn path_of_a_readable_file_is_not_read_again() {
    let args = line(&["-f", "--light"]);
    let mut parser = Parsed::parse(&args);
    assert_eq!(
        parser.ask(),
        Some(Ask { kind: AskKind::FilterFile, text: "--light".to_owned() })
    );
    parser.answer(Answer::Filter("f".to_owned()));
    assert_eq!(parser.ask(), None);
    let parsed = parser.finish();
    assert!(!parsed.light);
    assert_eq!(parsed.columns, vec![ArgColumn::Generic(vec!["f".to_owned()])]);

    let mut parser = Parsed::parse(&args);
    parser.answer(Answer::Rejected);
    assert!(!parser.finish().light);
}

#[test]
fn questions_come_in_the_order_of_the_command_line() {
    let seen = asks(&[
        "--light", "--pub", "npub1", "-c", "contacts:npub2", "--filter", "{}", "--sec", "nsec3",
        "-f", "x.json", "--mobile",
    ]);
    assert_eq!(
        seen,
        vec![
            (AskKind::PublicKey, "npub1".to_owned()),
            (AskKind::ContactsOf, "npub2".to_owned()),
            (AskKind::Filter, "{}".to_owned()),
            (AskKind::SecretKey, "nsec3".to_owned()),
            (AskKind::FilterFile, "x.json".to_owned()),
        ]
    );
}

#[test]
fn everything_at_once() {
    let args = parse(&[
        "--mobile", "--light", "--pub", "npub1", "--no-since-optimize", "--filter", "{}",
        "--dbpath", "/db", "-r", "wss://a", "--column", "contacts", "-f", "f.json", "--sec",
        "nsec1", "extra",
    ]);
    assert_eq!(
        args,
        Args {
            columns: vec![
                ArgColumn::Generic(vec!["{}".to_owned()]),
                deck_author(),
                ArgColumn::Generic(vec!["from f.json".to_owned()]),
            ],
            relays: line(&["wss://a"]),
            is_mobile: Some(true),
            keys: line(&["pub npub1", "sec nsec1"]),
            since_optimize: false,
            light: true,
            dbpath: Some("/db".to_owned()),
        }
    );
}

#[test]
fn answer_of_another_kind_records_nothing() {
    let args = line(&["--pub", "npub1", "--filter", "{}", "-c", "contacts:npub1", "--light"]);
    let mut parser = Parsed::parse(&args);
    assert_eq!(parser.ask().unwrap().kind, AskKind::PublicKey);
    parser.answer(Answer::Filter("f".to_owned()));
    assert_eq!(parser.ask().unwrap().kind, AskKind::Filter);
    parser.answer(Answer::Keypair("k".to_owned()));
    assert_eq!(parser.ask().unwrap().kind, AskKind::ContactsOf);
    parser.answer(Answer::Unreadable);
    assert_eq!(parser.ask(), None);
    assert_eq!(parser.finish(), Args { light: true, ..defaults() });
}

#[test]
fn answer_without_a_question_is_dropped() {
    let args = line(&["--light", "-r", "wss://a"]);
    let mut parser = Parsed::parse(&args);
    assert!(parser.is_done());
    parser.answer(Answer::Keypair("k".to_owned()));
    parser.answer(Answer::Filter("f".to_owned()));
    parser.answer(Answer::Unreadable);
    assert!(parser.is_done());
    assert_eq!(
        parser.finish(),
        Args { light: true, relays: line(&["wss://a"]), ..defaults() }
    );
}

#[test]
fn finish_before_the_end_hands_out_what_was_read() {
    let args = line(&["--light", "--pub", "npub1", "--mobile"]);
    let parser = Parsed::parse(&args);
    assert!(!parser.is_done());
    assert_eq!(parser.finish(), Args { light: true, ..defaults() });
}

#[test]
fn default_column_only_where_none_was_read() {
    assert_eq!(parse(&["--pub", "npub1"]).columns, vec![deck_author()]);
    assert_eq!(
        parse(&["--filter", "{}"]).columns,
        vec![ArgColumn::Generic(vec!["{}".to_owned()])]
    );
    assert_eq!(parse(&["-c", "contacts"]).columns, vec![deck_author()]);
}
