use zdict::cli::{parse_opts, CliError, Opts, SubCommand};

fn args(xs: &[&str]) -> Vec<String> {
    xs.iter().map(|s| s.to_string()).collect()
}

fn words(xs: &[&str]) -> Vec<String> {
    args(xs)
}

fn plain(ws: &[&str]) -> Opts {
    Opts {
        words: words(ws),
        show_provider: false,
        show_url: false,
        dict: None,
        verbose: 0,
        disable_db_cache: false,
        subcmd: None,
    }
}

#[test]
fn no_argument_asks_for_help() {
    assert_eq!(parse_opts(&args(&["zd"])), Err(CliError::Help));
    assert_eq!(parse_opts(&args(&[])), Err(CliError::Help));
}

#[test]
fn words_are_collected_in_order() {
    assert_eq!(parse_opts(&args(&["zd", "love", "hate"])), Ok(plain(&["love", "hate"])));
}

#[test]
fn all_flags_and_dict() {
    let r = parse_opts(&args(&[
        "zd", "--show-provider", "--show-url", "-v", "--dict", "urban", "-d", "love",
    ]));
    let mut expected = plain(&["love"]);
    expected.show_provider = true;
    expected.show_url = true;
    expected.verbose = 1;
    expected.dict = Some("urban".to_string());
    expected.disable_db_cache = true;
    assert_eq!(r, Ok(expected));
}

#[test]
fn dict_with_equals_sign() {
    let r = parse_opts(&args(&["zd", "--dict=all", "love"])).unwrap();
    assert_eq!(r.dict, Some("all".to_string()));
    assert_eq!(r.words, words(&["love"]));
}

#[test]
fn verbose_cluster_counts_twice() {
    let r = parse_opts(&args(&["zd", "-vv", "love"])).unwrap();
    assert_eq!(r.verbose, 2);
    let r = parse_opts(&args(&["zd", "-vd", "--verbose", "love"])).unwrap();
    assert_eq!(r.verbose, 2);
    assert!(r.disable_db_cache);
}

#[test]
fn verbose_more_than_twice_is_refused() {
    assert_eq!(parse_opts(&args(&["zd", "-vvv", "love"])), Err(CliError::TooManyVerbose));
    assert_eq!(
        parse_opts(&args(&["zd", "-v", "--verbose", "-v", "love"])),
        Err(CliError::TooManyVerbose)
    );
}

#[test]
fn dicts_subcommand() {
    let r = parse_opts(&args(&["zd", "dicts"])).unwrap();
    assert_eq!(r.subcmd, Some(SubCommand::ListDicts));
    assert!(r.words.is_empty());
}

#[test]
fn dicts_after_a_flag_or_option_is_a_word() {
    let r = parse_opts(&args(&["zd", "-v", "dicts"])).unwrap();
    assert_eq!(r.subcmd, None);
    assert_eq!(r.words, words(&["dicts"]));
    assert_eq!(r.verbose, 1);
    let r = parse_opts(&args(&["zd", "--dict", "urban", "dicts"])).unwrap();
    assert_eq!(r.subcmd, None);
    assert_eq!(r.words, words(&["dicts"]));
    assert_eq!(r.dict, Some("urban".to_string()));
}

#[test]
fn dicts_after_a_word_is_a_word() {
    assert_eq!(parse_opts(&args(&["zd", "love", "dicts"])), Ok(plain(&["love", "dicts"])));
}

#[test]
fn help_is_a_word() {
    assert_eq!(parse_opts(&args(&["zd", "help"])), Ok(plain(&["help"])));
}

#[test]
fn argument_after_subcommand_is_refused() {
    assert_eq!(
        parse_opts(&args(&["zd", "dicts", "love"])),
        Err(CliError::UnexpectedArgument("love".to_string()))
    );
    assert_eq!(parse_opts(&args(&["zd", "dicts", "--help"])), Err(CliError::Help));
}

#[test]
fn help_and_version() {
    assert_eq!(parse_opts(&args(&["zd", "--help"])), Err(CliError::Help));
    assert_eq!(parse_opts(&args(&["zd", "-h", "love"])), Err(CliError::Help));
    assert_eq!(parse_opts(&args(&["zd", "-V"])), Err(CliError::Version));
    assert_eq!(parse_opts(&args(&["zd", "--version"])), Err(CliError::Version));
}

#[test]
fn unknown_options() {
    assert_eq!(
        parse_opts(&args(&["zd", "--colour", "love"])),
        Err(CliError::UnknownArgument("--colour".to_string()))
    );
    assert_eq!(
        parse_opts(&args(&["zd", "-vx", "love"])),
        Err(CliError::UnknownArgument("-x".to_string()))
    );
    assert_eq!(
        parse_opts(&args(&["zd", "--show-url=yes", "love"])),
        Err(CliError::UnknownArgument("--show-url=yes".to_string()))
    );
}

#[test]
fn dict_values() {
    assert_eq!(parse_opts(&args(&["zd", "--dict"])), Err(CliError::MissingValue));
    assert_eq!(parse_opts(&args(&["zd", "--dict", "-v", "love"])), Err(CliError::MissingValue));
    assert_eq!(
        parse_opts(&args(&["zd", "--dict", "jisho", "love"])),
        Err(CliError::InvalidValue("jisho".to_string()))
    );
    assert_eq!(
        parse_opts(&args(&["zd", "--dict", "urban", "--dict=yahoo", "love"])),
        Err(CliError::Repeated("--dict".to_string()))
    );
}

#[test]
fn repeated_flags_are_refused() {
    assert_eq!(
        parse_opts(&args(&["zd", "--show-url", "--show-url", "love"])),
        Err(CliError::Repeated("--show-url".to_string()))
    );
    assert_eq!(
        parse_opts(&args(&["zd", "-d", "--disable-db-cache", "love"])),
        Err(CliError::Repeated("--disable-db-cache".to_string()))
    );
    assert_eq!(
        parse_opts(&args(&["zd", "--show-provider", "--show-provider", "x"])),
        Err(CliError::Repeated("--show-provider".to_string()))
    );
}

#[test]
fn words_are_required_without_subcommand() {
    assert_eq!(parse_opts(&args(&["zd", "-v"])), Err(CliError::MissingWords));
}

#[test]
fn double_dash_ends_options() {
    let r = parse_opts(&args(&["zd", "--", "-v", "dicts", "--dict"])).unwrap();
    assert_eq!(r.words, words(&["-v", "dicts", "--dict"]));
    assert_eq!(r.verbose, 0);
    assert_eq!(r.subcmd, None);
}

#[test]
fn lone_dash_is_a_word() {
    assert_eq!(parse_opts(&args(&["zd", "-"])), Ok(plain(&["-"])));
}

#[test]
fn non_ascii_words() {
    assert_eq!(parse_opts(&args(&["zd", "愛"])), Ok(plain(&["愛"])));
}
