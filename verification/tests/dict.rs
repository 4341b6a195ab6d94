use zdict::dict::{
    dicts_for, failure_report, get_url, list_dicts, not_found_message, provider_message,
    url_message, DictKind,
};

#[test]
fn query_urls() {
    assert_eq!(
        DictKind::Yahoo.get_query_url("love"),
        "https://tw.dictionary.search.yahoo.com/search?p=love"
    );
    assert_eq!(
        DictKind::Urban.get_query_url("yeet"),
        "http://api.urbandictionary.com/v0/define?term=yeet"
    );
    assert_eq!(
        DictKind::Jisho.get_query_url("house"),
        "https://jisho.org/api/v1/search/words?keyword=house"
    );
}

#[test]
fn template_url_is_prefix_and_word() {
    assert_eq!(get_url("love"), "https://tw.dictionary.search.yahoo.com/search?p=love");
    assert_eq!(get_url("{word}"), "https://tw.dictionary.search.yahoo.com/search?p={word}");
    assert_eq!(get_url(""), "https://tw.dictionary.search.yahoo.com/search?p=");
}

#[test]
fn names_and_titles() {
    assert_eq!(DictKind::Yahoo.name(), "yahoo");
    assert_eq!(DictKind::Urban.title(), "Urban Dictionary");
    assert_eq!(DictKind::Jisho.homepage_url(), "https://jisho.org/");
}

#[test]
fn listing_of_dictionaries() {
    assert_eq!(
        list_dicts(),
        "yahoo: Yahoo Dictionary\nhttps://tw.dictionary.yahoo.com/\n\n\
         urban: Urban Dictionary\nhttps://www.urbandictionary.com/\n\n"
    );
}

#[test]
fn dictionary_choice() {
    assert_eq!(dicts_for(&None), vec![DictKind::Yahoo]);
    assert_eq!(dicts_for(&Some("yahoo".to_string())), vec![DictKind::Yahoo]);
    assert_eq!(dicts_for(&Some("urban".to_string())), vec![DictKind::Urban]);
    assert_eq!(dicts_for(&Some("all".to_string())), vec![DictKind::Yahoo, DictKind::Urban]);
}

#[test]
fn messages() {
    assert_eq!(provider_message(DictKind::Urban), "\x1b[34m[urban]\x1b[0m\n");
    assert_eq!(url_message("http://x/"), "\x1b[34m(http://x/)\x1b[0m\n");
    assert_eq!(not_found_message("zzz"), "\x1b[33m\"zzz\" not found!\x1b[0m\n");
}

#[test]
fn failure_report_text() {
    let rule = "=".repeat(80);
    let expected = format!(
        "Io(Kind)\nio failed\n{rule}\nEntryionary: Urban Dictionary (urban)\nWord: 'love'\n{rule}\n\n\
         Houston, we got a problem \u{1F622}\nPlease report the error message above to \
         https://github.com/zdict/rust-zdict/issues\n",
        rule = rule
    );
    assert_eq!(failure_report("Io(Kind)", "io failed", DictKind::Urban, "love"), expected);
}
