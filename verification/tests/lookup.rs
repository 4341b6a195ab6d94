use zdict::cli::Opts;
use zdict::dict::DictKind;
use zdict::lookup::{lookup_words, Action, Event, Fetched, Lookup, Stage};

fn opts(ws: &[&str]) -> Opts {
    Opts {
        words: ws.iter().map(|s| s.to_string()).collect(),
        show_provider: false,
        show_url: false,
        dict: None,
        verbose: 0,
        disable_db_cache: false,
        subcmd: None,
    }
}

#[test]
fn plan_is_word_by_word_in_each_dictionary() {
    let mut o = opts(&["love", "hate"]);
    o.dict = Some("all".to_string());
    let plan = lookup_words(&o, true);
    let got: Vec<(DictKind, String)> = plan.iter().map(|l| (l.dict, l.word.clone())).collect();
    assert_eq!(
        got,
        vec![
            (DictKind::Yahoo, "love".to_string()),
            (DictKind::Yahoo, "hate".to_string()),
            (DictKind::Urban, "love".to_string()),
            (DictKind::Urban, "hate".to_string()),
        ]
    );
    assert!(plan.iter().all(|l| l.stage == Stage::Start && l.read_cache && l.save_cache));
}

#[test]
fn default_dictionary_is_yahoo() {
    let plan = lookup_words(&opts(&["love"]), false);
    assert_eq!(plan.len(), 1);
    assert_eq!(plan[0].dict, DictKind::Yahoo);
    assert_eq!(plan[0].url, "https://tw.dictionary.search.yahoo.com/search?p=love");
    assert!(!plan[0].read_cache && !plan[0].save_cache);
}

#[test]
fn cache_hit_is_shown_without_query() {
    let mut o = opts(&["love"]);
    o.show_provider = true;
    o.show_url = true;
    o.verbose = 1;
    let mut l = Lookup::new(DictKind::Urban, "love", &o, true);
    let a = l.step(Event::Begin);
    assert_eq!(
        a,
        vec![
            Action::Print("\x1b[34m[urban]\x1b[0m\n".to_string()),
            Action::Print("\x1b[34m(http://api.urbandictionary.com/v0/define?term=love)\x1b[0m\n".to_string()),
            Action::ReadCache { word: "love".to_string(), source: "urban".to_string() },
        ]
    );
    let a = l.step(Event::CacheRead(Some("{}".to_string())));
    assert_eq!(a, vec![Action::DecodeCached("{}".to_string())]);
    let a = l.step(Event::CachedDecoded(true));
    assert_eq!(a, vec![Action::Show { verbose: 1 }, Action::Finish]);
    assert!(l.is_done());
}

#[test]
fn disabled_cache_is_not_read_but_still_saved() {
    let mut o = opts(&["love"]);
    o.disable_db_cache = true;
    let mut l = Lookup::new(DictKind::Yahoo, "love", &o, true);
    let a = l.step(Event::Begin);
    assert_eq!(
        a,
        vec![Action::Query { url: "https://tw.dictionary.search.yahoo.com/search?p=love".to_string() }]
    );
    assert_eq!(l.step(Event::Fetched(Fetched::Found)), vec![Action::Encode]);
    let a = l.step(Event::Encoded(Some("{\"version\":3}".to_string())));
    assert_eq!(
        a,
        vec![
            Action::SaveCache {
                word: "love".to_string(),
                source: "yahoo".to_string(),
                content: "{\"version\":3}".to_string(),
            },
            Action::Show { verbose: 0 },
            Action::Finish,
        ]
    );
}

#[test]
fn cache_miss_and_bad_cache_fall_back_to_query() {
    let o = opts(&["x"]);
    let mut l = Lookup::new(DictKind::Urban, "x", &o, true);
    l.step(Event::Begin);
    let q = vec![Action::Query { url: "http://api.urbandictionary.com/v0/define?term=x".to_string() }];
    assert_eq!(l.step(Event::CacheRead(None)), q);
    let mut l = Lookup::new(DictKind::Urban, "x", &o, true);
    l.step(Event::Begin);
    l.step(Event::CacheRead(Some("garbage".to_string())));
    assert_eq!(l.step(Event::CachedDecoded(false)), q);
}

#[test]
fn not_found_and_failure() {
    let o = opts(&["zzz"]);
    let mut l = Lookup::new(DictKind::Urban, "zzz", &o, false);
    l.step(Event::Begin);
    assert_eq!(
        l.step(Event::Fetched(Fetched::NotFound)),
        vec![Action::Print("\x1b[33m\"zzz\" not found!\x1b[0m\n".to_string()), Action::Finish]
    );
    let mut l = Lookup::new(DictKind::Urban, "zzz", &o, false);
    l.step(Event::Begin);
    let a = l.step(Event::Fetched(Fetched::Failed { debug: "E".to_string(), display: "e".to_string() }));
    assert_eq!(a.len(), 2);
    match &a[0] {
        Action::Print(s) => assert!(s.starts_with("E\ne\n====")),
        other => panic!("unexpected {:?}", other),
    }
    assert_eq!(a[1], Action::Finish);
}

#[test]
fn without_cache_a_found_entry_is_only_shown() {
    let o = opts(&["x"]);
    let mut l = Lookup::new(DictKind::Urban, "x", &o, false);
    l.step(Event::Begin);
    l.step(Event::Fetched(Fetched::Found));
    assert_eq!(
        l.step(Event::Encoded(Some("{}".to_string()))),
        vec![Action::Show { verbose: 0 }, Action::Finish]
    );
    let mut l = Lookup::new(DictKind::Urban, "x", &o, true);
    l.step(Event::Begin);
    l.step(Event::CacheRead(None));
    l.step(Event::Fetched(Fetched::Found));
    assert_eq!(l.step(Event::Encoded(None)), vec![Action::Show { verbose: 0 }, Action::Finish]);
}

#[test]
fn events_out_of_turn_change_nothing() {
    let o = opts(&["x"]);
    let mut l = Lookup::new(DictKind::Urban, "x", &o, true);
    assert!(l.step(Event::CachedDecoded(true)).is_empty());
    assert_eq!(l.stage, Stage::Start);
    l.step(Event::Begin);
    assert!(l.step(Event::Begin).is_empty());
    assert_eq!(l.stage, Stage::ReadingCache);
}

#[test]
fn cache_key_is_shared_by_reader_and_writer() {
    let o = opts(&["love"]);
    let mut writer = Lookup::new(DictKind::Urban, "love", &o, true);
    writer.step(Event::Begin);
    writer.step(Event::CacheRead(None));
    writer.step(Event::Fetched(Fetched::Found));
    let saved = writer.step(Event::Encoded(Some("{}".to_string())));
    let mut reader = Lookup::new(DictKind::Urban, "love", &o, true);
    let read = reader.step(Event::Begin);
    match (&saved[0], &read[0]) {
        (Action::SaveCache { word: w1, source: s1, .. }, Action::ReadCache { word: w2, source: s2 }) => {
            assert_eq!((w1, s1), (w2, s2));
        }
        other => panic!("unexpected {:?}", other),
    }
}

#[test]
fn a_lookup_ends_after_few_events() {
    let o = opts(&["x"]);
    let mut l = Lookup::new(DictKind::Yahoo, "x", &o, true);
    let events = vec![
        Event::Begin,
        Event::CacheRead(Some("bad".to_string())),
        Event::CachedDecoded(false),
        Event::Fetched(Fetched::Found),
        Event::Encoded(Some("{}".to_string())),
    ];
    let mut last = Vec::new();
    for e in events {
        assert!(!l.is_done());
        last = l.step(e);
        assert!(!last.is_empty());
    }
    assert!(l.is_done());
    assert_eq!(last.last(), Some(&Action::Finish));
    assert!(l.step(Event::Begin).is_empty());
}
