use zdict::dict::jisho::{Entry as JishoEntry, Item, Japanese, Sense};
use zdict::dict::urban::{Def, Entry as UrbanEntry};
use zdict::dict::yahoo::{Entry as YahooEntry, ExToken, SenToken, SumExToken, Summary, VerToken};

fn s(x: &str) -> String {
    x.to_string()
}

#[test]
fn urban_shows_first_definition() {
    let e = UrbanEntry {
        list: vec![
            Def { word: s("yeet"), definition: s("to throw"), example: s("he yeeted it\r\nfar"), omitted: s("{}") },
            Def { word: s("other"), definition: s("no"), example: s(""), omitted: s("{}") },
        ],
    };
    assert_eq!(
        e.show(0),
        "\x1b[33myeet\x1b[0m\n  \x1b[0mto throw\x1b[0m\n  \x1b[36mhe yeeted it\x1b[0m\n  \x1b[36mfar\x1b[0m\n\n"
    );
}

#[test]
fn urban_found_requires_a_definition() {
    assert!(UrbanEntry { list: vec![] }.found().is_none());
    let e = UrbanEntry { list: vec![Def { word: s("a"), definition: s("b"), example: s("c"), omitted: s("{}") }] };
    assert!(e.found().is_some());
}

fn jisho_entry() -> JishoEntry {
    let item = |w: &str, r: &str| Item {
        japanese: vec![
            Japanese { reading: Some(s(r)), word: Some(s(w)) },
            Japanese { reading: Some(s("うち")), word: None },
        ],
        senses: vec![
            Sense {
                parts_of_speech: vec![s("Noun")],
                english_definitions: vec![s("house"), s("home")],
                see_also: vec![],
                restrictions: vec![s("家")],
            },
            Sense {
                parts_of_speech: vec![],
                english_definitions: vec![s("family")],
                see_also: vec![s("家族")],
                restrictions: vec![],
            },
        ],
        omitted: s("{}"),
    };
    JishoEntry { data: vec![item("家", "いえ"), item("宅", "たく"), item("屋", "や")], omitted: s("{}") }
}

fn jisho_item_text(w: &str, r: &str) -> String {
    format!(
        "\x1b[33;1m{r}\x1b[0m\n\x1b[32;1m{w}\x1b[0m\n\x1b[31;1mNoun\x1b[0m\n  \x1b[32;1m1. house; home\x1b[0m\n    \x1b[34mOnly to 家\x1b[0m\n  \x1b[32;1m2. family\x1b[0m\n    \x1b[34mSee also 家族\x1b[0m\n\x1b[0mOther forms\x1b[0m\n  \x1b[33m[うち]\x1b[0m\n",
        r = r,
        w = w
    )
}

#[test]
fn jisho_shows_first_item_unless_verbose() {
    let e = jisho_entry();
    assert_eq!(e.show(0), format!("{}\n", jisho_item_text("家", "いえ")));
    assert_eq!(
        e.show(1),
        format!(
            "{}{}\n{}\n",
            jisho_item_text("家", "いえ"),
            jisho_item_text("宅", "たく"),
            jisho_item_text("屋", "や")
        )
    );
}

fn yahoo_entry() -> YahooEntry {
    YahooEntry {
        version: 3,
        summary: Summary {
            word: s("love"),
            pronounce: vec![(s("KK"), s("[lʌv]"))],
            explain: vec![SumExToken::PoS(s("n.")), SumExToken::Explain(s("愛"))],
            grammar: vec![s("名詞複數：loves")],
        },
        explain: vec![
            ExToken::PoS { text: s("n.名詞") },
            ExToken::Item {
                text: s("1. 愛"),
                sentence: vec![
                    SenToken::Plain(s("My ")),
                    SenToken::Bold(s("love")),
                    SenToken::Plain(s(".")),
                    SenToken::Plain(s("\n")),
                    SenToken::Plain(s("我的愛")),
                    SenToken::Plain(s("\n")),
                ],
            },
        ],
        verbose: vec![VerToken::Title(s("同義詞")), VerToken::Explain(s("n. 愛")), VerToken::Item(s("affection"))],
    }
}

#[test]
fn yahoo_show() {
    let e = yahoo_entry();
    let summary = "\x1b[33mlove\x1b[0m\n\x1b[0mKK\x1b[0m\x1b[37;1m[lʌv]\x1b[0m \n  \x1b[31;1mn.\x1b[0m \x1b[0m愛\x1b[0m\n\n  \x1b[0m名詞複數：loves\x1b[0m\n";
    let explain = "\n\x1b[31;1mn.名詞\x1b[0m\n  \x1b[0m1. 愛\x1b[0m\n    \x1b[36mMy \x1b[0m\x1b[36;1mlove\x1b[0m\x1b[36m.\x1b[0m\n    \x1b[36m我的愛\x1b[0m\n";
    let verbose = "\n\x1b[31;1m同義詞\x1b[0m\n  \x1b[0mn. 愛\x1b[0m\n    \x1b[36maffection\x1b[0m\n";
    assert_eq!(e.show(0), format!("{}{}\n", summary, explain));
    assert_eq!(e.show(2), format!("{}{}{}\n", summary, explain, verbose));
}

#[test]
fn yahoo_line_feed_at_line_start_is_indented() {
    let mut e = yahoo_entry();
    e.summary.pronounce = vec![];
    e.summary.grammar = vec![];
    e.summary.explain = vec![];
    e.verbose = vec![];
    e.explain = vec![ExToken::Item { text: s("t"), sentence: vec![SenToken::Plain(s("\n"))] }];
    assert_eq!(e.show(1), "\x1b[33mlove\x1b[0m\n\n  \x1b[0mt\x1b[0m\n    \n\n");
}

#[test]
fn verbose_levels_show_the_same() {
    let e = yahoo_entry();
    assert_eq!(e.show(1), e.show(2));
    let plain = e.show(0);
    assert!(e.show(1).starts_with(&plain[..plain.len() - 1]));
    let j = jisho_entry();
    assert_eq!(j.show(1), j.show(2));
    let plain = j.show(0);
    assert!(j.show(1).starts_with(&plain[..plain.len() - 1]));
}
