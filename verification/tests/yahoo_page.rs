use zdict::dict::yahoo::{
    parse_item, parse_pronounce, BlockSource, CardRow, Classed, Entry, ExToken, Page, Piece,
    SenToken, SpanSource, SumExToken, SummarySource, SynonymSource, VerToken,
};

fn s(x: &str) -> String {
    x.to_string()
}

const PAGE: &str = r#"<html><body>
<div id="web"><ol class="searchCenterMiddle">
 <li><div class="dictionaryWordCard sys_dict_word_card">
   <div class="grp-main">
     <div><span> love </span></div>
     <div><ul><li>KK[lʌv]</li> <li>DJ[lʌv]</li></ul></div>
     <div>audio</div>
     <div><ul><li><div class="pos_button">n.</div><div class="dictionaryExplanation">愛</div></li></ul></div>
   </div>
   <ul><li>名詞複數：loves</li></ul>
 </div></li>
</ol></div>
<div class="tab-content-explanation">
  <div class="compTitle">n.名詞</div>
  <ul class="compTextList"><li><span>1.</span><span>愛</span><span>My <b>love</b> is great. 我的愛很深。</span></li></ul>
</div>
<div class="tab-content-synonyms">
  <div><span class="fw-xl">同義詞</span></div>
  <div><span class="fw-500">n. 愛</span></div>
  <ul><li><span>affection</span></li><li><span>devotion</span></li></ul>
</div>
</body></html>"#;

#[test]
fn query_reads_a_search_page() {
    let e = Entry::query(s(PAGE)).expect("an entry");
    assert_eq!(e.version, 3);
    assert_eq!(e.summary.word, "love");
    assert_eq!(e.summary.pronounce, vec![(s("KK"), s("[lʌv]")), (s("DJ"), s("[lʌv]"))]);
    assert_eq!(e.summary.explain, vec![SumExToken::PoS(s("n.")), SumExToken::Explain(s("愛"))]);
    assert_eq!(e.summary.grammar, vec![s("名詞複數：loves")]);
    assert_eq!(
        e.explain,
        vec![
            ExToken::PoS { text: s("n.名詞") },
            ExToken::Item {
                text: s("1. 愛"),
                sentence: vec![
                    SenToken::Plain(s("My ")),
                    SenToken::Bold(s("love")),
                    SenToken::Plain(s(" is great.")),
                    SenToken::Plain(s("\n")),
                    SenToken::Plain(s("我的愛很深。")),
                    SenToken::Plain(s("\n")),
                ],
            },
        ]
    );
    assert_eq!(
        e.verbose,
        vec![
            VerToken::Title(s("同義詞")),
            VerToken::Explain(s("n. 愛")),
            VerToken::Item(s("affection")),
            VerToken::Item(s("devotion")),
        ]
    );
}

#[test]
fn page_without_summary_has_no_entry() {
    assert!(Entry::query(s("<html><body><p>nothing</p></body></html>")).is_none());
}

fn row(text: &str) -> CardRow {
    CardRow { text: s(text), items: Some(vec![]) }
}

#[test]
fn summary_needs_two_rows_and_four_for_pronunciation() {
    let page = |rows: Vec<CardRow>| Page {
        summary: Some(SummarySource { rows: Some(rows), grammar: None }),
        explanation: None,
        synonyms: None,
    };
    assert!(Entry::from_page(&page(vec![row("w")])).is_none());
    let e = Entry::from_page(&page(vec![row("w"), row("KK[x]"), row("e")])).unwrap();
    assert!(e.summary.pronounce.is_empty());
    assert!(e.explain.is_empty() && e.verbose.is_empty());
    let mut last = row("e");
    last.items = Some(vec![
        Classed { class: Some(s("a pos_button b")), text: s("v.") },
        Classed { class: None, text: s("skipped") },
        Classed { class: Some(s("other")), text: s("skipped") },
        Classed { class: Some(s("dictionaryExplanation")), text: s("mean") },
    ]);
    let e = Entry::from_page(&page(vec![row("\tw\n"), row("KK[x] noBracket DJ[y]"), row("z"), last])).unwrap();
    assert_eq!(e.summary.word, "w");
    assert_eq!(e.summary.pronounce, vec![(s("KK"), s("[x]")), (s("DJ"), s("[y]"))]);
    assert_eq!(e.summary.explain, vec![SumExToken::PoS(s("v.")), SumExToken::Explain(s("mean"))]);
    let refused = Page { summary: Some(SummarySource { rows: None, grammar: None }), explanation: None, synonyms: None };
    assert!(Entry::from_page(&refused).is_none());
}

fn span(text: &str, pieces: &[(bool, &str)]) -> SpanSource {
    SpanSource { text: s(text), pieces: pieces.iter().map(|(e, t)| Piece { is_element: *e, text: s(t) }).collect() }
}

#[test]
fn items_and_their_sentences() {
    assert!(parse_item(&None).is_none());
    assert!(parse_item(&Some(vec![span("1.", &[])])).is_none());
    let plain = Some(vec![span("1.", &[]), span("x", &[])]);
    assert_eq!(parse_item(&plain), Some(ExToken::Item { text: s("1. x"), sentence: vec![] }));
    let no_space = Some(vec![span("1.", &[]), span("x", &[]), span("", &[(false, "nospace")])]);
    assert!(parse_item(&no_space).is_none());
    let bold_last = Some(vec![span("1.", &[]), span("x", &[]), span("", &[(false, "a "), (true, "b")])]);
    assert_eq!(
        parse_item(&bold_last),
        Some(ExToken::Item { text: s("1. x"), sentence: vec![SenToken::Plain(s("a "))] })
    );
    // an empty span takes the previous line feed off, which holds no space
    let empty_after = Some(vec![span("1.", &[]), span("x", &[]), span("", &[(false, "a b")]), span("", &[])]);
    assert!(parse_item(&empty_after).is_none());
}

#[test]
fn explanation_blocks_and_synonyms() {
    let blocks = vec![
        BlockSource { class: Some(s("compTitle x")), text: s("adj."), items: None },
        BlockSource { class: None, text: s("ignored"), items: None },
        BlockSource {
            class: Some(s("compTextList")),
            text: s("..."),
            items: Some(vec![None, Some(vec![span("2.", &[]), span("y", &[])])]),
        },
    ];
    let syns = vec![
        SynonymSource { name: s("div"), title: None, explain: Some(s("e")), items: None },
        SynonymSource { name: s("div"), title: Some(s("t")), explain: Some(s("e2")), items: None },
        SynonymSource { name: s("ul"), title: None, explain: None, items: Some(vec![s("w")]) },
        SynonymSource { name: s("p"), title: Some(s("no")), explain: None, items: None },
    ];
    let page = Page {
        summary: Some(SummarySource { rows: Some(vec![row("w"), row("e")]), grammar: Some(vec![s("g")]) }),
        explanation: Some(blocks),
        synonyms: Some(syns),
    };
    let e = Entry::from_page(&page).unwrap();
    assert_eq!(e.summary.grammar, vec![s("g")]);
    assert_eq!(
        e.explain,
        vec![ExToken::PoS { text: s("adj.") }, ExToken::Item { text: s("2. y"), sentence: vec![] }]
    );
    assert_eq!(
        e.verbose,
        vec![VerToken::Explain(s("e")), VerToken::Title(s("t")), VerToken::Item(s("w"))]
    );
}

#[test]
fn pronunciations() {
    assert_eq!(parse_pronounce("KK[lʌv] DJ[lʌv]"), vec![(s("KK"), s("[lʌv]")), (s("DJ"), s("[lʌv]"))]);
    assert_eq!(parse_pronounce("[x]"), vec![(s(""), s("[x]"))]);
    assert!(parse_pronounce("  ").is_empty());
}

#[test]
fn synonym_title_is_read_before_its_explanation() {
    let page = r#"<html><body>
<div id="web"><ol class="searchCenterMiddle"><li><div class="sys_dict_word_card">
  <div class="grp-main"><div>hope</div><div>x</div></div>
</div></li></ol></div>
<div class="tab-content-synonyms">
  <div><span class="fw-500">v. 希望</span><span class="fw-xl">Synonyms</span></div>
  <p><span class="fw-xl">not a div</span></p>
  <div><b>plain</b></div>
</div>
</body></html>"#;
    let e = Entry::query(s(page)).expect("an entry");
    assert_eq!(e.summary.word, "hope");
    assert!(e.summary.pronounce.is_empty());
    assert!(e.explain.is_empty());
    assert_eq!(e.verbose, vec![VerToken::Title(s("Synonyms"))]);
}
