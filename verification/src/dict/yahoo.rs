//! Yahoo's dictionary: its entries, how they are read from the search page,
//! and how they are shown.
use vstd::prelude::*;
use crate::dict::html::{
    Doc, parse_document, select_first, select_all, text_contents, child_count, element_name,
    attribute, child_of, child_path, child_paths, lemma_path_view, kuchiki_select_first,
    kuchiki_select, kuchiki_text_contents, kuchiki_child_count, kuchiki_element_name,
    kuchiki_attribute,
};
use crate::text::{
    append3, flat_map, lemma_flat_map_take, lemma_take_all, str_eq, contains_seq, contains_str,
    trim, trim_str, split_ws, split_whitespace, find_char, find_char_index, chars_of,
    string_from_chars, rsplit_once, rsplit_once_char, copy_string, owned,
};

verus! {

/// The version of the entry format, saved with each cached entry.
pub const VERSION: u8 = 3;

/// A piece of the summary's explanation: a part of speech or a meaning.
#[derive(Debug, PartialEq, Eq)]
pub enum SumExToken {
    PoS(String),
    Explain(String),
}

/// A piece of an example sentence: plain text (a lone line feed ends a line)
/// or the looked-up word in bold.
#[derive(Debug, PartialEq, Eq)]
pub enum SenToken {
    Plain(String),
    Bold(String),
}

/// A piece of the detailed explanation: a part of speech, or a numbered
/// meaning with its example sentence.
#[derive(Debug, PartialEq, Eq)]
pub enum ExToken {
    PoS { text: String },
    Item { text: String, sentence: Vec<SenToken> },
}

/// A piece of the synonyms section: a title, an explanation or a word.
#[derive(Debug, PartialEq, Eq)]
pub enum VerToken {
    Title(String),
    Explain(String),
    Item(String),
}

/// The summary card: the word, its pronunciations (such as `KK` and
/// `[lʌv]`), its short explanation and its grammar notes.
#[derive(Debug, PartialEq, Eq)]
pub struct Summary {
    pub word: String,
    pub pronounce: Vec<(String, String)>,
    pub explain: Vec<SumExToken>,
    pub grammar: Vec<String>,
}

/// An entry of Yahoo's dictionary.
#[derive(Debug, PartialEq, Eq)]
pub struct Entry {
    pub version: u8,
    pub summary: Summary,
    pub explain: Vec<ExToken>,
    pub verbose: Vec<VerToken>,
}

pub enum SumExTokenView {
    PoS(Seq<char>),
    Explain(Seq<char>),
}

pub enum SenTokenView {
    Plain(Seq<char>),
    Bold(Seq<char>),
}

pub enum ExTokenView {
    PoS { text: Seq<char> },
    Item { text: Seq<char>, sentence: Seq<SenTokenView> },
}

pub enum VerTokenView {
    Title(Seq<char>),
    Explain(Seq<char>),
    Item(Seq<char>),
}

pub struct SummaryView {
    pub word: Seq<char>,
    pub pronounce: Seq<(Seq<char>, Seq<char>)>,
    pub explain: Seq<SumExTokenView>,
    pub grammar: Seq<Seq<char>>,
}

pub struct EntryView {
    pub version: u8,
    pub summary: SummaryView,
    pub explain: Seq<ExTokenView>,
    pub verbose: Seq<VerTokenView>,
}

impl View for SumExToken {
    type V = SumExTokenView;

    open spec fn view(&self) -> SumExTokenView {
        match self {
            SumExToken::PoS(s) => SumExTokenView::PoS(s@),
            SumExToken::Explain(s) => SumExTokenView::Explain(s@),
        }
    }
}

impl View for SenToken {
    type V = SenTokenView;

    open spec fn view(&self) -> SenTokenView {
        match self {
            SenToken::Plain(s) => SenTokenView::Plain(s@),
            SenToken::Bold(s) => SenTokenView::Bold(s@),
        }
    }
}

pub open spec fn sentence_view(v: Seq<SenToken>) -> Seq<SenTokenView> {
    v.map_values(|t: SenToken| t@)
}

impl View for ExToken {
    type V = ExTokenView;

    open spec fn view(&self) -> ExTokenView {
        match self {
            ExToken::PoS { text } => ExTokenView::PoS { text: text@ },
            ExToken::Item { text, sentence } => ExTokenView::Item {
                text: text@,
                sentence: sentence_view(sentence@),
            },
        }
    }
}

impl View for VerToken {
    type V = VerTokenView;

    open spec fn view(&self) -> VerTokenView {
        match self {
            VerToken::Title(s) => VerTokenView::Title(s@),
            VerToken::Explain(s) => VerTokenView::Explain(s@),
            VerToken::Item(s) => VerTokenView::Item(s@),
        }
    }
}

pub open spec fn pairs_view(v: Seq<(String, String)>) -> Seq<(Seq<char>, Seq<char>)> {
    v.map_values(|p: (String, String)| (p.0@, p.1@))
}

impl View for Summary {
    type V = SummaryView;

    open spec fn view(&self) -> SummaryView {
        SummaryView {
            word: self.word@,
            pronounce: pairs_view(self.pronounce@),
            explain: self.explain@.map_values(|t: SumExToken| t@),
            grammar: self.grammar.deep_view(),
        }
    }
}

impl View for Entry {
    type V = EntryView;

    open spec fn view(&self) -> EntryView {
        EntryView {
            version: self.version,
            summary: self.summary@,
            explain: self.explain@.map_values(|t: ExToken| t@),
            verbose: self.verbose@.map_values(|t: VerToken| t@),
        }
    }
}

// ----------------------------------------------------------------------------
// Showing an entry
// ----------------------------------------------------------------------------

/// A pronunciation: its name, then its phonetic transcription in bold.
pub open spec fn pronounce_text(p: (Seq<char>, Seq<char>)) -> Seq<char> {
    "\x1b[0m"@ + p.0 + "\x1b[0m\x1b[37;1m"@ + p.1 + "\x1b[0m "@
}

/// A piece of the summary's explanation: a part of speech in red, a meaning
/// on the rest of the line.
pub open spec fn sum_ex_text(t: SumExTokenView) -> Seq<char> {
    match t {
        SumExTokenView::PoS(v) => "  \x1b[31;1m"@ + v + "\x1b[0m "@,
        SumExTokenView::Explain(v) => "\x1b[0m"@ + v + "\x1b[0m\n"@,
    }
}

/// A grammar note, indented.
pub open spec fn grammar_text(g: Seq<char>) -> Seq<char> {
    "  \x1b[0m"@ + g + "\x1b[0m\n"@
}

/// What is shown of the summary (`show_summary`): the word, the
/// pronunciations on one line if there are any, the explanation, and the
/// grammar notes after an empty line if there are any.
pub open spec fn spec_show_summary(s: SummaryView) -> Seq<char> {
    "\x1b[33m"@ + s.word + "\x1b[0m\n"@ + (if s.pronounce.len() > 0 {
        flat_map(s.pronounce, |p: (Seq<char>, Seq<char>)| pronounce_text(p)) + "\n"@
    } else {
        seq![]
    }) + flat_map(s.explain, |t: SumExTokenView| sum_ex_text(t)) + (if s.grammar.len() > 0 {
        "\n"@ + flat_map(s.grammar, |g: Seq<char>| grammar_text(g))
    } else {
        seq![]
    })
}

/// One sentence token after a line start or not: an indent at each line
/// start, plain text in cyan, the word in bold cyan, and a line feed token
/// ending the line. Returns the text and whether a new line starts.
pub open spec fn sentence_token_text(t: SenTokenView, at_start: bool) -> (Seq<char>, bool) {
    let indent = if at_start {
        "    "@
    } else {
        seq![]
    };
    match t {
        SenTokenView::Bold(s) => (indent + "\x1b[36;1m"@ + s + "\x1b[0m"@, false),
        SenTokenView::Plain(s) => if s == "\n"@ {
            (indent + "\n"@, true)
        } else {
            (indent + "\x1b[36m"@ + s + "\x1b[0m"@, false)
        },
    }
}

/// A sentence's text, and whether it ends at a line start.
pub open spec fn sentence_text(ts: Seq<SenTokenView>) -> (Seq<char>, bool)
    decreases ts.len(),
{
    if ts.len() == 0 {
        (seq![], true)
    } else {
        let (prev, at_start) = sentence_text(ts.drop_last());
        let (piece, next) = sentence_token_text(ts.last(), at_start);
        (prev + piece, next)
    }
}

/// A piece of the detailed explanation.
pub open spec fn ex_text(t: ExTokenView) -> Seq<char> {
    match t {
        ExTokenView::PoS { text } => "\x1b[31;1m"@ + text + "\x1b[0m\n"@,
        ExTokenView::Item { text, sentence } => "  \x1b[0m"@ + text + "\x1b[0m\n"@ + sentence_text(
            sentence,
        ).0,
    }
}

/// A piece of the synonyms section.
pub open spec fn ver_text(t: VerTokenView) -> Seq<char> {
    match t {
        VerTokenView::Title(v) => "\x1b[31;1m"@ + v + "\x1b[0m\n"@,
        VerTokenView::Explain(v) => "  \x1b[0m"@ + v + "\x1b[0m\n"@,
        VerTokenView::Item(v) => "    \x1b[36m"@ + v + "\x1b[0m\n"@,
    }
}

/// The detailed explanation (`show_explain`).
pub open spec fn spec_show_explain(ts: Seq<ExTokenView>) -> Seq<char> {
    flat_map(ts, |t: ExTokenView| ex_text(t))
}

/// The synonyms section (`show_verbose`).
pub open spec fn spec_show_verbose(ts: Seq<VerTokenView>) -> Seq<char> {
    flat_map(ts, |t: VerTokenView| ver_text(t))
}

/// What is shown of an entry: the summary; the detailed explanation after an
/// empty line, if there is one; the synonyms after an empty line, only when
/// `verbose` is above 0 and there are any; then an empty line.
pub open spec fn spec_show(e: EntryView, verbose: u8) -> Seq<char> {
    spec_show_summary(e.summary) + (if e.explain.len() > 0 {
        "\n"@ + spec_show_explain(e.explain)
    } else {
        seq![]
    }) + (if verbose > 0 && e.verbose.len() > 0 {
        "\n"@ + spec_show_verbose(e.verbose)
    } else {
        seq![]
    }) + "\n"@
}

fn append_pronounce(r: &mut String, ps: &Vec<(String, String)>)
    ensures
        final(r)@ == old(r)@ + flat_map(
            pairs_view(ps@),
            |p: (Seq<char>, Seq<char>)| pronounce_text(p),
        ),
{
    let ghost pv = pairs_view(ps@);
    let ghost f = |p: (Seq<char>, Seq<char>)| pronounce_text(p);
    let ghost head = r@;
    let mut i: usize = 0;
    while i < ps.len()
        invariant
            i <= ps@.len(),
            pv == pairs_view(ps@),
            f == (|p: (Seq<char>, Seq<char>)| pronounce_text(p)),
            r@ == head + flat_map(pv.take(i as int), f),
        decreases ps.len() - i,
    {
        proof {
            lemma_flat_map_take(pv, f, i as int);
        }
        let (k, v) = &ps[i];
        append3(r, "\x1b[0m", k.as_str(), "\x1b[0m\x1b[37;1m");
        append3(r, "", v.as_str(), "\x1b[0m ");
        proof {
            reveal_strlit("");
        }
        assert(r@ =~= head + flat_map(pv.take(i + 1), f));
        i = i + 1;
    }
    proof {
        lemma_take_all(pv);
    }
}

fn append_sum_explain(r: &mut String, ts: &Vec<SumExToken>)
    ensures
        final(r)@ == old(r)@ + flat_map(
            ts@.map_values(|t: SumExToken| t@),
            |t: SumExTokenView| sum_ex_text(t),
        ),
{
    let ghost tv = ts@.map_values(|t: SumExToken| t@);
    let ghost f = |t: SumExTokenView| sum_ex_text(t);
    let ghost head = r@;
    let mut i: usize = 0;
    while i < ts.len()
        invariant
            i <= ts@.len(),
            tv == ts@.map_values(|t: SumExToken| t@),
            f == (|t: SumExTokenView| sum_ex_text(t)),
            r@ == head + flat_map(tv.take(i as int), f),
        decreases ts.len() - i,
    {
        proof {
            lemma_flat_map_take(tv, f, i as int);
        }
        match &ts[i] {
            SumExToken::PoS(v) => append3(r, "  \x1b[31;1m", v.as_str(), "\x1b[0m "),
            SumExToken::Explain(v) => append3(r, "\x1b[0m", v.as_str(), "\x1b[0m\n"),
        }
        assert(r@ =~= head + flat_map(tv.take(i + 1), f));
        i = i + 1;
    }
    proof {
        lemma_take_all(tv);
    }
}

fn append_grammar(r: &mut String, gs: &Vec<String>)
    ensures
        final(r)@ == old(r)@ + flat_map(gs.deep_view(), |g: Seq<char>| grammar_text(g)),
{
    let ghost gv = gs.deep_view();
    let ghost f = |g: Seq<char>| grammar_text(g);
    let ghost head = r@;
    let mut i: usize = 0;
    while i < gs.len()
        invariant
            i <= gs@.len(),
            gv == gs.deep_view(),
            gv.len() == gs@.len(),
            f == (|g: Seq<char>| grammar_text(g)),
            r@ == head + flat_map(gv.take(i as int), f),
        decreases gs.len() - i,
    {
        proof {
            lemma_flat_map_take(gv, f, i as int);
        }
        assert(gv[i as int] == gs@[i as int]@);
        append3(r, "  \x1b[0m", gs[i].as_str(), "\x1b[0m\n");
        assert(r@ =~= head + flat_map(gv.take(i + 1), f));
        i = i + 1;
    }
    proof {
        lemma_take_all(gv);
    }
}

/// The text that shows the summary card.
pub fn show_summary(s: &Summary) -> (r: String)
    ensures
        r@ == spec_show_summary(s@),
{
    let mut r = String::new();
    append3(&mut r, "\x1b[33m", s.word.as_str(), "\x1b[0m\n");
    let ghost r1 = r@;
    if s.pronounce.len() > 0 {
        append_pronounce(&mut r, &s.pronounce);
        r.append("\n");
    }
    let ghost r2 = r@;
    assert(r2 =~= r1 + (if s@.pronounce.len() > 0 {
        flat_map(s@.pronounce, |p: (Seq<char>, Seq<char>)| pronounce_text(p)) + "\n"@
    } else {
        seq![]
    }));
    append_sum_explain(&mut r, &s.explain);
    let ghost r3 = r@;
    if s.grammar.len() > 0 {
        r.append("\n");
        append_grammar(&mut r, &s.grammar);
    }
    assert(r@ =~= r3 + (if s@.grammar.len() > 0 {
        "\n"@ + flat_map(s@.grammar, |g: Seq<char>| grammar_text(g))
    } else {
        seq![]
    }));
    assert(r@ =~= spec_show_summary(s@));
    r
}

fn append_sentence(r: &mut String, ts: &Vec<SenToken>)
    ensures
        final(r)@ == old(r)@ + sentence_text(sentence_view(ts@)).0,
{
    let ghost tv = sentence_view(ts@);
    let ghost head = r@;
    let mut at_start = true;
    let mut i: usize = 0;
    while i < ts.len()
        invariant
            i <= ts@.len(),
            tv == sentence_view(ts@),
            sentence_text(tv.take(i as int)) == (r@.subrange(head.len() as int, r@.len() as int), at_start),
            r@.len() >= head.len(),
            r@.subrange(0, head.len() as int) == head,
        decreases ts.len() - i,
    {
        let ghost before = r@;
        assert(tv.take(i + 1).drop_last() =~= tv.take(i as int));
        assert(tv[i as int] == ts@[i as int]@);
        if at_start {
            r.append("    ");
        }
        match &ts[i] {
            SenToken::Bold(s) => {
                append3(r, "\x1b[36;1m", s.as_str(), "\x1b[0m");
                at_start = false;
            },
            SenToken::Plain(s) => {
                if str_eq(s.as_str(), "\n") {
                    r.append("\n");
                    at_start = true;
                } else {
                    append3(r, "\x1b[36m", s.as_str(), "\x1b[0m");
                    at_start = false;
                }
            },
        }
        assert(r@.subrange(0, head.len() as int) =~= head);
        assert(r@.subrange(head.len() as int, r@.len() as int) =~= before.subrange(
            head.len() as int,
            before.len() as int,
        ) + sentence_token_text(tv[i as int], sentence_text(tv.take(i as int)).1).0);
        i = i + 1;
    }
    proof {
        lemma_take_all(tv);
    }
    assert(r@ =~= head + r@.subrange(head.len() as int, r@.len() as int));
}

fn append_explain(r: &mut String, ts: &Vec<ExToken>)
    ensures
        final(r)@ == old(r)@ + spec_show_explain(ts@.map_values(|t: ExToken| t@)),
{
    let ghost tv = ts@.map_values(|t: ExToken| t@);
    let ghost f = |t: ExTokenView| ex_text(t);
    let ghost head = r@;
    let mut i: usize = 0;
    while i < ts.len()
        invariant
            i <= ts@.len(),
            tv == ts@.map_values(|t: ExToken| t@),
            f == (|t: ExTokenView| ex_text(t)),
            r@ == head + flat_map(tv.take(i as int), f),
        decreases ts.len() - i,
    {
        proof {
            lemma_flat_map_take(tv, f, i as int);
        }
        let ghost before = r@;
        match &ts[i] {
            ExToken::PoS { text } => append3(r, "\x1b[31;1m", text.as_str(), "\x1b[0m\n"),
            ExToken::Item { text, sentence } => {
                append3(r, "  \x1b[0m", text.as_str(), "\x1b[0m\n");
                append_sentence(r, sentence);
            },
        }
        assert(r@ =~= before + ex_text(tv[i as int]));
        assert(r@ =~= head + flat_map(tv.take(i + 1), f));
        i = i + 1;
    }
    proof {
        lemma_take_all(tv);
    }
}

fn append_verbose(r: &mut String, ts: &Vec<VerToken>)
    ensures
        final(r)@ == old(r)@ + spec_show_verbose(ts@.map_values(|t: VerToken| t@)),
{
    let ghost tv = ts@.map_values(|t: VerToken| t@);
    let ghost f = |t: VerTokenView| ver_text(t);
    let ghost head = r@;
    let mut i: usize = 0;
    while i < ts.len()
        invariant
            i <= ts@.len(),
            tv == ts@.map_values(|t: VerToken| t@),
            f == (|t: VerTokenView| ver_text(t)),
            r@ == head + flat_map(tv.take(i as int), f),
        decreases ts.len() - i,
    {
        proof {
            lemma_flat_map_take(tv, f, i as int);
        }
        match &ts[i] {
            VerToken::Title(v) => append3(r, "\x1b[31;1m", v.as_str(), "\x1b[0m\n"),
            VerToken::Explain(v) => append3(r, "  \x1b[0m", v.as_str(), "\x1b[0m\n"),
            VerToken::Item(v) => append3(r, "    \x1b[36m", v.as_str(), "\x1b[0m\n"),
        }
        assert(r@ =~= head + flat_map(tv.take(i + 1), f));
        i = i + 1;
    }
    proof {
        lemma_take_all(tv);
    }
}

/// The text that shows the detailed explanation.
pub fn show_explain(ts: &Vec<ExToken>) -> (r: String)
    ensures
        r@ == spec_show_explain(ts@.map_values(|t: ExToken| t@)),
{
    let mut r = String::new();
    append_explain(&mut r, ts);
    assert(r@ =~= spec_show_explain(ts@.map_values(|t: ExToken| t@)));
    r
}

/// The text that shows the synonyms section.
pub fn show_verbose(ts: &Vec<VerToken>) -> (r: String)
    ensures
        r@ == spec_show_verbose(ts@.map_values(|t: VerToken| t@)),
{
    let mut r = String::new();
    append_verbose(&mut r, ts);
    assert(r@ =~= spec_show_verbose(ts@.map_values(|t: VerToken| t@)));
    r
}

impl Entry {
    /// The text that shows the entry; the synonyms only when `verbose` is
    /// above 0.
    pub fn show(&self, verbose: u8) -> (r: String)
        ensures
            r@ == spec_show(self@, verbose),
    {
        let mut r = show_summary(&self.summary);
        let ghost r1 = r@;
        if self.explain.len() > 0 {
            r.append("\n");
            append_explain(&mut r, &self.explain);
        }
        assert(r@ =~= r1 + (if self@.explain.len() > 0 {
            "\n"@ + spec_show_explain(self@.explain)
        } else {
            seq![]
        }));
        let ghost r2 = r@;
        if verbose > 0 && self.verbose.len() > 0 {
            r.append("\n");
            append_verbose(&mut r, &self.verbose);
        }
        assert(r@ =~= r2 + (if verbose > 0 && self@.verbose.len() > 0 {
            "\n"@ + spec_show_verbose(self@.verbose)
        } else {
            seq![]
        }));
        r.append("\n");
        assert(r@ =~= spec_show(self@, verbose));
        r
    }
}



/// Adding a pronunciation to a summary adds exactly its text to what is shown,
/// at the end of the pronunciation line (just before its line feed, or as a
/// new line after the word when there was none): every pronunciation is
/// shown, in order.
pub proof fn law_every_pronunciation_is_shown(s: SummaryView, p: (Seq<char>, Seq<char>))
    ensures
        ({
            let before = spec_show_summary(s);
            let after = spec_show_summary(SummaryView { pronounce: s.pronounce.push(p), ..s });
            let head = "\x1b[33m"@ + s.word + "\x1b[0m\n"@;
            if s.pronounce.len() > 0 {
                exists|k: int|
                    head.len() <= k < before.len() && before[k] == '\n' && after
                        == before.take(k) + pronounce_text(p) + before.skip(k)
            } else {
                after == before.take(head.len() as int) + pronounce_text(p) + "\n"@ + before.skip(
                    head.len() as int,
                )
            }
        }),
{
    let s2 = SummaryView { pronounce: s.pronounce.push(p), ..s };
    let before = spec_show_summary(s);
    let after = spec_show_summary(s2);
    let head = "\x1b[33m"@ + s.word + "\x1b[0m\n"@;
    let f = |q: (Seq<char>, Seq<char>)| pronounce_text(q);
    let rest = flat_map(s.explain, |t: SumExTokenView| sum_ex_text(t)) + (if s.grammar.len() > 0 {
        "\n"@ + flat_map(s.grammar, |g: Seq<char>| grammar_text(g))
    } else {
        seq![]
    });
    assert(s2.pronounce.drop_last() =~= s.pronounce);
    assert(flat_map(s2.pronounce, f) == flat_map(s.pronounce, f) + f(p));
    if s.pronounce.len() > 0 {
        let fp = flat_map(s.pronounce, f);
        let k: int = (head.len() + fp.len()) as int;
        reveal_strlit("\n");
        assert(before =~= head + fp + "\n"@ + rest);
        assert(after =~= head + fp + pronounce_text(p) + "\n"@ + rest);
        assert(before.take(k) =~= head + fp);
        assert(before.skip(k) =~= "\n"@ + rest);
        assert(before[k] == '\n');
        assert(after =~= before.take(k) + pronounce_text(p) + before.skip(k));
    } else {
        assert(s2.pronounce =~= seq![p]);
        assert(flat_map(s.pronounce, f) =~= Seq::<char>::empty());
        assert(before =~= head + rest);
        assert(after =~= head + pronounce_text(p) + "\n"@ + rest);
        assert(before.take(head.len() as int) =~= head);
        assert(before.skip(head.len() as int) =~= rest);
    }
}

/// Adding a grammar note to a summary adds exactly its line at the end of
/// what is shown (after an empty line when it is the first note): every note
/// is shown, in order, last.
pub proof fn law_every_grammar_note_is_shown(s: SummaryView, g: Seq<char>)
    ensures
        spec_show_summary(SummaryView { grammar: s.grammar.push(g), ..s }) == spec_show_summary(s)
            + (if s.grammar.len() > 0 {
            seq![]
        } else {
            "\n"@
        }) + grammar_text(g),
{
    let s2 = SummaryView { grammar: s.grammar.push(g), ..s };
    let f = |x: Seq<char>| grammar_text(x);
    assert(s2.grammar.drop_last() =~= s.grammar);
    assert(flat_map(s2.grammar, f) == flat_map(s.grammar, f) + f(g));
    if s.grammar.len() == 0 {
        assert(flat_map(s.grammar, f) =~= Seq::<char>::empty());
    }
    assert(spec_show_summary(s2) =~= spec_show_summary(s) + (if s.grammar.len() > 0 {
        seq![]
    } else {
        "\n"@
    }) + grammar_text(g));
}

/// An entry keeps the grammar notes of the page's summary card as they are,
/// all of them and in order (none when the card has no list of them); it
/// exists only when the page has a summary card.
pub proof fn law_entry_keeps_grammar_notes(p: PageView)
    ensures
        spec_from_page(p) matches Some(e) ==> {
            &&& p.summary is Some
            &&& e.summary.grammar == match p.summary->0.grammar {
                Some(g) => g,
                None => Seq::<Seq<char>>::empty(),
            }
        },
{
}

/// Verbose output shows all that the plain output shows (but its final empty
/// line), then the synonyms; all verbose levels show the same.
pub proof fn law_verbose_extends_plain(e: EntryView, v: u8, w: u8)
    requires
        v > 0,
        w > 0,
    ensures
        spec_show(e, v) == spec_show(e, 0).drop_last() + (if e.verbose.len() > 0 {
            "\n"@ + spec_show_verbose(e.verbose)
        } else {
            seq![]
        }) + "\n"@,
        spec_show(e, v) == spec_show(e, w),
{
    reveal_strlit("\n");
    let base = spec_show_summary(e.summary) + (if e.explain.len() > 0 {
        "\n"@ + spec_show_explain(e.explain)
    } else {
        seq![]
    });
    assert(spec_show(e, 0) =~= base + seq![] + "\n"@);
    assert((base + seq![] + "\n"@).drop_last() =~= base);
}

// ----------------------------------------------------------------------------
// Reading an entry from the search page
// ----------------------------------------------------------------------------

/// An element's `class` attribute and its text.
#[derive(Debug, PartialEq, Eq)]
pub struct Classed {
    pub class: Option<String>,
    pub text: String,
}

/// One row of the summary card: its text, and the `ul > li div` elements
/// inside it (`None` when the selector was refused).
#[derive(Debug, PartialEq, Eq)]
pub struct CardRow {
    pub text: String,
    pub items: Option<Vec<Classed>>,
}

/// What the summary card of the search page holds: its rows (`None` when
/// the selector was refused) and its grammar notes.
#[derive(Debug, PartialEq, Eq)]
pub struct SummarySource {
    pub rows: Option<Vec<CardRow>>,
    pub grammar: Option<Vec<String>>,
}

/// A child node of an example's span: whether it is an element, and its text.
#[derive(Debug, PartialEq, Eq)]
pub struct Piece {
    pub is_element: bool,
    pub text: String,
}

/// A span of an explanation item: its text and its child nodes.
#[derive(Debug, PartialEq, Eq)]
pub struct SpanSource {
    pub text: String,
    pub pieces: Vec<Piece>,
}

/// A child element of the explanation tab: its class, its text, and for each
/// of its `li` elements the spans inside it (`None` when a selector was
/// refused).
#[derive(Debug, PartialEq, Eq)]
pub struct BlockSource {
    pub class: Option<String>,
    pub text: String,
    pub items: Option<Vec<Option<Vec<SpanSource>>>>,
}

/// A child element of the synonyms tab: its tag name, the texts of its first
/// `.fw-xl` and `.fw-500` elements, and the texts of its `li > span` elements.
#[derive(Debug, PartialEq, Eq)]
pub struct SynonymSource {
    pub name: String,
    pub title: Option<String>,
    pub explain: Option<String>,
    pub items: Option<Vec<String>>,
}

/// What an entry is read from: the three parts of the search page, each
/// `None` when the page does not have it.
#[derive(Debug, PartialEq, Eq)]
pub struct Page {
    pub summary: Option<SummarySource>,
    pub explanation: Option<Vec<BlockSource>>,
    pub synonyms: Option<Vec<SynonymSource>>,
}

/// The model of [`Classed`].
pub struct ClassedView {
    pub class: Option<Seq<char>>,
    pub text: Seq<char>,
}

/// The model of [`CardRow`].
pub struct CardRowView {
    pub text: Seq<char>,
    pub items: Option<Seq<ClassedView>>,
}

/// The model of [`SummarySource`].
pub struct SummarySourceView {
    pub rows: Option<Seq<CardRowView>>,
    pub grammar: Option<Seq<Seq<char>>>,
}

/// The model of [`Piece`].
pub struct PieceView {
    pub is_element: bool,
    pub text: Seq<char>,
}

/// The model of [`SpanSource`].
pub struct SpanSourceView {
    pub text: Seq<char>,
    pub pieces: Seq<PieceView>,
}

/// The model of [`BlockSource`].
pub struct BlockSourceView {
    pub class: Option<Seq<char>>,
    pub text: Seq<char>,
    pub items: Option<Seq<Option<Seq<SpanSourceView>>>>,
}

/// The model of [`SynonymSource`].
pub struct SynonymSourceView {
    pub name: Seq<char>,
    pub title: Option<Seq<char>>,
    pub explain: Option<Seq<char>>,
    pub items: Option<Seq<Seq<char>>>,
}

/// The model of [`Page`]: every string by its characters, every vector by
/// the sequence of its items' models.
pub struct PageView {
    pub summary: Option<SummarySourceView>,
    pub explanation: Option<Seq<BlockSourceView>>,
    pub synonyms: Option<Seq<SynonymSourceView>>,
}

impl DeepView for Classed {
    type V = ClassedView;

    open spec fn deep_view(&self) -> ClassedView {
        ClassedView { class: self.class.deep_view(), text: self.text@ }
    }
}

impl DeepView for CardRow {
    type V = CardRowView;

    open spec fn deep_view(&self) -> CardRowView {
        CardRowView { text: self.text@, items: self.items.deep_view() }
    }
}

impl DeepView for SummarySource {
    type V = SummarySourceView;

    open spec fn deep_view(&self) -> SummarySourceView {
        SummarySourceView { rows: self.rows.deep_view(), grammar: self.grammar.deep_view() }
    }
}

impl DeepView for Piece {
    type V = PieceView;

    open spec fn deep_view(&self) -> PieceView {
        PieceView { is_element: self.is_element, text: self.text@ }
    }
}

impl DeepView for SpanSource {
    type V = SpanSourceView;

    open spec fn deep_view(&self) -> SpanSourceView {
        SpanSourceView { text: self.text@, pieces: self.pieces.deep_view() }
    }
}

impl DeepView for BlockSource {
    type V = BlockSourceView;

    open spec fn deep_view(&self) -> BlockSourceView {
        BlockSourceView {
            class: self.class.deep_view(),
            text: self.text@,
            items: self.items.deep_view(),
        }
    }
}

impl DeepView for SynonymSource {
    type V = SynonymSourceView;

    open spec fn deep_view(&self) -> SynonymSourceView {
        SynonymSourceView {
            name: self.name@,
            title: self.title.deep_view(),
            explain: self.explain.deep_view(),
            items: self.items.deep_view(),
        }
    }
}

impl DeepView for Page {
    type V = PageView;

    open spec fn deep_view(&self) -> PageView {
        PageView {
            summary: self.summary.deep_view(),
            explanation: self.explanation.deep_view(),
            synonyms: self.synonyms.deep_view(),
        }
    }
}

/// The pronunciations in a text: each word that holds a `[`, split before its
/// first `[` (`KK[lʌv]` gives `KK` and `[lʌv]`).
pub open spec fn pronounce_pairs(words: Seq<Seq<char>>) -> Seq<(Seq<char>, Seq<char>)>
    decreases words.len(),
{
    if words.len() == 0 {
        seq![]
    } else {
        let p = pronounce_pairs(words.drop_last());
        let w = words.last();
        match find_char(w, '[') {
            Some(i) => p.push((w.take(i), w.skip(i))),
            None => p,
        }
    }
}

/// The summary token an element gives by its class: a part of speech
/// (`pos_button`), a meaning (`dictionaryExplanation`), or none.
pub open spec fn classify(c: ClassedView) -> Seq<SumExTokenView> {
    match c.class {
        Some(cl) => if contains_seq(cl, "pos_button"@) {
            seq![SumExTokenView::PoS(c.text)]
        } else if contains_seq(cl, "dictionaryExplanation"@) {
            seq![SumExTokenView::Explain(c.text)]
        } else {
            seq![]
        },
        None => seq![],
    }
}

/// The summary read from the card (`parse_summary`): none without a card or
/// with fewer than two rows; otherwise the first row's trimmed text as the
/// word, the pronunciations of the second row when there are at least four
/// rows, the classified elements of the last row, and the grammar notes.
pub open spec fn spec_parse_summary(src: Option<SummarySourceView>) -> Option<SummaryView> {
    match src {
        None => None,
        Some(s) => match s.rows {
            None => None,
            Some(rs) => {
                if rs.len() < 2 {
                    None
                } else {
                    Some(
                        SummaryView {
                            word: trim(rs[0].text),
                            pronounce: if rs.len() >= 4 {
                                pronounce_pairs(split_ws(rs[1].text))
                            } else {
                                seq![]
                            },
                            explain: match rs.last().items {
                                Some(ms) => flat_map(ms, |c: ClassedView| classify(c)),
                                None => seq![],
                            },
                            grammar: match s.grammar {
                                Some(g) => g,
                                None => seq![],
                            },
                        },
                    )
                }
            },
        },
    }
}

/// The sentence token of a span's child node.
pub open spec fn piece_token(p: PieceView) -> SenTokenView {
    if p.is_element {
        SenTokenView::Bold(p.text)
    } else {
        SenTokenView::Plain(p.text)
    }
}

/// The sentence after one more span: its child nodes are added, then the
/// last token is taken off; a plain one is split at its last space into the
/// English part, a line feed, the translation and a line feed (the item is
/// dropped when it holds no space).
pub open spec fn span_step(sent: Option<Seq<SenTokenView>>, span: SpanSourceView) -> Option<
    Seq<SenTokenView>,
> {
    match sent {
        None => None,
        Some(st) => {
            let s1 = st + span.pieces.map_values(|p: PieceView| piece_token(p));
            if s1.len() == 0 {
                Some(s1)
            } else {
                match s1.last() {
                    SenTokenView::Plain(x) => match rsplit_once(x, ' ') {
                        Some((hd, tl)) => Some(
                            s1.drop_last() + seq![
                                SenTokenView::Plain(hd),
                                SenTokenView::Plain("\n"@),
                                SenTokenView::Plain(tl),
                                SenTokenView::Plain("\n"@),
                            ],
                        ),
                        None => None,
                    },
                    SenTokenView::Bold(_) => Some(s1.drop_last()),
                }
            }
        },
    }
}

/// The example sentence made of spans.
pub open spec fn sentence_of(spans: Seq<SpanSourceView>) -> Option<Seq<SenTokenView>>
    decreases spans.len(),
{
    if spans.len() == 0 {
        Some(seq![])
    } else {
        span_step(sentence_of(spans.drop_last()), spans.last())
    }
}

/// An explanation item read from its spans: the first two spans' texts
/// joined by a space, and the sentence made of the rest; none with fewer
/// than two spans.
pub open spec fn spec_parse_item(li: Option<Seq<SpanSourceView>>) -> Option<ExTokenView> {
    match li {
        None => None,
        Some(sp) => {
            if sp.len() < 2 {
                None
            } else {
                match sentence_of(sp.skip(2)) {
                    Some(sent) => Some(
                        ExTokenView::Item { text: sp[0].text + " "@ + sp[1].text, sentence: sent },
                    ),
                    None => None,
                }
            }
        },
    }
}

pub open spec fn item_tokens(li: Option<Seq<SpanSourceView>>) -> Seq<ExTokenView> {
    match spec_parse_item(li) {
        Some(t) => seq![t],
        None => seq![],
    }
}

/// The tokens a child of the explanation tab gives by its class: a part of
/// speech (`compTitle`), the items of a list (`compTextList`), or none.
pub open spec fn block_tokens(b: BlockSourceView) -> Seq<ExTokenView> {
    match b.class {
        Some(cl) => if contains_seq(cl, "compTitle"@) {
            seq![ExTokenView::PoS { text: b.text }]
        } else if contains_seq(cl, "compTextList"@) {
            match b.items {
                Some(lis) => flat_map(lis, |li: Option<Seq<SpanSourceView>>| item_tokens(li)),
                None => seq![],
            }
        } else {
            seq![]
        },
        None => seq![],
    }
}

/// The detailed explanation (`parse_explain`).
pub open spec fn spec_parse_explain(ex: Option<Seq<BlockSourceView>>) -> Seq<ExTokenView> {
    match ex {
        None => seq![],
        Some(bs) => flat_map(bs, |b: BlockSourceView| block_tokens(b)),
    }
}

/// The tokens a child of the synonyms tab gives: a `div` gives its title, or
/// else its explanation; a `ul` gives its words.
pub open spec fn synonym_tokens(s: SynonymSourceView) -> Seq<VerTokenView> {
    if s.name == "div"@ {
        match s.title {
            Some(t) => seq![VerTokenView::Title(t)],
            None => match s.explain {
                Some(x) => seq![VerTokenView::Explain(x)],
                None => seq![],
            },
        }
    } else if s.name == "ul"@ {
        match s.items {
            Some(v) => v.map_values(|w: Seq<char>| VerTokenView::Item(w)),
            None => seq![],
        }
    } else {
        seq![]
    }
}

/// The synonyms section (`parse_verbose`).
pub open spec fn spec_parse_verbose(sy: Option<Seq<SynonymSourceView>>) -> Seq<VerTokenView> {
    match sy {
        None => seq![],
        Some(v) => flat_map(v, |s: SynonymSourceView| synonym_tokens(s)),
    }
}

/// The entry read from a page: none without a summary; otherwise the summary,
/// the detailed explanation and the synonyms, in the current format version.
pub open spec fn spec_from_page(p: PageView) -> Option<EntryView> {
    match spec_parse_summary(p.summary) {
        None => None,
        Some(s) => Some(
            EntryView {
                version: VERSION,
                summary: s,
                explain: spec_parse_explain(p.explanation),
                verbose: spec_parse_verbose(p.synonyms),
            },
        ),
    }
}

/// The pronunciations in a text.
pub fn parse_pronounce(text: &str) -> (r: Vec<(String, String)>)
    ensures
        pairs_view(r@) == pronounce_pairs(split_ws(text@)),
{
    let words = split_whitespace(text);
    let ghost wv = words.deep_view();
    let mut r: Vec<(String, String)> = Vec::new();
    let mut i: usize = 0;
    while i < words.len()
        invariant
            i <= words@.len(),
            wv == words.deep_view(),
            wv.len() == words@.len(),
            pairs_view(r@) == pronounce_pairs(wv.take(i as int)),
        decreases words.len() - i,
    {
        assert(wv.take(i + 1).drop_last() =~= wv.take(i as int));
        assert(wv[i as int] == words@[i as int]@);
        let cs = chars_of(words[i].as_str());
        match find_char_index(&cs, '[') {
            Some(k) => {
                let ghost before = pairs_view(r@);
                let a = string_from_chars(&cs, 0, k);
                let b = string_from_chars(&cs, k, cs.len());
                assert(a@ =~= cs@.take(k as int));
                assert(b@ =~= cs@.skip(k as int));
                r.push((a, b));
                assert(pairs_view(r@) =~= before.push((cs@.take(k as int), cs@.skip(k as int))));
            },
            None => {},
        }
        i = i + 1;
    }
    proof {
        lemma_take_all(wv);
    }
    r
}

fn classify_exec(c: &Classed) -> (r: Option<SumExToken>)
    ensures
        classify(c.deep_view()) == (match r {
            Some(t) => seq![t@],
            None => Seq::<SumExTokenView>::empty(),
        }),
{
    match &c.class {
        Some(cl) => {
            if contains_str(cl.as_str(), "pos_button") {
                Some(SumExToken::PoS(copy_string(&c.text)))
            } else if contains_str(cl.as_str(), "dictionaryExplanation") {
                Some(SumExToken::Explain(copy_string(&c.text)))
            } else {
                None
            }
        },
        None => None,
    }
}

fn copy_strings(v: &Vec<String>) -> (r: Vec<String>)
    ensures
        r.deep_view() == v.deep_view(),
{
    let mut r: Vec<String> = Vec::new();
    let mut i: usize = 0;
    while i < v.len()
        invariant
            i <= v@.len(),
            r.deep_view() == v.deep_view().take(i as int),
        decreases v.len() - i,
    {
        let ghost before = r.deep_view();
        r.push(copy_string(&v[i]));
        assert(v.deep_view()[i as int] == v@[i as int]@);
        assert(r.deep_view() =~= before.push(v@[i as int]@));
        assert(r.deep_view() =~= v.deep_view().take(i + 1));
        i = i + 1;
    }
    assert(v.deep_view().take(v@.len() as int) =~= v.deep_view());
    r
}

/// The summary read from the card (`parse_summary`).
pub fn parse_summary(src: &Option<SummarySource>) -> (r: Option<Summary>)
    ensures
        match r {
            Some(s) => spec_parse_summary(src.deep_view()) == Some(s@),
            None => spec_parse_summary(src.deep_view()) is None,
        },
        r matches Some(sum) ==> (src matches Some(card) ==> sum@.grammar == match card.grammar {
            Some(g) => g.deep_view(),
            None => Seq::<Seq<char>>::empty(),
        }),
{
    let s = match src {
        None => return None,
        Some(s) => s,
    };
    let rows = match &s.rows {
        None => return None,
        Some(rows) => rows,
    };
    let n = rows.len();
    if n < 2 {
        return None;
    }
    let word = trim_str(rows[0].text.as_str());
    let pronounce = if n >= 4 {
        parse_pronounce(rows[1].text.as_str())
    } else {
        let v: Vec<(String, String)> = Vec::new();
        assert(pairs_view(v@) =~= Seq::<(Seq<char>, Seq<char>)>::empty());
        v
    };
    let mut explain: Vec<SumExToken> = Vec::new();
    let ghost f = |c: ClassedView| classify(c);
    match &rows[n - 1].items {
        Some(ms) => {
            let ghost mv = ms.deep_view();
            let mut i: usize = 0;
            while i < ms.len()
                invariant
                    i <= ms@.len(),
                    mv == ms.deep_view(),
                    f == (|c: ClassedView| classify(c)),
                    explain@.map_values(|t: SumExToken| t@) == flat_map(mv.take(i as int), f),
                decreases ms.len() - i,
            {
                proof {
                    lemma_flat_map_take(mv, f, i as int);
                }
                let ghost before = explain@.map_values(|t: SumExToken| t@);
                match classify_exec(&ms[i]) {
                    Some(t) => {
                        explain.push(t);
                        assert(explain@.map_values(|t: SumExToken| t@) =~= before + seq![t@]);
                    },
                    None => {
                        assert(before + Seq::<SumExTokenView>::empty() =~= before);
                    },
                }
                i = i + 1;
            }
            proof {
                lemma_take_all(mv);
            }
        },
        None => {
            assert(explain@.map_values(|t: SumExToken| t@) =~= Seq::<SumExTokenView>::empty());
        },
    }
    let grammar = match &s.grammar {
        Some(g) => copy_strings(g),
        None => {
            let v: Vec<String> = Vec::new();
            assert(v.deep_view() =~= Seq::<Seq<char>>::empty());
            v
        },
    };
    let r = Summary { word, pronounce, explain, grammar };
    assert(rows.deep_view().last() == rows@[n - 1].deep_view());
    assert(rows.deep_view()[0] == rows@[0].deep_view());
    assert(rows.deep_view()[1] == rows@[1].deep_view());
    assert(r@ =~= spec_parse_summary(src.deep_view()).unwrap());
    Some(r)
}


fn piece_exec(p: &Piece) -> (t: SenToken)
    ensures
        t@ == piece_token(p.deep_view()),
{
    if p.is_element {
        SenToken::Bold(copy_string(&p.text))
    } else {
        SenToken::Plain(copy_string(&p.text))
    }
}

/// Adds one span to a sentence as [`span_step`] says; false when the item is
/// to be dropped.
fn apply_span(sentence: &mut Vec<SenToken>, span: &SpanSource) -> (ok: bool)
    ensures
        ok ==> span_step(Some(sentence_view(old(sentence)@)), span.deep_view()) == Some(
            sentence_view(final(sentence)@),
        ),
        !ok ==> span_step(Some(sentence_view(old(sentence)@)), span.deep_view()) is None,
{
    let ghost st = sentence_view(sentence@);
    let ghost pv = span.pieces.deep_view().map_values(|p: PieceView| piece_token(p));
    let mut k: usize = 0;
    while k < span.pieces.len()
        invariant
            k <= span.pieces@.len(),
            st == sentence_view(old(sentence)@),
            pv == span.pieces.deep_view().map_values(|p: PieceView| piece_token(p)),
            sentence_view(sentence@) == st + pv.take(k as int),
        decreases span.pieces.len() - k,
    {
        let ghost before = sentence_view(sentence@);
        let t = piece_exec(&span.pieces[k]);
        sentence.push(t);
        assert(sentence_view(sentence@) =~= before.push(t@));
        assert(pv.take(k + 1) =~= pv.take(k as int).push(pv[k as int]));
        k = k + 1;
    }
    assert(pv.take(pv.len() as int) =~= pv);
    let ghost s1 = sentence_view(sentence@);
    match sentence.pop() {
        None => true,
        Some(last) => {
            assert(sentence_view(sentence@) =~= s1.drop_last());
            match last {
                SenToken::Bold(_) => true,
                SenToken::Plain(x) => {
                    match rsplit_once_char(x.as_str(), ' ') {
                        None => false,
                        Some((hd, tl)) => {
                            let ghost mid = sentence_view(sentence@);
                            let ghost hv = hd@;
                            let ghost tv = tl@;
                            sentence.push(SenToken::Plain(hd));
                            sentence.push(SenToken::Plain(owned("\n")));
                            sentence.push(SenToken::Plain(tl));
                            sentence.push(SenToken::Plain(owned("\n")));
                            assert(sentence_view(sentence@) =~= mid + seq![
                                SenTokenView::Plain(hv),
                                SenTokenView::Plain("\n"@),
                                SenTokenView::Plain(tv),
                                SenTokenView::Plain("\n"@),
                            ]);
                            true
                        },
                    }
                },
            }
        },
    }
}

/// An explanation item read from its spans (`parse_item`).
pub fn parse_item(li: &Option<Vec<SpanSource>>) -> (r: Option<ExToken>)
    ensures
        match r {
            Some(t) => spec_parse_item(li.deep_view()) == Some(t@),
            None => spec_parse_item(li.deep_view()) is None,
        },
{
    let v = match li {
        None => return None,
        Some(v) => v,
    };
    if v.len() < 2 {
        return None;
    }
    let mut text = copy_string(&v[0].text);
    text.append(" ");
    text.append(v[1].text.as_str());
    let ghost rest = v.deep_view().skip(2);
    assert(v.deep_view()[0] == v@[0].deep_view());
    assert(v.deep_view()[1] == v@[1].deep_view());
    assert(*li == Some(*v));
    let mut sentence: Vec<SenToken> = Vec::new();
    assert(sentence_view(sentence@) =~= Seq::<SenTokenView>::empty());
    let mut k: usize = 2;
    while k < v.len()
        invariant
            2 <= k <= v@.len(),
            *li == Some(*v),
            rest == v.deep_view().skip(2),
            sentence_of(rest.take(k - 2)) == Some(sentence_view(sentence@)),
        decreases v.len() - k,
    {
        assert(rest.take(k - 1).drop_last() =~= rest.take(k - 2));
        assert(rest[k - 2] == v@[k as int].deep_view());
        if !apply_span(&mut sentence, &v[k]) {
            assert(sentence_of(rest.take(k - 1)) is None);
            proof {
                lemma_sentence_none_stays(rest, k - 1);
            }
            assert(sentence_of(v.deep_view().skip(2)) is None);
            assert(*li == Some(*v));
            assert(spec_parse_item(li.deep_view()) is None);
            return None;
        }
        k = k + 1;
    }
    assert(rest.take(rest.len() as int) =~= rest);
    Some(ExToken::Item { text, sentence })
}

proof fn lemma_sentence_none_stays(spans: Seq<SpanSourceView>, k: int)
    requires
        0 <= k <= spans.len(),
        sentence_of(spans.take(k)) is None,
    ensures
        sentence_of(spans) is None,
    decreases spans.len() - k,
{
    if k < spans.len() {
        assert(spans.take(k + 1).drop_last() =~= spans.take(k));
        lemma_sentence_none_stays(spans, k + 1);
    } else {
        assert(spans.take(k) =~= spans);
    }
}

fn block_exec(b: &BlockSource, out: &mut Vec<ExToken>)
    ensures
        final(out)@.map_values(|t: ExToken| t@) == old(out)@.map_values(|t: ExToken| t@)
            + block_tokens(b.deep_view()),
{
    let ghost before = out@.map_values(|t: ExToken| t@);
    match &b.class {
        Some(cl) => {
            if contains_str(cl.as_str(), "compTitle") {
                out.push(ExToken::PoS { text: copy_string(&b.text) });
                assert(out@.map_values(|t: ExToken| t@) =~= before + block_tokens(b.deep_view()));
            } else if contains_str(cl.as_str(), "compTextList") {
                match &b.items {
                    Some(lis) => {
                        let ghost f = |li: Option<Seq<SpanSourceView>>| item_tokens(li);
                        let ghost lv = lis.deep_view();
                        let mut i: usize = 0;
                        while i < lis.len()
                            invariant
                                i <= lis@.len(),
                                lv == lis.deep_view(),
                                f == (|li: Option<Seq<SpanSourceView>>| item_tokens(li)),
                                out@.map_values(|t: ExToken| t@) == before + flat_map(
                                    lv.take(i as int),
                                    f,
                                ),
                            decreases lis.len() - i,
                        {
                            proof {
                                lemma_flat_map_take(lv, f, i as int);
                            }
                            let ghost mid = out@.map_values(|t: ExToken| t@);
                            match parse_item(&lis[i]) {
                                Some(t) => {
                                    out.push(t);
                                    assert(out@.map_values(|t: ExToken| t@) =~= mid + seq![t@]);
                                },
                                None => {
                                    assert(mid + Seq::<ExTokenView>::empty() =~= mid);
                                },
                            }
                            assert(out@.map_values(|t: ExToken| t@) =~= before + flat_map(
                                lv.take(i + 1),
                                f,
                            ));
                            i = i + 1;
                        }
                        proof {
                            lemma_take_all(lv);
                        }
                    },
                    None => {
                        assert(before + Seq::<ExTokenView>::empty() =~= before);
                    },
                }
            } else {
                assert(before + Seq::<ExTokenView>::empty() =~= before);
            }
        },
        None => {
            assert(before + Seq::<ExTokenView>::empty() =~= before);
        },
    }
}

/// The detailed explanation read from the explanation tab (`parse_explain`).
pub fn parse_explain(ex: &Option<Vec<BlockSource>>) -> (r: Vec<ExToken>)
    ensures
        r@.map_values(|t: ExToken| t@) == spec_parse_explain(ex.deep_view()),
{
    let mut out: Vec<ExToken> = Vec::new();
    assert(out@.map_values(|t: ExToken| t@) =~= Seq::<ExTokenView>::empty());
    match ex {
        None => {},
        Some(bs) => {
            let ghost f = |b: BlockSourceView| block_tokens(b);
            let ghost bv = bs.deep_view();
            let mut i: usize = 0;
            while i < bs.len()
                invariant
                    i <= bs@.len(),
                    bv == bs.deep_view(),
                    f == (|b: BlockSourceView| block_tokens(b)),
                    out@.map_values(|t: ExToken| t@) == flat_map(bv.take(i as int), f),
                decreases bs.len() - i,
            {
                proof {
                    lemma_flat_map_take(bv, f, i as int);
                }
                block_exec(&bs[i], &mut out);
                i = i + 1;
            }
            proof {
                lemma_take_all(bv);
            }
        },
    }
    out
}

fn synonym_exec(s: &SynonymSource, out: &mut Vec<VerToken>)
    ensures
        final(out)@.map_values(|t: VerToken| t@) == old(out)@.map_values(|t: VerToken| t@)
            + synonym_tokens(s.deep_view()),
{
    let ghost before = out@.map_values(|t: VerToken| t@);
    if str_eq(s.name.as_str(), "div") {
        match &s.title {
            Some(t) => {
                out.push(VerToken::Title(copy_string(t)));
            },
            None => match &s.explain {
                Some(x) => {
                    out.push(VerToken::Explain(copy_string(x)));
                },
                None => {},
            },
        }
        assert(out@.map_values(|t: VerToken| t@) =~= before + synonym_tokens(s.deep_view()));
    } else if str_eq(s.name.as_str(), "ul") {
        match &s.items {
            Some(v) => {
                let ghost wv = v.deep_view().map_values(|w: Seq<char>| VerTokenView::Item(w));
                let mut i: usize = 0;
                while i < v.len()
                    invariant
                        i <= v@.len(),
                        wv == v.deep_view().map_values(|w: Seq<char>| VerTokenView::Item(w)),
                        out@.map_values(|t: VerToken| t@) == before + wv.take(i as int),
                    decreases v.len() - i,
                {
                    let ghost mid = out@.map_values(|t: VerToken| t@);
                    out.push(VerToken::Item(copy_string(&v[i])));
                    assert(v.deep_view()[i as int] == v@[i as int]@);
                    assert(out@.map_values(|t: VerToken| t@) =~= mid.push(wv[i as int]));
                    assert(wv.take(i + 1) =~= wv.take(i as int).push(wv[i as int]));
                    i = i + 1;
                }
                assert(wv.take(v@.len() as int) =~= wv);
            },
            None => {
                assert(out@.map_values(|t: VerToken| t@) =~= before + synonym_tokens(s.deep_view()));
            },
        }
    } else {
        assert(out@.map_values(|t: VerToken| t@) =~= before + synonym_tokens(s.deep_view()));
    }
}

/// The synonyms section read from the synonyms tab (`parse_verbose`).
pub fn parse_verbose(sy: &Option<Vec<SynonymSource>>) -> (r: Vec<VerToken>)
    ensures
        r@.map_values(|t: VerToken| t@) == spec_parse_verbose(sy.deep_view()),
{
    let mut out: Vec<VerToken> = Vec::new();
    assert(out@.map_values(|t: VerToken| t@) =~= Seq::<VerTokenView>::empty());
    match sy {
        None => {},
        Some(v) => {
            let ghost f = |s: SynonymSourceView| synonym_tokens(s);
            let ghost sv = v.deep_view();
            let mut i: usize = 0;
            while i < v.len()
                invariant
                    i <= v@.len(),
                    sv == v.deep_view(),
                    f == (|s: SynonymSourceView| synonym_tokens(s)),
                    out@.map_values(|t: VerToken| t@) == flat_map(sv.take(i as int), f),
                decreases v.len() - i,
            {
                proof {
                    lemma_flat_map_take(sv, f, i as int);
                }
                synonym_exec(&v[i], &mut out);
                i = i + 1;
            }
            proof {
                lemma_take_all(sv);
            }
        },
    }
    out
}

impl Entry {
    /// The entry read from the parts of a search page: none when the page has
    /// no summary card with at least two rows.
    pub fn from_page(page: &Page) -> (r: Option<Entry>)
        ensures
            match r {
                Some(e) => spec_from_page(page.deep_view()) == Some(e@),
                None => spec_from_page(page.deep_view()) is None,
            },
    {
        match parse_summary(&page.summary) {
            None => None,
            Some(summary) => {
                let explain = parse_explain(&page.explanation);
                let verbose = parse_verbose(&page.synonyms);
                Some(Entry { version: VERSION, summary, explain, verbose })
            },
        }
    }
}


// ----------------------------------------------------------------------------
// Walking the parsed search page
// ----------------------------------------------------------------------------

/// The texts of the nodes at `paths`.
pub open spec fn page_texts(html: Seq<char>, paths: Seq<Seq<usize>>) -> Seq<Seq<char>> {
    paths.map_values(|p: Seq<usize>| kuchiki_text_contents(html, p))
}

/// The class and the text of the element at `at`.
pub open spec fn page_classed(html: Seq<char>, at: Seq<usize>) -> ClassedView {
    ClassedView { class: kuchiki_attribute(html, at, "class"@), text: kuchiki_text_contents(html, at) }
}

/// A row of the summary card at `at`: its text and its `ul > li div`
/// elements.
pub open spec fn page_card_row(html: Seq<char>, at: Seq<usize>) -> CardRowView {
    CardRowView {
        text: kuchiki_text_contents(html, at),
        items: match kuchiki_select(html, at, "ul > li div"@) {
            Some(ps) => Some(ps.map_values(|p: Seq<usize>| page_classed(html, p))),
            None => None,
        },
    }
}

/// The summary card of the page: the first `div#web ol.searchCenterMiddle`,
/// its rows (`div.sys_dict_word_card > div.grp-main > div`) and the texts of
/// its grammar notes (`div.dictionaryWordCard > ul > li`).
pub open spec fn page_summary(html: Seq<char>) -> Option<SummarySourceView> {
    match kuchiki_select_first(html, seq![], "div#web ol.searchCenterMiddle"@) {
        None => None,
        Some(card) => Some(
            SummarySourceView {
                rows: match kuchiki_select(
                    html,
                    card,
                    "div.sys_dict_word_card > div.grp-main > div"@,
                ) {
                    Some(ps) => Some(ps.map_values(|p: Seq<usize>| page_card_row(html, p))),
                    None => None,
                },
                grammar: match kuchiki_select(html, card, "div.dictionaryWordCard > ul > li"@) {
                    Some(ps) => Some(page_texts(html, ps)),
                    None => None,
                },
            },
        ),
    }
}

/// A child node of a span: whether it is an element, and its text.
pub open spec fn page_piece(html: Seq<char>, at: Seq<usize>) -> PieceView {
    PieceView {
        is_element: kuchiki_element_name(html, at) is Some,
        text: kuchiki_text_contents(html, at),
    }
}

/// The span at `at`: its text and its child nodes.
pub open spec fn page_span(html: Seq<char>, at: Seq<usize>) -> SpanSourceView {
    SpanSourceView {
        text: kuchiki_text_contents(html, at),
        pieces: child_paths(html, at).map_values(|p: Seq<usize>| page_piece(html, p)),
    }
}

/// The spans of the list item at `at`.
pub open spec fn page_item(html: Seq<char>, at: Seq<usize>) -> Option<Seq<SpanSourceView>> {
    match kuchiki_select(html, at, "span"@) {
        Some(ps) => Some(ps.map_values(|p: Seq<usize>| page_span(html, p))),
        None => None,
    }
}

/// A child element of the explanation tab: its class, its text and its list
/// items.
pub open spec fn page_block(html: Seq<char>, at: Seq<usize>) -> BlockSourceView {
    BlockSourceView {
        class: kuchiki_attribute(html, at, "class"@),
        text: kuchiki_text_contents(html, at),
        items: match kuchiki_select(html, at, "li"@) {
            Some(ps) => Some(ps.map_values(|p: Seq<usize>| page_item(html, p))),
            None => None,
        },
    }
}

/// What a child of the explanation tab contributes: itself when it is an
/// element.
pub open spec fn page_block_of_child(html: Seq<char>, at: Seq<usize>) -> Seq<BlockSourceView> {
    if kuchiki_element_name(html, at) is Some {
        seq![page_block(html, at)]
    } else {
        seq![]
    }
}

/// The child elements of the first `div.tab-content-explanation`.
pub open spec fn page_explanation(html: Seq<char>) -> Option<Seq<BlockSourceView>> {
    match kuchiki_select_first(html, seq![], "div.tab-content-explanation"@) {
        None => None,
        Some(tab) => Some(
            flat_map(child_paths(html, tab), |p: Seq<usize>| page_block_of_child(html, p)),
        ),
    }
}

/// A child element of the synonyms tab, named `name`: the texts of its first
/// `.fw-xl` and `.fw-500` elements and of its `li > span` elements.
pub open spec fn page_synonym(html: Seq<char>, at: Seq<usize>, name: Seq<char>) -> SynonymSourceView {
    SynonymSourceView {
        name,
        title: match kuchiki_select_first(html, at, ".fw-xl"@) {
            Some(n) => Some(kuchiki_text_contents(html, n)),
            None => None,
        },
        explain: match kuchiki_select_first(html, at, ".fw-500"@) {
            Some(n) => Some(kuchiki_text_contents(html, n)),
            None => None,
        },
        items: match kuchiki_select(html, at, "li > span"@) {
            Some(ps) => Some(page_texts(html, ps)),
            None => None,
        },
    }
}

/// What a child of the synonyms tab contributes: itself when it is an
/// element.
pub open spec fn page_synonym_of_child(html: Seq<char>, at: Seq<usize>) -> Seq<SynonymSourceView> {
    match kuchiki_element_name(html, at) {
        Some(name) => seq![page_synonym(html, at, name)],
        None => seq![],
    }
}

/// The child elements of the first `div.tab-content-synonyms`.
pub open spec fn page_synonyms(html: Seq<char>) -> Option<Seq<SynonymSourceView>> {
    match kuchiki_select_first(html, seq![], "div.tab-content-synonyms"@) {
        None => None,
        Some(tab) => Some(
            flat_map(child_paths(html, tab), |p: Seq<usize>| page_synonym_of_child(html, p)),
        ),
    }
}

/// The parts of the search page with the HTML `html` that an entry is read
/// from.
pub open spec fn spec_page(html: Seq<char>) -> PageView {
    PageView {
        summary: page_summary(html),
        explanation: page_explanation(html),
        synonyms: page_synonyms(html),
    }
}

fn texts_of(doc: &Doc, paths: &Vec<Vec<usize>>) -> (r: Vec<String>)
    ensures
        r.deep_view() == page_texts(doc@, paths.deep_view()),
{
    let ghost want = page_texts(doc@, paths.deep_view());
    let mut r: Vec<String> = Vec::new();
    let mut i: usize = 0;
    while i < paths.len()
        invariant
            i <= paths@.len(),
            want == page_texts(doc@, paths.deep_view()),
            r.deep_view() == want.take(i as int),
        decreases paths.len() - i,
    {
        proof {
            lemma_path_view(paths@[i as int]);
        }
        let ghost before = r.deep_view();
        r.push(text_contents(doc, &paths[i]));
        assert(r.deep_view() =~= before.push(want[i as int]));
        assert(want.take(i + 1) =~= want.take(i as int).push(want[i as int]));
        i = i + 1;
    }
    assert(want.take(paths@.len() as int) =~= want);
    r
}

fn card_row(doc: &Doc, at: &Vec<usize>) -> (r: CardRow)
    ensures
        r.deep_view() == page_card_row(doc@, at@),
{
    let items = match select_all(doc, at, "ul > li div") {
        None => None,
        Some(ms) => {
            let ghost want = ms.deep_view().map_values(|p: Seq<usize>| page_classed(doc@, p));
            let mut v: Vec<Classed> = Vec::new();
            let mut i: usize = 0;
            while i < ms.len()
                invariant
                    i <= ms@.len(),
                    want == ms.deep_view().map_values(|p: Seq<usize>| page_classed(doc@, p)),
                    v.deep_view() == want.take(i as int),
                decreases ms.len() - i,
            {
                proof {
                    lemma_path_view(ms@[i as int]);
                }
                let ghost before = v.deep_view();
                let c = Classed { class: attribute(doc, &ms[i], "class"), text: text_contents(doc, &ms[i]) };
                v.push(c);
                assert(v.deep_view() =~= before.push(want[i as int]));
                assert(want.take(i + 1) =~= want.take(i as int).push(want[i as int]));
                i = i + 1;
            }
            assert(want.take(ms@.len() as int) =~= want);
            Some(v)
        },
    };
    CardRow { text: text_contents(doc, at), items }
}

/// The summary card of a parsed search page, if it has one.
fn summary_source(doc: &Doc) -> (r: Option<SummarySource>)
    ensures
        r.deep_view() == page_summary(doc@),
{
    let top: Vec<usize> = Vec::new();
    assert(top@ =~= Seq::<usize>::empty());
    let card = match select_first(doc, &top, "div#web ol.searchCenterMiddle") {
        None => return None,
        Some(c) => c,
    };
    proof {
        lemma_path_view(card);
    }
    let rows = match select_all(doc, &card, "div.sys_dict_word_card > div.grp-main > div") {
        None => None,
        Some(nodes) => {
            let ghost want = nodes.deep_view().map_values(|p: Seq<usize>| page_card_row(doc@, p));
            let mut v: Vec<CardRow> = Vec::new();
            let mut i: usize = 0;
            while i < nodes.len()
                invariant
                    i <= nodes@.len(),
                    want == nodes.deep_view().map_values(|p: Seq<usize>| page_card_row(doc@, p)),
                    v.deep_view() == want.take(i as int),
                decreases nodes.len() - i,
            {
                proof {
                    lemma_path_view(nodes@[i as int]);
                }
                let ghost before = v.deep_view();
                v.push(card_row(doc, &nodes[i]));
                assert(v.deep_view() =~= before.push(want[i as int]));
                assert(want.take(i + 1) =~= want.take(i as int).push(want[i as int]));
                i = i + 1;
            }
            assert(want.take(nodes@.len() as int) =~= want);
            Some(v)
        },
    };
    let grammar = match select_all(doc, &card, "div.dictionaryWordCard > ul > li") {
        None => None,
        Some(nodes) => Some(texts_of(doc, &nodes)),
    };
    Some(SummarySource { rows, grammar })
}

fn span_source(doc: &Doc, at: &Vec<usize>) -> (r: SpanSource)
    ensures
        r.deep_view() == page_span(doc@, at@),
{
    let n = child_count(doc, at);
    let ghost want = child_paths(doc@, at@).map_values(|p: Seq<usize>| page_piece(doc@, p));
    let mut pieces: Vec<Piece> = Vec::new();
    let mut k: usize = 0;
    while k < n
        invariant
            k <= n,
            n == kuchiki_child_count(doc@, at@),
            want == child_paths(doc@, at@).map_values(|p: Seq<usize>| page_piece(doc@, p)),
            pieces.deep_view() == want.take(k as int),
        decreases n - k,
    {
        let child = child_of(at, k);
        let ghost before = pieces.deep_view();
        let is_element = element_name(doc, &child).is_some();
        pieces.push(Piece { is_element, text: text_contents(doc, &child) });
        assert(child_paths(doc@, at@)[k as int] == child_path(at@, k as int));
        assert(pieces.deep_view() =~= before.push(want[k as int]));
        assert(want.take(k + 1) =~= want.take(k as int).push(want[k as int]));
        k = k + 1;
    }
    assert(want.take(n as int) =~= want);
    SpanSource { text: text_contents(doc, at), pieces }
}

fn item_source(doc: &Doc, at: &Vec<usize>) -> (r: Option<Vec<SpanSource>>)
    ensures
        r.deep_view() == page_item(doc@, at@),
{
    let spans = match select_all(doc, at, "span") {
        None => return None,
        Some(s) => s,
    };
    let ghost want = spans.deep_view().map_values(|p: Seq<usize>| page_span(doc@, p));
    let mut v: Vec<SpanSource> = Vec::new();
    let mut i: usize = 0;
    while i < spans.len()
        invariant
            i <= spans@.len(),
            want == spans.deep_view().map_values(|p: Seq<usize>| page_span(doc@, p)),
            v.deep_view() == want.take(i as int),
        decreases spans.len() - i,
    {
        proof {
            lemma_path_view(spans@[i as int]);
        }
        let ghost before = v.deep_view();
        v.push(span_source(doc, &spans[i]));
        assert(v.deep_view() =~= before.push(want[i as int]));
        assert(want.take(i + 1) =~= want.take(i as int).push(want[i as int]));
        i = i + 1;
    }
    assert(want.take(spans@.len() as int) =~= want);
    Some(v)
}

fn block_source(doc: &Doc, at: &Vec<usize>) -> (r: BlockSource)
    ensures
        r.deep_view() == page_block(doc@, at@),
{
    let items = match select_all(doc, at, "li") {
        None => None,
        Some(lis) => {
            let ghost want = lis.deep_view().map_values(|p: Seq<usize>| page_item(doc@, p));
            let mut v: Vec<Option<Vec<SpanSource>>> = Vec::new();
            let mut i: usize = 0;
            while i < lis.len()
                invariant
                    i <= lis@.len(),
                    want == lis.deep_view().map_values(|p: Seq<usize>| page_item(doc@, p)),
                    v.deep_view() == want.take(i as int),
                decreases lis.len() - i,
            {
                proof {
                    lemma_path_view(lis@[i as int]);
                }
                let ghost before = v.deep_view();
                v.push(item_source(doc, &lis[i]));
                assert(v.deep_view() =~= before.push(want[i as int]));
                assert(want.take(i + 1) =~= want.take(i as int).push(want[i as int]));
                i = i + 1;
            }
            assert(want.take(lis@.len() as int) =~= want);
            Some(v)
        },
    };
    BlockSource { class: attribute(doc, at, "class"), text: text_contents(doc, at), items }
}

/// The child elements of the explanation tab of a parsed search page, if it
/// has one.
fn explanation_source(doc: &Doc) -> (r: Option<Vec<BlockSource>>)
    ensures
        r.deep_view() == page_explanation(doc@),
{
    let top: Vec<usize> = Vec::new();
    assert(top@ =~= Seq::<usize>::empty());
    let tab = match select_first(doc, &top, "div.tab-content-explanation") {
        None => return None,
        Some(t) => t,
    };
    proof {
        lemma_path_view(tab);
    }
    let n = child_count(doc, &tab);
    let ghost kids = child_paths(doc@, tab@);
    let ghost f = |p: Seq<usize>| page_block_of_child(doc@, p);
    let mut v: Vec<BlockSource> = Vec::new();
    let mut k: usize = 0;
    while k < n
        invariant
            k <= n,
            n == kuchiki_child_count(doc@, tab@),
            kids == child_paths(doc@, tab@),
            f == (|p: Seq<usize>| page_block_of_child(doc@, p)),
            v.deep_view() == flat_map(kids.take(k as int), f),
        decreases n - k,
    {
        proof {
            lemma_flat_map_take(kids, f, k as int);
        }
        let child = child_of(&tab, k);
        assert(kids[k as int] == child@);
        let ghost before = v.deep_view();
        if element_name(doc, &child).is_some() {
            v.push(block_source(doc, &child));
            assert(v.deep_view() =~= before + f(kids[k as int]));
        } else {
            assert(v.deep_view() =~= before + f(kids[k as int]));
        }
        k = k + 1;
    }
    proof {
        lemma_take_all(kids);
    }
    Some(v)
}

/// The child elements of the synonyms tab of a parsed search page, if it has
/// one.
fn synonyms_source(doc: &Doc) -> (r: Option<Vec<SynonymSource>>)
    ensures
        r.deep_view() == page_synonyms(doc@),
{
    let top: Vec<usize> = Vec::new();
    assert(top@ =~= Seq::<usize>::empty());
    let tab = match select_first(doc, &top, "div.tab-content-synonyms") {
        None => return None,
        Some(t) => t,
    };
    proof {
        lemma_path_view(tab);
    }
    let n = child_count(doc, &tab);
    let ghost kids = child_paths(doc@, tab@);
    let ghost f = |p: Seq<usize>| page_synonym_of_child(doc@, p);
    let mut v: Vec<SynonymSource> = Vec::new();
    let mut k: usize = 0;
    while k < n
        invariant
            k <= n,
            n == kuchiki_child_count(doc@, tab@),
            kids == child_paths(doc@, tab@),
            f == (|p: Seq<usize>| page_synonym_of_child(doc@, p)),
            v.deep_view() == flat_map(kids.take(k as int), f),
        decreases n - k,
    {
        proof {
            lemma_flat_map_take(kids, f, k as int);
        }
        let elm = child_of(&tab, k);
        assert(kids[k as int] == elm@);
        let ghost before = v.deep_view();
        match element_name(doc, &elm) {
            Some(name) => {
                let title = match select_first(doc, &elm, ".fw-xl") {
                    Some(t) => {
                        proof {
                            lemma_path_view(t);
                        }
                        Some(text_contents(doc, &t))
                    },
                    None => None,
                };
                let explain = match select_first(doc, &elm, ".fw-500") {
                    Some(x) => {
                        proof {
                            lemma_path_view(x);
                        }
                        Some(text_contents(doc, &x))
                    },
                    None => None,
                };
                let items = match select_all(doc, &elm, "li > span") {
                    Some(ns) => Some(texts_of(doc, &ns)),
                    None => None,
                };
                v.push(SynonymSource { name, title, explain, items });
                assert(v.deep_view() =~= before + f(kids[k as int]));
            },
            None => {
                assert(v.deep_view() =~= before + f(kids[k as int]));
            },
        }
        k = k + 1;
    }
    proof {
        lemma_take_all(kids);
    }
    Some(v)
}

/// The parts of a search page that an entry is read from.
fn page_of(content: String) -> (r: Page)
    ensures
        r.deep_view() == spec_page(content@),
{
    let doc = parse_document(content);
    Page {
        summary: summary_source(&doc),
        explanation: explanation_source(&doc),
        synonyms: synonyms_source(&doc),
    }
}

impl Entry {
    /// The entry read from the HTML of a search page (`query`): exactly
    /// [`Entry::from_page`] of the parts of the page, [`spec_page`], that
    /// `kuchiki` finds in `content`; `None` when they hold no entry.
    pub fn query(content: String) -> (r: Option<Entry>)
        ensures
            match r {
                Some(e) => spec_from_page(spec_page(content@)) == Some(e@),
                None => spec_from_page(spec_page(content@)) is None,
            },
    {
        let page = page_of(content);
        Entry::from_page(&page)
    }
}

} // verus!
