//! The dictionaries: which ones `zd` knows and lists, their names, titles and
//! query addresses, which ones `--dict` selects, and the messages printed
//! around an entry.
use vstd::prelude::*;

pub mod urban;
pub mod jisho;
pub mod yahoo;
mod html;
use crate::text::{owned, replace_str, replace_all};

verus! {

/// The address template of the Yahoo dictionary's search page.
pub open spec fn yahoo_api() -> Seq<char> {
    "https://tw.dictionary.search.yahoo.com/search?p={word}"@
}

/// The address of the Yahoo dictionary's search page for `word`: the
/// template with `{word}` replaced by the word.
pub fn get_url(word: &str) -> (r: String)
    ensures
        r@ == replace_all(yahoo_api(), "{word}"@, word@),
        r@ == "https://tw.dictionary.search.yahoo.com/search?p="@ + word@,
{
    proof {
        reveal_strlit("{word}");
        reveal_strlit("https://tw.dictionary.search.yahoo.com/search?p={word}");
        reveal_strlit("https://tw.dictionary.search.yahoo.com/search?p=");
        let p = "https://tw.dictionary.search.yahoo.com/search?p="@;
        assert(yahoo_api() =~= p + "{word}"@);
        assert forall|i: int| 0 <= i < p.len() implies p[i] != '{' by {}
        crate::text::lemma_replace_once_at_end(p, "{word}"@, word@);
    }
    replace_str("https://tw.dictionary.search.yahoo.com/search?p={word}", "{word}", word)
}

/// The dictionaries that `zd` knows.
#[derive(Debug, Clone, Copy, PartialEq, Eq, Structural)]
pub enum DictKind {
    /// Yahoo's English-Chinese dictionary (the default).
    Yahoo,
    /// Urban Dictionary.
    Urban,
    /// Jisho, a Japanese-English dictionary.
    Jisho,
}

/// A dictionary's short name, which also keys its cached entries.
pub open spec fn spec_name(k: DictKind) -> Seq<char> {
    match k {
        DictKind::Yahoo => "yahoo"@,
        DictKind::Urban => "urban"@,
        DictKind::Jisho => "jisho"@,
    }
}

/// A dictionary's title.
pub open spec fn spec_title(k: DictKind) -> Seq<char> {
    match k {
        DictKind::Yahoo => "Yahoo Dictionary"@,
        DictKind::Urban => "Urban Dictionary"@,
        DictKind::Jisho => "Jisho"@,
    }
}

/// A dictionary's home page.
pub open spec fn spec_homepage_url(k: DictKind) -> Seq<char> {
    match k {
        DictKind::Yahoo => "https://tw.dictionary.yahoo.com/"@,
        DictKind::Urban => "https://www.urbandictionary.com/"@,
        DictKind::Jisho => "https://jisho.org/"@,
    }
}

/// The address a dictionary is queried at, before the word.
pub open spec fn query_prefix(k: DictKind) -> Seq<char> {
    match k {
        DictKind::Yahoo => "https://tw.dictionary.search.yahoo.com/search?p="@,
        DictKind::Urban => "http://api.urbandictionary.com/v0/define?term="@,
        DictKind::Jisho => "https://jisho.org/api/v1/search/words?keyword="@,
    }
}

impl DictKind {
    /// The dictionary's short name.
    pub fn name(&self) -> (r: &'static str)
        ensures
            r@ == spec_name(*self),
    {
        match self {
            DictKind::Yahoo => "yahoo",
            DictKind::Urban => "urban",
            DictKind::Jisho => "jisho",
        }
    }

    /// The dictionary's title.
    pub fn title(&self) -> (r: &'static str)
        ensures
            r@ == spec_title(*self),
    {
        match self {
            DictKind::Yahoo => "Yahoo Dictionary",
            DictKind::Urban => "Urban Dictionary",
            DictKind::Jisho => "Jisho",
        }
    }

    /// The dictionary's home page.
    pub fn homepage_url(&self) -> (r: &'static str)
        ensures
            r@ == spec_homepage_url(*self),
    {
        match self {
            DictKind::Yahoo => "https://tw.dictionary.yahoo.com/",
            DictKind::Urban => "https://www.urbandictionary.com/",
            DictKind::Jisho => "https://jisho.org/",
        }
    }

    /// The address at which the dictionary is asked for `word`.
    pub fn get_query_url(&self, word: &str) -> (r: String)
        ensures
            r@ == query_prefix(*self) + word@,
    {
        let mut r = match self {
            DictKind::Yahoo => owned("https://tw.dictionary.search.yahoo.com/search?p="),
            DictKind::Urban => owned("http://api.urbandictionary.com/v0/define?term="),
            DictKind::Jisho => owned("https://jisho.org/api/v1/search/words?keyword="),
        };
        r.append(word);
        r
    }
}

/// The dictionaries that `zd dicts` lists and `--dict all` consults, in order.
pub open spec fn registry() -> Seq<DictKind> {
    seq![DictKind::Yahoo, DictKind::Urban]
}

/// The dictionaries that `--dict` selects (`yahoo` when it is absent).
pub open spec fn spec_dicts_for(choice: Option<Seq<char>>) -> Seq<DictKind> {
    match choice {
        None => seq![DictKind::Yahoo],
        Some(c) => if c == "urban"@ {
            seq![DictKind::Urban]
        } else if c == "all"@ {
            registry()
        } else {
            seq![DictKind::Yahoo]
        },
    }
}

/// The dictionaries that the `--dict` value `choice` selects.
pub fn dicts_for(choice: &Option<String>) -> (r: Vec<DictKind>)
    requires
        choice matches Some(c) ==> crate::cli::is_possible_dict(c@),
    ensures
        r@ == spec_dicts_for(crate::text::opt_chars(*choice)),
{
    match choice {
        None => vec![DictKind::Yahoo],
        Some(c) => {
            if crate::text::str_eq(c.as_str(), "urban") {
                vec![DictKind::Urban]
            } else if crate::text::str_eq(c.as_str(), "all") {
                let r = vec![DictKind::Yahoo, DictKind::Urban];
                assert(r@ =~= registry());
                r
            } else {
                vec![DictKind::Yahoo]
            }
        },
    }
}

/// The lines that `zd dicts` prints for one dictionary.
pub open spec fn listing_entry(k: DictKind) -> Seq<char> {
    spec_name(k) + ": "@ + spec_title(k) + "\n"@ + spec_homepage_url(k) + "\n\n"@
}

/// The text of `zd dicts`: each registered dictionary's name, title and home
/// page.
pub open spec fn spec_dict_listing() -> Seq<char> {
    listing_entry(DictKind::Yahoo) + listing_entry(DictKind::Urban)
}

fn append_listing_entry(s: &mut String, k: DictKind)
    ensures
        final(s)@ == old(s)@ + listing_entry(k),
{
    s.append(k.name());
    s.append(": ");
    s.append(k.title());
    s.append("\n");
    s.append(k.homepage_url());
    s.append("\n\n");
    assert(final(s)@ =~= old(s)@ + listing_entry(k));
}

/// The text that `zd dicts` prints (`list_dicts`).
pub fn list_dicts() -> (r: String)
    ensures
        r@ == spec_dict_listing(),
{
    let mut s = String::new();
    append_listing_entry(&mut s, DictKind::Yahoo);
    append_listing_entry(&mut s, DictKind::Urban);
    assert(s@ =~= spec_dict_listing());
    s
}

/// The line that `--show-provider` prints.
pub open spec fn provider_line(k: DictKind) -> Seq<char> {
    "\x1b[34m["@ + spec_name(k) + "]\x1b[0m\n"@
}

/// The line that `--show-url` prints.
pub open spec fn url_line(url: Seq<char>) -> Seq<char> {
    "\x1b[34m("@ + url + ")\x1b[0m\n"@
}

/// The line printed when a dictionary has no entry for the word.
pub open spec fn not_found_line(word: Seq<char>) -> Seq<char> {
    "\x1b[33m\""@ + word + "\" not found!\x1b[0m\n"@
}

/// The report printed when a query fails: the error (debug and display
/// forms), the dictionary, the word, and where to report the problem.
pub open spec fn spec_failure_report(
    debug: Seq<char>,
    display: Seq<char>,
    k: DictKind,
    word: Seq<char>,
) -> Seq<char> {
    debug + "\n"@ + display + "\n"@ + rule() + "\n"@ + "Entryionary: "@ + spec_title(k) + " ("@
        + spec_name(k) + ")\n"@ + "Word: '"@ + word + "'\n"@ + rule() + "\n"@ + "\n"@
        + "Houston, we got a problem \u{1F622}\n"@ + "Please report the error message above to "@
        + "https://github.com/zdict/rust-zdict/issues"@ + "\n"@
}

/// The separating rule of the failure report.
pub open spec fn rule() -> Seq<char> {
    "================================================================================"@
}

/// The report printed when a query for `word` in dictionary `k` fails with an
/// error whose debug and display forms are given (`show_failure`).
pub fn failure_report(debug: &str, display: &str, k: DictKind, word: &str) -> (r: String)
    ensures
        r@ == spec_failure_report(debug@, display@, k, word@),
{
    let rule = "================================================================================";
    let mut r = String::new();
    r.append(debug);
    r.append("\n");
    r.append(display);
    r.append("\n");
    r.append(rule);
    r.append("\n");
    r.append("Entryionary: ");
    r.append(k.title());
    r.append(" (");
    r.append(k.name());
    r.append(")\n");
    r.append("Word: '");
    r.append(word);
    r.append("'\n");
    r.append(rule);
    r.append("\n");
    r.append("\n");
    r.append("Houston, we got a problem \u{1F622}\n");
    r.append("Please report the error message above to ");
    r.append("https://github.com/zdict/rust-zdict/issues");
    r.append("\n");
    assert(r@ =~= spec_failure_report(debug@, display@, k, word@));
    r
}

/// The line that `--show-provider` prints for dictionary `k`.
pub fn provider_message(k: DictKind) -> (r: String)
    ensures
        r@ == provider_line(k),
{
    let mut r = owned("\x1b[34m[");
    r.append(k.name());
    r.append("]\x1b[0m\n");
    assert(r@ =~= provider_line(k));
    r
}

/// The line that `--show-url` prints for the address `url`.
pub fn url_message(url: &str) -> (r: String)
    ensures
        r@ == url_line(url@),
{
    let mut r = owned("\x1b[34m(");
    r.append(url);
    r.append(")\x1b[0m\n");
    assert(r@ =~= url_line(url@));
    r
}

/// The line printed when no entry was found for `word`.
pub fn not_found_message(word: &str) -> (r: String)
    ensures
        r@ == not_found_line(word@),
{
    let mut r = owned("\x1b[33m\"");
    r.append(word);
    r.append("\" not found!\x1b[0m\n");
    assert(r@ =~= not_found_line(word@));
    r
}

} // verus!
