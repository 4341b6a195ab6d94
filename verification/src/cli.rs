//! The command line: the options of `zd` and the grammar that reads them.
//!
//! The grammar is the one `zd --help` describes: words to look up, the flags
//! `--show-provider`, `--show-url`, `-v/--verbose` (at most twice) and
//! `-d/--disable-db-cache`, the option `--dict <DICT>` with the values
//! `yahoo`, `urban` and `all`, and the subcommand `dicts`. With no argument at
//! all the help is shown; the subcommand is only recognised as the first
//! argument, before any flag, option or word, and with it no word is needed.
use vstd::prelude::*;
use crate::text::{lemma_find_char, opt_chars, chars_of, chars_eq, string_from_chars, find_char, find_char_index};

verus! {

/// The subcommands of `zd`.
#[derive(Debug, Clone, Copy, PartialEq, Eq, Structural)]
pub enum SubCommand {
    /// `dicts`: show the supported dictionaries.
    ListDicts,
}

/// The options of one invocation of `zd`.
#[derive(Debug, PartialEq, Eq)]
pub struct Opts {
    /// The words to look up.
    pub words: Vec<String>,
    /// `--show-provider`: print the dictionary's name before each entry.
    pub show_provider: bool,
    /// `--show-url`: print the query address before each entry.
    pub show_url: bool,
    /// `--dict`: the dictionary to use (`yahoo` when absent).
    pub dict: Option<String>,
    /// `-v`: how verbose the output is (0, 1 or 2).
    pub verbose: u8,
    /// `-d`: do not read earlier results from the cache (they are still saved).
    pub disable_db_cache: bool,
    /// The subcommand, if one was given.
    pub subcmd: Option<SubCommand>,
}

/// The model of [`Opts`]: each string by its characters.
pub struct OptsView {
    pub words: Seq<Seq<char>>,
    pub show_provider: bool,
    pub show_url: bool,
    pub dict: Option<Seq<char>>,
    pub verbose: u8,
    pub disable_db_cache: bool,
    pub subcmd: Option<SubCommand>,
}

impl View for Opts {
    type V = OptsView;

    open spec fn view(&self) -> OptsView {
        OptsView {
            words: self.words.deep_view(),
            show_provider: self.show_provider,
            show_url: self.show_url,
            dict: opt_chars(self.dict),
            verbose: self.verbose,
            disable_db_cache: self.disable_db_cache,
            subcmd: self.subcmd,
        }
    }
}

/// Why a command line was not accepted.
#[derive(Debug, PartialEq, Eq)]
pub enum CliError {
    /// `-h`, `--help`, or no argument at all: the help is to be shown.
    Help,
    /// `-V` or `--version`: the version is to be shown.
    Version,
    /// An option that `zd` does not define.
    UnknownArgument(String),
    /// `--dict` without a value.
    MissingValue,
    /// A `--dict` value that is not `yahoo`, `urban` or `all`.
    InvalidValue(String),
    /// An option given twice (named by its long form).
    Repeated(String),
    /// `-v` given more than twice.
    TooManyVerbose,
    /// Neither a word nor a subcommand.
    MissingWords,
    /// An argument after the subcommand.
    UnexpectedArgument(String),
}

/// The model of [`CliError`].
pub enum CliErrorView {
    Help,
    Version,
    UnknownArgument(Seq<char>),
    MissingValue,
    InvalidValue(Seq<char>),
    Repeated(Seq<char>),
    TooManyVerbose,
    MissingWords,
    UnexpectedArgument(Seq<char>),
}

impl View for CliError {
    type V = CliErrorView;

    open spec fn view(&self) -> CliErrorView {
        match self {
            CliError::Help => CliErrorView::Help,
            CliError::Version => CliErrorView::Version,
            CliError::UnknownArgument(s) => CliErrorView::UnknownArgument(s@),
            CliError::MissingValue => CliErrorView::MissingValue,
            CliError::InvalidValue(s) => CliErrorView::InvalidValue(s@),
            CliError::Repeated(s) => CliErrorView::Repeated(s@),
            CliError::TooManyVerbose => CliErrorView::TooManyVerbose,
            CliError::MissingWords => CliErrorView::MissingWords,
            CliError::UnexpectedArgument(s) => CliErrorView::UnexpectedArgument(s@),
        }
    }
}

/// The model of a parse result.
pub open spec fn parse_result_view(r: Result<Opts, CliError>) -> Result<OptsView, CliErrorView> {
    match r {
        Ok(o) => Ok(o@),
        Err(e) => Err(e@),
    }
}

/// The options before any argument is read.
pub open spec fn init_opts() -> OptsView {
    OptsView {
        words: seq![],
        show_provider: false,
        show_url: false,
        dict: None,
        verbose: 0,
        disable_db_cache: false,
        subcmd: None,
    }
}

/// The values that `--dict` accepts.
pub open spec fn is_possible_dict(v: Seq<char>) -> bool {
    v == "yahoo"@ || v == "urban"@ || v == "all"@
}

/// A token that would be read as an option rather than as a value.
pub open spec fn looks_like_option(t: Seq<char>) -> bool {
    t.len() > 1 && t[0] == '-'
}

pub open spec fn add_word(o: OptsView, w: Seq<char>) -> OptsView {
    OptsView { words: o.words.push(w), ..o }
}

/// `--dict` set to `v`.
pub open spec fn set_dict(o: OptsView, v: Seq<char>) -> Result<OptsView, CliErrorView> {
    if o.dict is Some {
        Err(CliErrorView::Repeated("--dict"@))
    } else if !is_possible_dict(v) {
        Err(CliErrorView::InvalidValue(v))
    } else {
        Ok(OptsView { dict: Some(v), ..o })
    }
}

/// One more `-v`.
pub open spec fn add_verbose(o: OptsView) -> Result<OptsView, CliErrorView> {
    if o.verbose >= 2 {
        Err(CliErrorView::TooManyVerbose)
    } else {
        Ok(OptsView { verbose: (o.verbose + 1) as u8, ..o })
    }
}

/// `-d` or `--disable-db-cache`.
pub open spec fn set_disable(o: OptsView) -> Result<OptsView, CliErrorView> {
    if o.disable_db_cache {
        Err(CliErrorView::Repeated("--disable-db-cache"@))
    } else {
        Ok(OptsView { disable_db_cache: true, ..o })
    }
}

/// The short flags of a cluster such as `-vd`, from position `j` on.
pub open spec fn scan_short(t: Seq<char>, j: int, o: OptsView) -> Result<OptsView, CliErrorView>
    decreases t.len() - j,
{
    if j < 0 || j >= t.len() {
        Ok(o)
    } else {
        let c = t[j];
        if c == 'h' {
            Err(CliErrorView::Help)
        } else if c == 'V' {
            Err(CliErrorView::Version)
        } else if c == 'v' {
            match add_verbose(o) {
                Ok(o2) => scan_short(t, j + 1, o2),
                Err(e) => Err(e),
            }
        } else if c == 'd' {
            match set_disable(o) {
                Ok(o2) => scan_short(t, j + 1, o2),
                Err(e) => Err(e),
            }
        } else {
            Err(CliErrorView::UnknownArgument(seq!['-', c]))
        }
    }
}

/// The name of a long option `--name` or `--name=value`.
pub open spec fn long_name(t: Seq<char>) -> Seq<char> {
    let body = t.skip(2);
    match find_char(body, '=') {
        Some(e) => body.take(e),
        None => body,
    }
}

/// The value of a long option written `--name=value`.
pub open spec fn long_value(t: Seq<char>) -> Option<Seq<char>> {
    let body = t.skip(2);
    match find_char(body, '=') {
        Some(e) => Some(body.skip(e + 1)),
        None => None,
    }
}

/// The characters of each token.
pub open spec fn tokens_view(toks: Seq<Vec<char>>) -> Seq<Seq<char>> {
    toks.map_values(|t: Vec<char>| t@)
}

/// The state of a scan: the options so far, and whether `--` was seen.
pub struct Scan {
    pub opts: OptsView,
    pub raw: bool,
}

pub open spec fn keep_raw(r: Result<OptsView, CliErrorView>, raw: bool, took: bool) -> Result<
    (Scan, bool),
    CliErrorView,
> {
    match r {
        Ok(o) => Ok((Scan { opts: o, raw }, took)),
        Err(e) => Err(e),
    }
}

/// A long option without a value.
pub open spec fn scan_long_flag(t: Seq<char>, o: OptsView) -> Result<OptsView, CliErrorView> {
    let name = long_name(t);
    if name == "help"@ {
        Err(CliErrorView::Help)
    } else if name == "version"@ {
        Err(CliErrorView::Version)
    } else if name == "show-provider"@ {
        if o.show_provider {
            Err(CliErrorView::Repeated("--show-provider"@))
        } else {
            Ok(OptsView { show_provider: true, ..o })
        }
    } else if name == "show-url"@ {
        if o.show_url {
            Err(CliErrorView::Repeated("--show-url"@))
        } else {
            Ok(OptsView { show_url: true, ..o })
        }
    } else if name == "disable-db-cache"@ {
        set_disable(o)
    } else if name == "verbose"@ {
        add_verbose(o)
    } else {
        Err(CliErrorView::UnknownArgument(t))
    }
}

/// Reads the token at `i`; the flag tells whether the token after it was
/// taken as the option's value.
pub open spec fn scan_step(toks: Seq<Seq<char>>, i: int, s: Scan) -> Result<
    (Scan, bool),
    CliErrorView,
> {
    let t = toks[i];
    let o = s.opts;
    if o.subcmd is Some {
        if t == "-h"@ || t == "--help"@ {
            Err(CliErrorView::Help)
        } else {
            Err(CliErrorView::UnexpectedArgument(t))
        }
    } else if s.raw {
        Ok((Scan { opts: add_word(o, t), raw: true }, false))
    } else if t == "--"@ {
        Ok((Scan { opts: o, raw: true }, false))
    } else if t.len() > 2 && t[0] == '-' && t[1] == '-' {
        if long_name(t) == "dict"@ {
            match long_value(t) {
                Some(v) => keep_raw(set_dict(o, v), false, false),
                None => if i + 1 < toks.len() && !looks_like_option(toks[i + 1]) {
                    keep_raw(set_dict(o, toks[i + 1]), false, true)
                } else {
                    Err(CliErrorView::MissingValue)
                },
            }
        } else if long_value(t) is Some {
            Err(CliErrorView::UnknownArgument(t))
        } else {
            keep_raw(scan_long_flag(t, o), false, false)
        }
    } else if t.len() > 1 && t[0] == '-' {
        keep_raw(scan_short(t, 1, o), false, false)
    } else if i == 1 && t == "dicts"@ {
        Ok((Scan { opts: OptsView { subcmd: Some(SubCommand::ListDicts), ..o }, raw: false }, false))
    } else {
        Ok((Scan { opts: add_word(o, t), raw: false }, false))
    }
}

/// Reads the tokens from `i` on.
pub open spec fn scan_from(toks: Seq<Seq<char>>, i: int, s: Scan) -> Result<Scan, CliErrorView>
    decreases toks.len() - i,
{
    if i < 0 || i >= toks.len() {
        Ok(s)
    } else {
        match scan_step(toks, i, s) {
            Err(e) => Err(e),
            Ok((s2, took)) => scan_from(toks, i + 1 + (if took { 1int } else { 0int }), s2),
        }
    }
}

/// The options that the command line `args` (program name first) gives, or
/// why it is refused.
pub open spec fn parse_args(args: Seq<Seq<char>>) -> Result<OptsView, CliErrorView> {
    if args.len() <= 1 {
        Err(CliErrorView::Help)
    } else {
        match scan_from(args, 1, Scan { opts: init_opts(), raw: false }) {
            Err(e) => Err(e),
            Ok(s) => if s.opts.subcmd is None && s.opts.words.len() == 0 {
                Err(CliErrorView::MissingWords)
            } else {
                Ok(s.opts)
            },
        }
    }
}

fn new_opts() -> (o: Opts)
    ensures
        o@ == init_opts(),
{
    let o = Opts {
        words: Vec::new(),
        show_provider: false,
        show_url: false,
        dict: None,
        verbose: 0,
        disable_db_cache: false,
        subcmd: None,
    };
    assert(o.words.deep_view() =~= Seq::<Seq<char>>::empty());
    o
}

fn whole(t: &Vec<char>) -> (s: String)
    ensures
        s@ == t@,
{
    let s = string_from_chars(t, 0, t.len());
    assert(t@.subrange(0, t@.len() as int) =~= t@);
    s
}

fn lit_eq(t: &Vec<char>, lit: &str) -> (r: bool)
    ensures
        r == (t@ == lit@),
{
    let l = chars_of(lit);
    chars_eq(t, &l)
}

fn push_word(o: &mut Opts, t: &Vec<char>)
    ensures
        final(o)@ == add_word(old(o)@, t@),
{
    let ghost before = o.words.deep_view();
    let w = whole(t);
    o.words.push(w);
    assert(o.words.deep_view() =~= before.push(t@));
}

fn do_set_dict(o: &mut Opts, v: &Vec<char>) -> (r: Result<(), CliError>)
    ensures
        match set_dict(old(o)@, v@) {
            Ok(o2) => r is Ok && final(o)@ == o2,
            Err(e) => r matches Err(e2) && e2@ == e,
        },
{
    if o.dict.is_some() {
        let name = owned_lit("--dict");
        return Err(CliError::Repeated(name));
    }
    if !(lit_eq(v, "yahoo") || lit_eq(v, "urban") || lit_eq(v, "all")) {
        return Err(CliError::InvalidValue(whole(v)));
    }
    o.dict = Some(whole(v));
    Ok(())
}

fn owned_lit(s: &str) -> (r: String)
    ensures
        r@ == s@,
{
    crate::text::owned(s)
}

fn do_add_verbose(o: &mut Opts) -> (r: Result<(), CliError>)
    ensures
        match add_verbose(old(o)@) {
            Ok(o2) => r is Ok && final(o)@ == o2,
            Err(e) => r matches Err(e2) && e2@ == e,
        },
{
    if o.verbose >= 2 {
        return Err(CliError::TooManyVerbose);
    }
    o.verbose = o.verbose + 1;
    Ok(())
}

fn do_set_disable(o: &mut Opts) -> (r: Result<(), CliError>)
    ensures
        match set_disable(old(o)@) {
            Ok(o2) => r is Ok && final(o)@ == o2,
            Err(e) => r matches Err(e2) && e2@ == e,
        },
{
    if o.disable_db_cache {
        return Err(CliError::Repeated(owned_lit("--disable-db-cache")));
    }
    o.disable_db_cache = true;
    Ok(())
}

fn do_scan_short(t: &Vec<char>, o: &mut Opts) -> (r: Result<(), CliError>)
    requires
        t@.len() >= 1,
    ensures
        match scan_short(t@, 1, old(o)@) {
            Ok(o2) => r is Ok && final(o)@ == o2,
            Err(e) => r matches Err(e2) && e2@ == e,
        },
{
    let mut j: usize = 1;
    while j < t.len()
        invariant
            1 <= j <= t@.len(),
            scan_short(t@, 1, old(o)@) == scan_short(t@, j as int, o@),
        decreases t.len() - j,
    {
        let c = t[j];
        if c == 'h' {
            return Err(CliError::Help);
        } else if c == 'V' {
            return Err(CliError::Version);
        } else if c == 'v' {
            do_add_verbose(o)?;
        } else if c == 'd' {
            do_set_disable(o)?;
        } else {
            let mut s = String::new();
            crate::text::push_char(&mut s, '-');
            crate::text::push_char(&mut s, c);
            assert(s@ =~= seq!['-', c]);
            return Err(CliError::UnknownArgument(s));
        }
        j = j + 1;
    }
    Ok(())
}

/// Splits a long option into its name and its value, if written `--name=value`.
fn split_long(t: &Vec<char>) -> (r: (Vec<char>, Option<String>))
    requires
        t@.len() >= 2,
    ensures
        r.0@ == long_name(t@),
        opt_chars(r.1) == long_value(t@),
{
    let body: Vec<char> = slice_chars(t, 2, t.len());
    assert(body@ == t@.skip(2));
    match find_char_index(&body, '=') {
        Some(e) => {
            let name = slice_chars(&body, 0, e);
            let value = string_from_chars(&body, e + 1, body.len());
            assert(name@ =~= body@.take(e as int));
            assert(value@ =~= body@.skip(e + 1));
            (name, Some(value))
        },
        None => (body, None),
    }
}

/// The characters `cs[from..to]`.
fn slice_chars(cs: &Vec<char>, from: usize, to: usize) -> (r: Vec<char>)
    requires
        from <= to <= cs@.len(),
    ensures
        r@ == cs@.subrange(from as int, to as int),
{
    let mut r: Vec<char> = Vec::new();
    let mut i = from;
    while i < to
        invariant
            from <= i <= to <= cs@.len(),
            r@ == cs@.subrange(from as int, i as int),
        decreases to - i,
    {
        r.push(cs[i]);
        i = i + 1;
    }
    r
}

fn do_long_flag(t: &Vec<char>, name: &Vec<char>, o: &mut Opts) -> (r: Result<(), CliError>)
    requires
        t@.len() >= 2,
        name@ == long_name(t@),
    ensures
        match scan_long_flag(t@, old(o)@) {
            Ok(o2) => r is Ok && final(o)@ == o2,
            Err(e) => r matches Err(e2) && e2@ == e,
        },
{
    if lit_eq(name, "help") {
        Err(CliError::Help)
    } else if lit_eq(name, "version") {
        Err(CliError::Version)
    } else if lit_eq(name, "show-provider") {
        if o.show_provider {
            Err(CliError::Repeated(owned_lit("--show-provider")))
        } else {
            o.show_provider = true;
            Ok(())
        }
    } else if lit_eq(name, "show-url") {
        if o.show_url {
            Err(CliError::Repeated(owned_lit("--show-url")))
        } else {
            o.show_url = true;
            Ok(())
        }
    } else if lit_eq(name, "disable-db-cache") {
        do_set_disable(o)
    } else if lit_eq(name, "verbose") {
        do_add_verbose(o)
    } else {
        Err(CliError::UnknownArgument(whole(t)))
    }
}

/// Reads the token at `i` into `o`; returns whether the next token was taken
/// as a value.
fn scan_token(toks: &Vec<Vec<char>>, i: usize, o: &mut Opts, raw: &mut bool) -> (r: Result<
    bool,
    CliError,
>)
    requires
        i < toks@.len(),
    ensures
        ({
            let tv = tokens_view(toks@);
            match scan_step(tv, i as int, Scan { opts: old(o)@, raw: *old(raw) }) {
                Ok((s2, took)) => r == Ok::<bool, CliError>(took) && final(o)@ == s2.opts
                    && *final(raw) == s2.raw,
                Err(e) => r matches Err(e2) && e2@ == e,
            }
        }),
{
    let ghost tv = tokens_view(toks@);
    let t = &toks[i];
    assert(tv[i as int] == t@);
    if o.subcmd.is_some() {
        if lit_eq(t, "-h") || lit_eq(t, "--help") {
            return Err(CliError::Help);
        } else {
            return Err(CliError::UnexpectedArgument(whole(t)));
        }
    }
    if *raw {
        push_word(o, t);
        return Ok(false);
    }
    if lit_eq(t, "--") {
        *raw = true;
        return Ok(false);
    }
    if t.len() > 2 && t[0] == '-' && t[1] == '-' {
        let (name, value) = split_long(t);
        if lit_eq(&name, "dict") {
            match value {
                Some(v) => {
                    let vc = chars_of(v.as_str());
                    do_set_dict(o, &vc)?;
                    return Ok(false);
                },
                None => {
                    if i < toks.len() - 1 {
                        let next = &toks[i + 1];
                        assert(tv[i + 1] == next@);
                        if !(next.len() > 1 && next[0] == '-') {
                            do_set_dict(o, next)?;
                            return Ok(true);
                        }
                    }
                    return Err(CliError::MissingValue);
                },
            }
        } else if value.is_some() {
            return Err(CliError::UnknownArgument(whole(t)));
        } else {
            do_long_flag(t, &name, o)?;
            return Ok(false);
        }
    }
    if t.len() > 1 && t[0] == '-' {
        do_scan_short(t, o)?;
        return Ok(false);
    }
    if i == 1 && lit_eq(t, "dicts") {
        o.subcmd = Some(SubCommand::ListDicts);
        return Ok(false);
    }
    push_word(o, t);
    Ok(false)
}

/// Reads the command line `args` (the program's name first) as `zd` does.
///
/// The result is exactly [`parse_args`] of the arguments: the options, or why
/// the command line is refused (the help and version requests among them).
pub fn parse_opts(args: &Vec<String>) -> (r: Result<Opts, CliError>)
    ensures
        parse_result_view(r) == parse_args(args.deep_view()),
        r matches Ok(o) ==> o.verbose <= 2,
        r matches Ok(o) ==> o.subcmd is Some || o.words.len() > 0,
        r matches Ok(o) ==> (o.dict matches Some(d) ==> is_possible_dict(d@)),
        r matches Ok(o) ==> (o.subcmd is Some ==> o.words.len() == 0),
{
    let ghost av = args.deep_view();
    if args.len() <= 1 {
        return Err(CliError::Help);
    }
    let mut toks: Vec<Vec<char>> = Vec::new();
    let mut k: usize = 0;
    while k < args.len()
        invariant
            k <= args@.len(),
            av == args.deep_view(),
            toks@.len() == k,
            forall|m: int| 0 <= m < k ==> #[trigger] toks@[m]@ == av[m],
        decreases args.len() - k,
    {
        let cs = chars_of(args[k].as_str());
        toks.push(cs);
        k = k + 1;
    }
    let ghost tv = tokens_view(toks@);
    assert(tv =~= av);
    let mut o = new_opts();
    let mut raw = false;
    let mut i: usize = 1;
    while i < toks.len()
        invariant
            1 <= i,
            tv == tokens_view(toks@),
            tv == av,
            av == args.deep_view(),
            args@.len() > 1,
            scan_from(av, 1, Scan { opts: init_opts(), raw: false }) == scan_from(
                av,
                i as int,
                Scan { opts: o@, raw },
            ),
        decreases toks.len() - i,
    {
        let ghost before = Scan { opts: o@, raw };
        let step = scan_token(&toks, i, &mut o, &mut raw);
        let took = match step {
            Ok(took) => took,
            Err(e) => {
                assert(scan_from(av, i as int, before) == Err::<Scan, CliErrorView>(e@));
                return Err(e);
            },
        };
        if took {
            i = i + 2;
        } else {
            i = i + 1;
        }
    }
    if o.subcmd.is_none() && o.words.len() == 0 {
        return Err(CliError::MissingWords);
    }
    proof {
        lemma_scan_keeps_verbose(av, 1, Scan { opts: init_opts(), raw: false });
        lemma_scan_keeps_dict_possible(av, 1, Scan { opts: init_opts(), raw: false });
        lemma_subcommand_stands_alone(av, 1, Scan { opts: init_opts(), raw: false });
    }
    Ok(o)
}

/// Every scan that succeeds leaves at most two `-v`.
proof fn lemma_scan_keeps_verbose(toks: Seq<Seq<char>>, i: int, s: Scan)
    requires
        s.opts.verbose <= 2,
    ensures
        scan_from(toks, i, s) matches Ok(s2) ==> s2.opts.verbose <= 2,
    decreases toks.len() - i,
{
    if 0 <= i < toks.len() {
        lemma_step_keeps_verbose(toks, i, s);
        match scan_step(toks, i, s) {
            Ok((s2, took)) => lemma_scan_keeps_verbose(
                toks,
                i + 1 + (if took { 1int } else { 0int }),
                s2,
            ),
            Err(_) => {},
        }
    }
}

proof fn lemma_short_keeps_verbose(t: Seq<char>, j: int, o: OptsView)
    requires
        o.verbose <= 2,
    ensures
        scan_short(t, j, o) matches Ok(o2) ==> o2.verbose <= 2,
    decreases t.len() - j,
{
    if 0 <= j < t.len() {
        let c = t[j];
        if c == 'v' {
            if let Ok(o2) = add_verbose(o) {
                lemma_short_keeps_verbose(t, j + 1, o2);
            }
        } else if c == 'd' {
            if let Ok(o2) = set_disable(o) {
                lemma_short_keeps_verbose(t, j + 1, o2);
            }
        }
    }
}

proof fn lemma_step_keeps_verbose(toks: Seq<Seq<char>>, i: int, s: Scan)
    requires
        0 <= i < toks.len(),
        s.opts.verbose <= 2,
    ensures
        scan_step(toks, i, s) matches Ok((s2, _)) ==> s2.opts.verbose <= 2,
{
    lemma_short_keeps_verbose(toks[i], 1, s.opts);
}


/// The `--dict` value of the options, if any, is one that `--dict` accepts.
pub open spec fn dict_is_possible(o: OptsView) -> bool {
    o.dict matches Some(d) ==> is_possible_dict(d)
}

proof fn lemma_short_keeps_dict(t: Seq<char>, j: int, o: OptsView)
    ensures
        scan_short(t, j, o) matches Ok(o2) ==> o2.dict == o.dict,
    decreases t.len() - j,
{
    if 0 <= j < t.len() {
        let c = t[j];
        if c == 'v' {
            if let Ok(o2) = add_verbose(o) {
                lemma_short_keeps_dict(t, j + 1, o2);
            }
        } else if c == 'd' {
            if let Ok(o2) = set_disable(o) {
                lemma_short_keeps_dict(t, j + 1, o2);
            }
        }
    }
}

proof fn lemma_scan_keeps_dict_possible(toks: Seq<Seq<char>>, i: int, s: Scan)
    requires
        dict_is_possible(s.opts),
    ensures
        scan_from(toks, i, s) matches Ok(s2) ==> dict_is_possible(s2.opts),
    decreases toks.len() - i,
{
    if 0 <= i < toks.len() {
        lemma_short_keeps_dict(toks[i], 1, s.opts);
        match scan_step(toks, i, s) {
            Ok((s2, took)) => lemma_scan_keeps_dict_possible(
                toks,
                i + 1 + (if took { 1int } else { 0int }),
                s2,
            ),
            Err(_) => {},
        }
    }
}

/// The subcommand is only read as the first argument, and nothing may follow
/// it: a scan that ends with the subcommand has read no word.
proof fn lemma_subcommand_stands_alone(toks: Seq<Seq<char>>, i: int, s: Scan)
    requires
        1 <= i,
        s.opts.subcmd is Some ==> s.opts.words.len() == 0,
        i == 1 ==> s.opts.words.len() == 0,
    ensures
        scan_from(toks, i, s) matches Ok(s2) ==> (s2.opts.subcmd is Some ==> s2.opts.words.len()
            == 0),
    decreases toks.len() - i,
{
    if 0 <= i < toks.len() {
        lemma_short_keeps_subcommand(toks[i], 1, s.opts);
        match scan_step(toks, i, s) {
            Ok((s2, took)) => lemma_subcommand_stands_alone(
                toks,
                i + 1 + (if took { 1int } else { 0int }),
                s2,
            ),
            Err(_) => {},
        }
    }
}

proof fn lemma_short_keeps_subcommand(t: Seq<char>, j: int, o: OptsView)
    ensures
        scan_short(t, j, o) matches Ok(o2) ==> o2.subcmd == o.subcmd && o2.words == o.words,
    decreases t.len() - j,
{
    if 0 <= j < t.len() {
        let c = t[j];
        if c == 'v' {
            if let Ok(o2) = add_verbose(o) {
                lemma_short_keeps_subcommand(t, j + 1, o2);
            }
        } else if c == 'd' {
            if let Ok(o2) = set_disable(o) {
                lemma_short_keeps_subcommand(t, j + 1, o2);
            }
        }
    }
}

/// `--show-url` turns on the query address and nothing else, and
/// `--show-provider` the dictionary's name and nothing else: followed by a
/// word, each gives the default options with that one flag set and that word.
pub proof fn law_show_flags_set_their_own_option(p: Seq<char>, w: Seq<char>)
    requires
        !(w.len() > 1 && w[0] == '-'),
    ensures
        parse_args(seq![p, "--show-url"@, w]) == Ok::<OptsView, CliErrorView>(
            OptsView {
                words: seq![w],
                show_provider: false,
                show_url: true,
                dict: None,
                verbose: 0,
                disable_db_cache: false,
                subcmd: None,
            },
        ),
        parse_args(seq![p, "--show-provider"@, w]) == Ok::<OptsView, CliErrorView>(
            OptsView {
                words: seq![w],
                show_provider: true,
                show_url: false,
                dict: None,
                verbose: 0,
                disable_db_cache: false,
                subcmd: None,
            },
        ),
{
    reveal_strlit("--show-url");
    reveal_strlit("--show-provider");
    reveal_strlit("show-url");
    reveal_strlit("show-provider");
    reveal_strlit("help");
    reveal_strlit("version");
    reveal_strlit("dict");
    reveal_strlit("--");
    let u = "--show-url"@;
    let v = "--show-provider"@;
    assert(u.skip(2) =~= "show-url"@);
    assert(v.skip(2) =~= "show-provider"@);
    lemma_find_char(u.skip(2), '=', u.skip(2).len() as int);
    lemma_find_char(v.skip(2), '=', v.skip(2).len() as int);
    assert(long_name(u) == "show-url"@);
    assert(long_name(v) == "show-provider"@);
    assert(long_value(u) is None);
    assert(long_value(v) is None);
    assert(u != "--"@);
    assert(v != "--"@);
    assert("show-url"@ != "help"@);
    assert("show-url"@ != "version"@);
    assert("show-url"@ != "dict"@);
    assert("show-url"@ != "show-provider"@);
    assert("show-provider"@ != "help"@);
    assert("show-provider"@ != "version"@);
    assert("show-provider"@ != "dict"@);
    let s0 = Scan { opts: init_opts(), raw: false };
    let o1 = OptsView { show_url: true, ..init_opts() };
    let o2 = OptsView { show_provider: true, ..init_opts() };
    assert(w != "--"@);
    let tu = seq![p, u, w];
    let tv = seq![p, v, w];
    assert(scan_step(tu, 1, s0) == Ok::<(Scan, bool), CliErrorView>(
        (Scan { opts: o1, raw: false }, false),
    ));
    assert(scan_step(tv, 1, s0) == Ok::<(Scan, bool), CliErrorView>(
        (Scan { opts: o2, raw: false }, false),
    ));
    assert(scan_step(tu, 2, Scan { opts: o1, raw: false }) == Ok::<(Scan, bool), CliErrorView>(
        (Scan { opts: add_word(o1, w), raw: false }, false),
    ));
    assert(scan_step(tv, 2, Scan { opts: o2, raw: false }) == Ok::<(Scan, bool), CliErrorView>(
        (Scan { opts: add_word(o2, w), raw: false }, false),
    ));
    assert(scan_from(tu, 3, Scan { opts: add_word(o1, w), raw: false }) == Ok::<Scan, CliErrorView>(
        Scan { opts: add_word(o1, w), raw: false },
    ));
    assert(scan_from(tv, 3, Scan { opts: add_word(o2, w), raw: false }) == Ok::<Scan, CliErrorView>(
        Scan { opts: add_word(o2, w), raw: false },
    ));
    assert(scan_from(tu, 2, Scan { opts: o1, raw: false }) == Ok::<Scan, CliErrorView>(
        Scan { opts: add_word(o1, w), raw: false },
    ));
    assert(scan_from(tv, 2, Scan { opts: o2, raw: false }) == Ok::<Scan, CliErrorView>(
        Scan { opts: add_word(o2, w), raw: false },
    ));
    assert(scan_from(tu, 1, s0) == Ok::<Scan, CliErrorView>(
        Scan { opts: add_word(o1, w), raw: false },
    ));
    assert(scan_from(tv, 1, s0) == Ok::<Scan, CliErrorView>(
        Scan { opts: add_word(o2, w), raw: false },
    ));
    assert(add_word(o1, w).words =~= seq![w]);
    assert(add_word(o2, w).words =~= seq![w]);
}

/// `-d` turns off reading the cache and nothing else, and each `-v` raises
/// the verbosity by one: followed by a word, `-d`, `-v` and `-vv` give the
/// default options with that change and that word.
pub proof fn law_short_flags_set_their_own_option(p: Seq<char>, w: Seq<char>)
    requires
        !(w.len() > 1 && w[0] == '-'),
    ensures
        parse_args(seq![p, "-d"@, w]) == Ok::<OptsView, CliErrorView>(
            OptsView {
                words: seq![w],
                show_provider: false,
                show_url: false,
                dict: None,
                verbose: 0,
                disable_db_cache: true,
                subcmd: None,
            },
        ),
        parse_args(seq![p, "-v"@, w]) == Ok::<OptsView, CliErrorView>(
            OptsView {
                words: seq![w],
                show_provider: false,
                show_url: false,
                dict: None,
                verbose: 1,
                disable_db_cache: false,
                subcmd: None,
            },
        ),
        parse_args(seq![p, "-vv"@, w]) == Ok::<OptsView, CliErrorView>(
            OptsView {
                words: seq![w],
                show_provider: false,
                show_url: false,
                dict: None,
                verbose: 2,
                disable_db_cache: false,
                subcmd: None,
            },
        ),
{
    reveal_strlit("-d");
    reveal_strlit("-v");
    reveal_strlit("-vv");
    reveal_strlit("--");
    let s0 = Scan { opts: init_opts(), raw: false };
    assert(w != "--"@);
    let od = OptsView { disable_db_cache: true, ..init_opts() };
    let o1 = OptsView { verbose: 1, ..init_opts() };
    let o2 = OptsView { verbose: 2, ..init_opts() };
    assert(scan_short("-d"@, 2, od) == Ok::<OptsView, CliErrorView>(od));
    assert(scan_short("-d"@, 1, init_opts()) == Ok::<OptsView, CliErrorView>(od));
    assert(scan_short("-v"@, 2, o1) == Ok::<OptsView, CliErrorView>(o1));
    assert(scan_short("-v"@, 1, init_opts()) == Ok::<OptsView, CliErrorView>(o1));
    assert(scan_short("-vv"@, 3, o2) == Ok::<OptsView, CliErrorView>(o2));
    assert(scan_short("-vv"@, 2, o1) == Ok::<OptsView, CliErrorView>(o2));
    assert(scan_short("-vv"@, 1, init_opts()) == Ok::<OptsView, CliErrorView>(o2));
    let td = seq![p, "-d"@, w];
    let t1 = seq![p, "-v"@, w];
    let t2 = seq![p, "-vv"@, w];
    assert(scan_step(td, 1, s0) == Ok::<(Scan, bool), CliErrorView>((Scan { opts: od, raw: false }, false)));
    assert(scan_step(t1, 1, s0) == Ok::<(Scan, bool), CliErrorView>((Scan { opts: o1, raw: false }, false)));
    assert(scan_step(t2, 1, s0) == Ok::<(Scan, bool), CliErrorView>((Scan { opts: o2, raw: false }, false)));
    assert(scan_from(td, 3, Scan { opts: add_word(od, w), raw: false }) == Ok::<Scan, CliErrorView>(Scan { opts: add_word(od, w), raw: false }));
    assert(scan_from(t1, 3, Scan { opts: add_word(o1, w), raw: false }) == Ok::<Scan, CliErrorView>(Scan { opts: add_word(o1, w), raw: false }));
    assert(scan_from(t2, 3, Scan { opts: add_word(o2, w), raw: false }) == Ok::<Scan, CliErrorView>(Scan { opts: add_word(o2, w), raw: false }));
    assert(scan_from(td, 2, Scan { opts: od, raw: false }) == Ok::<Scan, CliErrorView>(Scan { opts: add_word(od, w), raw: false }));
    assert(scan_from(t1, 2, Scan { opts: o1, raw: false }) == Ok::<Scan, CliErrorView>(Scan { opts: add_word(o1, w), raw: false }));
    assert(scan_from(t2, 2, Scan { opts: o2, raw: false }) == Ok::<Scan, CliErrorView>(Scan { opts: add_word(o2, w), raw: false }));
    assert(scan_from(td, 1, s0) == Ok::<Scan, CliErrorView>(Scan { opts: add_word(od, w), raw: false }));
    assert(scan_from(t1, 1, s0) == Ok::<Scan, CliErrorView>(Scan { opts: add_word(o1, w), raw: false }));
    assert(scan_from(t2, 1, s0) == Ok::<Scan, CliErrorView>(Scan { opts: add_word(o2, w), raw: false }));
    assert(add_word(od, w).words =~= seq![w]);
    assert(add_word(o1, w).words =~= seq![w]);
    assert(add_word(o2, w).words =~= seq![w]);
}

/// Whatever the command line, an accepted `--dict` value is `yahoo`, `urban`
/// or `all`; at most two `-v` are accepted; and either the subcommand or at
/// least one word is given, never both.
pub proof fn law_accepted_options_are_valid(args: Seq<Seq<char>>)
    ensures
        parse_args(args) matches Ok(o) ==> {
            &&& dict_is_possible(o)
            &&& o.verbose <= 2
            &&& (o.subcmd is Some || o.words.len() > 0)
            &&& (o.subcmd is Some ==> o.words.len() == 0)
        },
{
    let s = Scan { opts: init_opts(), raw: false };
    lemma_scan_keeps_dict_possible(args, 1, s);
    lemma_scan_keeps_verbose(args, 1, s);
    lemma_subcommand_stands_alone(args, 1, s);
}

/// A command line with no argument after the program's name asks for the
/// help.
pub proof fn law_no_argument_asks_for_help(args: Seq<Seq<char>>)
    requires
        args.len() <= 1,
    ensures
        parse_args(args) == Err::<OptsView, CliErrorView>(CliErrorView::Help),
{
}

} // verus!
