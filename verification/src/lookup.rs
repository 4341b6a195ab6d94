//! The lookup of one word in one dictionary, as a state machine.
//!
//! The machine decides; the program around it does the work it asks for
//! (reading and writing the cache, decoding and encoding entries, querying
//! the dictionary, printing) and hands back what came of it as an event.
use vstd::prelude::*;
use crate::cli::Opts;
use crate::dict::{
    DictKind, dicts_for, failure_report, not_found_message, provider_message, url_message,
    spec_name, provider_line, url_line, not_found_line, spec_failure_report, query_prefix,
    spec_dicts_for,
};
use crate::text::{owned, copy_string};

verus! {

/// Where a lookup stands.
#[derive(Debug, Clone, Copy, PartialEq, Eq, Structural)]
pub enum Stage {
    /// Nothing done yet.
    Start,
    /// Waiting for the cached text of the entry, if any.
    ReadingCache,
    /// Waiting for the cached text to be decoded.
    DecodingCached,
    /// Waiting for the dictionary's answer.
    Fetching,
    /// Waiting for the fetched entry to be encoded for the cache.
    Encoding,
    /// The lookup is over.
    Done,
}

/// One lookup of a word in a dictionary.
#[derive(Debug)]
pub struct Lookup {
    pub dict: DictKind,
    pub word: String,
    pub url: String,
    pub show_provider: bool,
    pub show_url: bool,
    /// Whether an earlier result may be read from the cache.
    pub read_cache: bool,
    /// Whether a result is saved in the cache.
    pub save_cache: bool,
    pub verbose: u8,
    pub stage: Stage,
}

pub struct LookupView {
    pub dict: DictKind,
    pub word: Seq<char>,
    pub url: Seq<char>,
    pub show_provider: bool,
    pub show_url: bool,
    pub read_cache: bool,
    pub save_cache: bool,
    pub verbose: u8,
    pub stage: Stage,
}

impl View for Lookup {
    type V = LookupView;

    open spec fn view(&self) -> LookupView {
        LookupView {
            dict: self.dict,
            word: self.word@,
            url: self.url@,
            show_provider: self.show_provider,
            show_url: self.show_url,
            read_cache: self.read_cache,
            save_cache: self.save_cache,
            verbose: self.verbose,
            stage: self.stage,
        }
    }
}

/// What came of a query to the dictionary.
#[derive(Debug)]
pub enum Fetched {
    /// The query failed with an error, given in its debug and display forms.
    Failed { debug: String, display: String },
    /// The dictionary has no entry for the word.
    NotFound,
    /// An entry was found (the program holds it).
    Found,
}

/// What the program reports back to the machine.
#[derive(Debug)]
pub enum Event {
    /// Start the lookup.
    Begin,
    /// The cached text for the word and dictionary, if there is one.
    CacheRead(Option<String>),
    /// Whether the cached text decoded into an entry.
    CachedDecoded(bool),
    /// The dictionary's answer.
    Fetched(Fetched),
    /// The fetched entry encoded for the cache, if encoding succeeded.
    Encoded(Option<String>),
}

/// What the machine asks the program to do.
#[derive(Debug, PartialEq, Eq)]
pub enum Action {
    /// Print this text.
    Print(String),
    /// Read the cached text keyed by word and dictionary name.
    ReadCache { word: String, source: String },
    /// Decode this cached text into an entry.
    DecodeCached(String),
    /// Show the entry at hand with this verbosity.
    Show { verbose: u8 },
    /// Ask the dictionary at this address.
    Query { url: String },
    /// Encode the fetched entry for the cache.
    Encode,
    /// Save this text in the cache under word and dictionary name.
    SaveCache { word: String, source: String, content: String },
    /// The lookup is over.
    Finish,
}

pub enum FetchedView {
    Failed { debug: Seq<char>, display: Seq<char> },
    NotFound,
    Found,
}

pub enum EventView {
    Begin,
    CacheRead(Option<Seq<char>>),
    CachedDecoded(bool),
    Fetched(FetchedView),
    Encoded(Option<Seq<char>>),
}

pub enum ActionView {
    Print(Seq<char>),
    ReadCache { word: Seq<char>, source: Seq<char> },
    DecodeCached(Seq<char>),
    Show { verbose: u8 },
    Query { url: Seq<char> },
    Encode,
    SaveCache { word: Seq<char>, source: Seq<char>, content: Seq<char> },
    Finish,
}

impl View for Event {
    type V = EventView;

    open spec fn view(&self) -> EventView {
        match self {
            Event::Begin => EventView::Begin,
            Event::CacheRead(c) => EventView::CacheRead(crate::text::opt_chars(*c)),
            Event::CachedDecoded(b) => EventView::CachedDecoded(*b),
            Event::Fetched(f) => EventView::Fetched(
                match f {
                    Fetched::Failed { debug, display } => FetchedView::Failed {
                        debug: debug@,
                        display: display@,
                    },
                    Fetched::NotFound => FetchedView::NotFound,
                    Fetched::Found => FetchedView::Found,
                },
            ),
            Event::Encoded(c) => EventView::Encoded(crate::text::opt_chars(*c)),
        }
    }
}

impl View for Action {
    type V = ActionView;

    open spec fn view(&self) -> ActionView {
        match self {
            Action::Print(s) => ActionView::Print(s@),
            Action::ReadCache { word, source } => ActionView::ReadCache {
                word: word@,
                source: source@,
            },
            Action::DecodeCached(s) => ActionView::DecodeCached(s@),
            Action::Show { verbose } => ActionView::Show { verbose: *verbose },
            Action::Query { url } => ActionView::Query { url: url@ },
            Action::Encode => ActionView::Encode,
            Action::SaveCache { word, source, content } => ActionView::SaveCache {
                word: word@,
                source: source@,
                content: content@,
            },
            Action::Finish => ActionView::Finish,
        }
    }
}

/// The models of a list of actions.
pub open spec fn actions_view(v: Seq<Action>) -> Seq<ActionView> {
    v.map_values(|a: Action| a@)
}

pub open spec fn with_stage(m: LookupView, stage: Stage) -> LookupView {
    LookupView { stage, ..m }
}

/// The lines printed before anything is looked up.
pub open spec fn preamble(m: LookupView) -> Seq<ActionView> {
    (if m.show_provider {
        seq![ActionView::Print(provider_line(m.dict))]
    } else {
        seq![]
    }) + (if m.show_url {
        seq![ActionView::Print(url_line(m.url))]
    } else {
        seq![]
    })
}

/// The machine's answer to one event: its next state and what it asks for.
/// An event that does not fit the stage changes nothing and asks for nothing.
pub open spec fn spec_step(m: LookupView, e: EventView) -> (LookupView, Seq<ActionView>) {
    let show_and_finish = seq![ActionView::Show { verbose: m.verbose }, ActionView::Finish];
    let query = seq![ActionView::Query { url: m.url }];
    match (m.stage, e) {
        (Stage::Start, EventView::Begin) => if m.read_cache {
            (
                with_stage(m, Stage::ReadingCache),
                preamble(m).push(
                    ActionView::ReadCache { word: m.word, source: spec_name(m.dict) },
                ),
            )
        } else {
            (with_stage(m, Stage::Fetching), preamble(m) + query)
        },
        (Stage::ReadingCache, EventView::CacheRead(None)) => (
            with_stage(m, Stage::Fetching),
            query,
        ),
        (Stage::ReadingCache, EventView::CacheRead(Some(c))) => (
            with_stage(m, Stage::DecodingCached),
            seq![ActionView::DecodeCached(c)],
        ),
        (Stage::DecodingCached, EventView::CachedDecoded(ok)) => if ok {
            (with_stage(m, Stage::Done), show_and_finish)
        } else {
            (with_stage(m, Stage::Fetching), query)
        },
        (Stage::Fetching, EventView::Fetched(f)) => match f {
            FetchedView::Failed { debug, display } => (
                with_stage(m, Stage::Done),
                seq![
                    ActionView::Print(spec_failure_report(debug, display, m.dict, m.word)),
                    ActionView::Finish,
                ],
            ),
            FetchedView::NotFound => (
                with_stage(m, Stage::Done),
                seq![ActionView::Print(not_found_line(m.word)), ActionView::Finish],
            ),
            FetchedView::Found => (with_stage(m, Stage::Encoding), seq![ActionView::Encode]),
        },
        (Stage::Encoding, EventView::Encoded(c)) => match c {
            Some(content) => if m.save_cache {
                (
                    with_stage(m, Stage::Done),
                    seq![
                        ActionView::SaveCache {
                            word: m.word,
                            source: spec_name(m.dict),
                            content,
                        },
                    ] + show_and_finish,
                )
            } else {
                (with_stage(m, Stage::Done), show_and_finish)
            },
            None => (with_stage(m, Stage::Done), show_and_finish),
        },
        _ => (m, seq![]),
    }
}

/// The machine's state and all it asked for after a series of events.
pub open spec fn run(m: LookupView, events: Seq<EventView>) -> (LookupView, Seq<ActionView>)
    decreases events.len(),
{
    if events.len() == 0 {
        (m, seq![])
    } else {
        let (m1, a1) = run(m, events.drop_last());
        let (m2, a2) = spec_step(m1, events.last());
        (m2, a1 + a2)
    }
}

/// A lookup before it starts.
pub open spec fn spec_new_lookup(
    dict: DictKind,
    word: Seq<char>,
    show_provider: bool,
    show_url: bool,
    verbose: u8,
    disable_db_cache: bool,
    cache_open: bool,
) -> LookupView {
    LookupView {
        dict,
        word,
        url: query_prefix(dict) + word,
        show_provider,
        show_url,
        read_cache: !disable_db_cache && cache_open,
        save_cache: cache_open,
        verbose,
        stage: Stage::Start,
    }
}

impl Lookup {
    /// A lookup of `word` in `dict` with the options `opts`; `cache_open`
    /// tells whether a cache is at hand.
    pub fn new(dict: DictKind, word: &str, opts: &Opts, cache_open: bool) -> (r: Lookup)
        ensures
            r@ == spec_new_lookup(
                dict,
                word@,
                opts.show_provider,
                opts.show_url,
                opts.verbose,
                opts.disable_db_cache,
                cache_open,
            ),
    {
        Lookup {
            dict,
            word: owned(word),
            url: dict.get_query_url(word),
            show_provider: opts.show_provider,
            show_url: opts.show_url,
            read_cache: !opts.disable_db_cache && cache_open,
            save_cache: cache_open,
            verbose: opts.verbose,
            stage: Stage::Start,
        }
    }

    /// Whether the lookup is over.
    pub fn is_done(&self) -> (r: bool)
        ensures
            r == (self.stage == Stage::Done),
    {
        match self.stage {
            Stage::Done => true,
            _ => false,
        }
    }

    fn query_action(&self) -> (r: Vec<Action>)
        ensures
            actions_view(r@) == seq![ActionView::Query { url: self.url@ }],
    {
        let r = vec![Action::Query { url: copy_string(&self.url) }];
        assert(actions_view(r@) =~= seq![ActionView::Query { url: self.url@ }]);
        r
    }

    fn show_and_finish(&self) -> (r: Vec<Action>)
        ensures
            actions_view(r@) == seq![
                ActionView::Show { verbose: self.verbose },
                ActionView::Finish,
            ],
    {
        let r = vec![Action::Show { verbose: self.verbose }, Action::Finish];
        assert(actions_view(r@) =~= seq![
            ActionView::Show { verbose: self.verbose },
            ActionView::Finish,
        ]);
        r
    }

    fn preamble(&self) -> (r: Vec<Action>)
        ensures
            actions_view(r@) == preamble(self@),
    {
        let mut r: Vec<Action> = Vec::new();
        if self.show_provider {
            r.push(Action::Print(provider_message(self.dict)));
        }
        if self.show_url {
            r.push(Action::Print(url_message(self.url.as_str())));
        }
        assert(actions_view(r@) =~= preamble(self@));
        r
    }

    /// Answers one event: moves to the next stage and returns what is to be
    /// done, in order.
    pub fn step(&mut self, event: Event) -> (r: Vec<Action>)
        ensures
            (final(self)@, actions_view(r@)) == spec_step(old(self)@, event@),
    {
        let ghost m = self@;
        match (self.stage, event) {
            (Stage::Start, Event::Begin) => {
                let mut r = self.preamble();
                if self.read_cache {
                    let ghost pre = actions_view(r@);
                    r.push(
                        Action::ReadCache {
                            word: copy_string(&self.word),
                            source: owned(self.dict.name()),
                        },
                    );
                    assert(actions_view(r@) =~= pre.push(
                        ActionView::ReadCache { word: m.word, source: spec_name(m.dict) },
                    ));
                    self.stage = Stage::ReadingCache;
                } else {
                    let ghost pre = actions_view(r@);
                    let mut q = self.query_action();
                    r.append(&mut q);
                    assert(actions_view(r@) =~= pre + seq![ActionView::Query { url: m.url }]);
                    self.stage = Stage::Fetching;
                }
                r
            },
            (Stage::ReadingCache, Event::CacheRead(c)) => {
                match c {
                    None => {
                        self.stage = Stage::Fetching;
                        self.query_action()
                    },
                    Some(c) => {
                        self.stage = Stage::DecodingCached;
                        let r = vec![Action::DecodeCached(c)];
                        assert(actions_view(r@) =~= seq![ActionView::DecodeCached(c@)]);
                        r
                    },
                }
            },
            (Stage::DecodingCached, Event::CachedDecoded(ok)) => {
                if ok {
                    self.stage = Stage::Done;
                    self.show_and_finish()
                } else {
                    self.stage = Stage::Fetching;
                    self.query_action()
                }
            },
            (Stage::Fetching, Event::Fetched(f)) => {
                match f {
                    Fetched::Failed { debug, display } => {
                        self.stage = Stage::Done;
                        let report = failure_report(
                            debug.as_str(),
                            display.as_str(),
                            self.dict,
                            self.word.as_str(),
                        );
                        let r = vec![Action::Print(report), Action::Finish];
                        assert(actions_view(r@) =~= seq![
                            ActionView::Print(
                                spec_failure_report(debug@, display@, m.dict, m.word),
                            ),
                            ActionView::Finish,
                        ]);
                        r
                    },
                    Fetched::NotFound => {
                        self.stage = Stage::Done;
                        let r = vec![
                            Action::Print(not_found_message(self.word.as_str())),
                            Action::Finish,
                        ];
                        assert(actions_view(r@) =~= seq![
                            ActionView::Print(not_found_line(m.word)),
                            ActionView::Finish,
                        ]);
                        r
                    },
                    Fetched::Found => {
                        self.stage = Stage::Encoding;
                        let r = vec![Action::Encode];
                        assert(actions_view(r@) =~= seq![ActionView::Encode]);
                        r
                    },
                }
            },
            (Stage::Encoding, Event::Encoded(c)) => {
                self.stage = Stage::Done;
                match c {
                    Some(content) => {
                        if self.save_cache {
                            let mut r = vec![
                                Action::SaveCache {
                                    word: copy_string(&self.word),
                                    source: owned(self.dict.name()),
                                    content,
                                },
                            ];
                            let ghost first = actions_view(r@);
                            let mut rest = self.show_and_finish();
                            r.append(&mut rest);
                            assert(actions_view(r@) =~= first + seq![
                                ActionView::Show { verbose: m.verbose },
                                ActionView::Finish,
                            ]);
                            r
                        } else {
                            self.show_and_finish()
                        }
                    },
                    None => self.show_and_finish(),
                }
            },
            (_, _) => {
                let r: Vec<Action> = Vec::new();
                assert(actions_view(r@) =~= Seq::<ActionView>::empty());
                r
            },
        }
    }
}


/// The lookups of `words` in dictionary `k`, in order.
pub open spec fn plan_for(k: DictKind, o: crate::cli::OptsView, cache_open: bool) -> Seq<LookupView> {
    o.words.map_values(
        |w: Seq<char>|
            spec_new_lookup(
                k,
                w,
                o.show_provider,
                o.show_url,
                o.verbose,
                o.disable_db_cache,
                cache_open,
            ),
    )
}

/// The lookups of every word in each dictionary of `dicts`, dictionary by
/// dictionary.
pub open spec fn plan(dicts: Seq<DictKind>, o: crate::cli::OptsView, cache_open: bool) -> Seq<
    LookupView,
>
    decreases dicts.len(),
{
    if dicts.len() == 0 {
        seq![]
    } else {
        plan(dicts.drop_last(), o, cache_open) + plan_for(dicts.last(), o, cache_open)
    }
}

/// The models of a list of lookups.
pub open spec fn lookups_view(v: Seq<Lookup>) -> Seq<LookupView> {
    v.map_values(|l: Lookup| l@)
}

/// The lookups that a command line asks for (`lookup_words`): each word in
/// each selected dictionary (`yahoo` unless `--dict` says otherwise).
pub fn lookup_words(opts: &Opts, cache_open: bool) -> (r: Vec<Lookup>)
    requires
        opts.dict matches Some(c) ==> crate::cli::is_possible_dict(c@),
    ensures
        lookups_view(r@) == plan(spec_dicts_for(crate::text::opt_chars(opts.dict)), opts@, cache_open),
        r@.len() == spec_dicts_for(crate::text::opt_chars(opts.dict)).len() * opts.words@.len(),
        forall|i: int|
            0 <= i < r@.len() ==> {
                &&& (#[trigger] r@[i]).read_cache == (!opts.disable_db_cache && cache_open)
                &&& r@[i].save_cache == cache_open
                &&& r@[i].show_provider == opts.show_provider
                &&& r@[i].show_url == opts.show_url
                &&& r@[i].verbose == opts.verbose
                &&& r@[i].stage == Stage::Start
                &&& opts.words.deep_view().contains(r@[i].word@)
            },
{
    let dicts = dicts_for(&opts.dict);
    let ghost dv = dicts@;
    let mut r: Vec<Lookup> = Vec::new();
    let mut d: usize = 0;
    while d < dicts.len()
        invariant
            d <= dicts@.len(),
            dv == dicts@,
            lookups_view(r@) == plan(dv.take(d as int), opts@, cache_open),
        decreases dicts.len() - d,
    {
        let k = dicts[d];
        let ghost before = lookups_view(r@);
        let mut w: usize = 0;
        while w < opts.words.len()
            invariant
                w <= opts.words@.len(),
                lookups_view(r@) == before + plan_for(k, opts@, cache_open).take(w as int),
            decreases opts.words.len() - w,
        {
            let ghost mid = lookups_view(r@);
            let l = Lookup::new(k, opts.words[w].as_str(), opts, cache_open);
            r.push(l);
            assert(opts.words.deep_view()[w as int] == opts.words@[w as int]@);
            assert(plan_for(k, opts@, cache_open).take(w + 1) =~= plan_for(k, opts@, cache_open).take(
                w as int,
            ).push(l@));
            assert(lookups_view(r@) =~= mid.push(l@));
            w = w + 1;
        }
        assert(plan_for(k, opts@, cache_open).take(opts.words@.len() as int) =~= plan_for(
            k,
            opts@,
            cache_open,
        ));
        assert(dv.take(d + 1).drop_last() =~= dv.take(d as int));
        d = d + 1;
    }
    assert(dv.take(dicts@.len() as int) =~= dv);
    proof {
        law_planned_lookups_follow_the_options(dv, opts@, cache_open);
        assert forall|i: int| 0 <= i < r@.len() implies {
            &&& (#[trigger] r@[i]).read_cache == (!opts.disable_db_cache && cache_open)
            &&& r@[i].save_cache == cache_open
            &&& r@[i].show_provider == opts.show_provider
            &&& r@[i].show_url == opts.show_url
            &&& r@[i].verbose == opts.verbose
            &&& r@[i].stage == Stage::Start
            &&& opts.words.deep_view().contains(r@[i].word@)
        } by {
            assert(lookups_view(r@)[i] == r@[i]@);
        }
    }
    r
}

/// Each planned lookup follows the command line: it reads the cache exactly
/// when `-d` is absent and a cache is open, saves to it exactly when one is
/// open, keeps `--show-provider`, `--show-url` and `-v`, starts from the
/// beginning, and looks up one of the words; there is one lookup per word
/// and dictionary.
pub proof fn law_planned_lookups_follow_the_options(
    dicts: Seq<DictKind>,
    o: crate::cli::OptsView,
    cache_open: bool,
)
    ensures
        plan(dicts, o, cache_open).len() == dicts.len() * o.words.len(),
        forall|i: int|
            0 <= i < plan(dicts, o, cache_open).len() ==> {
                let l = #[trigger] plan(dicts, o, cache_open)[i];
                &&& l.read_cache == (!o.disable_db_cache && cache_open)
                &&& l.save_cache == cache_open
                &&& l.show_provider == o.show_provider
                &&& l.show_url == o.show_url
                &&& l.verbose == o.verbose
                &&& l.stage == Stage::Start
                &&& o.words.contains(l.word)
            },
    decreases dicts.len(),
{
    if dicts.len() > 0 {
        law_planned_lookups_follow_the_options(dicts.drop_last(), o, cache_open);
        let before = plan(dicts.drop_last(), o, cache_open);
        let last = plan_for(dicts.last(), o, cache_open);
        assert(dicts.len() * o.words.len() == (dicts.len() - 1) * o.words.len() + o.words.len())
            by (nonlinear_arith);
        assert forall|i: int| 0 <= i < plan(dicts, o, cache_open).len() implies {
            let l = #[trigger] plan(dicts, o, cache_open)[i];
            &&& l.read_cache == (!o.disable_db_cache && cache_open)
            &&& l.save_cache == cache_open
            &&& l.show_provider == o.show_provider
            &&& l.show_url == o.show_url
            &&& l.verbose == o.verbose
            &&& l.stage == Stage::Start
            &&& o.words.contains(l.word)
        } by {
            if i < before.len() {
                assert(plan(dicts, o, cache_open)[i] == before[i]);
            } else {
                let j = i - before.len();
                assert(plan(dicts, o, cache_open)[i] == last[j]);
                assert(last[j].word == o.words[j]);
            }
        }
    }
}

/// Every event keeps the lookup's word, dictionary and settings; only the stage
/// moves.
pub proof fn lemma_run_keeps_settings(m: LookupView, events: Seq<EventView>)
    ensures
        with_stage(run(m, events).0, m.stage) == m,
    decreases events.len(),
{
    if events.len() > 0 {
        lemma_run_keeps_settings(m, events.drop_last());
    }
}

/// With the cache disabled (`-d`), no series of events makes a lookup read the
/// cache.
pub proof fn law_disabled_cache_is_never_read(m: LookupView, events: Seq<EventView>)
    requires
        !m.read_cache,
    ensures
        forall|i: int|
            0 <= i < run(m, events).1.len() ==> !(#[trigger] run(m, events).1[i] is ReadCache),
    decreases events.len(),
{
    if events.len() > 0 {
        let (m1, a1) = run(m, events.drop_last());
        law_disabled_cache_is_never_read(m, events.drop_last());
        lemma_run_keeps_settings(m, events.drop_last());
        assert(!m1.read_cache);
        let a2 = spec_step(m1, events.last()).1;
        assert forall|i: int| 0 <= i < a2.len() implies !(#[trigger] a2[i] is ReadCache) by {}
        assert forall|i: int|
            0 <= i < run(m, events).1.len() implies !(#[trigger] run(m, events).1[i] is ReadCache) by {
            if i >= a1.len() {
                assert(run(m, events).1[i] == a2[i - a1.len()]);
            } else {
                assert(run(m, events).1[i] == a1[i]);
            }
        }
    }
}

/// With the cache disabled (`-d`) but open, an entry that is found is still
/// saved in the cache, under the word and the dictionary's name, and shown.
pub proof fn law_disabled_cache_still_saves(
    dict: DictKind,
    word: Seq<char>,
    show_provider: bool,
    show_url: bool,
    verbose: u8,
    content: Seq<char>,
)
    ensures
        ({
            let m = spec_new_lookup(dict, word, show_provider, show_url, verbose, true, true);
            let events = seq![
                EventView::Begin,
                EventView::Fetched(FetchedView::Found),
                EventView::Encoded(Some(content)),
            ];
            let (m2, acts) = run(m, events);
            &&& m2.stage == Stage::Done
            &&& acts.contains(
                ActionView::SaveCache { word, source: spec_name(dict), content },
            )
            &&& acts.contains(ActionView::Show { verbose })
            &&& forall|i: int| 0 <= i < acts.len() ==> !(#[trigger] acts[i] is ReadCache)
        }),
{
    let m = spec_new_lookup(dict, word, show_provider, show_url, verbose, true, true);
    let e1 = seq![EventView::Begin];
    let e2 = e1.push(EventView::Fetched(FetchedView::Found));
    let e3 = e2.push(EventView::Encoded(Some(content)));
    assert(e1.drop_last() =~= Seq::<EventView>::empty());
    assert(e2.drop_last() =~= e1);
    assert(e3.drop_last() =~= e2);
    assert(run(m, e1.drop_last()) == (m, Seq::<ActionView>::empty()));
    let (m1, a1) = run(m, e1);
    assert((m1, a1) == spec_step(m, EventView::Begin));
    assert(a1 =~= spec_step(m, EventView::Begin).1);
    assert(m1.stage == Stage::Fetching);
    let (m2, a2) = run(m, e2);
    assert(m2.stage == Stage::Encoding);
    assert(a2 == a1 + seq![ActionView::Encode]);
    let (m3, a3) = run(m, e3);
    let save = ActionView::SaveCache { word, source: spec_name(dict), content };
    lemma_run_keeps_settings(m, e2);
    assert(m2.save_cache);
    assert(a3 == a2 + (seq![save] + seq![ActionView::Show { verbose }, ActionView::Finish]));
    assert(a3[a2.len() as int] == save);
    assert(a3[a2.len() + 1int] == ActionView::Show { verbose });
    assert(e3 =~= seq![
        EventView::Begin,
        EventView::Fetched(FetchedView::Found),
        EventView::Encoded(Some(content)),
    ]);
    law_disabled_cache_is_never_read(m, e3);
}

/// An entry found in the cache that decodes is shown, and the dictionary is
/// not queried.
pub proof fn law_cache_hit_skips_query(
    dict: DictKind,
    word: Seq<char>,
    show_provider: bool,
    show_url: bool,
    verbose: u8,
    cached: Seq<char>,
)
    ensures
        ({
            let m = spec_new_lookup(dict, word, show_provider, show_url, verbose, false, true);
            let events = seq![
                EventView::Begin,
                EventView::CacheRead(Some(cached)),
                EventView::CachedDecoded(true),
            ];
            let (m2, acts) = run(m, events);
            &&& m2.stage == Stage::Done
            &&& acts.contains(ActionView::Show { verbose })
            &&& forall|i: int| 0 <= i < acts.len() ==> !(#[trigger] acts[i] is Query)
        }),
{
    let m = spec_new_lookup(dict, word, show_provider, show_url, verbose, false, true);
    let e1 = seq![EventView::Begin];
    let e2 = e1.push(EventView::CacheRead(Some(cached)));
    let e3 = e2.push(EventView::CachedDecoded(true));
    assert(e1.drop_last() =~= Seq::<EventView>::empty());
    assert(e2.drop_last() =~= e1);
    assert(e3.drop_last() =~= e2);
    assert(run(m, e1.drop_last()) == (m, Seq::<ActionView>::empty()));
    let (m1, a1) = run(m, e1);
    assert((m1, a1) == spec_step(m, EventView::Begin));
    assert(a1 =~= spec_step(m, EventView::Begin).1);
    assert(m1.stage == Stage::ReadingCache);
    let pre = preamble(m);
    assert(a1 =~= pre.push(ActionView::ReadCache { word, source: spec_name(dict) }));
    let (m2, a2) = run(m, e2);
    assert(m2.stage == Stage::DecodingCached);
    assert(a2 == a1 + seq![ActionView::DecodeCached(cached)]);
    let (m3, a3) = run(m, e3);
    assert(a3 == a2 + seq![ActionView::Show { verbose }, ActionView::Finish]);
    assert(a3[a2.len() as int] == ActionView::Show { verbose });
    assert(forall|j: int| 0 <= j < pre.len() ==> pre[j] is Print);
    assert forall|i: int| 0 <= i < a3.len() implies !(#[trigger] a3[i] is Query) by {
        if i < pre.len() {
            assert(a3[i] == pre[i]);
        } else if i < a1.len() {
            assert(a3[i] == a1[i]);
        } else if i < a2.len() {
            assert(a3[i] == a2[i]);
        }
    }
    assert(e3 =~= seq![
        EventView::Begin,
        EventView::CacheRead(Some(cached)),
        EventView::CachedDecoded(true),
    ]);
}


/// A lookup starts by printing the dictionary's name (with `--show-provider`)
/// and then the query address (with `--show-url`), whether or not it reads the
/// cache; after these lines it either reads the cache, keyed by the word and
/// the dictionary's name, or queries the dictionary at its address.
pub proof fn law_provider_and_url_come_first(m: LookupView)
    requires
        m.stage == Stage::Start,
    ensures
        ({
            let acts = spec_step(m, EventView::Begin).1;
            let n: int = (if m.show_provider { 1int } else { 0int }) + (if m.show_url {
                1int
            } else {
                0int
            });
            &&& acts.len() == n + 1
            &&& m.show_provider ==> acts[0] == ActionView::Print(provider_line(m.dict))
            &&& m.show_url ==> acts[n - 1] == ActionView::Print(url_line(m.url))
            &&& acts[n] == (if m.read_cache {
                ActionView::ReadCache { word: m.word, source: spec_name(m.dict) }
            } else {
                ActionView::Query { url: m.url }
            })
        }),
{
}

/// When the cache has nothing usable (no cached text, or text that does not
/// decode) the dictionary is queried at the lookup's address; a word the
/// dictionary does not know is reported as not found; a found entry is
/// encoded, then saved under the word and the dictionary's name exactly when
/// the lookup saves to the cache, and shown with the lookup's verbosity as
/// the last thing before the lookup ends.
pub proof fn law_each_answer_leads_on(m: LookupView, content: Option<Seq<char>>)
    ensures
        m.stage == Stage::ReadingCache ==> spec_step(m, EventView::CacheRead(None)).1 == seq![
            ActionView::Query { url: m.url },
        ],
        m.stage == Stage::DecodingCached ==> spec_step(m, EventView::CachedDecoded(false)).1
            == seq![ActionView::Query { url: m.url }],
        m.stage == Stage::Fetching ==> spec_step(m, EventView::Fetched(FetchedView::NotFound)).1
            == seq![ActionView::Print(not_found_line(m.word)), ActionView::Finish],
        m.stage == Stage::Fetching ==> spec_step(m, EventView::Fetched(FetchedView::Found)).1
            == seq![ActionView::Encode],
        m.stage == Stage::Encoding ==> ({
            let acts = spec_step(m, EventView::Encoded(content)).1;
            let saves = m.save_cache && content is Some;
            &&& acts.len() == (if saves { 3int } else { 2int })
            &&& saves ==> acts[0] == ActionView::SaveCache {
                word: m.word,
                source: spec_name(m.dict),
                content: content->0,
            }
            &&& acts[acts.len() - 2] == ActionView::Show { verbose: m.verbose }
            &&& acts[acts.len() - 1] == ActionView::Finish
        }),
{
}

/// How far a lookup has gone.
pub open spec fn stage_rank(s: Stage) -> nat {
    match s {
        Stage::Start => 0,
        Stage::ReadingCache => 1,
        Stage::DecodingCached => 2,
        Stage::Fetching => 3,
        Stage::Encoding => 4,
        Stage::Done => 5,
    }
}

/// Every event either moves a lookup forward and asks for something, or
/// changes nothing and asks for nothing; once over, a lookup stays over. So
/// a lookup is over after at most five events that move it.
pub proof fn law_events_move_forward(m: LookupView, e: EventView)
    ensures
        ({
            let (m2, acts) = spec_step(m, e);
            ||| (stage_rank(m2.stage) > stage_rank(m.stage) && acts.len() > 0 && with_stage(
                m2,
                m.stage,
            ) == m)
            ||| (m2 == m && acts.len() == 0)
        }),
        m.stage == Stage::Done ==> spec_step(m, e) == (m, Seq::<ActionView>::empty()),
        spec_step(m, e).0.stage == Stage::Done && m.stage != Stage::Done ==> spec_step(
            m,
            e,
        ).1.last() == ActionView::Finish,
{
}

/// A lookup reads the cache under the key that a lookup of the same word in
/// the same dictionary saves under: the word and the dictionary's name.
pub proof fn law_cache_key_is_word_and_dictionary(
    dict: DictKind,
    word: Seq<char>,
    show_provider: bool,
    show_url: bool,
    verbose: u8,
    disable_db_cache: bool,
    content: Seq<char>,
)
    ensures
        ({
            let reader = spec_new_lookup(
                dict,
                word,
                show_provider,
                show_url,
                verbose,
                false,
                true,
            );
            let writer = spec_new_lookup(
                dict,
                word,
                show_provider,
                show_url,
                verbose,
                disable_db_cache,
                true,
            );
            let read = spec_step(reader, EventView::Begin).1.last();
            let saved = spec_step(
                with_stage(writer, Stage::Encoding),
                EventView::Encoded(Some(content)),
            ).1[0];
            &&& read == ActionView::ReadCache { word, source: spec_name(dict) }
            &&& saved == ActionView::SaveCache { word, source: spec_name(dict), content }
        }),
{
}

} // verus!
