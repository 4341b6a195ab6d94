//! Jisho, a Japanese-English dictionary: its entries and how they are shown.
use vstd::prelude::*;
use crate::text::{append3, join, join_strings, decimal, push_decimal, opt_chars};

verus! {

/// One written form of a Japanese word.
#[derive(Debug, PartialEq, Eq)]
pub struct Japanese {
    pub reading: Option<String>,
    pub word: Option<String>,
}

/// One sense of a word.
#[derive(Debug, PartialEq, Eq)]
pub struct Sense {
    pub parts_of_speech: Vec<String>,
    pub english_definitions: Vec<String>,
    pub see_also: Vec<String>,
    pub restrictions: Vec<String>,
}

/// One word of an answer: its written forms, the main one first, and its
/// senses.
#[derive(Debug, PartialEq, Eq)]
pub struct Item {
    pub japanese: Vec<Japanese>,
    pub senses: Vec<Sense>,
    /// The item's other fields, kept as the JSON text they came in.
    pub omitted: String,
}

/// An answer of Jisho.
#[derive(Debug, PartialEq, Eq)]
pub struct Entry {
    pub data: Vec<Item>,
    /// The answer's other fields (such as `meta`), kept as JSON text.
    pub omitted: String,
}

pub struct JapaneseView {
    pub reading: Option<Seq<char>>,
    pub word: Option<Seq<char>>,
}

pub struct SenseView {
    pub parts_of_speech: Seq<Seq<char>>,
    pub english_definitions: Seq<Seq<char>>,
    pub see_also: Seq<Seq<char>>,
    pub restrictions: Seq<Seq<char>>,
}

pub struct ItemView {
    pub japanese: Seq<JapaneseView>,
    pub senses: Seq<SenseView>,
    pub omitted: Seq<char>,
}

pub struct EntryView {
    pub data: Seq<ItemView>,
    pub omitted: Seq<char>,
}

impl View for Japanese {
    type V = JapaneseView;

    open spec fn view(&self) -> JapaneseView {
        JapaneseView { reading: opt_chars(self.reading), word: opt_chars(self.word) }
    }
}

impl View for Sense {
    type V = SenseView;

    open spec fn view(&self) -> SenseView {
        SenseView {
            parts_of_speech: self.parts_of_speech.deep_view(),
            english_definitions: self.english_definitions.deep_view(),
            see_also: self.see_also.deep_view(),
            restrictions: self.restrictions.deep_view(),
        }
    }
}

impl View for Item {
    type V = ItemView;

    open spec fn view(&self) -> ItemView {
        ItemView {
            japanese: self.japanese@.map_values(|j: Japanese| j@),
            senses: self.senses@.map_values(|s: Sense| s@),
            omitted: self.omitted@,
        }
    }
}

impl View for Entry {
    type V = EntryView;

    open spec fn view(&self) -> EntryView {
        EntryView { data: self.data@.map_values(|i: Item| i@), omitted: self.omitted@ }
    }
}

/// The parts of speech of a sense, if it names any.
pub open spec fn pos_part(s: SenseView) -> Seq<char> {
    if s.parts_of_speech.len() > 0 {
        "\x1b[31;1m"@ + join(s.parts_of_speech, ", "@) + "\x1b[0m\n"@
    } else {
        seq![]
    }
}

/// The numbered definitions of sense number `n`.
pub open spec fn definitions_part(n: nat, s: SenseView) -> Seq<char> {
    "  \x1b[32;1m"@ + decimal(n) + ". "@ + join(s.english_definitions, "; "@) + "\x1b[0m\n"@
}

/// The cross references of a sense, if any.
pub open spec fn see_also_part(s: SenseView) -> Seq<char> {
    if s.see_also.len() > 0 {
        "    \x1b[34mSee also "@ + join(s.see_also, ", "@) + "\x1b[0m\n"@
    } else {
        seq![]
    }
}

/// The restrictions of a sense, if any.
pub open spec fn restrictions_part(s: SenseView) -> Seq<char> {
    if s.restrictions.len() > 0 {
        "    \x1b[34mOnly to "@ + join(s.restrictions, ", "@) + "\x1b[0m\n"@
    } else {
        seq![]
    }
}

/// What is shown of sense number `n` (counted from 1).
pub open spec fn sense_text(n: nat, s: SenseView) -> Seq<char> {
    pos_part(s) + definitions_part(n, s) + see_also_part(s) + restrictions_part(s)
}

/// The senses, numbered from 1.
pub open spec fn senses_text(ss: Seq<SenseView>) -> Seq<char>
    decreases ss.len(),
{
    if ss.len() == 0 {
        seq![]
    } else {
        senses_text(ss.drop_last()) + sense_text(ss.len(), ss.last())
    }
}

pub open spec fn or_empty(o: Option<Seq<char>>) -> Seq<char> {
    match o {
        Some(s) => s,
        None => seq![],
    }
}

/// A written form as `word[reading]`.
pub open spec fn form_text(j: JapaneseView) -> Seq<char> {
    or_empty(j.word) + "["@ + or_empty(j.reading) + "]"@
}

/// The reading of the main form, if it has one.
pub open spec fn reading_part(main: JapaneseView) -> Seq<char> {
    match main.reading {
        Some(r) => "\x1b[33;1m"@ + r + "\x1b[0m\n"@,
        None => seq![],
    }
}

/// The main written form, if it has one.
pub open spec fn word_part(main: JapaneseView) -> Seq<char> {
    match main.word {
        Some(w) => "\x1b[32;1m"@ + w + "\x1b[0m\n"@,
        None => seq![],
    }
}

/// The other written forms, if there are any.
pub open spec fn other_forms_part(js: Seq<JapaneseView>) -> Seq<char> {
    if js.len() > 1 {
        "\x1b[0mOther forms\x1b[0m\n"@ + "  \x1b[33m"@ + join(
            js.skip(1).map_values(|j: JapaneseView| form_text(j)),
            ", "@,
        ) + "\x1b[0m\n"@
    } else {
        seq![]
    }
}

/// What is shown of item number `i` (counted from 0); an empty line goes
/// before every item after the second.
pub open spec fn item_text(i: nat, it: ItemView) -> Seq<char> {
    (if i > 1 {
        "\n"@
    } else {
        seq![]
    }) + reading_part(it.japanese[0]) + word_part(it.japanese[0]) + senses_text(it.senses)
        + other_forms_part(it.japanese)
}

/// The items, numbered from 0.
pub open spec fn items_text(items: Seq<ItemView>) -> Seq<char>
    decreases items.len(),
{
    if items.len() == 0 {
        seq![]
    } else {
        items_text(items.drop_last()) + item_text((items.len() - 1) as nat, items.last())
    }
}

/// What is shown of an answer: only its first item unless `verbose`, then an
/// empty line.
pub open spec fn spec_show(e: EntryView, verbose: u8) -> Seq<char> {
    let shown = if verbose == 0 && e.data.len() > 1 {
        e.data.take(1)
    } else {
        e.data
    };
    items_text(shown) + "\n"@
}

/// Every item has a written form.
pub open spec fn well_formed(e: EntryView) -> bool {
    forall|i: int| 0 <= i < e.data.len() ==> #[trigger] e.data[i].japanese.len() > 0
}

fn append_list_part(r: &mut String, list: &Vec<String>, pre: &str, sep: &str, post: &str)
    ensures
        final(r)@ == old(r)@ + (if list@.len() > 0 {
            pre@ + join(list.deep_view(), sep@) + post@
        } else {
            seq![]
        }),
{
    if list.len() > 0 {
        let j = join_strings(list, sep);
        append3(r, pre, j.as_str(), post);
        assert(final(r)@ =~= old(r)@ + (pre@ + join(list.deep_view(), sep@) + post@));
    } else {
        assert(final(r)@ =~= old(r)@ + Seq::<char>::empty());
    }
}

fn append_definitions(r: &mut String, n: usize, s: &Sense)
    ensures
        final(r)@ == old(r)@ + definitions_part(n as nat, s@),
{
    r.append("  \x1b[32;1m");
    push_decimal(r, n);
    let defs = join_strings(&s.english_definitions, "; ");
    append3(r, ". ", defs.as_str(), "\x1b[0m\n");
    assert(final(r)@ =~= old(r)@ + definitions_part(n as nat, s@));
}

proof fn lemma_items_text_prefix(items: Seq<ItemView>, k: int)
    requires
        0 <= k <= items.len(),
    ensures
        items_text(items) == items_text(items.take(k)) + items_text(items).skip(
            items_text(items.take(k)).len() as int,
        ),
        items_text(items.take(k)).len() <= items_text(items).len(),
    decreases items.len() - k,
{
    if k == items.len() {
        assert(items.take(k) =~= items);
        assert(items_text(items).skip(items_text(items).len() as int) =~= Seq::<char>::empty());
    } else {
        lemma_items_text_prefix(items.drop_last(), k);
        assert(items.drop_last().take(k) =~= items.take(k));
        let a = items_text(items.take(k));
        let b = items_text(items.drop_last());
        let c = items_text(items);
        assert(c == b + item_text((items.len() - 1) as nat, items.last()));
        assert(c =~= a + c.skip(a.len() as int));
    }
}

/// Verbose output shows all that the plain output shows (but its final empty
/// line), then the other items; all verbose levels show the same.
pub proof fn law_verbose_extends_plain(e: EntryView, v: u8, w: u8)
    requires
        v > 0,
        w > 0,
    ensures
        spec_show(e, v).take(spec_show(e, 0).len() - 1) == spec_show(e, 0).drop_last(),
        spec_show(e, 0).len() <= spec_show(e, v).len(),
        spec_show(e, v) == spec_show(e, w),
{
    reveal_strlit("\n");
    if e.data.len() > 1 {
        lemma_items_text_prefix(e.data, 1);
        let a = items_text(e.data.take(1));
        let c = items_text(e.data);
        assert((a + "\n"@).drop_last() =~= a);
        assert(c =~= a + c.skip(a.len() as int));
        assert((c + "\n"@).take(a.len() as int) =~= a);
    } else {
        let c = items_text(e.data);
        assert((c + "\n"@).drop_last() =~= c);
        assert((c + "\n"@).take(c.len() as int) =~= c);
    }
}

fn append_sense(r: &mut String, n: usize, s: &Sense)
    ensures
        final(r)@ == old(r)@ + sense_text(n as nat, s@),
{
    let ghost r0 = r@;
    append_list_part(r, &s.parts_of_speech, "\x1b[31;1m", ", ", "\x1b[0m\n");
    let ghost r1 = r@;
    append_definitions(r, n, s);
    let ghost r2 = r@;
    append_list_part(r, &s.see_also, "    \x1b[34mSee also ", ", ", "\x1b[0m\n");
    let ghost r3 = r@;
    append_list_part(r, &s.restrictions, "    \x1b[34mOnly to ", ", ", "\x1b[0m\n");
    assert(r1 == r0 + pos_part(s@));
    assert(r3 == r2 + see_also_part(s@));
    assert(r@ == r3 + restrictions_part(s@));
    assert(r@ =~= r0 + sense_text(n as nat, s@));
}

fn append_form(r: &mut String, j: &Japanese)
    ensures
        final(r)@ == old(r)@ + form_text(j@),
{
    match &j.word {
        Some(w) => r.append(w.as_str()),
        None => {},
    }
    r.append("[");
    match &j.reading {
        Some(x) => r.append(x.as_str()),
        None => {},
    }
    r.append("]");
    assert(final(r)@ =~= old(r)@ + form_text(j@));
}

fn append_main(r: &mut String, main: &Japanese)
    ensures
        final(r)@ == old(r)@ + reading_part(main@) + word_part(main@),
{
    let ghost g = r@;
    match &main.reading {
        Some(x) => append3(r, "\x1b[33;1m", x.as_str(), "\x1b[0m\n"),
        None => {},
    }
    assert(r@ =~= g + reading_part(main@));
    let ghost g2 = r@;
    match &main.word {
        Some(w) => append3(r, "\x1b[32;1m", w.as_str(), "\x1b[0m\n"),
        None => {},
    }
    assert(r@ =~= g2 + word_part(main@));
    assert(r@ =~= g + reading_part(main@) + word_part(main@));
}

fn append_senses(r: &mut String, senses: &Vec<Sense>)
    ensures
        final(r)@ == old(r)@ + senses_text(senses@.map_values(|s: Sense| s@)),
{
    let ghost head = r@;
    let ghost sv = senses@.map_values(|s: Sense| s@);
    let mut k: usize = 0;
    while k < senses.len()
        invariant
            k <= senses@.len(),
            sv == senses@.map_values(|s: Sense| s@),
            r@ == head + senses_text(sv.take(k as int)),
        decreases senses.len() - k,
    {
        assert(sv.take(k + 1).drop_last() =~= sv.take(k as int));
        assert(sv[k as int] == senses@[k as int]@);
        append_sense(r, k + 1, &senses[k]);
        assert(r@ =~= head + senses_text(sv.take(k + 1)));
        k = k + 1;
    }
    assert(sv.take(senses@.len() as int) =~= sv);
}

fn append_other_forms(r: &mut String, js: &Vec<Japanese>)
    ensures
        final(r)@ == old(r)@ + other_forms_part(js@.map_values(|j: Japanese| j@)),
{
    let ghost jv = js@.map_values(|j: Japanese| j@);
    let ghost start = r@;
    if js.len() > 1 {
        r.append("\x1b[0mOther forms\x1b[0m\n");
        r.append("  \x1b[33m");
        let ghost forms = jv.skip(1).map_values(|j: JapaneseView| form_text(j));
        let ghost head2 = r@;
        let mut m: usize = 1;
        while m < js.len()
            invariant
                1 <= m <= js@.len(),
                jv == js@.map_values(|j: Japanese| j@),
                forms == jv.skip(1).map_values(|j: JapaneseView| form_text(j)),
                forms.len() + 1 == js@.len(),
                r@ == head2 + join(forms.take(m - 1), ", "@),
            decreases js.len() - m,
        {
            assert(forms.take(m as int).drop_last() =~= forms.take(m - 1));
            assert(forms[m - 1] == form_text(js@[m as int]@));
            if m > 1 {
                r.append(", ");
            } else {
                assert(forms.take(0) =~= Seq::<Seq<char>>::empty());
            }
            append_form(r, &js[m]);
            assert(r@ =~= head2 + join(forms.take(m as int), ", "@));
            m = m + 1;
        }
        assert(forms.take(forms.len() as int) =~= forms);
        r.append("\x1b[0m\n");
        assert(r@ =~= start + other_forms_part(jv));
    } else {
        assert(r@ =~= start + other_forms_part(jv));
    }
}

fn append_item(r: &mut String, i: usize, it: &Item)
    requires
        it@.japanese.len() > 0,
    ensures
        final(r)@ == old(r)@ + item_text(i as nat, it@),
{
    let ghost start = r@;
    if i > 1 {
        r.append("\n");
    }
    assert(it@.japanese[0] == it.japanese@[0]@);
    append_main(r, &it.japanese[0]);
    append_senses(r, &it.senses);
    append_other_forms(r, &it.japanese);
    assert(r@ =~= start + item_text(i as nat, it@));
}

impl Entry {
    /// The answer, when it holds at least one item; `None` (not found)
    /// otherwise.
    pub fn found(self) -> (r: Option<Entry>)
        ensures
            r matches Some(e) ==> e == self,
            r is Some <==> self.data@.len() > 0,
    {
        if self.data.len() == 0 {
            None
        } else {
            Some(self)
        }
    }

    /// The text that shows the answer: each item's main reading and word, its
    /// numbered senses and its other forms; only the first item unless
    /// `verbose` is above 0.
    pub fn show(&self, verbose: u8) -> (r: String)
        requires
            well_formed(self@),
        ensures
            r@ == spec_show(self@, verbose),
    {
        let ghost dv = self@.data;
        let n = if verbose == 0 && self.data.len() > 1 {
            1
        } else {
            self.data.len()
        };
        let ghost shown = if verbose == 0 && dv.len() > 1 {
            dv.take(1)
        } else {
            dv
        };
        assert(shown =~= dv.take(n as int));
        let mut r = String::new();
        let mut i: usize = 0;
        while i < n
            invariant
                i <= n <= self.data@.len(),
                dv == self@.data,
                dv.len() == self.data@.len(),
                well_formed(self@),
                r@ == items_text(dv.take(i as int)),
            decreases n - i,
        {
            assert(dv.take(i + 1).drop_last() =~= dv.take(i as int));
            assert(dv[i as int] == self.data@[i as int]@);
            assert(dv[i as int].japanese.len() > 0);
            append_item(&mut r, i, &self.data[i]);
            i = i + 1;
        }
        r.append("\n");
        r
    }
}

} // verus!
