//! Urban Dictionary: its entries and how they are shown.
use vstd::prelude::*;
use crate::text::{append3, lines, split_lines};

verus! {

/// One definition of Urban Dictionary.
#[derive(Debug, PartialEq, Eq)]
pub struct Def {
    pub word: String,
    pub definition: String,
    pub example: String,
    /// The definition's other fields, kept as the JSON text they came in.
    pub omitted: String,
}

/// An entry of Urban Dictionary: its definitions, the best first.
#[derive(Debug, PartialEq, Eq)]
pub struct Entry {
    pub list: Vec<Def>,
}

pub struct DefView {
    pub word: Seq<char>,
    pub definition: Seq<char>,
    pub example: Seq<char>,
    pub omitted: Seq<char>,
}

pub struct EntryView {
    pub list: Seq<DefView>,
}

impl View for Def {
    type V = DefView;

    open spec fn view(&self) -> DefView {
        DefView {
            word: self.word@,
            definition: self.definition@,
            example: self.example@,
            omitted: self.omitted@,
        }
    }
}

impl View for Entry {
    type V = EntryView;

    open spec fn view(&self) -> EntryView {
        EntryView { list: self.list@.map_values(|d: Def| d@) }
    }
}

/// The lines of an example, each indented and coloured.
pub open spec fn example_text(ls: Seq<Seq<char>>) -> Seq<char>
    decreases ls.len(),
{
    if ls.len() == 0 {
        seq![]
    } else {
        example_text(ls.drop_last()) + "  \x1b[36m"@ + ls.last() + "\x1b[0m\n"@
    }
}

/// What is shown of an entry: its first definition's word, the definition,
/// and each line of the example, then an empty line.
pub open spec fn spec_show(e: EntryView) -> Seq<char> {
    let d = e.list[0];
    "\x1b[33m"@ + d.word + "\x1b[0m\n"@ + "  \x1b[0m"@ + d.definition + "\x1b[0m\n"@
        + example_text(lines(d.example)) + "\n"@
}

impl Entry {
    /// The entry, when the dictionary's answer holds at least one definition;
    /// `None` (not found) otherwise.
    pub fn found(self) -> (r: Option<Entry>)
        ensures
            r matches Some(e) ==> e == self,
            r is Some <==> self.list@.len() > 0,
    {
        if self.list.len() == 0 {
            None
        } else {
            Some(self)
        }
    }

    /// The text that shows the entry (its first definition); Urban Dictionary
    /// has no verbose form.
    pub fn show(&self, _verbose: u8) -> (r: String)
        requires
            self.list@.len() > 0,
        ensures
            r@ == spec_show(self@),
    {
        let d = &self.list[0];
        let mut r = String::new();
        append3(&mut r, "\x1b[33m", d.word.as_str(), "\x1b[0m\n");
        append3(&mut r, "  \x1b[0m", d.definition.as_str(), "\x1b[0m\n");
        let ls = split_lines(d.example.as_str());
        let ghost lv = ls.deep_view();
        let ghost head = r@;
        let mut i: usize = 0;
        while i < ls.len()
            invariant
                i <= ls@.len(),
                lv == ls.deep_view(),
                lv.len() == ls@.len(),
                r@ == head + example_text(lv.take(i as int)),
            decreases ls.len() - i,
        {
            assert(lv.take(i + 1).drop_last() =~= lv.take(i as int));
            assert(lv[i as int] == ls@[i as int]@);
            append3(&mut r, "  \x1b[36m", ls[i].as_str(), "\x1b[0m\n");
            i = i + 1;
        }
        assert(lv.take(ls@.len() as int) =~= lv);
        r.append("\n");
        assert(self@.list[0] == d@);
        assert(r@ =~= spec_show(self@));
        r
    }
}

} // verus!
