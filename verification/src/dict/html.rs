//! Access to an HTML document through `kuchiki`.
//!
//! A document is parsed once into a [`Doc`], which keeps the text it was
//! parsed from. A node of it is addressed by its path: the index of each node
//! among its parent's children, from the top of the document down to the node
//! (the empty path is the document itself). Each function below makes one call
//! into `kuchiki` on the node at a path and hands back plain values, nodes by
//! their paths.
//!
//! What `kuchiki` computes there (the HTML5 tree that its parser builds, the
//! elements that a CSS selector matches, the text below a node) would take
//! pages to state, and it depends on nothing but the text of the document,
//! the path and the other arguments. So each result has a name below, and the
//! functions' contracts say that they return what the name gives; the walk of
//! a page in the dictionaries is stated over these names.
use vstd::prelude::*;
use kuchiki::traits::TendrilSink;
use kuchiki::NodeRef;

verus! {

/// A node of a parsed HTML document (`kuchiki::NodeRef`).
#[verifier::external_type_specification]
#[verifier::external_body]
pub struct ExNodeRef(kuchiki::NodeRef);

/// A parsed HTML document, with the text it was parsed from.
pub struct Doc {
    html: String,
    root: NodeRef,
}

impl View for Doc {
    type V = Seq<char>;

    /// The text the document was parsed from.
    closed spec fn view(&self) -> Seq<char> {
        self.html@
    }
}

/// The path of the first element at or below the node at `at` of the
/// document parsed from `html` that matches `selectors`, as
/// `NodeRef::select_first` finds it; `None` when no element matches, when the
/// selectors do not compile, or when `at` addresses no node.
pub uninterp spec fn kuchiki_select_first(
    html: Seq<char>,
    at: Seq<usize>,
    selectors: Seq<char>,
) -> Option<Seq<usize>>;

/// The paths of the elements at or below the node at `at` of the document
/// parsed from `html` that match `selectors`, in document order, as
/// `NodeRef::select` finds them; `None` when the selectors do not compile or
/// when `at` addresses no node.
pub uninterp spec fn kuchiki_select(html: Seq<char>, at: Seq<usize>, selectors: Seq<char>) -> Option<
    Seq<Seq<usize>>,
>;

/// The text of the text nodes below the node at `at` of the document parsed
/// from `html`, in order (`NodeRef::text_contents`); empty when `at`
/// addresses no node.
pub uninterp spec fn kuchiki_text_contents(html: Seq<char>, at: Seq<usize>) -> Seq<char>;

/// How many children the node at `at` of the document parsed from `html` has
/// (`NodeRef::children`); none when `at` addresses no node.
pub uninterp spec fn kuchiki_child_count(html: Seq<char>, at: Seq<usize>) -> usize;

/// The local tag name of the node at `at` of the document parsed from `html`
/// when it is an element (`NodeRef::as_element`); `None` for any other node,
/// and when `at` addresses no node.
pub uninterp spec fn kuchiki_element_name(html: Seq<char>, at: Seq<usize>) -> Option<Seq<char>>;

/// The value of the attribute `name` of the node at `at` of the document
/// parsed from `html`, when it is an element that has one
/// (`Attributes::get`).
pub uninterp spec fn kuchiki_attribute(html: Seq<char>, at: Seq<usize>, name: Seq<char>) -> Option<
    Seq<char>,
>;

/// The path of the `k`-th child of the node at `at`.
pub open spec fn child_path(at: Seq<usize>, k: int) -> Seq<usize> {
    at.push(k as usize)
}

/// The paths of the children of the node at `at`, in order.
pub open spec fn child_paths(html: Seq<char>, at: Seq<usize>) -> Seq<Seq<usize>> {
    Seq::new(kuchiki_child_count(html, at) as nat, |k: int| child_path(at, k))
}

/// A vector of indices seen deeply is its sequence of indices.
pub(crate) proof fn lemma_path_view(p: Vec<usize>)
    ensures
        p.deep_view() == p@,
{
    assert(p.deep_view() =~= p@);
}

/// Parses `content` as an HTML document (`kuchiki::parse_html`); the
/// document keeps `content`, which is all that is claimed here.
#[verifier::external_body]
pub(crate) fn parse_document(content: String) -> (doc: Doc)
    ensures
        doc@ == content@,
{
    let root = kuchiki::parse_html().one(content.as_str());
    Doc { html: content, root }
}

/// Calls `NodeRef::select_first` on the node at `at` and returns the path of
/// the element it finds: claimed to be [`kuchiki_select_first`] of the
/// document's text, `at` and `selectors`.
#[verifier::external_body]
pub(crate) fn select_first(doc: &Doc, at: &Vec<usize>, selectors: &str) -> (r: Option<Vec<usize>>)
    ensures
        r.deep_view() == kuchiki_select_first(doc@, at@, selectors@),
{
    let mut node = doc.root.clone();
    for k in at.iter() {
        node = node.children().nth(*k)?;
    }
    let found = node.select_first(selectors).ok()?;
    let mut path: Vec<usize> = Vec::new();
    for a in found.as_node().inclusive_ancestors() {
        path.push(a.preceding_siblings().count());
    }
    path.pop();
    path.reverse();
    Some(path)
}

/// Calls `NodeRef::select` on the node at `at` and returns the paths of the
/// elements it yields, in order: claimed to be [`kuchiki_select`] of the
/// document's text, `at` and `selectors`.
#[verifier::external_body]
pub(crate) fn select_all(doc: &Doc, at: &Vec<usize>, selectors: &str) -> (r: Option<Vec<Vec<usize>>>)
    ensures
        r.deep_view() == kuchiki_select(doc@, at@, selectors@),
{
    let mut node = doc.root.clone();
    for k in at.iter() {
        node = node.children().nth(*k)?;
    }
    let mut paths: Vec<Vec<usize>> = Vec::new();
    for found in node.select(selectors).ok()? {
        let mut path: Vec<usize> = Vec::new();
        for a in found.as_node().inclusive_ancestors() {
            path.push(a.preceding_siblings().count());
        }
        path.pop();
        path.reverse();
        paths.push(path);
    }
    Some(paths)
}

/// Calls `NodeRef::text_contents` on the node at `at`: claimed to be
/// [`kuchiki_text_contents`] of the document's text and `at`.
#[verifier::external_body]
pub(crate) fn text_contents(doc: &Doc, at: &Vec<usize>) -> (r: String)
    ensures
        r@ == kuchiki_text_contents(doc@, at@),
{
    let mut node = doc.root.clone();
    for k in at.iter() {
        match node.children().nth(*k) {
            Some(child) => node = child,
            None => return String::new(),
        }
    }
    node.text_contents()
}

/// Counts what `NodeRef::children` yields for the node at `at`: claimed to be
/// [`kuchiki_child_count`] of the document's text and `at`.
#[verifier::external_body]
pub(crate) fn child_count(doc: &Doc, at: &Vec<usize>) -> (r: usize)
    ensures
        r == kuchiki_child_count(doc@, at@),
{
    let mut node = doc.root.clone();
    for k in at.iter() {
        match node.children().nth(*k) {
            Some(child) => node = child,
            None => return 0,
        }
    }
    node.children().count()
}

/// The local name that `NodeRef::as_element` gives for the node at `at`:
/// claimed to be [`kuchiki_element_name`] of the document's text and `at`.
#[verifier::external_body]
pub(crate) fn element_name(doc: &Doc, at: &Vec<usize>) -> (r: Option<String>)
    ensures
        r.deep_view() == kuchiki_element_name(doc@, at@),
{
    let mut node = doc.root.clone();
    for k in at.iter() {
        node = node.children().nth(*k)?;
    }
    match node.as_element() {
        Some(e) => Some(e.name.local.to_string()),
        None => None,
    }
}

/// The value that `Attributes::get` gives for `name` on the node at `at`:
/// claimed to be [`kuchiki_attribute`] of the document's text, `at` and
/// `name`.
#[verifier::external_body]
pub(crate) fn attribute(doc: &Doc, at: &Vec<usize>, name: &str) -> (r: Option<String>)
    ensures
        r.deep_view() == kuchiki_attribute(doc@, at@, name@),
{
    let mut node = doc.root.clone();
    for k in at.iter() {
        node = node.children().nth(*k)?;
    }
    match node.as_element() {
        Some(e) => e.attributes.borrow().get(name).map(String::from),
        None => None,
    }
}

/// The path of the `k`-th child of the node at `at`.
pub(crate) fn child_of(at: &Vec<usize>, k: usize) -> (r: Vec<usize>)
    ensures
        r@ == child_path(at@, k as int),
{
    let mut r: Vec<usize> = Vec::new();
    let mut i: usize = 0;
    while i < at.len()
        invariant
            i <= at@.len(),
            r@ == at@.take(i as int),
        decreases at.len() - i,
    {
        r.push(at[i]);
        assert(at@.take(i + 1) =~= at@.take(i as int).push(at@[i as int]));
        i = i + 1;
    }
    assert(at@.take(at@.len() as int) =~= at@);
    r.push(k);
    r
}

} // verus!
