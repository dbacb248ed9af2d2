//! A shared behaviour: content that can summarize itself, with a default
//! phrasing that quotes the author.

use core::cmp::Ordering;
use std::fmt::Debug;
use std::fmt::Display;
use vstd::prelude::*;
use vstd::std_specs::cmp::PartialOrdSpec;
use vstd::string::*;

verus! {

/// Content with an author and a summary. The default summary invites the
/// reader to read more from the author.
pub trait Summary {
    /// The author tag that the default summary quotes.
    spec fn spec_author(&self) -> Seq<char>;

    /// The author tag, as text.
    fn summarize_author(&self) -> (r: String)
        ensures
            r@ == self.spec_author(),
    ;

    /// A one-line summary; by default it quotes the author.
    fn summarize(&self) -> (r: String)
        ensures
            r@ == "read more from "@ + self.spec_author() + "..."@,
    {
        let author = self.summarize_author();
        let mut r = String::from_str("read more from ");
        r.append(author.as_str());
        r.append("...");
        r
    }
}

pub struct NewsArticle {
    pub headline: String,
    pub location: String,
    pub author: String,
    pub content: String,
}

pub struct Tweet {
    pub username: String,
    pub content: String,
    pub reply: bool,
    pub retweet: bool,
}

impl Summary for Tweet {
    open spec fn spec_author(&self) -> Seq<char> {
        "@"@ + self.username@
    }

    fn summarize_author(&self) -> (r: String) {
        let mut r = String::from_str("@");
        r.append(self.username.as_str());
        r
    }
}

pub struct NewsArticleB {
    pub username: String,
    pub content: String,
}

/// Takes two summarizable items; this lesson attaches no behaviour to it.
pub fn notify_double(item1: impl Summary, item2: impl Summary) {
    let _ = item1;
    let _ = item2;
}

/// As `notify_double`, with the bound written out in full.
pub fn notify_long_double<T: Summary>(item: T) {
    let _ = item;
}

/// Takes an item that is both summarizable and printable.
pub fn notify_complex(item: impl Summary + Display) {
    let _ = item;
}

/// As `notify_complex`, with the bound written out in full.
pub fn notify_complex_long<T: Summary + Display>(item: T) {
    let _ = item;
}

/// Always returns zero; its point is the `where` clause.
pub fn some_function_where<T, U>(t: T, u: U) -> (r: i32) where
    T: Display + Clone,
    U: Clone + Debug,

    ensures
        r == 0,
{
    let _ = t;
    let _ = u;
    return 0;
}

pub struct Pair<T> {
    pub x: T,
    pub y: T,
}

impl<T> Pair<T> {
    /// A pair of the two members.
    pub fn new(x: T, y: T) -> (p: Self)
        ensures
            p.x == x,
            p.y == y,
    {
        Self { x, y }
    }
}

impl<T: PartialOrd> Pair<T> {
    /// Whether the first member is the one to announce as largest:
    /// `x` wins unless it compares below `y`.
    pub fn x_is_largest(&self) -> (b: bool)
        ensures
            T::obeys_partial_cmp_spec() ==> b == (self.x.partial_cmp_spec(&self.y) matches Some(
                Ordering::Greater
                | Ordering::Equal,
            )),
    {
        self.x >= self.y
    }
}

} // verus!
