//! Short summaries of things people publish.

use vstd::prelude::*;

verus! {

/// Something that can be summed up in a line naming its author.
pub trait Summary {
    /// How the author is named.
    spec fn spec_author(&self) -> Seq<char>;

    /// How the author is named.
    fn summarize_author(&self) -> (r: String)
        ensures
            r@ == self.spec_author(),
    ;

    /// A line that points to more from the author.
    fn summarize(&self) -> (r: String)
        ensures
            r@ == "(Read more from "@ + self.spec_author() + "...)"@,
    {
        let author = self.summarize_author();
        let mut r = String::from_str("(Read more from ");
        r.append(author.as_str());
        r.append("...)");
        r
    }
}

/// A news article.
pub struct NewsArticle {
    pub headline: String,
    pub location: String,
    pub author: String,
    pub content: String,
}

impl Summary for NewsArticle {
    open spec fn spec_author(&self) -> Seq<char> {
        self.author@
    }

    fn summarize_author(&self) -> (r: String) {
        self.author.clone()
    }
}

/// A short post on a social network.
pub struct Tweet {
    pub username: String,
    pub content: String,
    pub reply: bool,
    pub retweet: bool,
}

impl Summary for Tweet {
    open spec fn spec_author(&self) -> Seq<char> {
        "@"@ + self.username@
    }

    fn summarize_author(&self) -> (r: String) {
        let mut r = String::from_str("@");
        r.append(self.username.as_str());
        r
    }
}

/// Takes two summarizable items, of possibly different types.
pub fn notify_with_more_complex_traits(item1: &impl Summary, item2: &impl Summary) {
}

} // verus!
