//! Summarizable content: a trait shared by articles and tweets.

use vstd::prelude::*;
use vstd::string::StringExecFns;

verus! {

/// A news article with an author, a headline, and a body.
#[derive(Debug)]
pub struct NewsArticle {
    pub author: String,
    pub headline: String,
    pub content: String,
}

/// A tweet and its flags.
#[derive(Debug)]
pub struct Tweet {
    pub username: String,
    pub content: String,
    pub reply: bool,
    pub retweet: bool,
}

/// Content that can introduce itself in one line.
pub trait Summary {
    /// Who wrote it.
    fn summarize_author(&self) -> String;

    /// A one-line teaser; by default it just points at the author.
    fn summarize(&self) -> String {
        let mut line = String::from_str("Read more from ");
        let author = self.summarize_author();
        line.append(author.as_str());
        line.append("...");
        line
    }
}

impl Summary for NewsArticle {
    fn summarize_author(&self) -> String {
        self.author.clone()
    }
}

impl Summary for Tweet {
    fn summarize_author(&self) -> String {
        let mut handle = String::from_str("@");
        handle.append(self.username.as_str());
        handle
    }

    fn summarize(&self) -> String {
        let mut line = self.username.clone();
        line.append(": ");
        line.append(self.content.as_str());
        line
    }
}

/// A trivial generic computation over any two cloneable values.
pub fn some_function<T: Clone, U: Clone>(t: &T, u: &U) -> (r: i32)
    ensures
        r == 23,
{
    23
}

/// The same, with the bounds in a `where` clause.
pub fn some_function_2<T, U>(t: &T, u: &U) -> (r: i32) where T: Clone, U: Clone
    ensures
        r == 33,
{
    33
}

/// A ready-made summarizable value.
pub fn returns_summarizable() -> (t: Tweet)
    ensures
        t.username@ == "asd"@,
        t.content@ == "asdas"@,
        !t.reply,
        !t.retweet,
{
    Tweet {
        username: String::from_str("asd"),
        content: String::from_str("asdas"),
        reply: false,
        retweet: false,
    }
}

} // verus!
