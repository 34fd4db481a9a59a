use vstd::prelude::*;

verus! {

/// Shared behaviour for values that can describe themselves in one line.
/// `spec_summary` says, as a sequence of characters, what that line is;
/// `summarize` must produce exactly that line.
pub trait Summary {
    /// The line that `summarize` is required to produce.
    spec fn spec_summary(&self) -> Seq<char>;

    /// Produces the one-line description.
    fn summarize(&self) -> (summary: String)
        ensures
            summary@ == self.spec_summary(),
    ;

    /// A fallback line that points the reader at the full text.
    fn default_summary(&self) -> (summary: String)
        ensures
            summary@ == "(Read more...)"@,
    {
        String::from_str("(Read more...)")
    }
}

/// A news article with a headline, a location, and an author.
pub struct NewsArticle {
    pub headline: String,
    pub location: String,
    pub author: String,
}

impl Summary for NewsArticle {
    open spec fn spec_summary(&self) -> Seq<char> {
        self.headline@ + ", by "@ + self.author@ + " ("@ + self.location@ + ")"@
    }

    fn summarize(&self) -> (summary: String) {
        let mut summary = self.headline.clone();
        summary.append(", by ");
        summary.append(self.author.as_str());
        summary.append(" (");
        summary.append(self.location.as_str());
        summary.append(")");
        summary
    }
}

} // verus!
