//! Markdown text, and the records that render to it.
use vstd::prelude::*;

verus! {

/// A markdown document.
pub struct Markdown(pub String);

impl Markdown {
    /// The document's text.
    pub fn as_str(&self) -> (r: &str)
        ensures
            r@ == self.0@,
    {
        self.0.as_str()
    }
}

/// A record that renders to markdown.
pub trait ToMarkdown {
    /// The text that `to_md` produces: it depends on the record alone.
    spec fn markdown_of(&self) -> Seq<char>;

    fn to_md(&self) -> (r: Markdown)
        ensures
            r.0@ == self.markdown_of(),
    ;
}

} // verus!
