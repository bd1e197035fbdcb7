//! The result of running a chain: a name and the text it produced.
use vstd::prelude::*;

verus! {

/// What a result holds, as the contracts speak of it.
pub struct ResultModel {
    pub name: Seq<char>,
    pub content: Seq<char>,
}

/// The named text that a chain produced.
pub struct ChainResult {
    name: String,
    content: String,
}

impl View for ChainResult {
    type V = ResultModel;

    closed spec fn view(&self) -> ResultModel {
        ResultModel { name: self.name@, content: self.content@ }
    }
}

impl ChainResult {
    /// A result named `name` with no content yet.
    pub fn new(name: String) -> (r: ChainResult)
        ensures
            r@ == (ResultModel { name: name@, content: Seq::empty() }),
    {
        ChainResult { name, content: String::new() }
    }

    /// This result with its content replaced by `content`.
    pub fn with_content(self, content: String) -> (r: ChainResult)
        ensures
            r@ == (ResultModel { name: self@.name, content: content@ }),
    {
        ChainResult { name: self.name, content }
    }

    /// A copy of the produced text.
    pub fn content(&self) -> (r: String)
        ensures
            r@ == self@.content,
    {
        self.content.clone()
    }

    /// A copy of the result's name.
    pub fn name(&self) -> (r: String)
        ensures
            r@ == self@.name,
    {
        self.name.clone()
    }

    /// A copy of the whole result.
    pub fn duplicate(&self) -> (r: ChainResult)
        ensures
            r@ == self@,
    {
        ChainResult { name: self.name.clone(), content: self.content.clone() }
    }
}

} // verus!
