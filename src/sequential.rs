//! A chain made of other chains, run one after another.
use vstd::prelude::*;
use std::collections::HashMap;
use crate::execution::{Execution, initial};

verus! {

/// A lower-case hexadecimal digit.
pub open spec fn is_hex_digit(c: char) -> bool {
    ('0' <= c && c <= '9') || ('a' <= c && c <= 'f')
}

/// The positions of the hyphens in a hyphenated UUID.
pub open spec fn is_hyphen_position(i: int) -> bool {
    i == 8 || i == 13 || i == 18 || i == 23
}

/// `s` is a version 4 UUID in its hyphenated lower-case form: 32 hex digits in
/// groups of 8, 4, 4, 4 and 12, the version digit `4` and a variant digit of
/// `8`, `9`, `a` or `b`.
pub open spec fn is_v4_identifier(s: Seq<char>) -> bool {
    &&& s.len() == 36
    &&& forall|i: int|
        0 <= i < 36 ==> if is_hyphen_position(i) {
            #[trigger] s[i] == '-'
        } else {
            is_hex_digit(s[i])
        }
    &&& s[14] == '4'
    &&& (s[19] == '8' || s[19] == '9' || s[19] == 'a' || s[19] == 'b')
}

/// Relies on uuid's `Uuid::new_v4`, which sets the version and variant bits
/// of a random value, and on its `Display`, which writes the hyphenated
/// lower-case form of 36 characters.
#[verifier::external_body]
fn fresh_identifier() -> (r: String)
    ensures
        is_v4_identifier(r@),
{
    uuid::Uuid::new_v4().to_string()
}

/// An ordered sequence of steps that run as one chain, together with a context
/// map that callers may use for their own variables.
pub struct SequentialChain<S> {
    /// The identifier that names the chain's results.
    name: String,
    /// The steps, in the order in which they run.
    chains: Vec<S>,
    /// Variables kept beside the steps.
    context: HashMap<String, String>,
}

impl<S> SequentialChain<S> {
    /// The chain's identifier.
    pub closed spec fn spec_name(&self) -> Seq<char> {
        self.name@
    }

    /// The steps, in link order.
    pub closed spec fn spec_steps(&self) -> Seq<S> {
        self.chains@
    }

    /// The chain's own context map.
    pub closed spec fn spec_context(&self) -> Map<String, String> {
        self.context@
    }

    /// A chain with a fresh random identifier, no steps and an empty context.
    pub fn new() -> (r: SequentialChain<S>)
        ensures
            is_v4_identifier(r.spec_name()),
            r.spec_steps() == Seq::<S>::empty(),
            r.spec_context() == Map::<String, String>::empty(),
    {
        SequentialChain { name: fresh_identifier(), chains: Vec::new(), context: HashMap::new() }
    }

    /// This chain with `chain` added as its last step.
    pub fn link(self, chain: S) -> (r: SequentialChain<S>)
        ensures
            r.spec_name() == self.spec_name(),
            r.spec_steps() == self.spec_steps().push(chain),
            r.spec_context() == self.spec_context(),
    {
        let mut chains = self.chains;
        chains.push(chain);
        SequentialChain { name: self.name, chains, context: self.context }
    }

    /// The chain's identifier.
    pub fn name(&self) -> (r: &str)
        ensures
            r@ == self.spec_name(),
    {
        self.name.as_str()
    }

    /// The steps, in link order.
    pub fn steps(&self) -> (r: &Vec<S>)
        ensures
            r@ == self.spec_steps(),
    {
        &self.chains
    }

    /// The chain's own context map, open to change by the caller.
    pub fn context(&mut self) -> (r: &mut HashMap<String, String>)
        ensures
            r@ == old(self).spec_context(),
            final(self).spec_name() == old(self).spec_name(),
            final(self).spec_steps() == old(self).spec_steps(),
            final(self).spec_context() == final(r)@,
    {
        &mut self.context
    }

    /// The context that each step receives when `context` is loaded, one entry
    /// per step in link order, each a copy of `context`.
    pub fn load_context(&self, context: &HashMap<String, String>) -> (r: Vec<
        HashMap<String, String>,
    >)
        ensures
            r@.len() == self.spec_steps().len(),
            forall|i: int| 0 <= i < r@.len() ==> (#[trigger] r@[i])@ == context@,
    {
        let n = self.chains.len();
        let mut r: Vec<HashMap<String, String>> = Vec::new();
        let mut i: usize = 0;
        while i < n
            invariant
                n == self.spec_steps().len(),
                i <= n,
                r@.len() == i,
                forall|j: int| 0 <= j < i ==> (#[trigger] r@[j])@ == context@,
            decreases n - i,
        {
            r.push(context.clone());
            i = i + 1;
        }
        r
    }

    /// A run of the chain's steps, from its first step.
    pub fn begin(&self) -> (r: Execution)
        ensures
            r@ == initial(self.spec_name(), self.spec_steps().len()),
    {
        Execution::start(self.name.clone(), self.chains.len())
    }
}

impl<S> Default for SequentialChain<S> {
    /// The same as [`SequentialChain::new`].
    fn default() -> (r: SequentialChain<S>)
        ensures
            is_v4_identifier(r.spec_name()),
            r.spec_steps() == Seq::<S>::empty(),
            r.spec_context() == Map::<String, String>::empty(),
    {
        SequentialChain::new()
    }
}

} // verus!
