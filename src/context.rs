//! The rule by which a context object becomes flat name/text pairs.
use vstd::prelude::*;

verus! {

/// A field of a context object, as the flattening rule sees it.
pub enum ContextValue {
    Text(String),
    /// A number, already written out as text.
    Number(String),
    Bool(bool),
    Null,
    /// A list or a structure, which a flat context cannot hold.
    Nested,
}

/// The text that a field becomes, or `None` for a nested value.
pub open spec fn text_of(v: ContextValue) -> Option<Seq<char>> {
    match v {
        ContextValue::Text(s) => Some(s@),
        ContextValue::Number(s) => Some(s@),
        ContextValue::Bool(b) => Some(if b { "true"@ } else { "false"@ }),
        ContextValue::Null => Some(Seq::empty()),
        ContextValue::Nested => None,
    }
}

/// The text that one field becomes: strings and numbers as written, booleans
/// as `true` or `false`, null as the empty text; a nested value has none.
pub fn field_text(v: &ContextValue) -> (r: Option<String>)
    ensures
        match r {
            Some(t) => text_of(*v) == Some(t@),
            None => text_of(*v) is None,
        },
{
    match v {
        ContextValue::Text(s) => Some(s.clone()),
        ContextValue::Number(s) => Some(s.clone()),
        ContextValue::Bool(b) => if *b {
            Some(String::from_str("true"))
        } else {
            Some(String::from_str("false"))
        },
        ContextValue::Null => Some(String::new()),
        ContextValue::Nested => None,
    }
}

/// The fields as name/text pairs in their order, or `None` when a field is
/// nested.
pub fn flatten_fields(fields: &Vec<(String, ContextValue)>) -> (r: Option<Vec<(String, String)>>)
    ensures
        r is None <==> exists|i: int| 0 <= i < fields@.len() && text_of(#[trigger] fields@[i].1) is None,
        r matches Some(pairs) ==> {
            &&& pairs@.len() == fields@.len()
            &&& forall|i: int|
                0 <= i < pairs@.len() ==> (#[trigger] pairs@[i]).0@ == fields@[i].0@ && text_of(
                    fields@[i].1,
                ) == Some(pairs@[i].1@)
        },
{
    let mut pairs: Vec<(String, String)> = Vec::new();
    let mut i: usize = 0;
    while i < fields.len()
        invariant
            i <= fields@.len(),
            pairs@.len() == i,
            forall|j: int| 0 <= j < i ==> text_of(#[trigger] fields@[j].1) is Some,
            forall|j: int|
                0 <= j < i ==> (#[trigger] pairs@[j]).0@ == fields@[j].0@ && text_of(fields@[j].1)
                    == Some(pairs@[j].1@),
        decreases fields@.len() - i,
    {
        match field_text(&fields[i].1) {
            Some(t) => pairs.push((fields[i].0.clone(), t)),
            None => return None,
        }
        i = i + 1;
    }
    Some(pairs)
}

} // verus!
