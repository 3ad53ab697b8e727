//! Special fields: record fields that are routed around the prompt (history,
//! tool declarations, tool-call results) instead of being rendered in it.

use vstd::prelude::*;
use crate::schema::{Schema, fields_of, names_of, contains_name, get_field_names_from_schema};
use crate::text::views;

verus! {

/// Marks a field type that is handled outside the rendered prompt.
pub trait SpecialField {}

/// The names of a record's special fields, by the role each plays.
#[derive(Debug, PartialEq, Eq)]
pub struct SpecialFields {
    pub history: Vec<String>,
    pub tools: Vec<String>,
    pub tool_calls: Vec<String>,
}

impl SpecialFields {
    pub open spec fn names(&self) -> Seq<Seq<char>> {
        views(self.history@) + views(self.tools@) + views(self.tool_calls@)
    }

    /// Whether `name` is one of the special fields.
    pub fn is_special(&self, name: &str) -> (r: bool)
        ensures
            r == self.names().contains(name@),
    {
        let r = contains_name(&self.history, name) || contains_name(&self.tools, name) || contains_name(
            &self.tool_calls,
            name,
        );
        proof {
            let (h, t, c) = (views(self.history@), views(self.tools@), views(self.tool_calls@));
            if h.contains(name@) {
                let i = choose|i: int| 0 <= i < h.len() && h[i] == name@;
                assert(self.names()[i] == name@);
            }
            if t.contains(name@) {
                let i = choose|i: int| 0 <= i < t.len() && t[i] == name@;
                assert(self.names()[h.len() + i] == name@);
            }
            if c.contains(name@) {
                let i = choose|i: int| 0 <= i < c.len() && c[i] == name@;
                assert(self.names()[h.len() + t.len() + i] == name@);
            }
            if self.names().contains(name@) {
                let i = choose|i: int| 0 <= i < self.names().len() && self.names()[i] == name@;
                if i < h.len() {
                    assert(h[i] == name@);
                } else if i < h.len() + t.len() {
                    assert(t[i - h.len()] == name@);
                } else {
                    assert(c[i - h.len() - t.len()] == name@);
                }
            }
        }
        r
    }
}

/// None of `names` is special.
pub open spec fn excludes(names: Seq<Seq<char>>, special: Seq<Seq<char>>) -> bool {
    forall|i: int| 0 <= i < names.len() ==> !special.contains(#[trigger] names[i])
}

/// A prompt schema renders a special field.
#[derive(Debug, PartialEq, Eq)]
pub enum SpecialFieldError {
    /// The named special field is among the prompt schema's fields.
    InPromptSchema { name: String },
}

/// Checks that a prompt schema leaves out every special field; the error
/// names the first field that it holds although it is special.
pub fn check_prompt_schema(schema: &Schema, special: &SpecialFields) -> (r: Result<(), SpecialFieldError>)
    ensures
        r is Ok <==> excludes(names_of(fields_of(schema.doc)), special.names()),
        r matches Err(SpecialFieldError::InPromptSchema { name }) ==> names_of(fields_of(schema.doc)).contains(
            name@,
        ) && special.names().contains(name@),
{
    let names = get_field_names_from_schema(schema);
    let mut i: usize = 0;
    while i < names.len()
        invariant
            i <= names@.len(),
            views(names@) == names_of(fields_of(schema.doc)),
            excludes(views(names@).subrange(0, i as int), special.names()),
        decreases names@.len() - i,
    {
        if special.is_special(names[i].as_str()) {
            assert(views(names@)[i as int] == names@[i as int]@);
            return Err(SpecialFieldError::InPromptSchema { name: names[i].clone() });
        }
        assert forall|j: int| 0 <= j < i + 1 implies !special.names().contains(
            #[trigger] views(names@).subrange(0, i + 1)[j],
        ) by {
            if j < i {
                assert(views(names@).subrange(0, i + 1)[j] == views(names@).subrange(0, i as int)[j]);
            }
        }
        i = i + 1;
    }
    assert(views(names@).subrange(0, names@.len() as int) == views(names@));
    Ok(())
}

} // verus!
