//! Header fields: an ordered list of (name, value) pairs.
//!
//! The list keeps the order in which fields were added and keeps duplicates.
//! A lookup by name gives the value of the first field with that name.
use crate::unicode::lowercase;
use crate::search::{first_index, lemma_first_index_unique};
use crate::text::{chars_of, find, lemma_find, occurs_at, spec_find};
use vstd::prelude::*;

verus! {

/// A list of header fields as mathematical text.
pub type FieldsView = Seq<(Seq<char>, Seq<char>)>;

/// The predicate "this field is named `name`".
pub open spec fn named(name: Seq<char>) -> spec_fn((Seq<char>, Seq<char>)) -> bool {
    |field: (Seq<char>, Seq<char>)| field.0 == name
}

/// The value of the first field whose name is exactly `name`.
pub open spec fn spec_lookup(fields: FieldsView, name: Seq<char>) -> Option<Seq<char>> {
    let at: int = first_index(fields, named(name), 0);
    if at < fields.len() {
        Some(fields[at].1)
    } else {
        None
    }
}

/// Looks up the value of the first field whose name is exactly `name`.
pub fn lookup<'a>(fields: &'a Vec<(String, String)>, name: &str) -> (r: Option<&'a str>)
    ensures
        match r {
            Some(value) => spec_lookup(fields.deep_view(), name@) == Some(value@),
            None => spec_lookup(fields.deep_view(), name@) is None,
        },
{
    let wanted = name.to_owned();
    let mut i: usize = 0;
    while i < fields.len()
        invariant
            i <= fields.len(),
            wanted@ == name@,
            forall|j: int| 0 <= j < i ==> !#[trigger] named(name@)(fields.deep_view()[j]),
        decreases fields.len() - i,
    {
        if fields[i].0 == wanted {
            proof {
                lemma_first_index_unique(fields.deep_view(), named(name@), 0, i as int);
            }
            return Some(fields[i].1.as_str());
        }
        i += 1;
    }
    proof {
        lemma_first_index_unique(fields.deep_view(), named(name@), 0, i as int);
    }
    None
}

/// The text that separates a field's name from its value on a header line.
pub open spec fn separator() -> Seq<char> {
    ": "@
}

/// A header line taken apart at the first separator: the name before it and
/// the value behind it. A line without a separator is all name, with an
/// empty value.
pub open spec fn spec_split_field(line: Seq<char>) -> (Seq<char>, Seq<char>) {
    match spec_find(line, separator(), 0) {
        Some(at) => (line.subrange(0, at), line.subrange(at + separator().len(), line.len() as int)),
        None => (line, Seq::empty()),
    }
}

/// Takes a header line apart at the first separator.
pub fn split_field<'a>(line: &'a str) -> (r: (&'a str, &'a str))
    ensures
        (r.0@, r.1@) == spec_split_field(line@),
{
    let chars = chars_of(line);
    let mark = chars_of(": ");
    let end: usize = chars.len();
    proof {
        reveal_strlit(": ");
        reveal_strlit("");
    }
    match find(chars.as_slice(), mark.as_slice()) {
        Some(at) => {
            proof {
                lemma_find(line@, separator(), 0);
                assert(occurs_at(line@, separator(), at as int));
                assert(separator().len() == 2);
            }
            (line.substring_char(0, at), line.substring_char(at + 2, end))
        },
        None => (line, ""),
    }
}

/// The fields with every name replaced by its lower-case form.
pub open spec fn spec_lowercase_names(fields: FieldsView) -> FieldsView {
    Seq::new(fields.len(), |i: int| (lowercase(fields[i].0), fields[i].1))
}

/// Copies the fields with every name lower-cased.
pub fn lowercase_names(fields: &Vec<(String, String)>) -> (r: Vec<(String, String)>)
    ensures
        r.deep_view() == spec_lowercase_names(fields.deep_view()),
{
    let mut r: Vec<(String, String)> = Vec::new();
    let mut i: usize = 0;
    while i < fields.len()
        invariant
            i <= fields.len(),
            r.len() == i,
            forall|j: int|
                0 <= j < i ==> (#[trigger] r@[j]).0@ == lowercase(fields@[j].0@) && r@[j].1@
                    == fields@[j].1@,
        decreases fields.len() - i,
    {
        let name = fields[i].0.as_str().to_lowercase();
        let value = fields[i].1.clone();
        r.push((name, value));
        i += 1;
    }
    assert(r.deep_view() =~= spec_lowercase_names(fields.deep_view()));
    r
}

/// Lookup does not see the case of letters. A field is found under any name
/// that has the same lower-case form as the name it was written with, if it
/// is the first with such a name.
pub proof fn lemma_lookup_ignores_case(written: FieldsView, at: int, key: Seq<char>)
    requires
        0 <= at < written.len(),
        lowercase(written[at].0) == lowercase(key),
        forall|k: int| 0 <= k < at ==> lowercase(written[k].0) != lowercase(key),
    ensures
        spec_lookup(spec_lowercase_names(written), lowercase(key)) == Some(written[at].1),
{
    let stored = spec_lowercase_names(written);
    assert forall|k: int| 0 <= k < at implies !#[trigger] named(lowercase(key))(stored[k]) by {
        assert(stored[k].0 == lowercase(written[k].0));
    }
    assert(named(lowercase(key))(stored[at]));
    lemma_first_index_unique(stored, named(lowercase(key)), 0, at);
}

/// Two names with the same lower-case form find the same field.
pub proof fn lemma_lookup_same_for_equal_case(stored: FieldsView, a: Seq<char>, b: Seq<char>)
    requires
        lowercase(a) == lowercase(b),
    ensures
        spec_lookup(stored, lowercase(a)) == spec_lookup(stored, lowercase(b)),
{
}

} // verus!
