//! The self-describing content block carried by every persisted component:
//! a sequence of named text fields. Payload decoders read fields from it by
//! name; payload encoders emit it in a canonical field order.

use vstd::prelude::*;

verus! {

/// One named field of a component's serialized content block.
#[derive(Clone, Debug, PartialEq, Eq)]
pub struct ContentField {
    pub name: String,
    pub value: String,
}

/// Spec-level model of one content field.
#[verifier::ext_equal]
pub struct ContentFieldV {
    pub name: Seq<char>,
    pub value: Seq<char>,
}

impl View for ContentField {
    type V = ContentFieldV;

    open spec fn view(&self) -> ContentFieldV {
        ContentFieldV { name: self.name@, value: self.value@ }
    }
}

/// An opaque content block: the ordered fields of one component payload.
#[derive(Clone, Debug, PartialEq, Eq)]
pub struct Content {
    pub fields: Vec<ContentField>,
}

impl View for Content {
    type V = Seq<ContentFieldV>;

    open spec fn view(&self) -> Seq<ContentFieldV> {
        self.fields@.map_values(|f: ContentField| f@)
    }
}

/// The value of the first field named `name`, if any.
pub open spec fn lookup_field(fields: Seq<ContentFieldV>, name: Seq<char>) -> Option<Seq<char>>
    decreases fields.len(),
{
    if fields.len() == 0 {
        None
    } else if fields[0].name == name {
        Some(fields[0].value)
    } else {
        lookup_field(fields.drop_first(), name)
    }
}

/// Finds the first field named `name` and returns a copy of its value.
pub fn find_field(content: &Content, name: &String) -> (r: Option<String>)
    ensures
        match r {
            Some(v) => lookup_field(content@, name@) == Some(v@),
            None => lookup_field(content@, name@) is None,
        },
{
    let n = content.fields.len();
    let mut i: usize = 0;
    proof {
        assert(content@.skip(0) =~= content@);
    }
    while i < n
        invariant
            i <= n,
            n == content.fields.len(),
            lookup_field(content@, name@) == lookup_field(content@.skip(i as int), name@),
        decreases n - i,
    {
        assert(content@.skip(i as int)[0] == content@[i as int]);
        if content.fields[i].name == *name {
            let v = content.fields[i].value.clone();
            return Some(v);
        }
        proof {
            assert(content@.skip(i as int).drop_first() =~= content@.skip(i as int + 1));
        }
        i = i + 1;
    }
    proof {
        assert(content@.skip(n as int) =~= Seq::<ContentFieldV>::empty());
    }
    None
}

/// Compares two string slices by their character content.
pub fn str_eq(a: &str, b: &str) -> (r: bool)
    ensures
        r == (a@ == b@),
{
    let sa = String::from_str(a);
    let sb = String::from_str(b);
    sa == sb
}

/// Builds one content field from a field name and its text value.
pub fn make_field(name: &str, value: &str) -> (r: ContentField)
    ensures
        r.name@ == name@,
        r.value@ == value@,
{
    ContentField { name: String::from_str(name), value: String::from_str(value) }
}

} // verus!
