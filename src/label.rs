//! The names under which recorded events and spans appear in the trace file.

use vstd::prelude::*;
use vstd::string::StrSliceExecFns;
use vstd::string::StringExecFns;

verus! {

/// The separator between a span's name and its fields.
pub open spec fn field_separator() -> Seq<char> {
    seq![':', ' ']
}

/// A span's label: `<name>: <fields>` where it carries recorded field
/// values, else its bare name.
pub open spec fn span_label_of(name: Seq<char>, fields: Option<Seq<char>>) -> Seq<char> {
    match fields {
        Some(f) => if f.len() > 0 { name + field_separator() + f } else { name },
        None => name,
    }
}

/// The label of a span called `name` whose recorded fields render as
/// `fields`; `None` or an empty rendering means that it carries none.
pub fn span_label(name: &str, fields: Option<&str>) -> (r: String)
    ensures
        r@ == span_label_of(
            name@,
            match fields {
                Some(f) => Some(f@),
                None => None,
            },
        ),
{
    let mut r = String::from_str(name);
    if let Some(f) = fields {
        if f.unicode_len() > 0 {
            let sep = ": ";
            proof {
                reveal_strlit(": ");
                assert(sep@ =~= field_separator());
            }
            r.append(sep);
            r.append(f);
        }
    }
    r
}

/// The label of an event: its bare name.
pub fn event_label(name: &str) -> (r: String)
    ensures
        r@ == name@,
{
    String::from_str(name)
}

} // verus!
