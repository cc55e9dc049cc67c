//! Resource entities handed to the policy engine, and table-name mapping.

use vstd::prelude::*;
use crate::error::CedarlingError;
use crate::text::{chars_of, string_from_chars, to_uppercase, upper_of};
use crate::json::json_string;

verus! {

/// A resource entity handed to the policy engine: its type, its identifier
/// and its attributes, one entry per name.
#[derive(Debug)]
pub struct CedarResource {
    pub entity_type: String,
    pub id: String,
    pub attributes: Vec<(String, serde_json::Value)>,
}

/// No two attributes share a name, as in a map.
pub open spec fn names_distinct(attrs: Seq<(String, serde_json::Value)>) -> bool {
    forall|i: int, j: int| 0 <= i < j < attrs.len() ==> attrs[i].0@ != attrs[j].0@
}

impl CedarResource {
    /// The attributes form a map: their names are distinct.
    pub open spec fn well_formed(&self) -> bool {
        names_distinct(self.attributes@)
    }

    /// A resource without attributes.
    pub fn new(entity_type: String, id: String) -> (r: Self)
        ensures
            r.entity_type@ == entity_type@,
            r.id@ == id@,
            r.attributes@.len() == 0,
            r.well_formed(),
    {
        CedarResource { entity_type, id, attributes: Vec::new() }
    }

    /// The same resource with its attributes replaced. It is well formed
    /// exactly when the names given are distinct.
    pub fn with_attributes(self, attributes: Vec<(String, serde_json::Value)>) -> (r: Self)
        ensures
            r.entity_type@ == self.entity_type@,
            r.id@ == self.id@,
            r.attributes@ == attributes@,
            r.well_formed() <==> names_distinct(attributes@),
    {
        CedarResource { entity_type: self.entity_type, id: self.id, attributes }
    }
}

/// The entity type for a table name: the words between `_` separators, each
/// with its first character upper-cased, joined without separator.
pub open spec fn pascal_case(s: Seq<char>, at_word_start: bool) -> Seq<char>
    decreases s.len(),
{
    if s.len() == 0 {
        Seq::empty()
    } else if s[0] == '_' {
        pascal_case(s.drop_first(), true)
    } else if at_word_start {
        upper_of(s[0]) + pascal_case(s.drop_first(), false)
    } else {
        seq![s[0]] + pascal_case(s.drop_first(), false)
    }
}

/// Maps a snake_case table name to a PascalCase entity type.
pub fn table_name_to_entity_type(table_name: &str) -> (r: String)
    ensures
        r@ == pascal_case(table_name@, true),
{
    let chars = chars_of(table_name);
    let mut out: Vec<char> = Vec::new();
    let mut at_start = true;
    let mut i: usize = 0;
    assert(out@ + pascal_case(chars@.subrange(0, chars@.len() as int), true) =~= pascal_case(chars@, true)) by {
        assert(chars@.subrange(0, chars@.len() as int) =~= chars@);
    }
    while i < chars.len()
        invariant
            i <= chars@.len(),
            out@ + pascal_case(chars@.subrange(i as int, chars@.len() as int), at_start)
                == pascal_case(chars@, true),
        decreases chars@.len() - i,
    {
        let ghost rest = chars@.subrange(i as int, chars@.len() as int);
        let ghost next = chars@.subrange(i + 1, chars@.len() as int);
        assert(rest.drop_first() =~= next);
        let c = chars[i];
        if c == '_' {
            at_start = true;
        } else if at_start {
            let up = to_uppercase(c);
            let ghost before = out@;
            let mut j: usize = 0;
            while j < up.len()
                invariant
                    j <= up@.len(),
                    out@ =~= before + up@.subrange(0, j as int),
                decreases up@.len() - j,
            {
                out.push(up[j]);
                j = j + 1;
            }
            assert(up@.subrange(0, j as int) =~= up@);
            assert(out@ + pascal_case(next, false) =~= before + (upper_of(c) + pascal_case(next, false)));
            at_start = false;
        } else {
            let ghost before = out@;
            out.push(c);
            assert(out@ + pascal_case(next, false) =~= before + (seq![c] + pascal_case(next, false)));
        }
        i = i + 1;
    }
    assert(out@ + pascal_case(chars@.subrange(i as int, chars@.len() as int), at_start) =~= out@);
    string_from_chars(&out)
}

/// The table whose rows are being authorized. Row introspection is not
/// available, so every row reports the same table.
pub fn get_table_name_from_context() -> (r: Result<String, CedarlingError>)
    ensures
        r is Ok && r->Ok_0@ == "current_table"@,
{
    Ok(String::from_str("current_table"))
}

} // verus!

verus! {

/// The resource that stands for a row of `table_name`, observed at
/// `timestamp`: its entity type comes from the table name, and it carries
/// the table and the time as its `_table` and `_timestamp` attributes.
pub fn resource_for_table(table_name: &str, timestamp: String) -> (r: CedarResource)
    ensures
        r.entity_type@ == pascal_case(table_name@, true),
        r.id@ == "placeholder_id"@,
        r.attributes@.len() == 2,
        r.attributes@[0].0@ == "_table"@,
        r.attributes@[1].0@ == "_timestamp"@,
        r.well_formed(),
{
    let mut attributes: Vec<(String, serde_json::Value)> = Vec::new();
    attributes.push((String::from_str("_table"), json_string(String::from_str(table_name))));
    attributes.push((String::from_str("_timestamp"), json_string(timestamp)));
    proof {
        reveal_strlit("_table");
        reveal_strlit("_timestamp");
        assert(attributes@[0].0@.len() != attributes@[1].0@.len());
    }
    CedarResource::new(table_name_to_entity_type(table_name), String::from_str("placeholder_id"))
        .with_attributes(attributes)
}

} // verus!
