//! JSON objects, read as lists of keys and scalar leaves.
use vstd::prelude::*;

verus! {

/// A JSON value as the parsers read it.
#[derive(Debug, Clone, PartialEq, Eq)]
pub enum JsonLeaf {
    Str(String),
    /// A number, in its JSON text.
    Num(String),
    Bool(bool),
    Null,
    /// An array or an object, in its JSON text.
    Nested(String),
}

pub enum JsonLeafView {
    Str(Seq<char>),
    Num(Seq<char>),
    Bool(bool),
    Null,
    Nested(Seq<char>),
}

impl View for JsonLeaf {
    type V = JsonLeafView;

    open spec fn view(&self) -> JsonLeafView {
        match self {
            JsonLeaf::Str(s) => JsonLeafView::Str(s@),
            JsonLeaf::Num(s) => JsonLeafView::Num(s@),
            JsonLeaf::Bool(b) => JsonLeafView::Bool(*b),
            JsonLeaf::Null => JsonLeafView::Null,
            JsonLeaf::Nested(s) => JsonLeafView::Nested(s@),
        }
    }
}

pub type Fields = Seq<(Seq<char>, JsonLeafView)>;

pub open spec fn fields_view(v: Seq<(String, JsonLeaf)>) -> Fields {
    v.map_values(|p: (String, JsonLeaf)| (p.0@, p.1@))
}

/// The members of the JSON object that `b` holds, as `serde_json` reads
/// them; `None` where `b` is not a JSON object.
pub uninterp spec fn json_object(b: Seq<u8>) -> Option<Fields>;

/// Relies on `serde_json::from_slice` into `serde_json::Value`: the result
/// depends on the bytes alone.
#[verifier::external_body]
pub(crate) fn parse_json_object(b: &Vec<u8>) -> (r: Option<Vec<(String, JsonLeaf)>>)
    ensures
        match r {
            Some(v) => json_object(b@) == Some(fields_view(v@)),
            None => json_object(b@) is None,
        },
{
    let serde_json::Value::Object(m) = serde_json::from_slice(b).ok()? else { return None };
    let mut out = Vec::new();
    for (k, v) in m {
        out.push((k, match v {
            serde_json::Value::String(s) => JsonLeaf::Str(s),
            serde_json::Value::Number(n) => JsonLeaf::Num(n.to_string()),
            serde_json::Value::Bool(b) => JsonLeaf::Bool(b),
            serde_json::Value::Null => JsonLeaf::Null,
            other => JsonLeaf::Nested(other.to_string()),
        }));
    }
    Some(out)
}

/// The leaf of the last member named `k`.
pub open spec fn field_get(fs: Fields, k: Seq<char>) -> Option<JsonLeafView>
    decreases fs.len(),
{
    if fs.len() == 0 {
        None
    } else if fs.last().0 == k {
        Some(fs.last().1)
    } else {
        field_get(fs.drop_last(), k)
    }
}

/// A leaf as text: a string as itself, anything else as its JSON text.
pub open spec fn leaf_text(l: JsonLeafView) -> Seq<char> {
    match l {
        JsonLeafView::Str(s) => s,
        JsonLeafView::Num(s) => s,
        JsonLeafView::Bool(b) => if b {
            "true"@
        } else {
            "false"@
        },
        JsonLeafView::Null => "null"@,
        JsonLeafView::Nested(s) => s,
    }
}

/// The leaf of the last member of `fs` named `key`.
pub fn find_field<'a>(fs: &'a Vec<(String, JsonLeaf)>, key: &str) -> (r: Option<&'a JsonLeaf>)
    ensures
        match r {
            Some(l) => field_get(fields_view(fs@), key@) == Some(l@),
            None => field_get(fields_view(fs@), key@) is None,
        },
{
    let ghost fv = fields_view(fs@);
    let mut i = fs.len();
    assert(fv.take(fs@.len() as int) == fv);
    while i > 0
        invariant
            i <= fs@.len(),
            fv == fields_view(fs@),
            field_get(fv, key@) == field_get(fv.take(i as int), key@),
        decreases i,
    {
        proof {
            assert(fv.take(i as int).drop_last() == fv.take(i - 1));
        }
        if crate::pairs::same(&fs[i - 1].0, key) {
            return Some(&fs[i - 1].1);
        }
        i = i - 1;
    }
    None
}

pub fn text_of_leaf(l: &JsonLeaf) -> (r: String)
    ensures
        r@ == leaf_text(l@),
{
    match l {
        JsonLeaf::Str(s) => s.clone(),
        JsonLeaf::Num(s) => s.clone(),
        JsonLeaf::Bool(b) => if *b {
            "true".to_owned()
        } else {
            "false".to_owned()
        },
        JsonLeaf::Null => "null".to_owned(),
        JsonLeaf::Nested(s) => s.clone(),
    }
}

/// The members of `fs` with every leaf turned to text.
pub fn text_pairs(fs: &Vec<(String, JsonLeaf)>) -> (r: Vec<(String, String)>)
    ensures
        crate::config::pairs_view(r@) == fields_view(fs@).map_values(
            |p: (Seq<char>, JsonLeafView)| (p.0, leaf_text(p.1)),
        ),
{
    let mut out: Vec<(String, String)> = Vec::new();
    let mut i: usize = 0;
    while i < fs.len()
        invariant
            i <= fs@.len(),
            out@.len() == i,
            forall|j: int|
                0 <= j < i ==> (#[trigger] out@[j]).0@ == fs@[j].0@ && out@[j].1@ == leaf_text(
                    fs@[j].1@,
                ),
        decreases fs@.len() - i,
    {
        out.push((fs[i].0.clone(), text_of_leaf(&fs[i].1)));
        i = i + 1;
    }
    assert(crate::config::pairs_view(out@) =~= fields_view(fs@).map_values(
        |p: (Seq<char>, JsonLeafView)| (p.0, leaf_text(p.1)),
    ));
    out
}

} // verus!
