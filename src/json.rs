//! The JSON text that crosses the control channel, as flat objects.
//!
//! Parsing and string quoting are done by serde_json; how objects are laid
//! out as text is stated and proved here.
use vstd::prelude::*;

verus! {

/// A member value of a top-level JSON object, as the protocol reads it.
/// Arrays and nested objects are kept as their compact text.
pub enum Field {
    Null,
    Bool(bool),
    Number(String),
    Text(String),
    Compound(String),
}

/// Mathematical model of a [`Field`].
pub ghost enum FieldView {
    Null,
    Bool(bool),
    Number(Seq<char>),
    Text(Seq<char>),
    Compound(Seq<char>),
}

impl View for Field {
    type V = FieldView;

    open spec fn view(&self) -> FieldView {
        match self {
            Field::Null => FieldView::Null,
            Field::Bool(b) => FieldView::Bool(*b),
            Field::Number(t) => FieldView::Number(t@),
            Field::Text(s) => FieldView::Text(s@),
            Field::Compound(t) => FieldView::Compound(t@),
        }
    }
}

/// The model of an object's members: key and value, in order.
pub type Members = Seq<(Seq<char>, FieldView)>;

/// The members of an object, key and value, in order.
pub open spec fn members_view(fs: Seq<(String, Field)>) -> Members {
    fs.map_values(|m: (String, Field)| (m.0@, m.1@))
}

/// What serde_json writes for a string: the JSON string literal.
pub uninterp spec fn quoted(s: Seq<char>) -> Seq<char>;

/// The top-level members that serde_json parses out of `text`, in the order
/// of its map; `None` when `text` is not a JSON object.
pub uninterp spec fn object_members_of(text: Seq<char>) -> Option<Members>;

pub open spec fn has_no_newline(s: Seq<char>) -> bool {
    forall|i: int| 0 <= i < s.len() ==> s[i] != '\n'
}

/// A member value whose text holds no line terminator of its own.
pub open spec fn single_line_field(f: FieldView) -> bool {
    match f {
        FieldView::Number(t) => has_no_newline(t),
        FieldView::Compound(t) => has_no_newline(t),
        _ => true,
    }
}

pub open spec fn single_line_members(ms: Members) -> bool {
    forall|i: int| 0 <= i < ms.len() ==> single_line_field(#[trigger] ms[i].1)
}

proof fn lemma_concat_no_newline(a: Seq<char>, b: Seq<char>)
    requires
        has_no_newline(a),
        has_no_newline(b),
    ensures
        has_no_newline(a + b),
{
    assert forall|i: int| 0 <= i < (a + b).len() implies (a + b)[i] != '\n' by {
        if i >= a.len() {
            assert((a + b)[i] == b[i - a.len()]);
        }
    }
}

proof fn lemma_concat_no_newline_if(c: bool, a: Seq<char>, b: Seq<char>)
    requires
        c ==> has_no_newline(a),
        c ==> has_no_newline(b),
    ensures
        c ==> has_no_newline(a + b),
{
    if c {
        lemma_concat_no_newline(a, b);
    }
}

/// The compact text of a member value.
pub open spec fn field_text(f: FieldView) -> Seq<char> {
    match f {
        FieldView::Null => "null"@,
        FieldView::Bool(b) => if b { "true"@ } else { "false"@ },
        FieldView::Number(t) => t,
        FieldView::Text(s) => quoted(s),
        FieldView::Compound(t) => t,
    }
}

/// One member as `"key":value`.
pub open spec fn member_text(m: (Seq<char>, FieldView)) -> Seq<char> {
    quoted(m.0) + ":"@ + field_text(m.1)
}

/// The members, comma separated.
pub open spec fn members_text(ms: Members) -> Seq<char>
    decreases ms.len(),
{
    if ms.len() == 0 {
        Seq::empty()
    } else if ms.len() == 1 {
        member_text(ms[0])
    } else {
        members_text(ms.drop_last()) + ","@ + member_text(ms.last())
    }
}

/// The compact text of an object with the given members.
pub open spec fn object_text(ms: Members) -> Seq<char> {
    "{"@ + members_text(ms) + "}"@
}

/// `a` sorts strictly before `b`, character by character: the order of
/// Rust's `String`, which serde_json's object map keeps its keys in.
pub open spec fn key_less(a: Seq<char>, b: Seq<char>) -> bool {
    exists|k: int|
        0 <= k <= a.len() && k <= b.len() && #[trigger] a.take(k) == b.take(k) && (
        (k == a.len() && k < b.len()) || (k < a.len() && k < b.len() && (a[k] as u32) < (
        b[k] as u32)))
}

/// Keys in strictly ascending order, so no key repeats.
pub open spec fn keys_ascending(ms: Members) -> bool {
    forall|i: int| 0 <= i < ms.len() - 1 ==> key_less(#[trigger] ms[i].0, ms[i + 1].0)
}

/// Members as serde_json writes an object of strings and booleans.
pub open spec fn flat_members(ms: Members) -> bool {
    &&& keys_ascending(ms)
    &&& forall|i: int| 0 <= i < ms.len() ==> (#[trigger] ms[i].1 is Bool || ms[i].1 is Text)
}

/// Members as serde_json writes an object of strings, booleans and objects
/// of strings and booleans.
pub open spec fn nested_members(ms: Members) -> bool {
    &&& keys_ascending(ms)
    &&& forall|i: int|
        0 <= i < ms.len() ==> (#[trigger] ms[i].1 is Bool || ms[i].1 is Text || (
        ms[i].1 matches FieldView::Compound(t) && exists|inner: Members|
            flat_members(inner) && #[trigger] object_text(inner) == t))
}

/// Relies on serde_json's `Display` of `Value::String`: the compact JSON
/// string literal, quote marks around, every control character escaped.
#[verifier::external_body]
fn quote(s: &str) -> (r: String)
    ensures
        r@ == quoted(s@),
        has_no_newline(r@),
{
    serde_json::Value::String(s.to_string()).to_string()
}

/// Relies on `serde_json::from_str::<Value>`: the members of `text` when it
/// is a JSON object, in the ascending key order of serde_json's map, numbers
/// in serde_json's own text for them and arrays and objects in their compact
/// text. What serde_json writes for such members it reads back as they were:
/// it unescapes what it escaped, and writes a nested object again as before.
#[verifier::external_body]
pub(crate) fn parse_object(text: &str) -> (r: Option<Vec<(String, Field)>>)
    ensures
        r matches Some(ms) ==> object_members_of(text@) == Some(members_view(ms@)),
        r is None <==> object_members_of(text@) is None,
        r matches Some(v) ==> forall|ms: Members|
            nested_members(ms) && #[trigger] object_text(ms) == text@ ==> members_view(v@) == ms,
        r is None ==> forall|ms: Members|
            nested_members(ms) ==> #[trigger] object_text(ms) != text@,
{
    match serde_json::from_str::<serde_json::Value>(text) {
        Ok(serde_json::Value::Object(m)) => Some(m.into_iter().map(|(k, v)| (k, match v {
            serde_json::Value::Null => Field::Null,
            serde_json::Value::Bool(b) => Field::Bool(b),
            serde_json::Value::Number(n) => Field::Number(n.to_string()),
            serde_json::Value::String(s) => Field::Text(s),
            other => Field::Compound(other.to_string()),
        })).collect()),
        _ => None,
    }
}

/// The compact text of a member value.
pub fn write_field(f: &Field) -> (r: String)
    ensures
        r@ == field_text(f@),
        single_line_field(f@) ==> has_no_newline(r@),
{
    match f {
        Field::Null => {
            proof { reveal_strlit("null"); }
            String::from_str("null")
        },
        Field::Bool(b) => if *b {
            proof { reveal_strlit("true"); }
            String::from_str("true")
        } else {
            proof { reveal_strlit("false"); }
            String::from_str("false")
        },
        Field::Number(t) => t.clone(),
        Field::Text(s) => quote(s.as_str()),
        Field::Compound(t) => t.clone(),
    }
}

/// The compact text of an object with the given members, in their order.
pub fn write_object(ms: &Vec<(String, Field)>) -> (r: String)
    ensures
        r@ == object_text(members_view(ms@)),
        single_line_members(members_view(ms@)) ==> has_no_newline(r@),
{
    proof {
        reveal_strlit("{");
        reveal_strlit("}");
        reveal_strlit(",");
        reveal_strlit(":");
    }
    let mut out = String::from_str("{");
    assert("{"@[0] == '{');
    let mut i: usize = 0;
    while i < ms.len()
        invariant
            0 <= i <= ms.len(),
            out@ == "{"@ + members_text(members_view(ms@).take(i as int)),
            single_line_members(members_view(ms@)) ==> has_no_newline(out@),
        decreases ms.len() - i,
    {
        let ghost before = members_view(ms@).take(i as int);
        let ghost next = members_view(ms@).take(i as int + 1);
        assert(next.drop_last() =~= before);
        proof {
            reveal_strlit(",");
            reveal_strlit(":");
        }
        let ghost o0 = out@;
        if i > 0 {
            out.append(",");
            proof {
                assert(","@[0] == ',');
                lemma_concat_no_newline_if(single_line_members(members_view(ms@)), o0, ","@);
            }
        }
        let ghost o1 = out@;
        let key = quote(ms[i].0.as_str());
        out.append(key.as_str());
        proof { lemma_concat_no_newline_if(single_line_members(members_view(ms@)), o1, key@); }
        let ghost o2 = out@;
        out.append(":");
        proof {
            assert(":"@[0] == ':');
            lemma_concat_no_newline_if(single_line_members(members_view(ms@)), o2, ":"@);
        }
        let ghost o3 = out@;
        let value = write_field(&ms[i].1);
        proof {
            if single_line_members(members_view(ms@)) {
                assert(single_line_field(members_view(ms@)[i as int].1));
            }
        }
        out.append(value.as_str());
        proof { lemma_concat_no_newline_if(single_line_members(members_view(ms@)), o3, value@); }
        assert(next.last() == (ms@[i as int].0@, ms@[i as int].1@));
        i = i + 1;
    }
    assert(members_view(ms@).take(ms.len() as int) =~= members_view(ms@));
    let ghost o4 = out@;
    out.append("}");
    proof {
        assert("}"@[0] == '}');
        lemma_concat_no_newline_if(single_line_members(members_view(ms@)), o4, "}"@);
    }
    out
}

} // verus!
