//! The document tree that theme text is read into: strings, numbers,
//! booleans, date-times, arrays and tables of named values.
use vstd::prelude::*;

verus! {

/// A decimal number held in thousandths (`1.5` is `Fixed { milli: 1500 }`).
#[derive(Clone, Copy, Debug, PartialEq, Eq, Structural)]
pub struct Fixed {
    pub milli: i64,
}

/// One node of a document.
#[derive(Debug)]
pub enum Value {
    String(String),
    Integer(i64),
    Float(Fixed),
    Boolean(bool),
    /// A date or time, kept as its text.
    Datetime(String),
    Array(Vec<Value>),
    /// Entries in document order; names are unique.
    Table(Vec<(String, Value)>),
}

/// A document node with its text as characters.
pub enum Doc {
    Str(Seq<char>),
    Int(i64),
    Float(Fixed),
    Bool(bool),
    Datetime(Seq<char>),
    Array(Seq<Doc>),
    Table(Seq<(Seq<char>, Doc)>),
}

/// The view of one node.
pub open spec fn doc_of(v: Value) -> Doc
    decreases v,
{
    match v {
        Value::String(s) => Doc::Str(s@),
        Value::Integer(n) => Doc::Int(n),
        Value::Float(x) => Doc::Float(x),
        Value::Boolean(b) => Doc::Bool(b),
        Value::Datetime(s) => Doc::Datetime(s@),
        Value::Array(a) => Doc::Array(docs_of(a@)),
        Value::Table(t) => Doc::Table(entries_of(t@)),
    }
}

/// The views of a sequence of nodes.
pub open spec fn docs_of(s: Seq<Value>) -> Seq<Doc>
    decreases s,
{
    if s.len() == 0 {
        Seq::empty()
    } else {
        docs_of(s.subrange(0, s.len() - 1)).push(doc_of(s[s.len() - 1]))
    }
}

/// The views of a sequence of named nodes.
pub open spec fn entries_of(s: Seq<(String, Value)>) -> Seq<(Seq<char>, Doc)>
    decreases s,
{
    if s.len() == 0 {
        Seq::empty()
    } else {
        entries_of(s.subrange(0, s.len() - 1)).push((s[s.len() - 1].0@, doc_of(s[s.len() - 1].1)))
    }
}

impl View for Value {
    type V = Doc;

    open spec fn view(&self) -> Doc {
        doc_of(*self)
    }
}

pub proof fn lemma_docs_of(s: Seq<Value>)
    ensures
        docs_of(s).len() == s.len(),
        forall|k: int| 0 <= k < s.len() ==> #[trigger] docs_of(s)[k] == doc_of(s[k]),
    decreases s.len(),
{
    if s.len() > 0 {
        let p = s.subrange(0, s.len() - 1);
        lemma_docs_of(p);
        assert forall|k: int| 0 <= k < s.len() implies #[trigger] docs_of(s)[k] == doc_of(s[k]) by {
            if k < s.len() - 1 {
                assert(p[k] == s[k]);
            }
        }
    }
}

pub proof fn lemma_entries_of(s: Seq<(String, Value)>)
    ensures
        entries_of(s).len() == s.len(),
        forall|k: int| 0 <= k < s.len() ==> #[trigger] entries_of(s)[k] == (s[k].0@, doc_of(s[k].1)),
    decreases s.len(),
{
    if s.len() > 0 {
        let p = s.subrange(0, s.len() - 1);
        lemma_entries_of(p);
        assert forall|k: int| 0 <= k < s.len() implies #[trigger] entries_of(s)[k] == (
            s[k].0@,
            doc_of(s[k].1),
        ) by {
            if k < s.len() - 1 {
                assert(p[k] == s[k]);
            }
        }
    }
}

/// The view of an array lists the views of its items.
pub proof fn lemma_array_view(v: Value)
    requires
        v is Array,
    ensures
        v@ is Array,
        v@->Array_0.len() == v->Array_0@.len(),
        forall|k: int| 0 <= k < v->Array_0@.len() ==> #[trigger] v@->Array_0[k] == v->Array_0@[k]@,
{
    lemma_docs_of(v->Array_0@);
}

/// The view of a table lists its names and the views of its values.
pub proof fn lemma_table_view(v: Value)
    requires
        v is Table,
    ensures
        v@ is Table,
        v@->Table_0.len() == v->Table_0@.len(),
        forall|k: int|
            0 <= k < v->Table_0@.len() ==> #[trigger] v@->Table_0[k] == (
                v->Table_0@[k].0@,
                v->Table_0@[k].1@,
            ),
{
    lemma_entries_of(v->Table_0@);
}

} // verus!
