//! The library's own model of a JSON-like document.
//!
//! Stored request definitions carry structured query mappings, header
//! mappings and optional bodies.  The library holds such documents as plain
//! values of [`JsonValue`] so that the pipeline's logic over them can be
//! verified.  A number is held as its decimal text, exactly as it would be
//! serialized, so that no information is lost and no floating-point value
//! enters the library.  At the specification level a document is seen as a
//! [`JsonView`], the same tree over mathematical sequences.

use vstd::prelude::*;

verus! {

/// A JSON-like document as a plain value.
///
/// An object is a sequence of key/value pairs in iteration order; a
/// well-formed object has no repeated key.
#[derive(Debug, PartialEq, Eq)]
pub enum JsonValue {
    Null,
    Bool(bool),
    /// A number, held as its decimal text.
    Num(String),
    Str(String),
    Arr(Vec<JsonValue>),
    Obj(Vec<(String, JsonValue)>),
}

/// The mathematical shape of a JSON-like document: what a [`JsonValue`] is
/// at the specification level.
pub enum JsonView {
    Null,
    Bool(bool),
    Num(Seq<char>),
    Str(Seq<char>),
    Arr(Seq<JsonView>),
    Obj(Seq<(Seq<char>, JsonView)>),
}

/// The view of one document.
pub open spec fn view_of(v: JsonValue) -> JsonView
    decreases v,
{
    match v {
        JsonValue::Null => JsonView::Null,
        JsonValue::Bool(b) => JsonView::Bool(b),
        JsonValue::Num(t) => JsonView::Num(t@),
        JsonValue::Str(s) => JsonView::Str(s@),
        JsonValue::Arr(items) => JsonView::Arr(view_of_seq(items@)),
        JsonValue::Obj(pairs) => JsonView::Obj(view_of_pairs(pairs@)),
    }
}

/// The views of the items of an array.
pub open spec fn view_of_seq(s: Seq<JsonValue>) -> Seq<JsonView>
    decreases s,
{
    if s.len() == 0 {
        Seq::<JsonView>::empty()
    } else {
        seq![view_of(s[0])] + view_of_seq(s.drop_first())
    }
}

/// The views of the key/value pairs of an object.
pub open spec fn view_of_pairs(s: Seq<(String, JsonValue)>) -> Seq<(Seq<char>, JsonView)>
    decreases s,
{
    if s.len() == 0 {
        Seq::<(Seq<char>, JsonView)>::empty()
    } else {
        seq![(s[0].0@, view_of(s[0].1))] + view_of_pairs(s.drop_first())
    }
}

/// An array's view is the element-wise view.
pub proof fn lemma_view_of_seq(s: Seq<JsonValue>)
    ensures
        view_of_seq(s).len() == s.len(),
        forall|i: int| 0 <= i < s.len() ==> view_of_seq(s)[i] == view_of(s[i]),
    decreases s.len(),
{
    if s.len() > 0 {
        lemma_view_of_seq(s.drop_first());
    }
}

/// An object's view is the pair-wise view.
pub proof fn lemma_view_of_pairs(s: Seq<(String, JsonValue)>)
    ensures
        view_of_pairs(s).len() == s.len(),
        forall|i: int|
            0 <= i < s.len() ==> view_of_pairs(s)[i] == (s[i].0@, view_of(s[i].1)),
    decreases s.len(),
{
    if s.len() > 0 {
        lemma_view_of_pairs(s.drop_first());
    }
}

impl DeepView for JsonValue {
    type V = JsonView;

    open spec fn deep_view(&self) -> JsonView {
        view_of(*self)
    }
}

impl JsonView {
    /// True of the values that may stand in a query mapping: everything but
    /// arrays and objects.
    pub open spec fn is_scalar(self) -> bool {
        match self {
            JsonView::Arr(_) => false,
            JsonView::Obj(_) => false,
            _ => true,
        }
    }

    /// The text a scalar contributes to a query string: a string's own
    /// characters, a number's decimal text, `true`/`false`, or `null`.
    pub open spec fn scalar_text(self) -> Seq<char> {
        match self {
            JsonView::Null => "null"@,
            JsonView::Bool(b) => if b {
                "true"@
            } else {
                "false"@
            },
            JsonView::Num(t) => t,
            JsonView::Str(s) => s,
            _ => Seq::<char>::empty(),
        }
    }
}

impl JsonValue {
    /// Renders a scalar as the text it contributes to a query string.
    pub fn render_scalar(&self) -> (r: String)
        requires
            self.deep_view().is_scalar(),
        ensures
            r@ == self.deep_view().scalar_text(),
    {
        match self {
            JsonValue::Null => "null".to_owned(),
            JsonValue::Bool(b) => if *b {
                "true".to_owned()
            } else {
                "false".to_owned()
            },
            JsonValue::Num(t) => t.clone(),
            JsonValue::Str(s) => s.clone(),
            _ => String::new(),
        }
    }
}

/// Copies a document; the copy has the same view.
#[verifier::loop_isolation(false)]
fn clone_value(v: &JsonValue) -> (r: JsonValue)
    ensures
        r.deep_view() == v.deep_view(),
    decreases v,
{
    match v {
        JsonValue::Null => JsonValue::Null,
        JsonValue::Bool(b) => JsonValue::Bool(*b),
        JsonValue::Num(t) => JsonValue::Num(t.clone()),
        JsonValue::Str(s) => JsonValue::Str(s.clone()),
        JsonValue::Arr(items) => {
            let mut out: Vec<JsonValue> = Vec::new();
            let mut i: usize = 0;
            while i < items.len()
                invariant
                    i <= items@.len(),
                    out@.len() == i,
                    forall|k: int| 0 <= k < i ==> out@[k].deep_view() == items@[k].deep_view(),
                decreases items@.len() - i,
            {
                proof {
                    let ghost g = *v;
                    assert(decreases_to!(g => g->Arr_0));
                    assert(decreases_to!(g->Arr_0 => items@));
                    assert(decreases_to!(items@ => items@[i as int]));
                }
                out.push(clone_value(&items[i]));
                i = i + 1;
            }
            proof {
                lemma_view_of_seq(items@);
                lemma_view_of_seq(out@);
                assert(view_of_seq(out@) =~= view_of_seq(items@));
            }
            JsonValue::Arr(out)
        },
        JsonValue::Obj(pairs) => {
            let mut out: Vec<(String, JsonValue)> = Vec::new();
            let mut i: usize = 0;
            while i < pairs.len()
                invariant
                    i <= pairs@.len(),
                    out@.len() == i,
                    forall|k: int|
                        0 <= k < i ==> out@[k].0@ == pairs@[k].0@ && out@[k].1.deep_view()
                            == pairs@[k].1.deep_view(),
                decreases pairs@.len() - i,
            {
                proof {
                    let ghost g = *v;
                    assert(decreases_to!(g => g->Obj_0));
                    assert(decreases_to!(g->Obj_0 => pairs@));
                    assert(decreases_to!(pairs@ => pairs@[i as int]));
                    assert(decreases_to!(pairs@[i as int] => pairs@[i as int].1));
                }
                let key = pairs[i].0.clone();
                let val = clone_value(&pairs[i].1);
                out.push((key, val));
                i = i + 1;
            }
            proof {
                lemma_view_of_pairs(pairs@);
                lemma_view_of_pairs(out@);
                assert(view_of_pairs(out@) =~= view_of_pairs(pairs@));
            }
            JsonValue::Obj(out)
        },
    }
}

impl Clone for JsonValue {
    /// The copy has the same view as the original.
    fn clone(&self) -> (r: Self)
        ensures
            r.deep_view() == self.deep_view(),
    {
        clone_value(self)
    }
}

/// True of a key/value sequence in which no key repeats.
pub open spec fn keys_unique(pairs: Seq<(Seq<char>, JsonView)>) -> bool {
    forall|i: int, j: int| 0 <= i < j < pairs.len() ==> pairs[i].0 != pairs[j].0
}

} // verus!
