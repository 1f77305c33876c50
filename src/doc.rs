use vstd::prelude::*;

verus! {

/// A structured document: what the JSON and YAML outputs write.
#[derive(Debug)]
pub enum Doc {
    Null,
    Bool(bool),
    Int(i64),
    Uint(u64),
    Str(String),
    List(Vec<Doc>),
    Object(Vec<(String, Doc)>),
}

/// A document seen as plain values.
pub enum DocView {
    Null,
    Bool(bool),
    Int(int),
    Uint(nat),
    Str(Seq<char>),
    List(Seq<DocView>),
    Object(Seq<(Seq<char>, DocView)>),
}

/// The plain-value form of a document.
pub open spec fn doc_view(d: Doc) -> DocView
    decreases d,
{
    match d {
        Doc::Null => DocView::Null,
        Doc::Bool(b) => DocView::Bool(b),
        Doc::Int(n) => DocView::Int(n as int),
        Doc::Uint(n) => DocView::Uint(n as nat),
        Doc::Str(s) => DocView::Str(s@),
        Doc::List(items) => DocView::List(
            Seq::new(
                items.len() as nat,
                |i: int|
                    if 0 <= i < items.len() {
                        doc_view(items[i])
                    } else {
                        DocView::Null
                    },
            ),
        ),
        Doc::Object(fields) => DocView::Object(
            Seq::new(
                fields.len() as nat,
                |i: int|
                    if 0 <= i < fields.len() {
                        (fields[i].0@, doc_view(fields[i].1))
                    } else {
                        (Seq::<char>::empty(), DocView::Null)
                    },
            ),
        ),
    }
}

impl View for Doc {
    type V = DocView;

    open spec fn view(&self) -> DocView {
        doc_view(*self)
    }
}

impl Doc {
    /// A document with the same content.
    pub fn duplicate(&self) -> (r: Doc)
        ensures
            r@ == self@,
        decreases self,
    {
        match self {
            Doc::Null => Doc::Null,
            Doc::Bool(b) => Doc::Bool(*b),
            Doc::Int(n) => Doc::Int(*n),
            Doc::Uint(n) => Doc::Uint(*n),
            Doc::Str(s) => Doc::Str(s.clone()),
            Doc::List(items) => {
                let mut out: Vec<Doc> = Vec::new();
                let mut i: usize = 0;
                while i < items.len()
                    invariant
                        i <= items.len(),
                        *self == Doc::List(*items),
                        out.len() == i,
                        forall|j: int| 0 <= j < i ==> doc_view(#[trigger] out@[j]) == doc_view(items@[j]),
                    decreases items.len() - i,
                {
                    proof {
                        vstd::std_specs::vec::axiom_vec_index_decreases(*items, i as int);
                        assert(decreases_to!(*self => (*self)->List_0));
                        assert(decreases_to!(*self => items[i as int]));
                    }
                    out.push(items[i].duplicate());
                    i = i + 1;
                }
                let r = Doc::List(out);
                assert(r@ =~= self@) by {
                    assert(doc_view(r)->List_0 =~= doc_view(*self)->List_0);
                }
                r
            },
            Doc::Object(fields) => {
                let mut out: Vec<(String, Doc)> = Vec::new();
                let mut i: usize = 0;
                while i < fields.len()
                    invariant
                        i <= fields.len(),
                        *self == Doc::Object(*fields),
                        out.len() == i,
                        forall|j: int|
                            0 <= j < i ==> (#[trigger] out@[j]).0@ == fields@[j].0@ && doc_view(out@[j].1)
                                == doc_view(fields@[j].1),
                    decreases fields.len() - i,
                {
                    proof {
                        vstd::std_specs::vec::axiom_vec_index_decreases(*fields, i as int);
                        assert(decreases_to!(*self => (*self)->Object_0));
                        assert(decreases_to!(*self => fields[i as int]));
                        assert(decreases_to!(*self => fields[i as int].1));
                    }
                    let v = fields[i].1.duplicate();
                    out.push((fields[i].0.clone(), v));
                    i = i + 1;
                }
                let r = Doc::Object(out);
                assert(r@ =~= self@) by {
                    assert(doc_view(r)->Object_0 =~= doc_view(*self)->Object_0);
                }
                r
            },
        }
    }
}

} // verus!
