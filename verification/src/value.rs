use vstd::prelude::*;

verus! {

/// A bindable scalar value: one variant per scalar kind that a driver can
/// accept positionally. Values are immutable once constructed and are
/// compared and cloned structurally.
#[derive(Debug, PartialEq)]
pub enum Val {
    Null,
    Bool(bool),
    Int(i64),
    Text(String),
}

/// The mathematical shape of a [`Val`]: text as a sequence of characters,
/// integers unbounded.
pub enum ValView {
    Null,
    Bool(bool),
    Int(int),
    Text(Seq<char>),
}

impl View for Val {
    type V = ValView;

    open spec fn view(&self) -> ValView {
        match self {
            Val::Null => ValView::Null,
            Val::Bool(b) => ValView::Bool(*b),
            Val::Int(i) => ValView::Int(*i as int),
            Val::Text(s) => ValView::Text(s@),
        }
    }
}

impl DeepView for Val {
    type V = ValView;

    open spec fn deep_view(&self) -> ValView {
        self.view()
    }
}

impl Clone for Val {
    fn clone(&self) -> (res: Self)
        ensures
            res == *self,
    {
        match self {
            Val::Null => Val::Null,
            Val::Bool(b) => Val::Bool(*b),
            Val::Int(i) => Val::Int(*i),
            Val::Text(s) => Val::Text(s.clone()),
        }
    }
}

/// One column assignment: a raw, unquoted column identifier paired with the
/// value to bind for it. The identifier is quoted only at render time.
#[derive(Debug)]
pub struct Field(pub String, pub Val);

/// The mathematical shape of a [`Field`].
pub struct FieldView {
    pub name: Seq<char>,
    pub value: ValView,
}

impl View for Field {
    type V = FieldView;

    open spec fn view(&self) -> FieldView {
        FieldView { name: self.0@, value: self.1@ }
    }
}

impl DeepView for Field {
    type V = FieldView;

    open spec fn deep_view(&self) -> FieldView {
        self.view()
    }
}

impl Clone for Field {
    fn clone(&self) -> (res: Self)
        ensures
            res == *self,
    {
        Field(self.0.clone(), self.1.clone())
    }
}

} // verus!
