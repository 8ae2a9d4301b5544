use crate::text::{ascii, decimal, decimal_text, push_char};
use vstd::prelude::*;
use vstd::string::StringExecFns;

verus! {

/// A value of the protocol. An array owns its elements.
#[derive(Debug, PartialEq, Eq)]
pub enum Data {
    String(String),
    Integer(i64),
    Array(Vec<Box<Data>>),
    Null,
}

/// The mathematical content of a [`Data`].
pub enum DataView {
    String(Seq<char>),
    Integer(int),
    Array(Seq<DataView>),
    Null,
}

impl DataView {
    /// How a value is shown: a string, an integer and the null value as their
    /// literal text, an array as the text of each element followed by a line
    /// break, in order.
    pub open spec fn text(self) -> Seq<char>
        decreases self, 0nat,
    {
        match self {
            DataView::String(s) => s,
            DataView::Integer(i) => ascii(decimal(i)),
            DataView::Array(items) => Self::lines(items, items.len()),
            DataView::Null => "null"@,
        }
    }

    /// The text of the first `n` elements of `items`, one line each.
    pub open spec fn lines(items: Seq<DataView>, n: nat) -> Seq<char>
        decreases items, n,
    {
        if 0 < n <= items.len() {
            Self::lines(items, (n - 1) as nat) + items[n - 1].text().push('\n')
        } else {
            Seq::empty()
        }
    }
}

/// The contents of the elements of an array, in order.
pub open spec fn models(items: Vec<Box<Data>>) -> Seq<DataView> {
    Seq::new(
        items.len() as nat,
        |i: int|
            if 0 <= i < items.len() {
                items[i].model()
            } else {
                DataView::Null
            },
    )
}

impl Data {
    /// The content of this value, element by element.
    pub open spec fn model(self) -> DataView
        decreases self,
    {
        match self {
            Data::String(s) => DataView::String(s@),
            Data::Integer(i) => DataView::Integer(i as int),
            Data::Array(items) => DataView::Array(
                Seq::new(
                    items.len() as nat,
                    |i: int|
                        if 0 <= i < items.len() {
                            items[i].model()
                        } else {
                            DataView::Null
                        },
                ),
            ),
            Data::Null => DataView::Null,
        }
    }

    /// The text that shows this value.
    pub fn text(&self) -> (text: String)
        ensures
            text@ == self@.text(),
        decreases self,
    {
        match self {
            Data::String(s) => s.clone(),
            Data::Integer(i) => decimal_text(*i),
            Data::Array(items) => {
                let mut text = String::new();
                let mut i: usize = 0;
                while i < items.len()
                    invariant
                        i <= items.len(),
                        self == Data::Array(*items),
                        text@ == DataView::lines(self@->Array_0, i as nat),
                    decreases items.len() - i,
                {
                    let line = items[i].text();
                    text.append(line.as_str());
                    push_char(&mut text, '\n');
                    i = i + 1;
                }
                text
            },
            Data::Null => String::from_str("null"),
        }
    }
}

impl Data {
    /// A copy of this value, element by element.
    pub fn duplicate(&self) -> (copy: Data)
        ensures
            copy@ == self@,
        decreases self,
    {
        match self {
            Data::String(s) => Data::String(s.clone()),
            Data::Integer(i) => Data::Integer(*i),
            Data::Array(items) => {
                let mut copies: Vec<Box<Data>> = Vec::new();
                let mut i: usize = 0;
                while i < items.len()
                    invariant
                        i <= items.len(),
                        self == Data::Array(*items),
                        copies.len() == i,
                        forall|j: int| 0 <= j < i ==> copies[j].model() == items[j].model(),
                    decreases items.len() - i,
                {
                    assert(decreases_to!(self => self->Array_0));
                    assert(decreases_to!(*items => items[i as int]));
                    let copy = items[i].duplicate();
                    copies.push(Box::new(copy));
                    i = i + 1;
                }
                assert(models(copies) =~= models(*items));
                assert(Data::Array(copies).model()->Array_0 =~= models(copies));
                assert(self.model()->Array_0 =~= models(*items));
                Data::Array(copies)
            },
            Data::Null => Data::Null,
        }
    }
}

impl Clone for Data {
    fn clone(&self) -> (copy: Data)
        ensures
            copy@ == self@,
    {
        self.duplicate()
    }
}

impl View for Data {
    type V = DataView;

    open spec fn view(&self) -> DataView {
        self.model()
    }
}

} // verus!
