use vstd::prelude::*;
use crate::text::{copy_text, copy_texts, same_text, texts};

verus! {

/// A value written in an account document.
#[derive(Clone, Debug, PartialEq, Eq)]
pub enum DocValue {
    Text(String),
    Flag(bool),
    Number(u64),
    List(Vec<String>),
    /// A table of one key whose value is a list of texts, such as
    /// `{ include = ["INBOX"] }`.
    Tagged(String, Vec<String>),
}

/// The mathematical form of a [`DocValue`].
pub enum DocValueView {
    Text(Seq<char>),
    Flag(bool),
    Number(u64),
    List(Seq<Seq<char>>),
    Tagged(Seq<char>, Seq<Seq<char>>),
}

impl View for DocValue {
    type V = DocValueView;

    open spec fn view(&self) -> DocValueView {
        match self {
            DocValue::Text(s) => DocValueView::Text(s@),
            DocValue::Flag(b) => DocValueView::Flag(*b),
            DocValue::Number(n) => DocValueView::Number(*n),
            DocValue::List(v) => DocValueView::List(texts(v@)),
            DocValue::Tagged(t, v) => DocValueView::Tagged(t@, texts(v@)),
        }
    }
}

pub open spec fn opt_value(v: Option<DocValue>) -> Option<DocValueView> {
    match v {
        Some(x) => Some(x@),
        None => None,
    }
}

impl DocValue {
    /// An owned copy of the value.
    pub fn duplicate(&self) -> (r: DocValue)
        ensures
            r@ == self@,
    {
        match self {
            DocValue::Text(s) => DocValue::Text(copy_text(s)),
            DocValue::Flag(b) => DocValue::Flag(*b),
            DocValue::Number(n) => DocValue::Number(*n),
            DocValue::List(v) => DocValue::List(copy_texts(v)),
            DocValue::Tagged(t, v) => DocValue::Tagged(copy_text(t), copy_texts(v)),
        }
    }
}

/// One `key = value` line of an account document.
#[derive(Clone, Debug, PartialEq, Eq)]
pub struct DocEntry {
    pub key: String,
    pub value: DocValue,
}

/// An account document: its entries in the order they were written.
#[derive(Clone, Debug, PartialEq, Eq)]
pub struct Document {
    pub entries: Vec<DocEntry>,
}

/// The value of the last entry whose key is `key`: a later entry overrides an
/// earlier one.
pub open spec fn lookup(entries: Seq<DocEntry>, key: Seq<char>) -> Option<DocValueView>
    decreases entries.len(),
{
    if entries.len() == 0 {
        None
    } else if entries.last().key@ == key {
        Some(entries.last().value@)
    } else {
        lookup(entries.drop_last(), key)
    }
}

impl Document {
    pub open spec fn get_spec(&self, key: Seq<char>) -> Option<DocValueView> {
        lookup(self.entries@, key)
    }

    pub fn new() -> (r: Document)
        ensures
            r.entries@.len() == 0,
    {
        Document { entries: Vec::new() }
    }

    /// Adds `key = value` after the entries already there.
    pub fn set(&mut self, key: String, value: DocValue)
        ensures
            final(self).entries@ == old(self).entries@.push(DocEntry { key, value }),
    {
        self.entries.push(DocEntry { key, value });
    }

    /// The value that the document gives to `key`.
    pub fn get(&self, key: &str) -> (r: Option<DocValue>)
        ensures
            opt_value(r) == self.get_spec(key@),
    {
        let mut i: usize = self.entries.len();
        assert(self.entries@.subrange(0, i as int) =~= self.entries@);
        while i > 0
            invariant
                i <= self.entries@.len(),
                lookup(self.entries@, key@) == lookup(self.entries@.subrange(0, i as int), key@),
            decreases i,
        {
            let ghost prefix = self.entries@.subrange(0, i as int);
            assert(prefix.drop_last() =~= self.entries@.subrange(0, i - 1));
            if same_text(self.entries[i - 1].key.as_str(), key) {
                return Some(self.entries[i - 1].value.duplicate());
            }
            i = i - 1;
        }
        None
    }
}

} // verus!
