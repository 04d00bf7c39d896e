//! Free-form key/value entries that most resources accept.
use vstd::prelude::*;

verus! {

/// One metadata entry. Entries are kept in the order they were added.
#[derive(Debug, PartialEq, Eq)]
pub struct MetaData {
    /// Identifier given by the store; absent on entries that were never saved.
    pub id: Option<i32>,
    /// Name of the entry.
    pub key: String,
    /// Any JSON value.
    pub value: serde_json::Value,
}

/// What a [`MetaData`] holds. The JSON value is carried as it is.
#[verifier::ext_equal]
pub struct MetaDataView {
    pub id: Option<i32>,
    pub key: Seq<char>,
    pub value: serde_json::Value,
}

impl MetaDataView {
    /// The entry a builder adds for `key` and `value`: not saved yet, so
    /// without an identifier.
    pub open spec fn unsaved(key: Seq<char>, value: serde_json::Value) -> MetaDataView {
        MetaDataView { id: None, key, value }
    }
}

impl View for MetaData {
    type V = MetaDataView;

    open spec fn view(&self) -> MetaDataView {
        MetaDataView { id: self.id, key: self.key@, value: self.value }
    }
}

impl DeepView for MetaData {
    type V = MetaDataView;

    open spec fn deep_view(&self) -> MetaDataView {
        self@
    }
}

impl Clone for MetaData {
    fn clone(&self) -> (res: Self)
        ensures
            res@ == self@,
    {
        MetaData { id: self.id, key: self.key.clone(), value: self.value.clone() }
    }
}

impl MetaData {
    /// An entry that has not been saved yet.
    pub fn unsaved(key: &str, value: serde_json::Value) -> (res: Self)
        ensures
            res@ == MetaDataView::unsaved(key@, value),
    {
        MetaData { id: None, key: key.to_owned(), value }
    }
}

} // verus!
