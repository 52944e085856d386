//! Rows of the data table.
use vstd::prelude::*;

use crate::text::{text_eq, TextArg};

verus! {

/// A type that can be shown as a table row.
pub trait TableRow {
    /// The row's value in the column `column_id`, if it has one.
    spec fn value_of(&self, column_id: Seq<char>) -> Option<Seq<char>>;

    /// The value for a column.
    fn get_value(&self, column_id: &str) -> (v: Option<String>)
        ensures
            match v {
                Some(s) => self.value_of(column_id@) == Some(s@),
                None => self.value_of(column_id@) is None,
            },
    ;

    /// A unique identifier for the row, if it has one; rows have none unless
    /// their type says otherwise.
    fn row_id(&self) -> (r: Option<String>)
        default_ensures
            r is None,
    {
        None
    }
}

/// The value stored last under `key` in a list of (key, value) entries.
pub open spec fn lookup(entries: Seq<(Seq<char>, Seq<char>)>, key: Seq<char>) -> Option<Seq<char>>
    decreases entries.len(),
{
    if entries.len() == 0 {
        None
    } else if entries.last().0 == key {
        Some(entries.last().1)
    } else {
        lookup(entries.drop_last(), key)
    }
}

/// A row made of (column, value) pairs; a later value for a column replaces
/// an earlier one.
#[derive(Debug, Clone)]
pub struct SimpleRow {
    id: Option<String>,
    values: Vec<(String, String)>,
}

impl SimpleRow {
    /// The (column, value) entries, oldest first.
    pub closed spec fn entries(&self) -> Seq<(Seq<char>, Seq<char>)> {
        self.values@.map_values(|e: (String, String)| (e.0@, e.1@))
    }

    /// The row identifier.
    pub closed spec fn ident(&self) -> Option<Seq<char>> {
        match self.id {
            Some(s) => Some(s@),
            None => None,
        }
    }

    /// A row with no values and no identifier.
    pub fn new() -> (r: SimpleRow)
        ensures
            r.entries() == Seq::<(Seq<char>, Seq<char>)>::empty(),
            r.ident() is None,
    {
        let r = SimpleRow { id: None, values: Vec::new() };
        assert(r.entries() =~= Seq::<(Seq<char>, Seq<char>)>::empty());
        r
    }

    /// Set the row identifier.
    pub fn with_id(self, id: impl TextArg) -> (r: SimpleRow)
        ensures
            r.ident() == Some(id.text_view()),
            r.entries() == self.entries(),
    {
        SimpleRow { id: Some(id.into_text()), ..self }
    }

    /// Set the value of a column.
    pub fn with_value(self, column_id: impl TextArg, value: impl TextArg) -> (r: SimpleRow)
        ensures
            r.entries() == self.entries().push((column_id.text_view(), value.text_view())),
            r.ident() == self.ident(),
    {
        let mut r = self;
        let k = column_id.into_text();
        let v = value.into_text();
        let ghost old_entries = r.entries();
        r.values.push((k, v));
        assert(r.entries() =~= old_entries.push((k@, v@)));
        r
    }
}

impl Default for SimpleRow {
    fn default() -> (r: SimpleRow)
        ensures
            r.entries() == Seq::<(Seq<char>, Seq<char>)>::empty(),
            r.ident() is None,
    {
        SimpleRow::new()
    }
}

impl TableRow for SimpleRow {
    open spec fn value_of(&self, column_id: Seq<char>) -> Option<Seq<char>> {
        lookup(self.entries(), column_id)
    }

    fn get_value(&self, column_id: &str) -> (v: Option<String>) {
        let n = self.values.len();
        let mut i = n;
        assert(self.entries().take(n as int) =~= self.entries());
        while i > 0
            invariant
                i <= n,
                n == self.values@.len(),
                lookup(self.entries(), column_id@) == lookup(self.entries().take(i as int), column_id@),
            decreases i,
        {
            let ghost t = self.entries().take(i as int);
            assert(t.drop_last() =~= self.entries().take(i - 1));
            if text_eq(self.values[i - 1].0.as_str(), column_id) {
                return Some(self.values[i - 1].1.clone());
            }
            i = i - 1;
        }
        None
    }

    fn row_id(&self) -> (r: Option<String>)
        ensures
            match r {
                Some(s) => self.ident() == Some(s@),
                None => self.ident() is None,
            },
    {
        match &self.id {
            Some(s) => Some(s.clone()),
            None => None,
        }
    }
}

} // verus!
