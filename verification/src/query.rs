//! Rows of a management-instrumentation query, as far as the readouts read
//! them: each row maps field names to values, and of a value only its text
//! matters.

use vstd::prelude::*;

verus! {

/// The value of one field of a row.
#[derive(Debug, PartialEq, Eq)]
pub enum QueryValue {
    /// A string.
    Text(String),
    /// Anything that is not a string.
    Other,
}

/// The mathematical value of a [`QueryValue`].
pub enum QueryValueView {
    Text(Seq<char>),
    Other,
}

impl View for QueryValue {
    type V = QueryValueView;

    open spec fn view(&self) -> QueryValueView {
        match self {
            QueryValue::Text(text) => QueryValueView::Text(text@),
            QueryValue::Other => QueryValueView::Other,
        }
    }
}

/// One row of a query result: a map from field names to values.
#[derive(Debug, PartialEq, Eq)]
pub struct QueryRow {
    /// Every insertion in order; of two insertions under one name the later
    /// one counts.
    fields: Vec<(String, QueryValue)>,
}

/// The value that the latest of `fields` under `name` holds.
pub open spec fn latest(fields: Seq<(String, QueryValue)>, name: Seq<char>) -> Option<
    QueryValueView,
>
    decreases fields.len(),
{
    if fields.len() == 0 {
        None
    } else if fields.last().0@ == name {
        Some(fields.last().1@)
    } else {
        latest(fields.drop_last(), name)
    }
}

impl View for QueryRow {
    type V = Map<Seq<char>, QueryValueView>;

    closed spec fn view(&self) -> Map<Seq<char>, QueryValueView> {
        Map::new(
            |name: Seq<char>| latest(self.fields@, name) is Some,
            |name: Seq<char>| latest(self.fields@, name)->Some_0,
        )
    }
}

impl QueryRow {
    /// The row without fields.
    pub fn new() -> (row: QueryRow)
        ensures
            row@ == Map::<Seq<char>, QueryValueView>::empty(),
    {
        let row = QueryRow { fields: Vec::new() };
        assert(row@ =~= Map::<Seq<char>, QueryValueView>::empty());
        row
    }

    /// Sets the field `name` to `value`, whether or not the row had it.
    pub fn insert(&mut self, name: String, value: QueryValue)
        ensures
            final(self)@ == old(self)@.insert(name@, value@),
    {
        let ghost before = self.fields@;
        self.fields.push((name, value));
        proof {
            assert(self.fields@.drop_last() =~= before);
            assert forall|other: Seq<char>| #[trigger]
                latest(self.fields@, other) == (if other == name@ {
                    Some(value@)
                } else {
                    latest(before, other)
                }) by {}
            assert(self@ =~= old(self)@.insert(name@, value@));
        }
    }

    /// The value of the field `name`, if the row has it.
    pub fn get(&self, name: &str) -> (value: Option<&QueryValue>)
        ensures
            match value {
                Some(value) => self@.contains_key(name@) && self@[name@] == value@,
                None => !self@.contains_key(name@),
            },
    {
        let wanted = name.to_owned();
        let mut index = self.fields.len();
        assert(self.fields@.subrange(0, index as int) =~= self.fields@);
        while index > 0
            invariant
                index <= self.fields.len(),
                wanted@ == name@,
                latest(self.fields@, name@) == latest(self.fields@.subrange(0, index as int), name@),
            decreases index,
        {
            index = index - 1;
            let ghost upto = self.fields@.subrange(0, index + 1);
            assert(upto.last() == self.fields@[index as int]);
            assert(upto.drop_last() =~= self.fields@.subrange(0, index as int));
            if self.fields[index].0 == wanted {
                return Some(&self.fields[index].1);
            }
        }
        assert(self.fields@.subrange(0, 0).len() == 0);
        None
    }
}

} // verus!
