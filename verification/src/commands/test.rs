//! `/test`: echoing the rows of the test table.
use vstd::prelude::*;

verus! {

/// A row of the test table.
pub struct TestRow {
    test: Option<String>,
}

impl View for TestRow {
    type V = Option<Seq<char>>;

    closed spec fn view(&self) -> Option<Seq<char>> {
        match self.test {
            Some(t) => Some(t@),
            None => None,
        }
    }
}

impl TestRow {
    /// The row with this value in its `test` column.
    pub fn new(test: Option<String>) -> (r: TestRow)
        ensures
            r@ == (match test {
                Some(t) => Some(t@),
                None => None,
            }),
    {
        TestRow { test }
    }

    /// Whether the row holds a value to say.
    pub fn has_reply(&self) -> (b: bool)
        ensures
            b == self@ is Some,
    {
        self.test.is_some()
    }

    /// What the command says for the row: its value.
    pub fn into_reply(self) -> (s: String)
        requires
            self@ is Some,
        ensures
            s@ == self@->0,
    {
        match self.test {
            Some(t) => t,
            None => String::new(),
        }
    }
}

} // verus!
