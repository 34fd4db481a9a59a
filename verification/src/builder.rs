use vstd::prelude::*;

verus! {

/// Collects optional settings one call at a time; each setter consumes the
/// builder and hands back an updated one.
pub struct Builder {
    pub field1: Option<i32>,
    pub field2: Option<String>,
}

impl Builder {
    /// Starts a builder with no settings made.
    pub fn new() -> (builder: Builder)
        ensures
            builder.field1 is None,
            builder.field2 is None,
    {
        Builder { field1: None, field2: None }
    }

    /// Records the first setting, keeping the second as it was.
    pub fn field1(self, value: i32) -> (builder: Builder)
        ensures
            builder.field1 == Some(value),
            builder.field2 == self.field2,
    {
        Builder { field1: Some(value), field2: self.field2 }
    }

    /// Records the second setting, keeping the first as it was.
    pub fn field2(self, value: String) -> (builder: Builder)
        ensures
            builder.field1 == self.field1,
            builder.field2 == Some(value),
    {
        Builder { field1: self.field1, field2: Some(value) }
    }
}

} // verus!
