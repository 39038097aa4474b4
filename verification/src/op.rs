//! The description of one write operation.

use vstd::prelude::*;

verus! {

/// What is being written: the path of the destination and the number of bytes
/// the caller announced for it. A writer keeps a copy for the whole upload and
/// shows it to the response handler; nothing ever changes it.
#[derive(Debug)]
pub struct OpWrite {
    path: String,
    size: u64,
}

impl OpWrite {
    /// The path, as a sequence of characters.
    pub closed spec fn spec_path(&self) -> Seq<char> {
        self.path@
    }

    /// The announced size.
    pub closed spec fn spec_size(&self) -> u64 {
        self.size
    }

    /// Describes a write of `size` bytes to `path`.
    pub fn new(path: &str, size: u64) -> (op: OpWrite)
        ensures
            op.spec_path() == path@,
            op.spec_size() == size,
    {
        OpWrite { path: path.to_owned(), size }
    }

    /// The path of the destination.
    pub fn path(&self) -> (p: &str)
        ensures
            p@ == self.spec_path(),
    {
        self.path.as_str()
    }

    /// The number of bytes announced for the destination.
    pub fn size(&self) -> (n: u64)
        ensures
            n == self.spec_size(),
    {
        self.size
    }
}

impl Clone for OpWrite {
    /// The copy is equal to the value it was made from.
    fn clone(&self) -> (op: OpWrite)
        ensures
            op == *self,
    {
        OpWrite { path: self.path.clone(), size: self.size }
    }
}

} // verus!
