//! Implementation of the `CFF2` table.
pub mod inst;
pub mod num;

use vstd::prelude::*;

verus! {

/// An INDEX structure of the `CFF2` table.
pub struct IndexData {
    /// The bytes needed to store the offsets
    pub offsize: u8,
    /// Of size count + 1
    pub offsets: Vec<u32>,
    pub data: Vec<u8>,
}

impl IndexData {
    /// Checks that there are as many offsets as data bytes.
    pub fn verify(&self) -> (r: Result<(), &'static str>)
        ensures
            r is Ok <==> self.offsets@.len() == self.data@.len(),
            r is Err ==> r == Err::<(), &'static str>("offsets and data length mismatch"),
    {
        if self.offsets.len() != self.data.len() {
            return Err("offsets and data length mismatch");
        }
        Ok(())
    }
}

/// The `CFF2` table. Not finished: it holds nothing yet, and fonts with
/// `CFF2` outlines cannot be written.
pub struct Table {}

} // verus!
