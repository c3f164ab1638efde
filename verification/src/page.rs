//! A 4KB page, used for the MSR-interception bitmap: zero-initialized at
//! construction of the control object, later populated by the configurator.

use vstd::prelude::*;

verus! {

/// Size of one page in bytes.
pub const PAGE_SIZE: usize = 4096;

/// A full page of zero bytes.
pub open spec fn page_zeroed(bytes: Seq<u8>) -> bool {
    &&& bytes.len() == PAGE_SIZE
    &&& forall|i: int| 0 <= i < bytes.len() ==> bytes[i] == 0
}

/// One exclusively owned page.
pub struct Page {
    bytes: Vec<u8>,
}

impl Page {
    /// The page's contents, byte for byte.
    pub closed spec fn contents(&self) -> Seq<u8> {
        self.bytes@
    }

    /// A full page of zero bytes.
    pub open spec fn is_zeroed(&self) -> bool {
        page_zeroed(self.contents())
    }

    /// Allocates a zero-initialized page.
    pub fn zeroed() -> (p: Page)
        ensures
            p.is_zeroed(),
    {
        let mut bytes: Vec<u8> = Vec::new();
        let mut i: usize = 0;
        while i < PAGE_SIZE
            invariant
                i <= PAGE_SIZE,
                bytes@.len() == i,
                forall|j: int| 0 <= j < i ==> bytes@[j] == 0,
            decreases PAGE_SIZE - i,
        {
            bytes.push(0);
            i = i + 1;
        }
        Page { bytes }
    }

    /// Byte at `index`.
    pub fn byte_at(&self, index: usize) -> (b: u8)
        requires
            index < self.contents().len(),
        ensures
            b == self.contents()[index as int],
    {
        self.bytes[index]
    }
}

} // verus!
