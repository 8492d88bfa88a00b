use vstd::prelude::*;

verus! {

/// A path as the operating system hands it out: bytes that need not be UTF-8.
#[derive(Clone, Debug, PartialEq, Eq)]
pub struct FilePath {
    pub bytes: Vec<u8>,
}

impl View for FilePath {
    type V = Seq<u8>;

    open spec fn view(&self) -> Seq<u8> {
        self.bytes@
    }
}

} // verus!
