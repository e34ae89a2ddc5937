//! Text made from bytes that the host hands over.

use vstd::prelude::*;

verus! {

/// The text that `String::from_utf8_lossy` makes of a byte string.
pub uninterp spec fn lossy_utf8(b: Seq<u8>) -> Seq<char>;

/// Relies on std's `String::from_utf8_lossy`: each invalid sequence becomes
/// U+FFFD, and the result depends on the bytes alone.
#[verifier::external_body]
fn utf8_lossy(b: &[u8]) -> (r: String)
    ensures
        r@ == lossy_utf8(b@),
{
    String::from_utf8_lossy(b).into_owned()
}

/// Turns host bytes into text, replacing what is not UTF-8.
pub trait LossyConvert {
    spec fn lossy_bytes(&self) -> Seq<u8>;

    fn lossy_convert(&self) -> (r: String)
        ensures
            r@ == lossy_utf8(self.lossy_bytes()),
    ;
}

impl LossyConvert for Vec<u8> {
    open spec fn lossy_bytes(&self) -> Seq<u8> {
        self@
    }

    fn lossy_convert(&self) -> (r: String) {
        utf8_lossy(self.as_slice())
    }
}

} // verus!
