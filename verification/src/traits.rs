//! Values that show as bytes, and through their bytes as hexadecimal text.

use crate::hexadecimal::{encode, hex_string};
use vstd::prelude::*;
use vstd::slice::slice_to_vec;

verus! {

/// A value that shows as hexadecimal text.
pub trait AsHex {
    /// The text the value shows as.
    spec fn hex_text(&self) -> Seq<char>;

    fn as_hex_string(&self) -> (text: String)
        ensures
            text@ == self.hex_text(),
    ;
}

/// A value that shows as bytes.
pub trait AsBytes {
    /// The bytes the value shows as.
    spec fn bytes(&self) -> Seq<u8>;

    fn as_bytes(&self) -> (bytes: Vec<u8>)
        ensures
            bytes@ == self.bytes(),
    ;
}

/// Whatever shows as bytes shows as the hexadecimal text of those bytes.
impl<T> AsHex for T where T: AsBytes {
    open spec fn hex_text(&self) -> Seq<char> {
        hex_string(self.bytes())
    }

    fn as_hex_string(&self) -> (text: String) {
        let bytes = self.as_bytes();
        encode(bytes.as_slice())
    }
}

/// A slice of bytes shows as itself.
impl AsBytes for &[u8] {
    open spec fn bytes(&self) -> Seq<u8> {
        self@
    }

    fn as_bytes(&self) -> (bytes: Vec<u8>) {
        slice_to_vec(*self)
    }
}

} // verus!
