//! File system paths.
use vstd::prelude::*;
use vstd::utf8::{decode_utf8, valid_utf8};

verus! {

/// What [`String::from_utf8_lossy`] makes of `bytes`.
pub uninterp spec fn utf8_lossy(bytes: Seq<u8>) -> Seq<char>;

/// Calls [`String::from_utf8_lossy`], whose result depends on the bytes alone.
/// Trusted of it: bytes that are valid UTF-8 come out as the text they encode,
/// and bytes that are not come out with a replacement character in them. How
/// many replacement characters stand for which bytes is left unsaid.
#[verifier::external_body]
fn decode_lossy(bytes: &Vec<u8>) -> (res: String)
    ensures
        res@ == utf8_lossy(bytes@),
        valid_utf8(bytes@) ==> res@ == decode_utf8(bytes@),
        !valid_utf8(bytes@) ==> res@.contains('\u{FFFD}'),
{
    String::from_utf8_lossy(bytes).into_owned()
}

/// A file system path: the bytes by which the operating system knows it. They
/// need not be UTF-8.
#[derive(Debug, PartialEq, Eq)]
pub struct FsPath {
    bytes: Vec<u8>,
}

impl View for FsPath {
    type V = Seq<u8>;

    closed spec fn view(&self) -> Seq<u8> {
        self.bytes@
    }
}

impl Clone for FsPath {
    fn clone(&self) -> (res: FsPath)
        ensures
            res@ == self@,
    {
        let bytes = self.bytes.clone();
        proof {
            assert(bytes@ =~= self.bytes@);
        }
        FsPath { bytes }
    }
}

impl FsPath {
    /// The path that consists of `bytes`.
    pub fn new(bytes: Vec<u8>) -> (res: FsPath)
        ensures
            res@ == bytes@,
    {
        FsPath { bytes }
    }

    /// The bytes of the path.
    pub fn as_bytes(&self) -> (res: &Vec<u8>)
        ensures
            res@ == self@,
    {
        &self.bytes
    }

    /// The path as text. A path that is valid UTF-8 is shown exactly; any other
    /// is shown with replacement characters.
    pub fn display(&self) -> (res: String)
        ensures
            res@ == utf8_lossy(self@),
            valid_utf8(self@) ==> res@ == decode_utf8(self@),
            !valid_utf8(self@) ==> res@.contains('\u{FFFD}'),
    {
        decode_lossy(&self.bytes)
    }
}

/// The texts of a list of paths.
pub open spec fn shown(paths: Seq<&FsPath>) -> Seq<Seq<char>> {
    paths.map_values(|p: &FsPath| utf8_lossy(p@))
}

/// The path that consists of `bytes`, where they are UTF-8, is shown as the text that
/// they encode.
pub open spec fn shown_exactly_if_utf8(bytes: Seq<u8>) -> bool {
    valid_utf8(bytes) ==> utf8_lossy(bytes) == decode_utf8(bytes)
}

} // verus!
