//! One source file of a package, up to the text that the parser receives.

use vstd::prelude::*;
use vstd::utf8::{decode_utf8, valid_utf8};

verus! {

/// A source file, named by its path.
#[derive(Clone, Debug)]
pub struct ModuleFile {
    filename: String,
}

impl View for ModuleFile {
    type V = Seq<char>;

    closed spec fn view(&self) -> Seq<char> {
        self.filename@
    }
}

/// The text that `String::from_utf8_lossy` makes of `bytes`.
pub uninterp spec fn lossy_text(bytes: Seq<u8>) -> Seq<char>;

/// `String::from_utf8_lossy`: the bytes decoded as UTF-8, with the
/// replacement character in place of each sequence that is not valid.
///
/// Not proved. Of bytes that are valid UTF-8 the standard library returns
/// the text that they encode; of any others the contract gives the result a
/// name and says no more.
#[verifier::external_body]
fn from_utf8_lossy(bytes: &[u8]) -> (text: String)
    ensures
        text@ == lossy_text(bytes@),
        valid_utf8(bytes@) ==> text@ == decode_utf8(bytes@),
{
    String::from_utf8_lossy(bytes).into_owned()
}

impl ModuleFile {
    /// The source file at `filename`.
    pub fn new(filename: String) -> (file: ModuleFile)
        ensures
            file@ == filename@,
    {
        ModuleFile { filename }
    }

    /// The path of the file.
    pub fn filename(&self) -> (path: &str)
        ensures
            path@ == self@,
    {
        self.filename.as_str()
    }

    /// The text to parse, given the file's content. Content that is not
    /// valid UTF-8 is no failure: it is read as far as it can be.
    pub fn text(&self, content: &[u8]) -> (text: String)
        ensures
            text@ == lossy_text(content@),
            valid_utf8(content@) ==> text@ == decode_utf8(content@),
    {
        from_utf8_lossy(content)
    }
}

} // verus!
