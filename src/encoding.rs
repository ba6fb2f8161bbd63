//! Text encodings that Gopher documents are shown in.
use vstd::prelude::*;
use crate::text::{str_eq, upper_of, uppercase};

verus! {

/// The encoding a document is decoded with.
#[derive(Copy, Clone, PartialEq, Eq, Structural, Debug)]
pub enum Encoding {
    /// Unicode.
    UTF8,
    /// IBM PC code page 437.
    CP437,
}

/// The encoding a name selects, compared without regard to case, or the
/// message that rejects the name.
pub open spec fn encoding_named(name: Seq<char>) -> Result<Encoding, Seq<char>> {
    let u = upper_of(name);
    if u == "UTF8"@ || u == "UTF-8"@ {
        Ok(Encoding::UTF8)
    } else if u == "CP437"@ || u == "PC"@ {
        Ok(Encoding::CP437)
    } else {
        Err("unknown encoding: "@ + name)
    }
}

impl Encoding {
    /// The encoding named `name` ("UTF8", "UTF-8", "CP437" or "PC", in any
    /// case), or the message that rejects it.
    pub fn from_str(name: &str) -> (r: Result<Encoding, String>)
        ensures
            match r {
                Ok(e) => encoding_named(name@) == Ok::<Encoding, Seq<char>>(e),
                Err(m) => encoding_named(name@) == Err::<Encoding, Seq<char>>(m@),
            },
    {
        let u = uppercase(name);
        let u = u.as_str();
        if str_eq(u, "UTF8") || str_eq(u, "UTF-8") {
            Ok(Encoding::UTF8)
        } else if str_eq(u, "CP437") || str_eq(u, "PC") {
            Ok(Encoding::CP437)
        } else {
            Err(String::from_str("unknown encoding: ").concat(name))
        }
    }
}

} // verus!
