use vstd::prelude::*;

verus! {

/// Why a process could not be launched or a definition could not be read.
#[derive(Clone, Debug)]
pub enum MultiHostError {
    /// The operating system refused an I/O operation; the text is its message.
    Io(String),
    /// Any other failure, described in words.
    Simple(String),
}

/// The human-readable description of an error.
pub open spec fn error_text(e: MultiHostError) -> Seq<char> {
    match e {
        MultiHostError::Io(t) => "IO error: "@ + t@,
        MultiHostError::Simple(t) => "Simple error: `"@ + t@ + "`"@,
    }
}

impl MultiHostError {
    /// Describes the error in one line of text.
    pub fn describe(&self) -> (r: String)
        ensures
            r@ == error_text(*self),
    {
        match self {
            MultiHostError::Io(t) => {
                let r = String::from_str("IO error: ");
                r.concat(t.as_str())
            },
            MultiHostError::Simple(t) => {
                let r = String::from_str("Simple error: `");
                let r = r.concat(t.as_str());
                r.concat("`")
            },
        }
    }
}

} // verus!
