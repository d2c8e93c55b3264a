//! The failures a call can end in.

use vstd::prelude::*;
use vstd::string::*;

verus! {

/// Why an index or search call failed. Each variant but `NotFound` carries the
/// underlying cause as text.
#[derive(Debug, PartialEq, Eq)]
pub enum IndexError {
    /// The file could not be read.
    IoError(String),
    /// Tokenization or inference failed.
    EmbeddingError(String),
    /// The store refused a statement, or an embedding has the wrong dimension.
    StoreError(String),
    /// The store is empty, or the index has no match.
    NotFound,
}

impl IndexError {
    /// The text a failure carries; empty for `NotFound`.
    pub open spec fn cause(self) -> Seq<char> {
        match self {
            IndexError::IoError(m) => m@,
            IndexError::EmbeddingError(m) => m@,
            IndexError::StoreError(m) => m@,
            IndexError::NotFound => Seq::empty(),
        }
    }

    /// The label that `message` puts before the cause.
    pub open spec fn label(self) -> Seq<char> {
        match self {
            IndexError::IoError(_) => "io error: "@,
            IndexError::EmbeddingError(_) => "embedding error: "@,
            IndexError::StoreError(_) => "store error: "@,
            IndexError::NotFound => "not found"@,
        }
    }

    /// A line for the caller: the label of the variant, then the cause.
    pub fn message(&self) -> (text: String)
        ensures
            text@ == self.label() + self.cause(),
    {
        match self {
            IndexError::IoError(m) => "io error: ".to_owned().concat(m.as_str()),
            IndexError::EmbeddingError(m) => "embedding error: ".to_owned().concat(m.as_str()),
            IndexError::StoreError(m) => "store error: ".to_owned().concat(m.as_str()),
            IndexError::NotFound => {
                let text = "not found".to_owned();
                assert(text@ + Seq::<char>::empty() =~= text@);
                text
            },
        }
    }
}

} // verus!
