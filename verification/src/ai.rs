//! The local embedding model: loading it from a file and checking the text
//! given to it.
use vstd::prelude::*;
use vstd::string::*;
use crate::error::join3;
use crate::error::join2;
use crate::text::{trim, trimmed};

verus! {

/// All errors of the embedding pipeline.
#[derive(Debug, Clone, PartialEq, Eq)]
pub enum AiError {
    /// The model file could not be found at the specified path.
    ModelNotLoaded(String),
    /// The forward inference pass failed.
    InferenceFailed(String),
    /// The input text was empty or too long.
    InvalidInput(String),
}

/// The message text of an [`AiError`].
pub open spec fn ai_error_text(e: AiError) -> Seq<char> {
    match e {
        AiError::ModelNotLoaded(p) => "model file not found at `"@ + p@ + "`"@,
        AiError::InferenceFailed(s) => "inference failed: "@ + s@,
        AiError::InvalidInput(s) => "invalid input: "@ + s@,
    }
}

impl AiError {
    /// The error's message, as its text form prints it.
    pub fn to_string(&self) -> (r: String)
        ensures
            r@ == ai_error_text(*self),
    {
        match self {
            AiError::ModelNotLoaded(p) => join3("model file not found at `", p.as_str(), "`"),
            AiError::InferenceFailed(s) => join2("inference failed: ", s.as_str()),
            AiError::InvalidInput(s) => join2("invalid input: ", s.as_str()),
        }
    }
}

/// `std::path::Path::exists`: whether something exists at a path.
///
/// The answer depends on the file system, so nothing is stated of it.
#[verifier::external_body]
fn path_exists(path: &str) -> (r: bool) {
    std::path::Path::new(path).exists()
}

/// A loaded embedding model.
pub struct EmbeddingModel {
    model_path: String,
}

impl EmbeddingModel {
    /// The model for a path, given whether a file exists there: a missing file
    /// is `ModelNotLoaded(<path>)`.
    pub fn from_existing(path: &str, exists: bool) -> (r: Result<EmbeddingModel, AiError>)
        ensures
            exists ==> (r matches Ok(m) && m.path_spec() == path@),
            !exists ==> (r matches Err(AiError::ModelNotLoaded(p)) && p@ == path@),
    {
        if !exists {
            return Err(AiError::ModelNotLoaded(String::from_str(path)));
        }
        Ok(EmbeddingModel { model_path: String::from_str(path) })
    }

    /// Loads an embedding model from a file path; a missing file is
    /// `ModelNotLoaded(<path>)`.
    pub fn load(path: &str) -> (r: Result<EmbeddingModel, AiError>)
        ensures
            r matches Ok(m) ==> m.path_spec() == path@,
            r matches Err(e) ==> (e matches AiError::ModelNotLoaded(p) && p@ == path@),
    {
        let exists = path_exists(path);
        EmbeddingModel::from_existing(path, exists)
    }

    /// The file path of the model.
    pub closed spec fn path_spec(&self) -> Seq<char> {
        self.model_path@
    }

    /// Returns the file path of the loaded model.
    pub fn path(&self) -> (r: &str)
        ensures
            r@ == self.path_spec(),
    {
        self.model_path.as_str()
    }
}

/// The dimension of an embedding vector.
pub const EMBEDDING_DIM: usize = 384;

/// Checks a text before embedding it: text that is empty once white space is
/// trimmed is `InvalidInput("text cannot be empty")`.
pub fn check_embed_input(text: &str) -> (r: Result<(), AiError>)
    ensures
        trimmed(text@).len() == 0 ==> (r matches Err(AiError::InvalidInput(m)) && m@
            == "text cannot be empty"@),
        trimmed(text@).len() > 0 ==> r is Ok,
{
    if trim(text).unicode_len() == 0 {
        return Err(AiError::InvalidInput(String::from_str("text cannot be empty")));
    }
    Ok(())
}

} // verus!
