//! Client-side core of an embedding-generation pipeline.
//!
//! A vision-language model is held by a native inference backend behind an
//! opaque context.  This crate owns everything on the host side of that
//! boundary: the model lifecycle (configure, load, release exactly once),
//! hyperparameter views, tokenization requests, image preprocessing, and the
//! shaping of encoded output into fixed-length embedding vectors.
//!
//! The native backend itself performs no decisions: every check and every
//! buffer layout is decided here, and an unverified driver merely carries the
//! resulting requests to the backend and hands its answers back.  Numeric
//! 32-bit float values cross the boundary as their IEEE-754 bit patterns, so
//! the core never computes with floating point itself.

use vstd::prelude::*;

mod image;
mod model;
mod params;

pub use crate::image::{image_wf, Image, RGBImage};
pub use crate::model::{
    backend_model_ok, blob_dims_ok, has_nul, lemma_normalized_shape, lemma_projection_dims_agree,
    normalized_of, BackendModel, BatchEncodeJob, Blob, EncodeJob, LoadRequest, Model, ModelBuilder,
    TokenizeRequest, Tokens, Verbosity,
};
pub use crate::params::{TextParams, VisionParams};

verus! {

/// Every failure the pipeline can surface to a caller.  All are recoverable:
/// the caller may re-invoke the corresponding operation.
#[derive(Debug, Clone, Copy, PartialEq, Eq, Structural)]
pub enum Error {
    /// The model path does not reference an existing file.
    PathNotFound,
    /// The backend returned no usable context, or what it reported about the
    /// loaded model was unusable (for example, text and vision towers that
    /// project into embedding spaces of different dimensions).
    ModelLoadFailed,
    /// The text to tokenize held an embedded null byte, so no
    /// null-terminated string for the backend can represent it.
    TokenizeInvalidText,
    /// The backend's tokenizer rejected the text.
    TokenizeBackendRejected,
    /// A backend-delegated preprocessing call reported failure.
    PreprocessBackendRejected,
    /// An image was offered for encoding whose blob dimensions differ from
    /// the square input size the vision tower expects.
    ImageSizeMismatch { expected: u32, found_width: u32, found_height: u32 },
}

impl Error {
    /// A short human-readable description of the failure.
    pub fn message(&self) -> (r: String)
        ensures
            r@.len() > 0,
            self is PathNotFound ==> r@ == "model path did not exist"@,
            self is ModelLoadFailed ==> r@ == "model failed to load"@,
            self is TokenizeInvalidText ==> r@ == "text to tokenize held an embedded null byte"@,
            self is TokenizeBackendRejected ==> r@ == "backend failed to tokenize text"@,
            self is PreprocessBackendRejected ==> r@ == "backend failed to preprocess image"@,
            self is ImageSizeMismatch ==> r@
                == "image dimensions did not match the model's input size"@,
    {
        let m: &str = match self {
            Error::PathNotFound => "model path did not exist",
            Error::ModelLoadFailed => "model failed to load",
            Error::TokenizeInvalidText => "text to tokenize held an embedded null byte",
            Error::TokenizeBackendRejected => "backend failed to tokenize text",
            Error::PreprocessBackendRejected => "backend failed to preprocess image",
            Error::ImageSizeMismatch { .. } => "image dimensions did not match the model's input size",
        };
        proof {
            reveal_strlit("model path did not exist");
            reveal_strlit("model failed to load");
            reveal_strlit("text to tokenize held an embedded null byte");
            reveal_strlit("backend failed to tokenize text");
            reveal_strlit("backend failed to preprocess image");
            reveal_strlit("image dimensions did not match the model's input size");
        }
        m.to_owned()
    }
}

} // verus!
