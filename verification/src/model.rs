//! Model lifecycle and the encode pipeline.
//!
//! The native backend is driven through a strict protocol: the verified core
//! decides, an unverified driver performs.  Each backend operation is split
//! into a *request* step (validation and marshalling, decided here) and an
//! *acceptance* step (taking the backend's answer back into host-owned
//! values, also decided here); the driver's only job is to carry a request to
//! the native call it authorizes and to hand the raw answer back.

use vstd::prelude::*;

use crate::Error;
use crate::image::{image_wf, Image};
use crate::params::{TextParams, VisionParams};
use vstd::string::StringSliceAdditionalSpecFns;

verus! {

/// True when a byte string holds an embedded null byte and therefore has no
/// null-terminated representation.
pub open spec fn has_nul(bytes: Seq<u8>) -> bool {
    exists|i: int| 0 <= i < bytes.len() && bytes[i] == 0
}

/// How chatty the backend is while loading a model file.
#[derive(Debug, Clone, Copy, PartialEq, Eq, Structural)]
pub enum Verbosity {
    Minimum,
    Default,
    Maximum,
}

impl Verbosity {
    /// The integer code the native interface expects for this level.
    pub fn code(&self) -> (r: i32)
        ensures
            r == match *self {
                Verbosity::Minimum => 0i32,
                Verbosity::Default => 1i32,
                Verbosity::Maximum => 2i32,
            },
    {
        match self {
            Verbosity::Minimum => 0,
            Verbosity::Default => 1,
            Verbosity::Maximum => 2,
        }
    }
}

impl Default for Verbosity {
    fn default() -> (r: Self)
        ensures
            r == Verbosity::Default,
    {
        Verbosity::Default
    }
}

/// Configuration gathered before the single load call: a model path in OS
/// bytes, a verbosity level, and a positive thread count.
pub struct ModelBuilder {
    pub path: Vec<u8>,
    pub verbosity: Verbosity,
    pub threads: i32,
}

impl ModelBuilder {
    /// Chooses the backend's verbosity while loading.
    pub fn verbosity(self, verbosity: Verbosity) -> (r: Self)
        ensures
            r.path@ == self.path@,
            r.verbosity == verbosity,
            r.threads == self.threads,
    {
        ModelBuilder { verbosity, ..self }
    }

    /// Chooses how many worker threads each backend compute call may use.
    pub fn threads(self, threads: usize) -> (r: Self)
        requires
            1 <= threads <= i32::MAX,
        ensures
            r.path@ == self.path@,
            r.verbosity == self.verbosity,
            r.threads == threads,
    {
        ModelBuilder { threads: threads as i32, ..self }
    }

    /// Decides whether the backend's load call may be made at all.
    ///
    /// The caller reports whether the path references an existing file; a
    /// load request comes back exactly when it does and the path also has a
    /// null-terminated representation.  On any refusal the answer is
    /// `PathNotFound` and no request — so a driver that only loads on a
    /// request can never hand a nonexistent path to the backend.
    pub fn build(self, path_exists: bool) -> (r: Result<LoadRequest, Error>)
        requires
            self.threads >= 1,
        ensures
            r is Ok <==> path_exists && !has_nul(self.path@),
            r is Err ==> r == Err::<LoadRequest, Error>(Error::PathNotFound),
            r matches Ok(q) ==> q.path@ == self.path@ && q.verbosity == self.verbosity
                && q.threads == self.threads && q.wf(),
    {
        if !path_exists {
            return Err(Error::PathNotFound);
        }
        let n = self.path.len();
        let mut i: usize = 0;
        while i < n
            invariant
                i <= n,
                n == self.path@.len(),
                forall|j: int| 0 <= j < i ==> self.path@[j] != 0,
            decreases n - i,
        {
            if self.path[i] == 0 {
                return Err(Error::PathNotFound);
            }
            i += 1;
        }
        Ok(LoadRequest { path: self.path, verbosity: self.verbosity, threads: self.threads })
    }
}

/// Authorization to make the backend's load call, handed out only for a path
/// that exists and can be null-terminated.
pub struct LoadRequest {
    pub path: Vec<u8>,
    pub verbosity: Verbosity,
    pub threads: i32,
}

impl LoadRequest {
    /// A load request never holds an embedded null byte in its path, and its
    /// thread count is positive.
    pub open spec fn wf(&self) -> bool {
        !has_nul(self.path@) && self.threads >= 1
    }
}

/// Everything the driver copies out of a freshly loaded native context.
///
/// `ctx` is a nonzero token standing for the opaque context (zero is
/// reserved for "no context").  `norm_table` is the host-computed
/// normalization table: entry `3 * b + c` holds the bit pattern of
/// `(b / 255 - mean[c]) / std[c]` for byte value `b` and channel `c`, the
/// per-channel scaling the backend expects, evaluated by the driver from the
/// model's mean and std once at load time.
pub struct BackendModel {
    pub ctx: usize,
    pub text_params: TextParams,
    pub vision_params: VisionParams,
    pub mean_bits: [u32; 3],
    pub std_bits: [u32; 3],
    pub norm_table: Vec<u32>,
}

/// What a backend answer must look like before a handle is made of it:
/// a context that exists, sane dimensions, agreeing projection dimensions
/// (without that, text and image embeddings would not be comparable), and a
/// complete normalization table.
pub open spec fn backend_model_ok(b: &BackendModel) -> bool {
    &&& b.ctx != 0
    &&& b.text_params.projection_dim >= 0
    &&& b.text_params.projection_dim == b.vision_params.projection_dim
    &&& b.vision_params.image_size >= 0
    &&& b.norm_table@.len() == 768
}

/// A loaded model: the sole owner of one opaque backend context, together
/// with everything copied out of the backend at load time.
pub struct Model {
    /// Nonzero while the native context is owned; zero after release.
    ctx: usize,
    threads: i32,
    text_params: TextParams,
    vision_params: VisionParams,
    mean_bits: [u32; 3],
    std_bits: [u32; 3],
    norm_table: Vec<u32>,
}

impl Model {
    /// The text tower's hyperparameters.
    pub closed spec fn spec_text_params(&self) -> TextParams {
        self.text_params
    }

    /// The vision tower's hyperparameters.
    pub closed spec fn spec_vision_params(&self) -> VisionParams {
        self.vision_params
    }

    /// The thread count handed to every backend compute call.
    pub closed spec fn spec_threads(&self) -> i32 {
        self.threads
    }

    /// Per-channel image mean, as bit patterns.
    pub closed spec fn spec_mean_bits(&self) -> [u32; 3] {
        self.mean_bits
    }

    /// Per-channel image std, as bit patterns.
    pub closed spec fn spec_std_bits(&self) -> [u32; 3] {
        self.std_bits
    }

    /// The normalization table copied at load time (see [`BackendModel`]).
    pub closed spec fn table(&self) -> Seq<u32> {
        self.norm_table@
    }

    /// The token standing for the owned context; zero once released.
    pub closed spec fn ctx_id(&self) -> usize {
        self.ctx
    }

    /// A live handle still owns its context; backend calls are only ever
    /// authorized against a live handle.
    pub open spec fn live(&self) -> bool {
        self.ctx_id() != 0
    }

    /// Well-formedness: what `assemble` establishes and every method
    /// preserves, release included.
    pub closed spec fn wf(&self) -> bool {
        &&& self.threads >= 1
        &&& self.text_params.projection_dim >= 0
        &&& self.text_params.projection_dim == self.vision_params.projection_dim
        &&& self.vision_params.image_size >= 0
        &&& self.norm_table@.len() == 768
    }

    /// Starts configuring a load of the model file at `path` (in OS bytes),
    /// with default verbosity and a single worker thread.
    pub fn builder(path: Vec<u8>) -> (r: ModelBuilder)
        ensures
            r.path@ == path@,
            r.verbosity == Verbosity::Default,
            r.threads == 1,
    {
        ModelBuilder { path, verbosity: Verbosity::default(), threads: 1 }
    }

    /// Turns the backend's answer to an authorized load call into a handle.
    ///
    /// `None` stands for a null context.  A handle comes back exactly when
    /// the backend produced a context and what it reported is usable
    /// (`backend_model_ok`); otherwise the load failed and no partial handle
    /// is ever returned.
    pub fn assemble(request: &LoadRequest, outcome: Option<BackendModel>) -> (r: Result<
        Model,
        Error,
    >)
        requires
            request.wf(),
        ensures
            r is Ok <==> (outcome matches Some(b) && backend_model_ok(&b)),
            r is Err ==> r == Err::<Model, Error>(Error::ModelLoadFailed),
            outcome matches Some(b) ==> backend_model_ok(&b) ==> ({
                &&& r matches Ok(m)
                &&& m.wf()
                &&& m.live()
                &&& m.ctx_id() == b.ctx
                &&& m.spec_text_params() == b.text_params
                &&& m.spec_vision_params() == b.vision_params
                &&& m.spec_threads() == request.threads
                &&& m.spec_mean_bits() == b.mean_bits
                &&& m.spec_std_bits() == b.std_bits
                &&& m.table() == b.norm_table@
            }),
    {
        match outcome {
            None => Err(Error::ModelLoadFailed),
            Some(b) => {
                if b.ctx == 0 {
                    return Err(Error::ModelLoadFailed);
                }
                if b.text_params.projection_dim < 0 {
                    return Err(Error::ModelLoadFailed);
                }
                if b.text_params.projection_dim != b.vision_params.projection_dim {
                    return Err(Error::ModelLoadFailed);
                }
                if b.vision_params.image_size < 0 {
                    return Err(Error::ModelLoadFailed);
                }
                if b.norm_table.len() != 768 {
                    return Err(Error::ModelLoadFailed);
                }
                Ok(
                    Model {
                        ctx: b.ctx,
                        threads: request.threads,
                        text_params: b.text_params,
                        vision_params: b.vision_params,
                        mean_bits: b.mean_bits,
                        std_bits: b.std_bits,
                        norm_table: b.norm_table,
                    },
                )
            },
        }
    }

    /// The text tower's hyperparameters.
    pub fn text_params(&self) -> (r: &TextParams)
        ensures
            *r == self.spec_text_params(),
    {
        &self.text_params
    }

    /// The vision tower's hyperparameters.
    pub fn vision_params(&self) -> (r: &VisionParams)
        ensures
            *r == self.spec_vision_params(),
    {
        &self.vision_params
    }

    /// The thread count handed to every backend compute call.
    pub fn threads(&self) -> (r: i32)
        ensures
            r == self.spec_threads(),
    {
        self.threads
    }

    /// Per-channel image mean, as bit patterns.
    pub fn image_mean_bits(&self) -> (r: [u32; 3])
        ensures
            r == self.spec_mean_bits(),
    {
        self.mean_bits
    }

    /// Per-channel image std, as bit patterns.
    pub fn image_std_bits(&self) -> (r: [u32; 3])
        ensures
            r == self.spec_std_bits(),
    {
        self.std_bits
    }

    /// Decides whether text may be handed to the backend's tokenizer.
    ///
    /// The backend takes a null-terminated byte string, so text with an
    /// embedded null byte is rejected here as `TokenizeInvalidText`, before
    /// any backend call; a request comes back exactly for text without one,
    /// carrying the text's UTF-8 bytes.
    pub fn tokenize_request(&self, text: &str) -> (r: Result<TokenizeRequest, Error>)
        requires
            self.live(),
        ensures
            r is Ok <==> !has_nul(text.spec_bytes()),
            r is Err ==> r == Err::<TokenizeRequest, Error>(Error::TokenizeInvalidText),
            r matches Ok(q) ==> q.bytes@ == text.spec_bytes() && q.wf(),
    {
        let bytes: Vec<u8> = vstd::slice::slice_to_vec(text.as_bytes());
        let n = bytes.len();
        let mut i: usize = 0;
        while i < n
            invariant
                i <= n,
                n == bytes@.len(),
                bytes@ == text.spec_bytes(),
                forall|j: int| 0 <= j < i ==> bytes@[j] != 0,
            decreases n - i,
        {
            if bytes[i] == 0 {
                return Err(Error::TokenizeInvalidText);
            }
            i += 1;
        }
        Ok(TokenizeRequest { bytes })
    }

    /// Normalizes one raw image on the host.
    ///
    /// The caller is expected to have resized the image already; no resizing
    /// or cropping happens here.  Every input byte maps to exactly one
    /// output value, by the per-channel scaling the model's normalization
    /// table carries, in the same spatial layout — a total transform with no
    /// failure path.
    pub fn preprocess_image<I: Image>(&self, image: &I) -> (r: Blob)
        requires
            self.wf(),
            image_wf(image),
        ensures
            r.width == image.spec_width(),
            r.height == image.spec_height(),
            r.data@ == normalized_of(self.table(), image.spec_data()),
            r.wf(),
    {
        let data: &[u8] = image.data();
        let n = data.len();
        let mut out: Vec<u32> = Vec::new();
        let mut i: usize = 0;
        while i < n
            invariant
                i <= n,
                n == data@.len(),
                data@ == image.spec_data(),
                self.wf(),
                self.norm_table@ == self.table(),
                out@.len() == i,
                forall|j: int| 0 <= j < i ==> out@[j] == normalized_of(
                    self.table(),
                    image.spec_data(),
                )[j],
            decreases n - i,
        {
            let b = data[i];
            let c = i % 3;
            let v = self.norm_table[3 * (b as usize) + c];
            out.push(v);
            i += 1;
        }
        assert(out@ =~= normalized_of(self.table(), image.spec_data()));
        Blob { width: image.width(), height: image.height(), data: out }
    }

    /// Normalizes a batch of raw images, order-preserving and total: blob
    /// `i` is exactly the single-image normalization of image `i`, and the
    /// output batch always has the input batch's length.
    pub fn preprocess_images<I: Image>(&self, images: &Vec<I>) -> (r: Vec<Blob>)
        requires
            self.wf(),
            forall|j: int| 0 <= j < images@.len() ==> image_wf(&images@[j]),
        ensures
            r@.len() == images@.len(),
            forall|j: int|
                0 <= j < images@.len() ==> {
                    &&& (#[trigger] r@[j]).width == images@[j].spec_width()
                    &&& r@[j].height == images@[j].spec_height()
                    &&& r@[j].data@ == normalized_of(self.table(), images@[j].spec_data())
                },
    {
        let n = images.len();
        let mut out: Vec<Blob> = Vec::new();
        let mut i: usize = 0;
        while i < n
            invariant
                i <= n,
                n == images@.len(),
                self.wf(),
                forall|j: int| 0 <= j < images@.len() ==> image_wf(&images@[j]),
                out@.len() == i,
                forall|j: int|
                    0 <= j < i ==> {
                        &&& (#[trigger] out@[j]).width == images@[j].spec_width()
                        &&& out@[j].height == images@[j].spec_height()
                        &&& out@[j].data@ == normalized_of(self.table(), images@[j].spec_data())
                    },
            decreases n - i,
        {
            let blob = self.preprocess_image(&images[i]);
            out.push(blob);
            i += 1;
        }
        out
    }

    /// Authorizes one backend text-encode call over a token buffer.
    ///
    /// There is nothing to validate: the token count is the backend's to
    /// bound (oversized sequences are passed through for it to reject or
    /// truncate).  The job fixes the output buffer at the projection
    /// dimension — the embedding length shared by both towers — and threads
    /// the handle's thread count and the caller's normalization flag through
    /// unchanged.
    pub fn encode_tokens_job(&self, normalize: bool) -> (r: EncodeJob)
        requires
            self.wf(),
            self.live(),
        ensures
            r.threads == self.spec_threads(),
            r.normalize == normalize,
            r.out_len == self.spec_vision_params().projection_dim,
    {
        EncodeJob {
            threads: self.threads,
            normalize,
            out_len: self.vision_params.projection_dim as usize,
        }
    }

    /// Decides whether a blob may be handed to the backend's image encoder.
    ///
    /// A job comes back exactly when the blob is the square the vision
    /// tower expects; otherwise the answer is `ImageSizeMismatch`, naming
    /// the expected and found dimensions, and no job — so a driver that
    /// only encodes on a job can never reach the backend with a mis-sized
    /// image.
    pub fn encode_image_job(&self, blob: &Blob, normalize: bool) -> (r: Result<EncodeJob, Error>)
        requires
            self.wf(),
            self.live(),
        ensures
            r is Ok <==> blob_dims_ok(blob, self.spec_vision_params().image_size as int),
            r is Err ==> r == Err::<EncodeJob, Error>(
                Error::ImageSizeMismatch {
                    expected: self.spec_vision_params().image_size as u32,
                    found_width: blob.width,
                    found_height: blob.height,
                },
            ),
            r matches Ok(j) ==> j.threads == self.spec_threads() && j.normalize == normalize
                && j.out_len == self.spec_vision_params().projection_dim,
    {
        let size = self.vision_params.image_size as u32;
        if blob.width != size || blob.height != size {
            return Err(
                Error::ImageSizeMismatch {
                    expected: size,
                    found_width: blob.width,
                    found_height: blob.height,
                },
            );
        }
        Ok(
            EncodeJob {
                threads: self.threads,
                normalize,
                out_len: self.vision_params.projection_dim as usize,
            },
        )
    }

    /// Decides whether a batch of blobs may be handed to the backend's
    /// batched image encoder.
    ///
    /// A job comes back exactly when every blob is the square the vision
    /// tower expects; otherwise the answer names the first offending blob's
    /// dimensions and no backend call is authorized.  The job's output
    /// length is one projection-dimension stretch per blob, contiguous, in
    /// input order.
    pub fn encode_images_job(&self, blobs: &Vec<Blob>, normalize: bool) -> (r: Result<
        BatchEncodeJob,
        Error,
    >)
        requires
            self.wf(),
            self.live(),
            blobs@.len() * (self.spec_vision_params().projection_dim as int) <= usize::MAX,
        ensures
            r is Ok <==> (forall|k: int|
                0 <= k < blobs@.len() ==> blob_dims_ok(
                    &blobs@[k],
                    self.spec_vision_params().image_size as int,
                )),
            r matches Ok(job) ==> ({
                &&& job.threads == self.spec_threads()
                &&& job.normalize == normalize
                &&& job.count == blobs@.len()
                &&& job.out_len == blobs@.len() * (self.spec_vision_params().projection_dim as int)
            }),
            r matches Err(e) ==> exists|k: int|
                {
                    &&& 0 <= k < blobs@.len()
                    &&& !blob_dims_ok(
                        #[trigger] &blobs@[k],
                        self.spec_vision_params().image_size as int,
                    )
                    &&& forall|j: int|
                        0 <= j < k ==> blob_dims_ok(
                            &blobs@[j],
                            self.spec_vision_params().image_size as int,
                        )
                    &&& e == Error::ImageSizeMismatch {
                        expected: self.spec_vision_params().image_size as u32,
                        found_width: blobs@[k].width,
                        found_height: blobs@[k].height,
                    }
                },
    {
        let size = self.vision_params.image_size as u32;
        let n = blobs.len();
        let mut i: usize = 0;
        while i < n
            invariant
                i <= n,
                n == blobs@.len(),
                self.wf(),
                size == self.spec_vision_params().image_size as u32,
                size == self.spec_vision_params().image_size as int,
                forall|j: int|
                    0 <= j < i ==> blob_dims_ok(
                        &blobs@[j],
                        self.spec_vision_params().image_size as int,
                    ),
            decreases n - i,
        {
            if blobs[i].width != size || blobs[i].height != size {
                return Err(
                    Error::ImageSizeMismatch {
                        expected: size,
                        found_width: blobs[i].width,
                        found_height: blobs[i].height,
                    },
                );
            }
            i += 1;
        }
        Ok(
            BatchEncodeJob {
                threads: self.threads,
                normalize,
                count: n,
                out_len: n * (self.vision_params.projection_dim as usize),
            },
        )
    }

    /// Reshapes the contiguous output of a batched encode call into one
    /// embedding vector per encoded image: vector `i` holds exactly the
    /// stretch `i * projection_dim .. (i + 1) * projection_dim` of the raw
    /// buffer, so order and count are preserved and nothing is dropped,
    /// duplicated or reordered.
    pub fn split_embeddings(&self, count: usize, raw: Vec<u32>) -> (r: Vec<Vec<u32>>)
        requires
            self.wf(),
            raw@.len() == count * (self.spec_vision_params().projection_dim as int),
        ensures
            r@.len() == count,
            forall|a: int|
                0 <= a < count ==> (#[trigger] r@[a])@.len()
                    == self.spec_vision_params().projection_dim,
            forall|a: int, b: int|
                0 <= a < count && 0 <= b < self.spec_vision_params().projection_dim
                    ==> #[trigger] r@[a]@[b] == raw@[
                    a * (self.spec_vision_params().projection_dim as int) + b
                ],
    {
        let proj: usize = self.vision_params.projection_dim as usize;
        let total: usize = raw.len();
        let mut out: Vec<Vec<u32>> = Vec::new();
        let mut i: usize = 0;
        while i < count
            invariant
                i <= count,
                proj == self.spec_vision_params().projection_dim as int,
                total == raw@.len(),
                total == count * (proj as int),
                out@.len() == i,
                forall|a: int| 0 <= a < i ==> (#[trigger] out@[a])@.len() == proj,
                forall|a: int, b: int|
                    0 <= a < i && 0 <= b < proj ==> #[trigger] out@[a]@[b] == raw@[
                        a * (proj as int) + b
                    ],
            decreases count - i,
        {
            proof {
                vstd::arithmetic::mul::lemma_mul_inequality(i + 1, count as int, proj as int);
                assert((i + 1) * (proj as int) == i * (proj as int) + proj) by (nonlinear_arith);
            }
            let mut chunk: Vec<u32> = Vec::new();
            let mut j: usize = 0;
            while j < proj
                invariant
                    j <= proj,
                    i < count,
                    total == raw@.len(),
                    i * (proj as int) + proj <= total,
                    chunk@.len() == j,
                    forall|b: int| 0 <= b < j ==> chunk@[b] == raw@[i * (proj as int) + b],
                decreases proj - j,
            {
                let idx = i * proj + j;
                chunk.push(raw[idx]);
                j += 1;
            }
            out.push(chunk);
            i += 1;
        }
        out
    }

    /// Gives up ownership of the context, exactly once.
    ///
    /// The first call on a live handle yields the context token, and the
    /// driver must then free the native context, once, with it.  Every later
    /// call yields nothing — so a driver that frees only what this method
    /// hands out can neither double-free nor leak.  Everything else the
    /// handle carries is untouched.
    pub fn release(&mut self) -> (r: Option<usize>)
        ensures
            old(self).live() ==> r == Some(old(self).ctx_id()),
            !old(self).live() ==> r is None,
            !final(self).live(),
            final(self).wf() == old(self).wf(),
            final(self).spec_text_params() == old(self).spec_text_params(),
            final(self).spec_vision_params() == old(self).spec_vision_params(),
            final(self).spec_threads() == old(self).spec_threads(),
            final(self).spec_mean_bits() == old(self).spec_mean_bits(),
            final(self).spec_std_bits() == old(self).spec_std_bits(),
            final(self).table() == old(self).table(),
    {
        if self.ctx != 0 {
            let c = self.ctx;
            self.ctx = 0;
            Some(c)
        } else {
            None
        }
    }
}

/// A normalized image, ready for encoding: the same spatial layout as the
/// raw image it came from, one 32-bit float per byte, held as IEEE-754 bit
/// patterns.  The buffer is host-owned and host-computed; the numeric
/// interpretation belongs to the driver.
#[derive(Debug)]
pub struct Blob {
    pub width: u32,
    pub height: u32,
    pub data: Vec<u32>,
}

impl Blob {
    /// A blob holds exactly one value per pixel and channel.
    pub open spec fn wf(&self) -> bool {
        self.data@.len() == self.width * self.height * 3
    }
}

/// What host-computed normalization produces from a raw byte buffer, given
/// the model's normalization table: byte `i`, lying in channel `i % 3`, maps
/// to table entry `3 * data[i] + i % 3` — exactly one output per input byte.
pub open spec fn normalized_of(table: Seq<u32>, data: Seq<u8>) -> Seq<u32> {
    Seq::new(data.len(), |i: int| table[3 * (data[i] as int) + i % 3])
}

/// Shape of host-computed normalization: every raw buffer maps to an output
/// of exactly its own length, whatever the table.
pub proof fn lemma_normalized_shape(table: Seq<u32>, data: Seq<u8>)
    ensures
        normalized_of(table, data).len() == data.len(),
{
}

/// Instructions for one backend encode call: the thread count and
/// normalization flag to pass through unchanged, and the exact number of
/// 32-bit floats the backend will write, which the driver's output buffer
/// must hold.
pub struct EncodeJob {
    pub threads: i32,
    pub normalize: bool,
    pub out_len: usize,
}

/// Instructions for one batched backend encode call over `count` images,
/// writing `out_len == count * projection_dim` contiguous floats.
pub struct BatchEncodeJob {
    pub threads: i32,
    pub normalize: bool,
    pub count: usize,
    pub out_len: usize,
}

/// True when a blob has the square dimensions the vision tower expects.
pub open spec fn blob_dims_ok(b: &Blob, size: int) -> bool {
    b.width as int == size && b.height as int == size
}

/// Authorization to make the backend's tokenize call: the text's UTF-8
/// bytes, guaranteed free of embedded null bytes.
pub struct TokenizeRequest {
    pub bytes: Vec<u8>,
}

impl TokenizeRequest {
    /// The carried bytes always have a null-terminated representation.
    pub open spec fn wf(&self) -> bool {
        !has_nul(self.bytes@)
    }
}

/// An owned sequence of integer token ids, produced from text by the
/// backend's tokenizer.
#[derive(Debug)]
pub struct Tokens {
    pub ids: Vec<i32>,
}

impl Tokens {
    /// Takes the backend tokenizer's answer into a host-owned value:
    /// `None` stands for the backend rejecting the text, anything else for
    /// the token ids it produced, kept verbatim and in order.
    pub fn from_backend(outcome: Option<Vec<i32>>) -> (r: Result<Tokens, Error>)
        ensures
            r is Ok <==> outcome is Some,
            r is Err ==> r == Err::<Tokens, Error>(Error::TokenizeBackendRejected),
            outcome matches Some(ids) ==> r matches Ok(t) && t.ids@ == ids@,
    {
        match outcome {
            None => Err(Error::TokenizeBackendRejected),
            Some(ids) => Ok(Tokens { ids }),
        }
    }

    /// How many token ids the buffer holds.
    pub fn len(&self) -> (r: usize)
        ensures
            r == self.ids@.len(),
    {
        self.ids.len()
    }

    /// The token ids, in the order the backend produced them.
    pub fn ids(&self) -> (r: &Vec<i32>)
        ensures
            r@ == self.ids@,
    {
        &self.ids
    }
}

/// Text and vision towers of a loaded model project into embedding spaces of
/// one and the same dimension, so their vectors are comparable by dot
/// product.
pub proof fn lemma_projection_dims_agree(m: &Model)
    requires
        m.wf(),
    ensures
        m.spec_text_params().projection_dim == m.spec_vision_params().projection_dim,
{
}

} // verus!
