//! Model configuration, loading, and exactly-once teardown.

use clip_client::{BackendModel, Error, Model, TextParams, Verbosity, VisionParams};

fn text_params(projection_dim: i32) -> TextParams {
    TextParams {
        vocab: 49408,
        positions: 77,
        hidden_size: 512,
        intermediate: 2048,
        projection_dim,
        head: 8,
        layer: 12,
        eps_bits: 1e-5f32.to_bits(),
    }
}

fn vision_params(projection_dim: i32, image_size: i32) -> VisionParams {
    VisionParams {
        image_size,
        patch_size: 16,
        hidden_size: 768,
        intermediate: 3072,
        projection_dim,
        head: 12,
        layer: 12,
        eps_bits: 1e-5f32.to_bits(),
    }
}

/// The normalization table the driver computes at load time: for byte `b`
/// and channel `c`, entry `3 * b + c` is `(b / 255 - mean[c]) / std[c]`.
fn norm_table(mean: [f32; 3], std: [f32; 3]) -> Vec<u32> {
    let mut table = Vec::with_capacity(768);
    for b in 0..=255u32 {
        for c in 0..3usize {
            let v = (b as f32 / 255.0 - mean[c]) / std[c];
            table.push(v.to_bits());
        }
    }
    table
}

const MEAN: [f32; 3] = [0.48145466, 0.4578275, 0.40821073];
const STD: [f32; 3] = [0.26862954, 0.26130258, 0.27577711];

fn backend_model(ctx: usize, projection_dim: i32, image_size: i32) -> BackendModel {
    BackendModel {
        ctx,
        text_params: text_params(projection_dim),
        vision_params: vision_params(projection_dim, image_size),
        mean_bits: [MEAN[0].to_bits(), MEAN[1].to_bits(), MEAN[2].to_bits()],
        std_bits: [STD[0].to_bits(), STD[1].to_bits(), STD[2].to_bits()],
        norm_table: norm_table(MEAN, STD),
    }
}

#[test]
fn build_missing_path_yields_path_not_found() {
    let builder = Model::builder(b"/no/such/model.bin".to_vec());
    let r = builder.build(false);
    assert!(matches!(r, Err(Error::PathNotFound)));
}

#[test]
fn build_nul_path_yields_path_not_found() {
    let builder = Model::builder(vec![47, 109, 0, 98]);
    let r = builder.build(true);
    assert!(matches!(r, Err(Error::PathNotFound)));
}

#[test]
fn build_carries_configuration() {
    let builder = Model::builder(b"/models/clip.bin".to_vec())
        .verbosity(Verbosity::Maximum)
        .threads(4);
    let request = builder.build(true).unwrap();
    assert_eq!(request.path, b"/models/clip.bin".to_vec());
    assert_eq!(request.verbosity, Verbosity::Maximum);
    assert_eq!(request.threads, 4);
}

#[test]
fn builder_defaults_are_quiet_single_threaded() {
    let builder = Model::builder(b"/m".to_vec());
    assert_eq!(builder.verbosity, Verbosity::Default);
    assert_eq!(builder.threads, 1);
}

#[test]
fn verbosity_codes_match_native_interface() {
    assert_eq!(Verbosity::Minimum.code(), 0);
    assert_eq!(Verbosity::Default.code(), 1);
    assert_eq!(Verbosity::Maximum.code(), 2);
    assert_eq!(Verbosity::default(), Verbosity::Default);
}

#[test]
fn assemble_null_context_fails() {
    let request = Model::builder(b"/m".to_vec()).build(true).unwrap();
    let r = Model::assemble(&request, None);
    assert!(matches!(r, Err(Error::ModelLoadFailed)));
}

#[test]
fn assemble_zero_context_token_fails() {
    let request = Model::builder(b"/m".to_vec()).build(true).unwrap();
    let r = Model::assemble(&request, Some(backend_model(0, 512, 224)));
    assert!(matches!(r, Err(Error::ModelLoadFailed)));
}

#[test]
fn assemble_rejects_divergent_projection_dims() {
    let request = Model::builder(b"/m".to_vec()).build(true).unwrap();
    let mut reported = backend_model(0x1000, 512, 224);
    reported.vision_params.projection_dim = 256;
    let r = Model::assemble(&request, Some(reported));
    assert!(matches!(r, Err(Error::ModelLoadFailed)));
}

#[test]
fn assemble_rejects_incomplete_norm_table() {
    let request = Model::builder(b"/m".to_vec()).build(true).unwrap();
    let mut reported = backend_model(0x1000, 512, 224);
    reported.norm_table.pop();
    let r = Model::assemble(&request, Some(reported));
    assert!(matches!(r, Err(Error::ModelLoadFailed)));
}

#[test]
fn loaded_model_is_self_describing() {
    let request = Model::builder(b"/m".to_vec()).threads(3).build(true).unwrap();
    let model = Model::assemble(&request, Some(backend_model(0x1000, 512, 224))).unwrap();
    assert_eq!(model.text_params().projection_dim(), 512);
    assert_eq!(model.vision_params().projection_dim(), 512);
    assert_eq!(model.vision_params().image_size(), 224);
    assert_eq!(model.text_params().vocab(), 49408);
    assert_eq!(model.text_params().positions(), 77);
    assert_eq!(model.threads(), 3);
    assert_eq!(model.image_mean_bits(), [MEAN[0].to_bits(), MEAN[1].to_bits(), MEAN[2].to_bits()]);
    assert_eq!(model.image_std_bits(), [STD[0].to_bits(), STD[1].to_bits(), STD[2].to_bits()]);
}

#[test]
fn loaded_model_projection_dims_agree() {
    let request = Model::builder(b"/m".to_vec()).build(true).unwrap();
    let model = Model::assemble(&request, Some(backend_model(0x1000, 768, 336))).unwrap();
    assert_eq!(
        model.text_params().projection_dim(),
        model.vision_params().projection_dim()
    );
}

#[test]
fn release_frees_context_exactly_once() {
    // An instrumented stand-in for the backend: count loads handed out and
    // frees performed, driving the frees only from what release yields.
    let mut loads: usize = 0;
    let mut frees: usize = 0;

    let request = Model::builder(b"/m".to_vec()).build(true).unwrap();
    let ctx: usize = 0xbeef;
    loads += 1;
    let mut model = Model::assemble(&request, Some(backend_model(ctx, 512, 224))).unwrap();

    let first = model.release();
    if let Some(token) = first {
        assert_eq!(token, ctx);
        frees += 1;
    }
    let second = model.release();
    if second.is_some() {
        frees += 1;
    }

    assert_eq!(first, Some(ctx));
    assert_eq!(second, None);
    assert_eq!(loads, frees);
    assert_eq!(frees, 1);
}

#[test]
fn error_messages_are_nonempty() {
    let errors = [
        Error::PathNotFound,
        Error::ModelLoadFailed,
        Error::TokenizeInvalidText,
        Error::TokenizeBackendRejected,
        Error::PreprocessBackendRejected,
        Error::ImageSizeMismatch { expected: 224, found_width: 32, found_height: 32 },
    ];
    for e in errors {
        assert!(!e.message().is_empty());
    }
}
