//! Tokenization requests and acceptance of tokenizer answers.

use clip_client::{BackendModel, Error, Model, TextParams, Tokens, VisionParams};

fn fixture_model() -> Model {
    let request = Model::builder(b"/m".to_vec()).build(true).unwrap();
    let reported = BackendModel {
        ctx: 0x2000,
        text_params: TextParams {
            vocab: 49408,
            positions: 77,
            hidden_size: 512,
            intermediate: 2048,
            projection_dim: 512,
            head: 8,
            layer: 12,
            eps_bits: 1e-5f32.to_bits(),
        },
        vision_params: VisionParams {
            image_size: 224,
            patch_size: 16,
            hidden_size: 768,
            intermediate: 3072,
            projection_dim: 512,
            head: 12,
            layer: 12,
            eps_bits: 1e-5f32.to_bits(),
        },
        mean_bits: [0, 0, 0],
        std_bits: [1f32.to_bits(); 3],
        norm_table: vec![0; 768],
    };
    Model::assemble(&request, Some(reported)).unwrap()
}

#[test]
fn tokenize_nul_text_fails_before_any_backend_call() {
    let model = fixture_model();
    let r = model.tokenize_request("an\0apple");
    assert!(matches!(r, Err(Error::TokenizeInvalidText)));
}

#[test]
fn tokenize_request_carries_utf8_bytes() {
    let model = fixture_model();
    let request = model.tokenize_request("an apple").unwrap();
    assert_eq!(request.bytes, b"an apple".to_vec());
}

#[test]
fn tokenize_empty_text_is_valid() {
    let model = fixture_model();
    let request = model.tokenize_request("").unwrap();
    assert!(request.bytes.is_empty());
}

#[test]
fn tokens_from_rejecting_backend_fail() {
    let r = Tokens::from_backend(None);
    assert!(matches!(r, Err(Error::TokenizeBackendRejected)));
}

#[test]
fn tokens_keep_backend_ids_verbatim() {
    let tokens = Tokens::from_backend(Some(vec![320, 1125, 269])).unwrap();
    assert_eq!(tokens.len(), 3);
    assert_eq!(tokens.ids(), &vec![320, 1125, 269]);
    assert_eq!(tokens.ids, vec![320, 1125, 269]);
}

#[test]
fn tokens_may_be_empty() {
    let tokens = Tokens::from_backend(Some(Vec::new())).unwrap();
    assert_eq!(tokens.len(), 0);
}
