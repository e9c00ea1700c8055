use basisu_loader::format::{CTF_BC7_RGBA, CTF_ETC2_RGBA, CTF_PVRTC1_4_RGB, CTF_RGBA32};
use basisu_loader::{
    assemble, Backend, BackendCall, BackendReply, BasisuLoader, BasisuLoaderError,
    CompressionFamily, Environment, Initialized, InvariantViolation, LoadResult, LoadStep,
    SetupCall,
    TextureLoad, TextureTopology, TextureTranscodedFormat, TranscodeCall, TranscodedImage,
    TranscoderHandle, TranscoderOutput,
};
use wgpu_types::{Extent3d, Features, TextureFormat, TextureViewDimension};

const LOW_BITRATE: u8 = 0;
const BLOCK_STRUCTURED: u8 = 1;

fn token() -> Initialized {
    let mut backend = Backend::new(Environment::Direct);
    backend.record(SetupCall::Initialize).unwrap();
    backend.initialized().unwrap()
}

/// A container for the stand-in backend: encoding, colour space, layers,
/// faces, then the payload.
fn container(encoding: u8, is_srgb: bool, layers: u8, faces: u8) -> Vec<u8> {
    vec![encoding, is_srgb as u8, layers, faces, 10, 20, 30, 40, 50, 60, 70, 80]
}

/// A stand-in for the backend.  It prefers a compressed format that the
/// mask requests and falls back to 8-bit RGBA where the mask requests none.
fn stand_in(data: &[u8], call: TranscodeCall) -> Option<TranscoderOutput> {
    if data.len() < 4 || data[0] > BLOCK_STRUCTURED || data.len() != call.data_len as usize {
        return None;
    }
    let mask = call.supported_compressed_formats;
    let target_format = if data[0] == LOW_BITRATE && mask.contains(CompressionFamily::Etc2) {
        CTF_ETC2_RGBA
    } else if mask.contains(CompressionFamily::Bc) {
        CTF_BC7_RGBA
    } else if mask.contains(CompressionFamily::Etc2) {
        CTF_ETC2_RGBA
    } else {
        CTF_RGBA32
    };
    Some(TranscoderOutput {
        width: 8,
        height: 4,
        levels: 3,
        layers: data[2] as u32,
        faces: data[3] as u32,
        is_srgb: data[1] != 0,
        target_format: TextureTranscodedFormat(target_format),
        dst_buf: data[4..].iter().map(|byte| byte.wrapping_mul(3)).collect(),
    })
}

/// Drives a load to its end against the stand-in backend and records every
/// call that was made.
fn drive(features: Features, data: &[u8], handle: usize) -> (LoadResult, Vec<BackendCall>) {
    let loader = BasisuLoader::from_features(features);
    let (mut load, mut step) = loader.load(token(), data.len() as u32);
    let mut calls = Vec::new();
    let mut transcoded = None;
    loop {
        let call = match step {
            LoadStep::Call(call) => call,
            LoadStep::Finished(result) => {
                assert!(load.is_finished());
                return (result, calls);
            }
        };
        assert!(!load.is_finished());
        calls.push(call);
        let reply = match call {
            BackendCall::NewTranscoder => {
                BackendReply::Transcoder { transcoder: TranscoderHandle(handle) }
            }
            BackendCall::TranscodeImage { call } => {
                transcoded = stand_in(data, call);
                BackendReply::Transcoded { success: transcoded.is_some() }
            }
            BackendCall::ReadOutput { .. } => {
                BackendReply::Output { output: transcoded.take().unwrap() }
            }
            BackendCall::DeleteTranscoder { .. } => BackendReply::Deleted,
        };
        (load, step) = load.advance(reply);
    }
}

fn answer(load: TextureLoad, reply: BackendReply) -> (TextureLoad, LoadStep) {
    load.advance(reply)
}

fn call_of(step: LoadStep) -> BackendCall {
    match step {
        LoadStep::Call(call) => call,
        LoadStep::Finished(result) => panic!("finished early: {result:?}"),
    }
}

fn result_of(step: LoadStep) -> LoadResult {
    match step {
        LoadStep::Finished(result) => result,
        LoadStep::Call(call) => panic!("not finished: {call:?}"),
    }
}

fn violation_of(result: LoadResult) -> InvariantViolation {
    result.unwrap_err().invariant_violation().unwrap()
}

fn full_course(handle: usize, data_len: u32, bits: u8) -> Vec<BackendCall> {
    let transcoder = TranscoderHandle(handle);
    vec![
        BackendCall::NewTranscoder,
        BackendCall::TranscodeImage {
            call: TranscodeCall {
                transcoder,
                data_len,
                supported_compressed_formats:
                    basisu_loader::TextureCompressionMethod::from_bits(bits).unwrap(),
            },
        },
        BackendCall::ReadOutput { transcoder },
        BackendCall::DeleteTranscoder { transcoder },
    ]
}

#[test]
fn scenario_etc2_only_resolves_to_an_etc2_format_without_suffix() {
    let data = container(LOW_BITRATE, false, 0, 1);
    let (result, calls) = drive(Features::TEXTURE_COMPRESSION_ETC2, &data, 0x7000);
    let (image, topology) = result.unwrap();
    assert_eq!(image.format, TextureFormat::Etc2Rgba8Unorm);
    assert!(!image.is_srgb);
    assert!(!image.format.is_srgb());
    assert_eq!(image.format.required_features(), Features::TEXTURE_COMPRESSION_ETC2);
    assert_eq!(topology.view_dimension, TextureViewDimension::D2);
    assert_eq!(calls, full_course(0x7000, 12, 8));
}

#[test]
fn scenario_bc_with_srgb_resolves_to_bc7_with_the_srgb_suffix() {
    let data = container(BLOCK_STRUCTURED, true, 0, 1);
    let (result, calls) = drive(Features::TEXTURE_COMPRESSION_BC, &data, 0x7000);
    let (image, _) = result.unwrap();
    assert_eq!(image.format, TextureFormat::Bc7RgbaUnormSrgb);
    assert!(image.is_srgb);
    assert_eq!(image.format.remove_srgb_suffix(), TextureFormat::Bc7RgbaUnorm);
    assert_eq!(calls, full_course(0x7000, 12, 4));
}

#[test]
fn scenario_no_compressed_support_falls_back_to_8_bit_rgba() {
    let data = container(BLOCK_STRUCTURED, false, 0, 1);
    let (result, calls) = drive(Features::empty(), &data, 0x7000);
    let (image, _) = result.unwrap();
    assert_eq!(image.format, TextureFormat::Rgba8Unorm);
    assert!(!image.format.is_compressed());
    assert_eq!(image.format.block_copy_size(None), Some(4));
    assert_eq!(calls, full_course(0x7000, 12, 0));
}

#[test]
fn scenario_six_faces_without_layers_load_as_a_cube() {
    let data = container(LOW_BITRATE, false, 0, 6);
    let (result, _) = drive(Features::TEXTURE_COMPRESSION_ETC2, &data, 0x7000);
    let (image, topology) = result.unwrap();
    assert_eq!(topology.view_dimension, TextureViewDimension::Cube);
    assert_eq!(topology.extent.depth_or_array_layers, 6);
    assert_eq!(image.face_count, 6);
    assert_eq!(image.array_layer_count, 0);
}

#[test]
fn a_load_hands_over_everything_the_backend_reported() {
    let data = container(BLOCK_STRUCTURED, true, 2, 6);
    let (result, _) = drive(Features::all(), &data, 0x7000);
    let (image, topology) = result.unwrap();
    assert_eq!(
        image,
        TranscodedImage {
            data: vec![30, 60, 90, 120, 150, 180, 210, 240],
            format: TextureFormat::Bc7RgbaUnormSrgb,
            is_srgb: true,
            width: 8,
            height: 4,
            mip_level_count: 3,
            array_layer_count: 2,
            face_count: 6,
        }
    );
    assert_eq!(
        topology,
        TextureTopology {
            view_dimension: TextureViewDimension::CubeArray,
            extent: Extent3d { width: 8, height: 4, depth_or_array_layers: 12 },
        }
    );
}

#[test]
fn a_null_handle_ends_the_load_with_nothing_to_release() {
    let data = container(LOW_BITRATE, false, 0, 1);
    let (result, calls) = drive(Features::empty(), &data, 0);
    assert!(matches!(
        result,
        Err(BasisuLoaderError::TranscodingError("ktx2_transcoder_new"))
    ));
    assert_eq!(calls, vec![BackendCall::NewTranscoder]);
}

#[test]
fn a_failed_transcode_releases_the_transcoder_before_it_fails() {
    let data = vec![9, 9, 9, 9, 9];
    let (result, calls) = drive(Features::TEXTURE_COMPRESSION_BC, &data, 0x7000);
    assert!(matches!(
        result,
        Err(BasisuLoaderError::TranscodingError("ktx2_transcoder_transcode_image"))
    ));
    let mut expected = full_course(0x7000, 5, 4);
    expected.remove(2);
    assert_eq!(calls, expected);
}

#[test]
fn an_unmapped_format_releases_the_transcoder_and_is_reported() {
    let loader = BasisuLoader::from_features(Features::empty());
    let (load, _) = loader.load(token(), 16);
    let (load, _) = answer(load, BackendReply::Transcoder { transcoder: TranscoderHandle(5) });
    let (load, _) = answer(load, BackendReply::Transcoded { success: true });
    let output = TranscoderOutput {
        width: 4,
        height: 4,
        levels: 1,
        layers: 0,
        faces: 1,
        is_srgb: false,
        target_format: TextureTranscodedFormat(CTF_PVRTC1_4_RGB),
        dst_buf: vec![0; 8],
    };
    let (load, step) = answer(load, BackendReply::Output { output });
    assert_eq!(call_of(step), BackendCall::DeleteTranscoder { transcoder: TranscoderHandle(5) });
    let (load, step) = answer(load, BackendReply::Deleted);
    assert_eq!(violation_of(result_of(step)), InvariantViolation::UnmappedFormat { code: 8 });
    assert!(load.is_finished());
}

#[test]
fn counts_without_a_topology_are_reported_before_an_unmapped_format() {
    let output = |faces, code| TranscoderOutput {
        width: 4,
        height: 4,
        levels: 1,
        layers: 0,
        faces,
        is_srgb: false,
        target_format: TextureTranscodedFormat(code),
        dst_buf: vec![0; 8],
    };
    let both = assemble(output(5, CTF_PVRTC1_4_RGB));
    assert_eq!(violation_of(both), InvariantViolation::FaceCount { faces: 5 });
    let faces_only = assemble(output(5, CTF_RGBA32));
    assert_eq!(violation_of(faces_only), InvariantViolation::FaceCount { faces: 5 });
    let format_only = assemble(output(6, CTF_PVRTC1_4_RGB));
    assert_eq!(violation_of(format_only), InvariantViolation::UnmappedFormat { code: 8 });
    assert!(assemble(output(6, CTF_RGBA32)).is_ok());
}

#[test]
fn only_an_initialised_backend_lets_a_load_begin() {
    for environment in [Environment::Direct, Environment::Isolated] {
        let mut backend = Backend::new(environment);
        assert!(backend.initialized().is_none());
        while let Some(call) = backend.setup().next_call() {
            assert!(backend.initialized().is_none());
            backend.record(call).unwrap();
        }
        let token = backend.initialized().unwrap();
        let loader = BasisuLoader::from_features(Features::TEXTURE_COMPRESSION_BC);
        let (load, step) = loader.load(token, 16);
        assert_eq!(call_of(step), BackendCall::NewTranscoder);
        assert!(!load.is_finished());
    }
}

#[test]
fn a_reply_out_of_turn_releases_the_transcoder_and_ends_the_load() {
    let loader = BasisuLoader::from_features(Features::TEXTURE_COMPRESSION_BC);
    let transcoder = TranscoderHandle(77);

    let (load, _) = loader.load(token(), 16);
    let (load, step) = answer(load, BackendReply::Deleted);
    assert_eq!(violation_of(result_of(step)), InvariantViolation::UnexpectedReply);
    assert!(load.is_finished());

    let (load, _) = loader.load(token(), 16);
    let (load, _) = answer(load, BackendReply::Transcoder { transcoder });
    let (load, step) = answer(load, BackendReply::Deleted);
    assert_eq!(call_of(step), BackendCall::DeleteTranscoder { transcoder });
    let (_, step) = answer(load, BackendReply::Deleted);
    assert_eq!(violation_of(result_of(step)), InvariantViolation::UnexpectedReply);

    let (load, _) = loader.load(token(), 16);
    let (load, _) = answer(load, BackendReply::Transcoder { transcoder });
    let (load, _) = answer(load, BackendReply::Transcoded { success: true });
    let (load, step) = answer(load, BackendReply::Transcoded { success: true });
    assert_eq!(call_of(step), BackendCall::DeleteTranscoder { transcoder });
    let (load, step) = answer(load, BackendReply::Transcoded { success: true });
    assert_eq!(violation_of(result_of(step)), InvariantViolation::UnexpectedReply);
    let (load, step) = answer(load, BackendReply::Deleted);
    assert_eq!(violation_of(result_of(step)), InvariantViolation::UnexpectedReply);
    assert!(load.is_finished());
}

#[test]
fn the_transcode_call_carries_the_length_and_the_negotiated_mask() {
    let features = Features::TEXTURE_COMPRESSION_ASTC | Features::TEXTURE_COMPRESSION_ASTC_HDR;
    let loader = BasisuLoader::from_features(features);
    let (load, step) = loader.load(token(), 123_456);
    assert_eq!(call_of(step), BackendCall::NewTranscoder);
    let (_, step) = answer(load, BackendReply::Transcoder { transcoder: TranscoderHandle(1) });
    match call_of(step) {
        BackendCall::TranscodeImage { call } => {
            assert_eq!(call.transcoder, TranscoderHandle(1));
            assert_eq!(call.data_len, 123_456);
            assert_eq!(call.supported_compressed_formats.bits(), 3);
            assert_eq!(call.supported_compressed_formats, loader.supported_compressed_formats());
        }
        other => panic!("not a transcode call: {other:?}"),
    }
}

#[test]
fn the_same_container_loads_alike_whatever_the_environment() {
    let data = container(BLOCK_STRUCTURED, true, 3, 1);
    let loader = BasisuLoader::from_features(Features::TEXTURE_COMPRESSION_BC);
    let mut results = Vec::new();
    for environment in [Environment::Direct, Environment::Isolated] {
        let mut backend = Backend::new(environment);
        while let Some(call) = backend.setup().next_call() {
            backend.record(call).unwrap();
        }
        let token = backend.initialized().unwrap();
        let (mut load, mut step) = loader.load(token, data.len() as u32);
        let mut output = None;
        let result = loop {
            let call = match step {
                LoadStep::Call(call) => call,
                LoadStep::Finished(result) => break result,
            };
            let reply = match call {
                BackendCall::NewTranscoder => {
                    BackendReply::Transcoder { transcoder: TranscoderHandle(0x20) }
                }
                BackendCall::TranscodeImage { call } => {
                    output = stand_in(&data, call);
                    BackendReply::Transcoded { success: output.is_some() }
                }
                BackendCall::ReadOutput { .. } => {
                    BackendReply::Output { output: output.take().unwrap() }
                }
                BackendCall::DeleteTranscoder { .. } => BackendReply::Deleted,
            };
            (load, step) = load.advance(reply);
        };
        results.push(result.unwrap());
    }
    assert_eq!(results[0], results[1]);
    assert_eq!(results[0].0.format, TextureFormat::Bc7RgbaUnormSrgb);
    assert_eq!(results[0].1.view_dimension, TextureViewDimension::D2Array);
    assert_eq!(results[0].1.extent.depth_or_array_layers, 3);
}
