use basisu_loader::format::{CTF_BC7_RGBA, CTF_RGBA32};
use basisu_loader::{
    Backend, BasisuLoaderError, CompressionFamily, Environment, Initialized, InvariantViolation,
    SessionOp, SessionState, SetupCall,
    TextureCompressionMethod, TextureTopology, TextureTranscodedFormat, TranscodeCall,
    TranscodeSession, TranscodedImage, TranscoderHandle, TranscoderOutput,
    NEW_TRANSCODER_ENTRY_POINT, TRANSCODE_IMAGE_ENTRY_POINT,
};
use wgpu_types::{Extent3d, TextureFormat, TextureViewDimension};

const STATES: [SessionState; 5] = [
    SessionState::Created,
    SessionState::Transcoding,
    SessionState::Transcoded,
    SessionState::Failed,
    SessionState::Destroyed,
];

fn sample_output() -> TranscoderOutput {
    TranscoderOutput {
        width: 256,
        height: 128,
        levels: 9,
        layers: 0,
        faces: 1,
        is_srgb: true,
        target_format: TextureTranscodedFormat(CTF_BC7_RGBA),
        dst_buf: vec![1, 2, 3, 5, 8, 13, 21, 34],
    }
}

fn bc_mask() -> TextureCompressionMethod {
    TextureCompressionMethod::only(CompressionFamily::Bc)
}

fn token() -> Initialized {
    let mut backend = Backend::new(Environment::Direct);
    backend.record(SetupCall::Initialize).unwrap();
    backend.initialized().unwrap()
}

fn created() -> TranscodeSession {
    TranscodeSession::create(token(), TranscoderHandle(0x1000)).unwrap()
}

fn transcoding() -> TranscodeSession {
    let mut session = created();
    session.transcode(64, bc_mask()).unwrap();
    session
}

fn transcoded() -> TranscodeSession {
    let mut session = transcoding();
    session.complete(Some(sample_output())).unwrap();
    session
}

fn failed() -> TranscodeSession {
    let mut session = transcoding();
    session.complete(None).unwrap_err();
    session
}

fn destroyed() -> TranscodeSession {
    let mut session = transcoded();
    session.destroy().unwrap();
    session
}

fn is_rejected<T: std::fmt::Debug>(result: Result<T, BasisuLoaderError>) -> bool {
    matches!(
        result,
        Err(BasisuLoaderError::InvariantViolation(InvariantViolation::SessionState))
    )
}

fn every_read_is_rejected(session: &TranscodeSession) {
    assert!(is_rejected(session.width()));
    assert!(is_rejected(session.height()));
    assert!(is_rejected(session.levels()));
    assert!(is_rejected(session.layers()));
    assert!(is_rejected(session.faces()));
    assert!(is_rejected(session.is_srgb()));
    assert!(is_rejected(session.target_format()));
    assert!(is_rejected(session.pixel_buffer()));
    assert!(is_rejected(session.image()));
}

#[test]
fn a_read_failure_is_neither_a_backend_failure_nor_a_broken_invariant() {
    let error = BasisuLoaderError::Io(std::io::Error::other("the reader gave up"));
    assert!(!error.is_transcoding_error());
    assert_eq!(error.invariant_violation(), None);
    assert!(matches!(error, BasisuLoaderError::Io(inner) if inner.to_string() == "the reader gave up"));
}

#[test]
fn a_null_handle_creates_no_session() {
    let error = TranscodeSession::create(token(), TranscoderHandle(0)).unwrap_err();
    assert!(matches!(error, BasisuLoaderError::TranscodingError("ktx2_transcoder_new")));
    assert!(error.is_transcoding_error());
    assert_eq!(error.invariant_violation(), None);
    assert_eq!(NEW_TRANSCODER_ENTRY_POINT, "ktx2_transcoder_new");
    assert!(TranscoderHandle(0).is_null());
    assert!(!TranscoderHandle(1).is_null());
}

#[test]
fn a_fresh_session_is_created_and_owns_its_handle() {
    let session = created();
    assert_eq!(session.state(), SessionState::Created);
    assert_eq!(session.transcoder(), TranscoderHandle(0x1000));
}

#[test]
fn transcode_hands_out_the_call_for_the_adapter() {
    let mut session = created();
    let call = session.transcode(4096, bc_mask()).unwrap();
    assert_eq!(
        call,
        TranscodeCall {
            transcoder: TranscoderHandle(0x1000),
            data_len: 4096,
            supported_compressed_formats: bc_mask(),
        }
    );
    assert_eq!(session.state(), SessionState::Transcoding);
    let empty = created().transcode(0, TextureCompressionMethod::none()).unwrap();
    assert_eq!(empty.data_len, 0);
    assert_eq!(empty.supported_compressed_formats.bits(), 0);
}

#[test]
fn getters_before_a_successful_transcode_are_rejected() {
    every_read_is_rejected(&created());
    every_read_is_rejected(&transcoding());
    every_read_is_rejected(&failed());
}

#[test]
fn getters_after_a_successful_transcode_read_the_output() {
    let session = transcoded();
    assert_eq!(session.state(), SessionState::Transcoded);
    assert_eq!(session.width().unwrap(), 256);
    assert_eq!(session.height().unwrap(), 128);
    assert_eq!(session.levels().unwrap(), 9);
    assert_eq!(session.layers().unwrap(), 0);
    assert_eq!(session.faces().unwrap(), 1);
    assert!(session.is_srgb().unwrap());
    assert_eq!(session.target_format().unwrap(), TextureTranscodedFormat(6));
    assert_eq!(session.pixel_buffer().unwrap(), vec![1, 2, 3, 5, 8, 13, 21, 34]);
    assert_eq!(session.state(), SessionState::Transcoded);
}

#[test]
fn the_pixel_buffer_can_be_read_again_in_any_order() {
    let session = transcoded();
    let first = session.pixel_buffer().unwrap();
    assert_eq!(session.width().unwrap(), 256);
    let second = session.pixel_buffer().unwrap();
    assert_eq!(first, second);
    assert_eq!(session.image().unwrap().0.data, first);
    assert_eq!(session.pixel_buffer().unwrap(), first);
}

#[test]
fn the_image_of_a_session_composes_format_and_topology() {
    let (image, topology) = transcoded().image().unwrap();
    assert_eq!(
        image,
        TranscodedImage {
            data: vec![1, 2, 3, 5, 8, 13, 21, 34],
            format: TextureFormat::Bc7RgbaUnormSrgb,
            is_srgb: true,
            width: 256,
            height: 128,
            mip_level_count: 9,
            array_layer_count: 0,
            face_count: 1,
        }
    );
    assert_eq!(
        topology,
        TextureTopology {
            view_dimension: TextureViewDimension::D2,
            extent: Extent3d { width: 256, height: 128, depth_or_array_layers: 1 },
        }
    );
}

#[test]
fn a_failed_transcode_names_its_entry_point_and_leaves_only_destruction() {
    let mut session = transcoding();
    let error = session.complete(None).unwrap_err();
    assert!(matches!(
        error,
        BasisuLoaderError::TranscodingError("ktx2_transcoder_transcode_image")
    ));
    assert_eq!(TRANSCODE_IMAGE_ENTRY_POINT, "ktx2_transcoder_transcode_image");
    assert_eq!(session.state(), SessionState::Failed);
    assert!(is_rejected(session.transcode(64, bc_mask())));
    assert!(is_rejected(session.complete(Some(sample_output()))));
    every_read_is_rejected(&session);
    let released = session.destroy().unwrap();
    assert_eq!(released.transcoder, TranscoderHandle(0x1000));
    assert_eq!(released.output, None);
    assert_eq!(session.state(), SessionState::Destroyed);
}

#[test]
fn transcode_is_valid_only_in_a_created_session() {
    for mut session in [transcoding(), transcoded(), failed(), destroyed()] {
        let before = session.state();
        assert!(is_rejected(session.transcode(64, bc_mask())));
        assert_eq!(session.state(), before);
    }
}

#[test]
fn complete_is_valid_only_while_a_transcode_is_pending() {
    for mut session in [created(), transcoded(), failed(), destroyed()] {
        let before = session.state();
        assert!(is_rejected(session.complete(Some(sample_output()))));
        assert!(is_rejected(session.complete(None)));
        assert_eq!(session.state(), before);
    }
    let mut kept = transcoded();
    assert!(is_rejected(kept.complete(None)));
    assert_eq!(kept.width().unwrap(), 256);
}

#[test]
fn destroy_hands_back_the_handle_and_the_output() {
    let mut session = transcoded();
    let released = session.destroy().unwrap();
    assert_eq!(released.transcoder, TranscoderHandle(0x1000));
    assert_eq!(released.output, Some(sample_output()));
    assert_eq!(session.state(), SessionState::Destroyed);
    assert_eq!(session.transcoder(), TranscoderHandle(0x1000));
    for mut session in [created(), transcoding()] {
        let released = session.destroy().unwrap();
        assert_eq!(released.transcoder, TranscoderHandle(0x1000));
        assert_eq!(released.output, None);
        assert_eq!(session.state(), SessionState::Destroyed);
    }
}

#[test]
fn destroying_twice_is_rejected() {
    for mut session in [created(), transcoding(), transcoded(), failed()] {
        assert!(session.destroy().is_ok());
        assert!(is_rejected(session.destroy()));
        assert!(is_rejected(session.destroy()));
        assert_eq!(session.state(), SessionState::Destroyed);
    }
}

#[test]
fn after_destroy_every_operation_is_rejected() {
    let mut session = destroyed();
    assert!(is_rejected(session.transcode(64, bc_mask())));
    assert!(is_rejected(session.complete(Some(sample_output()))));
    assert!(is_rejected(session.complete(None)));
    every_read_is_rejected(&session);
    assert!(is_rejected(session.destroy()));
    assert_eq!(session.state(), SessionState::Destroyed);
}

#[test]
fn states_permit_what_the_lifecycle_allows() {
    for state in STATES {
        assert_eq!(state.permits(SessionOp::Transcode), state == SessionState::Created);
        for success in [false, true] {
            assert_eq!(
                state.permits(SessionOp::Complete { success }),
                state == SessionState::Transcoding
            );
        }
        assert_eq!(state.permits(SessionOp::Read), state == SessionState::Transcoded);
        assert_eq!(state.permits(SessionOp::Destroy), state != SessionState::Destroyed);
    }
}

#[test]
fn an_uncompressed_fallback_is_read_like_any_other_output() {
    let mut session = transcoding();
    session
        .complete(Some(TranscoderOutput {
            width: 2,
            height: 2,
            levels: 1,
            layers: 0,
            faces: 1,
            is_srgb: false,
            target_format: TextureTranscodedFormat(CTF_RGBA32),
            dst_buf: vec![0; 16],
        }))
        .unwrap();
    let (image, _) = session.image().unwrap();
    assert_eq!(image.format, TextureFormat::Rgba8Unorm);
    assert_eq!(image.data.len(), 16);
}
