//! The course of one texture load.
//!
//! A load is a conversation with the backend.  [`TextureLoad::begin`] opens
//! it, [`TextureLoad::advance`] takes in each reply and says which call is
//! due next, until the load is finished.  The driver makes the calls.  The
//! transcoder that the backend hands out is released on every path before
//! the load finishes.

use crate::adapter::Initialized;
use crate::compression::TextureCompressionMethod;
use crate::error::{
    BasisuLoaderError, InvariantViolation, NEW_TRANSCODER_ENTRY_POINT,
    TRANSCODE_IMAGE_ENTRY_POINT,
};
use crate::output::{
    assemble, image_of, TranscodedImage, TranscodedImageView, TranscoderOutput,
    TranscoderOutputView,
};
use crate::session::{TranscodeCall, TranscodeSession, TranscoderHandle};
use crate::topology::TextureTopology;
use vstd::prelude::*;

verus! {

/// A call to the backend, made through whichever environment adapter is
/// active.
#[derive(Clone, Copy, Debug, PartialEq, Eq, Structural)]
pub enum BackendCall {
    /// Create a transcoder.
    NewTranscoder,
    /// Transcode the container.
    TranscodeImage { call: TranscodeCall },
    /// Read every output field and copy the pixel buffer out.
    ReadOutput { transcoder: TranscoderHandle },
    /// Release the transcoder.
    DeleteTranscoder { transcoder: TranscoderHandle },
}

/// What the backend answered.
#[derive(Debug)]
pub enum BackendReply {
    /// The handle of the new transcoder; null where none could be created.
    Transcoder { transcoder: TranscoderHandle },
    /// Whether the container was transcoded.
    Transcoded { success: bool },
    /// The output fields.
    Output { output: TranscoderOutput },
    /// The transcoder has been released.
    Deleted,
}

/// A [`BackendReply`] as contracts see it.
pub enum BackendReplyView {
    Transcoder { transcoder: TranscoderHandle },
    Transcoded { success: bool },
    Output { output: TranscoderOutputView },
    Deleted,
}

impl View for BackendReply {
    type V = BackendReplyView;

    open spec fn view(&self) -> BackendReplyView {
        match *self {
            BackendReply::Transcoder { transcoder } => BackendReplyView::Transcoder { transcoder },
            BackendReply::Transcoded { success } => BackendReplyView::Transcoded { success },
            BackendReply::Output { output } => BackendReplyView::Output { output: output@ },
            BackendReply::Deleted => BackendReplyView::Deleted,
        }
    }
}

/// How a load ends: with the image and its topology, or with an error.
pub type LoadResult = Result<(TranscodedImage, TextureTopology), BasisuLoaderError>;

/// A [`LoadResult`] as contracts see it.
pub type LoadResultView = Result<(TranscodedImageView, TextureTopology), BasisuLoaderError>;

/// The view of a load result.
pub open spec fn load_result_view(result: LoadResult) -> LoadResultView {
    match result {
        Ok((image, topology)) => Ok((image@, topology)),
        Err(e) => Err(e),
    }
}

/// What a load asks for next.
#[derive(Debug)]
pub enum LoadStep {
    /// The driver is to make this call and come back with its reply.
    Call(BackendCall),
    /// The load is over.
    Finished(LoadResult),
}

/// A [`LoadStep`] as contracts see it.
pub enum LoadStepView {
    Call(BackendCall),
    Finished(LoadResultView),
}

impl View for LoadStep {
    type V = LoadStepView;

    open spec fn view(&self) -> LoadStepView {
        match *self {
            LoadStep::Call(call) => LoadStepView::Call(call),
            LoadStep::Finished(result) => LoadStepView::Finished(load_result_view(result)),
        }
    }
}

/// Where a load stands.
pub enum LoadPhase {
    /// A transcoder has been asked for.
    AwaitingTranscoder,
    /// The backend is transcoding with `transcoder`.
    AwaitingTranscode { transcoder: TranscoderHandle },
    /// The output of `transcoder` is being read.
    AwaitingOutput { transcoder: TranscoderHandle },
    /// The transcoder is being released; `result` is how the load ends.
    AwaitingDelete { result: LoadResultView },
    /// Nothing is left to do.
    Finished,
}

impl LoadPhase {
    /// The transcoder that the load holds and has not yet asked to release.
    pub open spec fn transcoder(self) -> Option<TranscoderHandle> {
        match self {
            LoadPhase::AwaitingTranscode { transcoder } => Some(transcoder),
            LoadPhase::AwaitingOutput { transcoder } => Some(transcoder),
            _ => None,
        }
    }
}

/// The error that ends a load whose driver answered out of turn.
pub open spec fn unexpected_reply() -> LoadResultView {
    Err(BasisuLoaderError::InvariantViolation(InvariantViolation::UnexpectedReply))
}

/// How a load ends once the backend has delivered `output`.
pub open spec fn load_result_of(output: TranscoderOutputView) -> LoadResultView {
    match image_of(output) {
        Ok(loaded) => Ok(loaded),
        Err(violation) => Err(BasisuLoaderError::InvariantViolation(violation)),
    }
}

/// One step of a load of a container of `data_len` bytes under the
/// capability mask `mask`.
///
/// The course of a load: create a transcoder; transcode; read the output;
/// release the transcoder; finish with the image.  A null handle ends the
/// load at once, naming the entry point that creates transcoders.  A failed
/// transcode ends it, once the transcoder is released, naming the entry
/// point that transcodes.  An output without a topology or without a mapped
/// format ends it, once the transcoder is released, with the invariant that
/// the output breaks.  A reply out of turn ends it with
/// [`InvariantViolation::UnexpectedReply`], once the transcoder, where one
/// is held, is released.
pub open spec fn load_next(
    data_len: u32,
    mask: TextureCompressionMethod,
    phase: LoadPhase,
    reply: BackendReplyView,
) -> (LoadPhase, LoadStepView) {
    match phase {
        LoadPhase::AwaitingTranscoder => match reply {
            BackendReplyView::Transcoder { transcoder } => if transcoder.spec_is_null() {
                (
                    LoadPhase::Finished,
                    LoadStepView::Finished(
                        Err(BasisuLoaderError::TranscodingError(NEW_TRANSCODER_ENTRY_POINT)),
                    ),
                )
            } else {
                (
                    LoadPhase::AwaitingTranscode { transcoder },
                    LoadStepView::Call(
                        BackendCall::TranscodeImage {
                            call: TranscodeCall {
                                transcoder,
                                data_len,
                                supported_compressed_formats: mask,
                            },
                        },
                    ),
                )
            },
            _ => (LoadPhase::Finished, LoadStepView::Finished(unexpected_reply())),
        },
        LoadPhase::AwaitingTranscode { transcoder } => match reply {
            BackendReplyView::Transcoded { success } => if success {
                (
                    LoadPhase::AwaitingOutput { transcoder },
                    LoadStepView::Call(BackendCall::ReadOutput { transcoder }),
                )
            } else {
                (
                    LoadPhase::AwaitingDelete {
                        result: Err(
                            BasisuLoaderError::TranscodingError(TRANSCODE_IMAGE_ENTRY_POINT),
                        ),
                    },
                    LoadStepView::Call(BackendCall::DeleteTranscoder { transcoder }),
                )
            },
            _ => (
                LoadPhase::AwaitingDelete { result: unexpected_reply() },
                LoadStepView::Call(BackendCall::DeleteTranscoder { transcoder }),
            ),
        },
        LoadPhase::AwaitingOutput { transcoder } => match reply {
            BackendReplyView::Output { output } => (
                LoadPhase::AwaitingDelete { result: load_result_of(output) },
                LoadStepView::Call(BackendCall::DeleteTranscoder { transcoder }),
            ),
            _ => (
                LoadPhase::AwaitingDelete { result: unexpected_reply() },
                LoadStepView::Call(BackendCall::DeleteTranscoder { transcoder }),
            ),
        },
        LoadPhase::AwaitingDelete { result } => match reply {
            BackendReplyView::Deleted => (LoadPhase::Finished, LoadStepView::Finished(result)),
            _ => (LoadPhase::Finished, LoadStepView::Finished(unexpected_reply())),
        },
        LoadPhase::Finished => (LoadPhase::Finished, LoadStepView::Finished(unexpected_reply())),
    }
}

/// What is left of a load between two replies.
#[derive(Debug)]
enum Pending {
    Transcoder,
    Transcode { session: TranscodeSession },
    Output { session: TranscodeSession },
    Delete { result: LoadResult },
    Nothing,
}

/// The load of one texture, between two backend calls.
#[derive(Debug)]
pub struct TextureLoad {
    initialized: Initialized,
    data_len: u32,
    supported_compressed_formats: TextureCompressionMethod,
    pending: Pending,
}

impl TextureLoad {
    #[verifier::type_invariant]
    spec fn inv(self) -> bool {
        match self.pending {
            Pending::Transcode { session } => session@.wf() && session@.state is Transcoding,
            Pending::Output { session } => session@.wf() && session@.state is Transcoding,
            _ => true,
        }
    }

    /// The length of the container in bytes.
    pub closed spec fn data_len(&self) -> u32 {
        self.data_len
    }

    /// The capability mask of the device the texture is loaded for.
    pub closed spec fn supported_compressed_formats(&self) -> TextureCompressionMethod {
        self.supported_compressed_formats
    }

    /// Where the load stands.
    pub closed spec fn phase(&self) -> LoadPhase {
        match self.pending {
            Pending::Transcoder => LoadPhase::AwaitingTranscoder,
            Pending::Transcode { session } => LoadPhase::AwaitingTranscode {
                transcoder: session@.transcoder,
            },
            Pending::Output { session } => LoadPhase::AwaitingOutput {
                transcoder: session@.transcoder,
            },
            Pending::Delete { result } => LoadPhase::AwaitingDelete {
                result: load_result_view(result),
            },
            Pending::Nothing => LoadPhase::Finished,
        }
    }

    /// Opens the load of a container of `data_len` bytes, for a device with
    /// the capability mask `supported_compressed_formats`, on a backend
    /// that is initialized.  The load begins by asking for a transcoder.
    pub fn begin(
        initialized: Initialized,
        data_len: u32,
        supported_compressed_formats: TextureCompressionMethod,
    ) -> (r: (TextureLoad, LoadStep))
        ensures
            r.0.data_len() == data_len,
            r.0.supported_compressed_formats() == supported_compressed_formats,
            r.0.phase() is AwaitingTranscoder,
            r.1@ == LoadStepView::Call(BackendCall::NewTranscoder),
    {
        (
            TextureLoad {
                initialized,
                data_len,
                supported_compressed_formats,
                pending: Pending::Transcoder,
            },
            LoadStep::Call(BackendCall::NewTranscoder),
        )
    }

    /// Whether the load is over.
    pub fn is_finished(&self) -> (r: bool)
        ensures
            r == (self.phase() is Finished),
    {
        matches!(self.pending, Pending::Nothing)
    }

    /// Takes in the reply to the call that was asked for last, and says
    /// what comes next.
    pub fn advance(self, reply: BackendReply) -> (r: (TextureLoad, LoadStep))
        ensures
            r.0.data_len() == self.data_len(),
            r.0.supported_compressed_formats() == self.supported_compressed_formats(),
            (r.0.phase(), r.1@) == load_next(
                self.data_len(),
                self.supported_compressed_formats(),
                self.phase(),
                reply@,
            ),
    {
        proof {
            use_type_invariant(&self);
        }
        let initialized = self.initialized;
        let data_len = self.data_len;
        let supported_compressed_formats = self.supported_compressed_formats;
        let (pending, step) = match self.pending {
            Pending::Transcoder => match reply {
                BackendReply::Transcoder { transcoder } => {
                    match TranscodeSession::create(initialized, transcoder) {
                        Ok(session) => begin_transcode(
                            session,
                            data_len,
                            supported_compressed_formats,
                        ),
                        Err(e) => (Pending::Nothing, LoadStep::Finished(Err(e))),
                    }
                },
                _ => (Pending::Nothing, LoadStep::Finished(out_of_turn())),
            },
            Pending::Transcode { session } => match reply {
                BackendReply::Transcoded { success } => {
                    if success {
                        let transcoder = session.transcoder();
                        (
                            Pending::Output { session },
                            LoadStep::Call(BackendCall::ReadOutput { transcoder }),
                        )
                    } else {
                        end_session(session, None)
                    }
                },
                _ => abandon_session(session),
            },
            Pending::Output { session } => match reply {
                BackendReply::Output { output } => end_session(session, Some(output)),
                _ => abandon_session(session),
            },
            Pending::Delete { result } => match reply {
                BackendReply::Deleted => (Pending::Nothing, LoadStep::Finished(result)),
                _ => (Pending::Nothing, LoadStep::Finished(out_of_turn())),
            },
            Pending::Nothing => (Pending::Nothing, LoadStep::Finished(out_of_turn())),
        };
        (TextureLoad { initialized, data_len, supported_compressed_formats, pending }, step)
    }
}

/// The result of a load whose driver answered out of turn.
fn out_of_turn() -> (r: LoadResult)
    ensures
        load_result_view(r) == unexpected_reply(),
{
    Err(BasisuLoaderError::InvariantViolation(InvariantViolation::UnexpectedReply))
}

/// Starts the transcode of a fresh session.
fn begin_transcode(
    session: TranscodeSession,
    data_len: u32,
    supported_compressed_formats: TextureCompressionMethod,
) -> (r: (Pending, LoadStep))
    requires
        session@.wf(),
        session@.state is Created,
    ensures
        r.0 matches Pending::Transcode { session: begun } && begun@.wf()
            && begun@.state is Transcoding && begun@.transcoder == session@.transcoder,
        r.1@ == LoadStepView::Call(
            BackendCall::TranscodeImage {
                call: TranscodeCall {
                    transcoder: session@.transcoder,
                    data_len,
                    supported_compressed_formats,
                },
            },
        ),
{
    let mut session = session;
    match session.transcode(data_len, supported_compressed_formats) {
        Ok(call) => (
            Pending::Transcode { session },
            LoadStep::Call(BackendCall::TranscodeImage { call }),
        ),
        Err(e) => (Pending::Nothing, LoadStep::Finished(Err(e))),
    }
}

/// Completes a session with what the backend answered, destroys it, and
/// asks for the release of its transcoder.
fn end_session(session: TranscodeSession, outcome: Option<TranscoderOutput>) -> (r: (
    Pending,
    LoadStep,
))
    requires
        session@.wf(),
        session@.state is Transcoding,
    ensures
        r.0 matches Pending::Delete { result } && load_result_view(result) == match outcome {
            Some(output) => load_result_of(output@),
            None => Err(BasisuLoaderError::TranscodingError(TRANSCODE_IMAGE_ENTRY_POINT)),
        },
        r.1@ == LoadStepView::Call(
            BackendCall::DeleteTranscoder { transcoder: session@.transcoder },
        ),
{
    let mut session = session;
    let completed = session.complete(outcome);
    match session.destroy() {
        Ok(released) => {
            let result: LoadResult = match (completed, released.output) {
                (Err(e), _) => Err(e),
                (Ok(()), Some(output)) => assemble(output),
                (Ok(()), None) => Err(
                    BasisuLoaderError::InvariantViolation(InvariantViolation::SessionState),
                ),
            };
            (
                Pending::Delete { result },
                LoadStep::Call(
                    BackendCall::DeleteTranscoder { transcoder: released.transcoder },
                ),
            )
        },
        Err(e) => (Pending::Nothing, LoadStep::Finished(Err(e))),
    }
}

/// Destroys a session whose driver answered out of turn, and asks for the
/// release of its transcoder.
fn abandon_session(session: TranscodeSession) -> (r: (Pending, LoadStep))
    requires
        session@.wf(),
        session@.state is Transcoding,
    ensures
        r.0 matches Pending::Delete { result } && load_result_view(result)
            == unexpected_reply(),
        r.1@ == LoadStepView::Call(
            BackendCall::DeleteTranscoder { transcoder: session@.transcoder },
        ),
{
    let mut session = session;
    match session.destroy() {
        Ok(released) => (
            Pending::Delete { result: out_of_turn() },
            LoadStep::Call(BackendCall::DeleteTranscoder { transcoder: released.transcoder }),
        ),
        Err(e) => (Pending::Nothing, LoadStep::Finished(Err(e))),
    }
}

/// How a load ends when the driver answers each call in turn: with the
/// entry point that creates transcoders where the handle is null, with the
/// entry point that transcodes where the backend reports failure, and else
/// with what the output stands for.
pub open spec fn load_outcome(
    transcoder: TranscoderHandle,
    success: bool,
    output: TranscoderOutputView,
) -> LoadResultView {
    if transcoder.spec_is_null() {
        Err(BasisuLoaderError::TranscodingError(NEW_TRANSCODER_ENTRY_POINT))
    } else if !success {
        Err(BasisuLoaderError::TranscodingError(TRANSCODE_IMAGE_ENTRY_POINT))
    } else {
        load_result_of(output)
    }
}

/// The transcoder is released once on every path.  While a load holds a
/// transcoder, a step either keeps holding it and asks for something other
/// than its release, or asks to release exactly that transcoder and lets go
/// of it.  Nothing is released that is not held, and a load finishes only
/// while it holds none.  The output is read only after the backend has
/// reported success, and every call names the transcoder that is held.
pub proof fn lemma_transcoder_is_released_once(
    data_len: u32,
    mask: TextureCompressionMethod,
    phase: LoadPhase,
    reply: BackendReplyView,
)
    ensures
        ({
            let (next, step) = load_next(data_len, mask, phase, reply);
            &&& phase.transcoder() matches Some(held) ==> {
                ||| step == LoadStepView::Call(BackendCall::DeleteTranscoder { transcoder: held })
                    && next.transcoder() is None
                ||| next.transcoder() == Some(held) && step is Call && !(step->Call_0
                    is DeleteTranscoder)
            }
            &&& step matches LoadStepView::Call(BackendCall::DeleteTranscoder { transcoder })
                ==> phase.transcoder() == Some(transcoder)
            &&& step is Finished ==> phase.transcoder() is None && next is Finished
            &&& step matches LoadStepView::Call(BackendCall::ReadOutput { transcoder }) ==> phase
                == (LoadPhase::AwaitingTranscode { transcoder }) && reply
                == (BackendReplyView::Transcoded { success: true })
            &&& step matches LoadStepView::Call(BackendCall::TranscodeImage { call }) ==> phase
                is AwaitingTranscoder && !call.transcoder.spec_is_null() && next.transcoder()
                == Some(call.transcoder) && call.data_len == data_len
                && call.supported_compressed_formats == mask
            &&& !(step matches LoadStepView::Call(BackendCall::NewTranscoder))
        }),
{
}

/// A load whose driver answers each call in turn asks for a transcoder,
/// transcodes with it, reads the output, releases the transcoder and ends
/// as [`load_outcome`] says.  It stops short where the handle is null, with
/// no transcoder to release, and skips the read where the backend reports
/// failure.
pub proof fn lemma_load_runs_to_its_outcome(
    data_len: u32,
    mask: TextureCompressionMethod,
    transcoder: TranscoderHandle,
    success: bool,
    output: TranscoderOutputView,
)
    ensures
        ({
            let created = load_next(
                data_len,
                mask,
                LoadPhase::AwaitingTranscoder,
                BackendReplyView::Transcoder { transcoder },
            );
            let transcoded = load_next(
                data_len,
                mask,
                created.0,
                BackendReplyView::Transcoded { success },
            );
            let read = load_next(data_len, mask, transcoded.0, BackendReplyView::Output { output });
            let released = load_next(
                data_len,
                mask,
                if success {
                    read.0
                } else {
                    transcoded.0
                },
                BackendReplyView::Deleted,
            );
            if transcoder.spec_is_null() {
                created.1 == LoadStepView::Finished(load_outcome(transcoder, success, output))
            } else {
                &&& created.1 == LoadStepView::Call(
                    BackendCall::TranscodeImage {
                        call: TranscodeCall {
                            transcoder,
                            data_len,
                            supported_compressed_formats: mask,
                        },
                    },
                )
                &&& success ==> transcoded.1 == LoadStepView::Call(
                    BackendCall::ReadOutput { transcoder },
                ) && read.1 == LoadStepView::Call(BackendCall::DeleteTranscoder { transcoder })
                &&& !success ==> transcoded.1 == LoadStepView::Call(
                    BackendCall::DeleteTranscoder { transcoder },
                )
                &&& released == (
                    LoadPhase::Finished,
                    LoadStepView::Finished(load_outcome(transcoder, success, output)),
                )
            }
        }),
{
}

} // verus!
