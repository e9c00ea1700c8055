//! The lifecycle of one transcode session.
//!
//! A session owns one backend handle from the moment the backend hands it
//! out until it is released.  It moves forward only:
//!
//! ```text
//! Created -> Transcoding -> Transcoded -> Destroyed
//!                       \-> Failed ----/
//! ```
//!
//! The session makes no backend call.  `transcode` says which call is due,
//! `complete` takes in what the backend answered, and `destroy` hands the
//! handle back for release.  An operation that the state forbids changes
//! nothing and is answered with [`InvariantViolation::SessionState`].

use crate::adapter::Initialized;
use crate::compression::TextureCompressionMethod;
use crate::error::{
    BasisuLoaderError, InvariantViolation, NEW_TRANSCODER_ENTRY_POINT,
    TRANSCODE_IMAGE_ENTRY_POINT,
};
use crate::format::TextureTranscodedFormat;
use crate::output::{assemble, is_image_of, TranscodedImage, TranscoderOutput, TranscoderOutputView};
use crate::topology::TextureTopology;
use vstd::prelude::*;

verus! {

/// A transcoder of the backend, named by the value the backend handed out:
/// an address in a native process, an offset in a sandbox.  Zero names no
/// transcoder.
#[derive(Clone, Copy, Debug, PartialEq, Eq, Hash, Structural)]
pub struct TranscoderHandle(pub usize);

impl TranscoderHandle {
    /// Whether this handle names no transcoder.
    pub open spec fn spec_is_null(self) -> bool {
        self.0 == 0
    }

    /// Whether this handle names no transcoder.
    #[verifier::when_used_as_spec(spec_is_null)]
    pub fn is_null(self) -> (r: bool)
        ensures
            r == self.spec_is_null(),
    {
        self.0 == 0
    }
}

/// Where a session stands in its lifecycle.
#[derive(Clone, Copy, Debug, PartialEq, Eq, Hash, Structural)]
pub enum SessionState {
    /// The handle is allocated; no image has been decoded.
    Created,
    /// The transcode call has been handed out and not yet answered.
    Transcoding,
    /// The backend has filled in the output fields for one image.
    Transcoded,
    /// The backend reported failure; only destruction is left.
    Failed,
    /// The handle has been given back.  Nothing is left.
    Destroyed,
}

/// What can be asked of a session.
#[derive(Clone, Copy, Debug, PartialEq, Eq, Hash, Structural)]
pub enum SessionOp {
    /// Start transcoding a container.
    Transcode,
    /// Take in the answer to the transcode call.
    Complete { success: bool },
    /// Read an output field or the pixel buffer.
    Read,
    /// Give the handle back.
    Destroy,
}

impl SessionState {
    /// Whether a session in this state accepts `op`.
    pub open spec fn spec_permits(self, op: SessionOp) -> bool {
        match op {
            SessionOp::Transcode => self is Created,
            SessionOp::Complete { .. } => self is Transcoding,
            SessionOp::Read => self is Transcoded,
            SessionOp::Destroy => self !is Destroyed,
        }
    }

    /// Whether a session in this state accepts `op`.
    #[verifier::when_used_as_spec(spec_permits)]
    pub fn permits(self, op: SessionOp) -> (r: bool)
        ensures
            r == self.spec_permits(op),
    {
        match op {
            SessionOp::Transcode => matches!(self, SessionState::Created),
            SessionOp::Complete { .. } => matches!(self, SessionState::Transcoding),
            SessionOp::Read => matches!(self, SessionState::Transcoded),
            SessionOp::Destroy => !matches!(self, SessionState::Destroyed),
        }
    }

    /// The state that `op` leaves a session in: the next state where the
    /// operation is accepted, this state where it is not.
    pub open spec fn after(self, op: SessionOp) -> SessionState {
        if !self.spec_permits(op) {
            self
        } else {
            match op {
                SessionOp::Transcode => SessionState::Transcoding,
                SessionOp::Complete { success } => if success {
                    SessionState::Transcoded
                } else {
                    SessionState::Failed
                },
                SessionOp::Read => self,
                SessionOp::Destroy => SessionState::Destroyed,
            }
        }
    }

    /// How far along its lifecycle a session in this state is.
    pub open spec fn progress(self) -> nat {
        match self {
            SessionState::Created => 0,
            SessionState::Transcoding => 1,
            SessionState::Transcoded => 2,
            SessionState::Failed => 2,
            SessionState::Destroyed => 3,
        }
    }
}

/// The transcode call that a session asks its environment adapter to make.
#[derive(Clone, Copy, Debug, PartialEq, Eq, Structural)]
pub struct TranscodeCall {
    pub transcoder: TranscoderHandle,
    pub data_len: u32,
    pub supported_compressed_formats: TextureCompressionMethod,
}

/// What a destroyed session leaves to its caller.
#[derive(Debug)]
pub struct Released {
    /// The handle to release.
    pub transcoder: TranscoderHandle,
    /// The output fields, where the session had been transcoded.
    pub output: Option<TranscoderOutput>,
}

/// A [`Released`] as contracts see it.
pub struct ReleasedView {
    pub transcoder: TranscoderHandle,
    pub output: Option<TranscoderOutputView>,
}

impl View for Released {
    type V = ReleasedView;

    open spec fn view(&self) -> ReleasedView {
        ReleasedView {
            transcoder: self.transcoder,
            output: match self.output {
                Some(output) => Some(output@),
                None => None,
            },
        }
    }
}

/// One transcode operation's handle and what is known of it.
#[derive(Debug)]
pub struct TranscodeSession {
    transcoder: TranscoderHandle,
    state: SessionState,
    output: Option<TranscoderOutput>,
}

/// A [`TranscodeSession`] as contracts see it.
pub struct TranscodeSessionView {
    pub transcoder: TranscoderHandle,
    pub state: SessionState,
    pub output: Option<TranscoderOutputView>,
}

impl TranscodeSessionView {
    /// A session holds a handle that names a transcoder, and output fields
    /// exactly while it is `Transcoded`.
    pub open spec fn wf(self) -> bool {
        &&& !self.transcoder.spec_is_null()
        &&& self.output is Some <==> self.state is Transcoded
    }
}

/// What a read of a session is answered with: the value that `field`
/// picks from the output where the state accepts reads, and a rejection
/// anywhere else.
pub open spec fn read_of<T>(
    session: TranscodeSessionView,
    field: spec_fn(TranscoderOutputView) -> T,
) -> Result<T, BasisuLoaderError> {
    if session.state.spec_permits(SessionOp::Read) {
        Ok(field(session.output->Some_0))
    } else {
        Err(BasisuLoaderError::InvariantViolation(InvariantViolation::SessionState))
    }
}

impl View for TranscodeSession {
    type V = TranscodeSessionView;

    closed spec fn view(&self) -> TranscodeSessionView {
        TranscodeSessionView {
            transcoder: self.transcoder,
            state: self.state,
            output: match self.output {
                Some(output) => Some(output@),
                None => None,
            },
        }
    }
}

impl TranscodeSession {
    #[verifier::type_invariant]
    spec fn inv(self) -> bool {
        self@.wf()
    }

    /// Wraps the handle that an initialized backend handed out.  The token
    /// is the caller's proof that the backend was initialized before it was
    /// asked for a transcoder.  A null handle means that the backend could
    /// not create one.
    pub fn create(_initialized: Initialized, transcoder: TranscoderHandle) -> (r: Result<
        Self,
        BasisuLoaderError,
    >)
        ensures
            match r {
                Ok(session) => !transcoder.spec_is_null() && session@ == (TranscodeSessionView {
                    transcoder,
                    state: SessionState::Created,
                    output: None,
                }),
                Err(e) => transcoder.spec_is_null() && e == BasisuLoaderError::TranscodingError(
                    NEW_TRANSCODER_ENTRY_POINT,
                ),
            },
    {
        if transcoder.is_null() {
            Err(BasisuLoaderError::TranscodingError(NEW_TRANSCODER_ENTRY_POINT))
        } else {
            Ok(TranscodeSession { transcoder, state: SessionState::Created, output: None })
        }
    }

    /// Where the session stands.
    pub fn state(&self) -> (r: SessionState)
        ensures
            r == self@.state,
            self@.wf(),
    {
        proof {
            use_type_invariant(self);
        }
        self.state
    }

    /// The handle the session owns.  It stays the same for the whole life
    /// of the session.
    pub fn transcoder(&self) -> (r: TranscoderHandle)
        ensures
            r == self@.transcoder,
            !r.spec_is_null(),
    {
        proof {
            use_type_invariant(self);
        }
        self.transcoder
    }

    /// Starts transcoding a container of `data_len` bytes for a device with
    /// the given capability mask, and says which backend call is due.  The
    /// backend takes the length of a container as 32 bits.
    pub fn transcode(
        &mut self,
        data_len: u32,
        supported_compressed_formats: TextureCompressionMethod,
    ) -> (r: Result<TranscodeCall, BasisuLoaderError>)
        ensures
            final(self)@.wf(),
            final(self)@.transcoder == old(self)@.transcoder,
            final(self)@.output == old(self)@.output,
            final(self)@.state == old(self)@.state.after(SessionOp::Transcode),
            r == if old(self)@.state.spec_permits(SessionOp::Transcode) {
                Ok::<TranscodeCall, BasisuLoaderError>(
                    TranscodeCall {
                        transcoder: old(self)@.transcoder,
                        data_len,
                        supported_compressed_formats,
                    },
                )
            } else {
                Err(BasisuLoaderError::InvariantViolation(InvariantViolation::SessionState))
            },
    {
        proof {
            use_type_invariant(&*self);
        }
        if !self.state.permits(SessionOp::Transcode) {
            return Err(BasisuLoaderError::InvariantViolation(InvariantViolation::SessionState));
        }
        self.state = SessionState::Transcoding;
        Ok(TranscodeCall { transcoder: self.transcoder, data_len, supported_compressed_formats })
    }

    /// Takes in the answer to the transcode call: the output fields where
    /// the backend reported success, `None` where it reported failure.  A
    /// failed session is left for destruction only.
    pub fn complete(&mut self, outcome: Option<TranscoderOutput>) -> (r: Result<
        (),
        BasisuLoaderError,
    >)
        ensures
            final(self)@.wf(),
            final(self)@.transcoder == old(self)@.transcoder,
            final(self)@.state == old(self)@.state.after(
                SessionOp::Complete { success: outcome is Some },
            ),
            final(self)@.output == if old(self)@.state.spec_permits(
                SessionOp::Complete { success: outcome is Some },
            ) {
                match outcome {
                    Some(output) => Some(output@),
                    None => None,
                }
            } else {
                old(self)@.output
            },
            r == if !old(self)@.state.spec_permits(
                SessionOp::Complete { success: outcome is Some },
            ) {
                Err::<(), BasisuLoaderError>(
                    BasisuLoaderError::InvariantViolation(InvariantViolation::SessionState),
                )
            } else if outcome is Some {
                Ok(())
            } else {
                Err(BasisuLoaderError::TranscodingError(TRANSCODE_IMAGE_ENTRY_POINT))
            },
    {
        proof {
            use_type_invariant(&*self);
        }
        if !matches!(self.state, SessionState::Transcoding) {
            return Err(BasisuLoaderError::InvariantViolation(InvariantViolation::SessionState));
        }
        match outcome {
            Some(output) => {
                *self = TranscodeSession {
                    transcoder: self.transcoder,
                    state: SessionState::Transcoded,
                    output: Some(output),
                };
                Ok(())
            },
            None => {
                self.state = SessionState::Failed;
                Err(BasisuLoaderError::TranscodingError(TRANSCODE_IMAGE_ENTRY_POINT))
            },
        }
    }

    /// The output fields, where the state accepts reads.
    fn fields(&self) -> (r: Result<&TranscoderOutput, BasisuLoaderError>)
        ensures
            self@.wf(),
            match r {
                Ok(output) => self@.state.spec_permits(SessionOp::Read) && self@.output == Some(
                    output@,
                ),
                Err(e) => !self@.state.spec_permits(SessionOp::Read) && e
                    == BasisuLoaderError::InvariantViolation(InvariantViolation::SessionState),
            },
    {
        proof {
            use_type_invariant(self);
        }
        match &self.output {
            Some(output) => Ok(output),
            None => Err(BasisuLoaderError::InvariantViolation(InvariantViolation::SessionState)),
        }
    }

    /// The width of the image in pixels.
    pub fn width(&self) -> (r: Result<u32, BasisuLoaderError>)
        ensures
            r == read_of(self@, |output: TranscoderOutputView| output.width),
    {
        match self.fields() {
            Ok(output) => Ok(output.width),
            Err(e) => Err(e),
        }
    }

    /// The height of the image in pixels.
    pub fn height(&self) -> (r: Result<u32, BasisuLoaderError>)
        ensures
            r == read_of(self@, |output: TranscoderOutputView| output.height),
    {
        match self.fields() {
            Ok(output) => Ok(output.height),
            Err(e) => Err(e),
        }
    }

    /// The number of mip levels.
    pub fn levels(&self) -> (r: Result<u32, BasisuLoaderError>)
        ensures
            r == read_of(self@, |output: TranscoderOutputView| output.levels),
    {
        match self.fields() {
            Ok(output) => Ok(output.levels),
            Err(e) => Err(e),
        }
    }

    /// The number of array layers; zero for a texture that is no array.
    pub fn layers(&self) -> (r: Result<u32, BasisuLoaderError>)
        ensures
            r == read_of(self@, |output: TranscoderOutputView| output.layers),
    {
        match self.fields() {
            Ok(output) => Ok(output.layers),
            Err(e) => Err(e),
        }
    }

    /// The number of faces: one, or six for a cube.
    pub fn faces(&self) -> (r: Result<u32, BasisuLoaderError>)
        ensures
            r == read_of(self@, |output: TranscoderOutputView| output.faces),
    {
        match self.fields() {
            Ok(output) => Ok(output.faces),
            Err(e) => Err(e),
        }
    }

    /// Whether the container declares its colours as sRGB.
    pub fn is_srgb(&self) -> (r: Result<bool, BasisuLoaderError>)
        ensures
            r == read_of(self@, |output: TranscoderOutputView| output.is_srgb),
    {
        match self.fields() {
            Ok(output) => Ok(output.is_srgb),
            Err(e) => Err(e),
        }
    }

    /// The output format that the backend chose.
    pub fn target_format(&self) -> (r: Result<TextureTranscodedFormat, BasisuLoaderError>)
        ensures
            r == read_of(self@, |output: TranscoderOutputView| output.target_format),
    {
        match self.fields() {
            Ok(output) => Ok(output.target_format),
            Err(e) => Err(e),
        }
    }

    /// A copy of the decoded bytes.  Reading leaves the session as it was,
    /// so the buffer can be read again, before or after any other field.
    pub fn pixel_buffer(&self) -> (r: Result<Vec<u8>, BasisuLoaderError>)
        ensures
            match r {
                Ok(bytes) => read_of(self@, |output: TranscoderOutputView| output.dst_buf) == Ok::<
                    Seq<u8>,
                    BasisuLoaderError,
                >(bytes@),
                Err(e) => read_of(self@, |output: TranscoderOutputView| output.dst_buf) == Err::<
                    Seq<u8>,
                    BasisuLoaderError,
                >(e),
            },
    {
        match self.fields() {
            Ok(output) => Ok(output.dst_buf.clone()),
            Err(e) => Err(e),
        }
    }

    /// The image and its topology, made of the output fields and a copy of
    /// the decoded bytes.
    pub fn image(&self) -> (r: Result<(TranscodedImage, TextureTopology), BasisuLoaderError>)
        ensures
            if self@.state.spec_permits(SessionOp::Read) {
                is_image_of(r, self@.output->Some_0)
            } else {
                r == Err::<(TranscodedImage, TextureTopology), BasisuLoaderError>(
                    BasisuLoaderError::InvariantViolation(InvariantViolation::SessionState),
                )
            },
    {
        match self.fields() {
            Ok(output) => {
                let dst_buf = output.dst_buf.clone();
                assemble(
                    TranscoderOutput {
                        width: output.width,
                        height: output.height,
                        levels: output.levels,
                        layers: output.layers,
                        faces: output.faces,
                        is_srgb: output.is_srgb,
                        target_format: output.target_format,
                        dst_buf,
                    },
                )
            },
            Err(e) => Err(e),
        }
    }

    /// Ends the session and hands back what it owned: the handle, which the
    /// caller must release, and the output fields if there were any.  They
    /// are handed back once: a session that is already destroyed rejects
    /// the call.
    pub fn destroy(&mut self) -> (r: Result<Released, BasisuLoaderError>)
        ensures
            final(self)@.wf(),
            final(self)@.transcoder == old(self)@.transcoder,
            final(self)@.state == SessionState::Destroyed,
            final(self)@.state == old(self)@.state.after(SessionOp::Destroy),
            final(self)@.output is None,
            match r {
                Ok(released) => old(self)@.state.spec_permits(SessionOp::Destroy)
                    && released.transcoder == old(self)@.transcoder && !released.transcoder.spec_is_null()
                    && released@.output == old(self)@.output,
                Err(e) => !old(self)@.state.spec_permits(SessionOp::Destroy) && e
                    == BasisuLoaderError::InvariantViolation(InvariantViolation::SessionState),
            },
    {
        proof {
            use_type_invariant(&*self);
        }
        if !self.state.permits(SessionOp::Destroy) {
            return Err(BasisuLoaderError::InvariantViolation(InvariantViolation::SessionState));
        }
        let mut owned = TranscodeSession {
            transcoder: self.transcoder,
            state: SessionState::Destroyed,
            output: None,
        };
        std::mem::swap(self, &mut owned);
        Ok(Released { transcoder: owned.transcoder, output: owned.output })
    }
}

/// Output can be read only after a transcode has succeeded: reads are
/// accepted in the `Transcoded` state alone, and the one way into that state
/// is the successful answer to a pending transcode call.
pub proof fn lemma_reads_need_a_successful_transcode(state: SessionState, op: SessionOp)
    ensures
        state.spec_permits(SessionOp::Read) <==> state is Transcoded,
        state.after(op) is Transcoded && state !is Transcoded ==> state is Transcoding && op
            == (SessionOp::Complete { success: true }),
        state.after(op) is Transcoding && state !is Transcoding ==> state is Created && op
            == SessionOp::Transcode,
{
}

/// Destruction is final: whatever the state, a session is `Destroyed` after
/// `destroy`, a second `destroy` is rejected, and so is every other
/// operation, none of which brings the session back.
pub proof fn lemma_destroy_is_final(state: SessionState, op: SessionOp)
    ensures
        state.after(SessionOp::Destroy) is Destroyed,
        !state.after(SessionOp::Destroy).spec_permits(op),
        state.after(SessionOp::Destroy).after(op) is Destroyed,
        state.spec_permits(SessionOp::Destroy) <==> state !is Destroyed,
{
}

/// A session only moves forward: no operation takes it back to a state it
/// has left, a rejected operation leaves it where it is, and an accepted
/// one other than a read moves it on.
pub proof fn lemma_sessions_move_forward(state: SessionState, op: SessionOp)
    ensures
        state.progress() <= state.after(op).progress(),
        !state.spec_permits(op) ==> state.after(op) == state,
        state.spec_permits(op) && op != SessionOp::Read ==> state.progress() < state.after(
            op,
        ).progress(),
        state.after(op) is Created ==> state is Created,
{
}

} // verus!
