//! The two memory environments a backend can live in.
//!
//! In the *direct* environment the backend shares the address space of its
//! caller: the container is passed by pointer and the output is read by
//! pointer.  In the *isolated* environment the backend is a sandboxed module
//! with a linear memory of its own: the container is copied to a freshly
//! allocated offset before the call, the scratch allocation is freed after
//! it, and the output is copied back out by offset and length.
//!
//! This module decides what is to be done in which order.  The driver does
//! it.

use crate::compression::TextureCompressionMethod;
use crate::error::{BasisuLoaderError, InvariantViolation};
use crate::output::TranscoderOutputView;
use crate::session::TranscodeCall;
use vstd::prelude::*;

verus! {

/// The memory environment of a backend.
#[derive(Clone, Copy, Debug, PartialEq, Eq, Hash, Structural)]
pub enum Environment {
    /// A native process: pointers are dereferenced where they stand.
    Direct,
    /// A sandboxed module: every byte crosses by explicit copy.
    Isolated,
}

/// How far the one-time setup of a backend has come.
#[derive(Clone, Copy, Debug, PartialEq, Eq, Hash, Structural)]
pub enum SetupState {
    /// The sandboxed module has not been instantiated.
    Unloaded,
    /// The backend code is in reach; its tables are not built.
    Loaded,
    /// The backend is ready for sessions.  This state is never left.
    Initialized,
}

/// A call that sets a backend up.  Each is made once in the life of a
/// process.
#[derive(Clone, Copy, Debug, PartialEq, Eq, Hash, Structural)]
pub enum SetupCall {
    /// Instantiate the sandboxed module.
    LoadModule,
    /// Build the tables of the backend.
    Initialize,
}

impl SetupState {
    /// Where setup starts: a sandboxed module has to be instantiated first,
    /// a native backend is linked in.
    pub open spec fn initial(environment: Environment) -> SetupState {
        match environment {
            Environment::Direct => SetupState::Loaded,
            Environment::Isolated => SetupState::Unloaded,
        }
    }

    /// The setup call that is due, if any.
    pub open spec fn spec_next_call(self) -> Option<SetupCall> {
        match self {
            SetupState::Unloaded => Some(SetupCall::LoadModule),
            SetupState::Loaded => Some(SetupCall::Initialize),
            SetupState::Initialized => None,
        }
    }

    /// The setup call that is due, if any.
    #[verifier::when_used_as_spec(spec_next_call)]
    pub fn next_call(self) -> (r: Option<SetupCall>)
        ensures
            r == self.spec_next_call(),
    {
        match self {
            SetupState::Unloaded => Some(SetupCall::LoadModule),
            SetupState::Loaded => Some(SetupCall::Initialize),
            SetupState::Initialized => None,
        }
    }

    /// The state after `call` has been made: one step on where the call was
    /// due, this state where it was not.
    pub open spec fn after(self, call: SetupCall) -> SetupState {
        if self.spec_next_call() == Some(call) {
            match call {
                SetupCall::LoadModule => SetupState::Loaded,
                SetupCall::Initialize => SetupState::Initialized,
            }
        } else {
            self
        }
    }
}

/// The token of a backend that is initialized.  Only [`Backend::initialized`]
/// hands it out, and only once setup is complete; whoever holds one may
/// create sessions.  Setup is never undone, so a token stays good.
#[derive(Clone, Copy, Debug)]
pub struct Initialized {
    sealed: (),
}

/// A backend and the progress of its setup.  One value stands for the one
/// backend of a process.
///
/// A sandboxed module serves one transcode at a time: allocating, calling
/// and freeing do not interleave with those of another transcode.  The
/// backend is marked busy from the moment an isolated transcode begins
/// until it has finished, and no other begins meanwhile.
#[derive(Debug)]
pub struct Backend {
    environment: Environment,
    setup: SetupState,
    busy: bool,
}

impl Backend {
    /// The memory environment of this backend.
    pub closed spec fn spec_environment(&self) -> Environment {
        self.environment
    }

    /// How far setup has come.
    pub closed spec fn spec_setup(&self) -> SetupState {
        self.setup
    }

    /// Whether sessions may be created.
    pub open spec fn spec_is_initialized(&self) -> bool {
        self.spec_setup() is Initialized
    }

    /// Whether an isolated transcode is under way.
    pub closed spec fn spec_is_busy(&self) -> bool {
        self.busy
    }

    /// A backend in the given environment, on which no setup call has been
    /// made.
    pub fn new(environment: Environment) -> (r: Self)
        ensures
            r.spec_environment() == environment,
            r.spec_setup() == SetupState::initial(environment),
            !r.spec_is_busy(),
    {
        let setup = match environment {
            Environment::Direct => SetupState::Loaded,
            Environment::Isolated => SetupState::Unloaded,
        };
        Backend { environment, setup, busy: false }
    }

    /// The token that allows sessions to be created, once the backend is
    /// initialized.
    pub fn initialized(&self) -> (r: Option<Initialized>)
        ensures
            r is Some <==> self.spec_is_initialized(),
    {
        match self.setup {
            SetupState::Initialized => Some(Initialized { sealed: () }),
            _ => None,
        }
    }

    /// Whether an isolated transcode is under way.
    #[verifier::when_used_as_spec(spec_is_busy)]
    pub fn is_busy(&self) -> (r: bool)
        ensures
            r == self.spec_is_busy(),
    {
        self.busy
    }

    /// The memory environment of this backend.
    #[verifier::when_used_as_spec(spec_environment)]
    pub fn environment(&self) -> (r: Environment)
        ensures
            r == self.spec_environment(),
    {
        self.environment
    }

    /// How far setup has come.
    #[verifier::when_used_as_spec(spec_setup)]
    pub fn setup(&self) -> (r: SetupState)
        ensures
            r == self.spec_setup(),
    {
        self.setup
    }

    /// Whether sessions may be created.
    #[verifier::when_used_as_spec(spec_is_initialized)]
    pub fn is_initialized(&self) -> (r: bool)
        ensures
            r == self.spec_is_initialized(),
    {
        matches!(self.setup, SetupState::Initialized)
    }

    /// Records that `call` has been made.  A call that was not due, because
    /// it has been made before or because an earlier one is missing, is
    /// rejected and changes nothing.
    pub fn record(&mut self, call: SetupCall) -> (r: Result<(), BasisuLoaderError>)
        ensures
            final(self).spec_environment() == old(self).spec_environment(),
            final(self).spec_is_busy() == old(self).spec_is_busy(),
            final(self).spec_setup() == old(self).spec_setup().after(call),
            r == if old(self).spec_setup().spec_next_call() == Some(call) {
                Ok::<(), BasisuLoaderError>(())
            } else {
                Err(BasisuLoaderError::InvariantViolation(InvariantViolation::BackendSetup))
            },
    {
        match (self.setup, call) {
            (SetupState::Unloaded, SetupCall::LoadModule) => {
                self.setup = SetupState::Loaded;
                Ok(())
            },
            (SetupState::Loaded, SetupCall::Initialize) => {
                self.setup = SetupState::Initialized;
                Ok(())
            },
            _ => Err(BasisuLoaderError::InvariantViolation(InvariantViolation::BackendSetup)),
        }
    }
}

/// Each setup call is accepted once: after it has been made it is not due
/// again, initialisation is due only once the backend code is in reach, and
/// an initialized backend stays initialized whatever is recorded.
pub proof fn lemma_setup_runs_once(state: SetupState, call: SetupCall, later: SetupCall)
    ensures
        state.after(call).spec_next_call() != Some(call),
        state.after(call).after(call) == state.after(call),
        state.after(call) is Initialized && state !is Initialized ==> state is Loaded && call
            == SetupCall::Initialize,
        state is Initialized ==> state.after(later) is Initialized,
{
}

/// An operation on the linear memory of the sandbox, or a backend call
/// routed through the sandboxed module.
#[derive(Clone, Copy, Debug, PartialEq, Eq, Structural)]
pub enum SandboxOp {
    /// Allocate `size` bytes of scratch memory.
    Allocate { size: u32 },
    /// Copy the whole container into sandbox memory, starting at `offset`.
    CopyIn { offset: u32, len: u32 },
    /// Call the transcode entry point on the copy at `data`.
    Transcode { call: TranscodeCall, data: u32 },
    /// Free the scratch allocation at `offset`.
    Free { offset: u32 },
}

/// What the sandbox answered.
#[derive(Clone, Copy, Debug, PartialEq, Eq, Structural)]
pub enum SandboxReply {
    /// The allocation lies at `offset`.
    Allocated { offset: u32 },
    /// The container has been copied in.
    CopiedIn,
    /// The transcode entry point returned.
    Transcoded { success: bool },
    /// The allocation has been freed.
    Freed,
}

/// What an isolated transcode asks for next.
#[derive(Debug)]
pub enum SandboxStep {
    /// The driver is to perform this operation and come back with its reply.
    Op(SandboxOp),
    /// The transcode call is over: this is what the backend returned, or
    /// the invariant that the driver broke.
    Finished(Result<bool, BasisuLoaderError>),
}

/// Where an isolated transcode stands.
#[derive(Clone, Copy, Debug, PartialEq, Eq, Structural)]
pub enum IsolatedPhase {
    /// Scratch memory has been asked for.
    Allocating,
    /// The container is being copied to the allocation at `offset`.
    CopyingIn { offset: u32 },
    /// The backend is working on the copy at `offset`.
    Calling { offset: u32 },
    /// The allocation is being freed; `outcome` is what the backend
    /// returned, or `None` where the driver broke the protocol.
    Freeing { outcome: Option<bool> },
    /// Nothing is left to do.
    Finished,
}

impl IsolatedPhase {
    /// The scratch allocation that is live and has not been handed to
    /// `Free` yet.
    pub open spec fn allocation(self) -> Option<u32> {
        match self {
            IsolatedPhase::CopyingIn { offset } => Some(offset),
            IsolatedPhase::Calling { offset } => Some(offset),
            _ => None,
        }
    }
}

/// What a transcode that ended in `outcome` reports.
pub open spec fn isolated_result(outcome: Option<bool>) -> Result<bool, BasisuLoaderError> {
    match outcome {
        Some(success) => Ok(success),
        None => Err(BasisuLoaderError::InvariantViolation(InvariantViolation::UnexpectedReply)),
    }
}

/// One step of an isolated transcode: allocate, copy in, call, free, in
/// that order, each begun when the one before has been answered.  The free
/// follows the call whatever the backend returned.  A reply that answers
/// another operation ends the transcode with
/// [`InvariantViolation::UnexpectedReply`], after the allocation, where one
/// is live, has been freed.
pub open spec fn isolated_next(call: TranscodeCall, phase: IsolatedPhase, reply: SandboxReply) -> (
    IsolatedPhase,
    SandboxStep,
) {
    match phase {
        IsolatedPhase::Allocating => match reply {
            SandboxReply::Allocated { offset } => (
                IsolatedPhase::CopyingIn { offset },
                SandboxStep::Op(SandboxOp::CopyIn { offset, len: call.data_len }),
            ),
            _ => (IsolatedPhase::Finished, SandboxStep::Finished(isolated_result(None))),
        },
        IsolatedPhase::CopyingIn { offset } => match reply {
            SandboxReply::CopiedIn => (
                IsolatedPhase::Calling { offset },
                SandboxStep::Op(SandboxOp::Transcode { call, data: offset }),
            ),
            _ => (
                IsolatedPhase::Freeing { outcome: None },
                SandboxStep::Op(SandboxOp::Free { offset }),
            ),
        },
        IsolatedPhase::Calling { offset } => match reply {
            SandboxReply::Transcoded { success } => (
                IsolatedPhase::Freeing { outcome: Some(success) },
                SandboxStep::Op(SandboxOp::Free { offset }),
            ),
            _ => (
                IsolatedPhase::Freeing { outcome: None },
                SandboxStep::Op(SandboxOp::Free { offset }),
            ),
        },
        IsolatedPhase::Freeing { outcome } => match reply {
            SandboxReply::Freed => (
                IsolatedPhase::Finished,
                SandboxStep::Finished(isolated_result(outcome)),
            ),
            _ => (IsolatedPhase::Finished, SandboxStep::Finished(isolated_result(None))),
        },
        IsolatedPhase::Finished => (
            IsolatedPhase::Finished,
            SandboxStep::Finished(isolated_result(None)),
        ),
    }
}

/// One transcode call, marshalled through the linear memory of a sandbox.
#[derive(Debug)]
pub struct IsolatedTranscode {
    call: TranscodeCall,
    phase: IsolatedPhase,
}

impl IsolatedTranscode {
    /// The transcode call that is being marshalled.
    pub closed spec fn spec_call(&self) -> TranscodeCall {
        self.call
    }

    /// Where the transcode stands.
    pub closed spec fn spec_phase(&self) -> IsolatedPhase {
        self.phase
    }

    /// Begins marshalling `call` through the sandbox of `backend`, marks
    /// the backend busy and asks for scratch memory that holds the whole
    /// container.  A backend that has no sandbox, or whose sandbox is
    /// serving another transcode, rejects the call and stays as it is.
    pub fn begin(backend: &mut Backend, call: TranscodeCall) -> (r: Result<
        (Self, SandboxOp),
        BasisuLoaderError,
    >)
        ensures
            final(backend).spec_environment() == old(backend).spec_environment(),
            final(backend).spec_setup() == old(backend).spec_setup(),
            final(backend).spec_is_busy() == (old(backend).spec_is_busy() || r is Ok),
            match r {
                Ok((transcode, op)) => old(backend).spec_environment() is Isolated && !old(
                    backend,
                ).spec_is_busy() && transcode.spec_call() == call && transcode.spec_phase()
                    == IsolatedPhase::Allocating && op == (SandboxOp::Allocate {
                    size: call.data_len,
                }),
                Err(e) => e == BasisuLoaderError::InvariantViolation(
                    if old(backend).spec_environment() is Direct {
                        InvariantViolation::BackendSetup
                    } else {
                        InvariantViolation::BackendBusy
                    },
                ) && (old(backend).spec_environment() is Direct || old(backend).spec_is_busy()),
            },
    {
        match backend.environment {
            Environment::Direct => {
                return Err(
                    BasisuLoaderError::InvariantViolation(InvariantViolation::BackendSetup),
                );
            },
            Environment::Isolated => {},
        }
        if backend.busy {
            return Err(BasisuLoaderError::InvariantViolation(InvariantViolation::BackendBusy));
        }
        backend.busy = true;
        Ok(
            (
                IsolatedTranscode { call, phase: IsolatedPhase::Allocating },
                SandboxOp::Allocate { size: call.data_len },
            ),
        )
    }

    /// The transcode call that is being marshalled.
    #[verifier::when_used_as_spec(spec_call)]
    pub fn call(&self) -> (r: TranscodeCall)
        ensures
            r == self.spec_call(),
    {
        self.call
    }

    /// Where the transcode stands.
    #[verifier::when_used_as_spec(spec_phase)]
    pub fn phase(&self) -> (r: IsolatedPhase)
        ensures
            r == self.spec_phase(),
    {
        self.phase
    }

    /// Takes in the reply to the operation that was asked for last, and
    /// says what comes next.  The step that finishes the transcode sets the
    /// backend free for the next one.
    pub fn advance(&mut self, backend: &mut Backend, reply: SandboxReply) -> (step: SandboxStep)
        ensures
            final(self).spec_call() == old(self).spec_call(),
            (final(self).spec_phase(), step) == isolated_next(
                old(self).spec_call(),
                old(self).spec_phase(),
                reply,
            ),
            final(backend).spec_environment() == old(backend).spec_environment(),
            final(backend).spec_setup() == old(backend).spec_setup(),
            final(backend).spec_is_busy() == (old(backend).spec_is_busy() && !(
            old(self).spec_phase() !is Finished && final(self).spec_phase() is Finished)),
    {
        let call = self.call;
        let was_finished = matches!(self.phase, IsolatedPhase::Finished);
        let (phase, step) = match self.phase {
            IsolatedPhase::Allocating => match reply {
                SandboxReply::Allocated { offset } => (
                    IsolatedPhase::CopyingIn { offset },
                    SandboxStep::Op(SandboxOp::CopyIn { offset, len: call.data_len }),
                ),
                _ => (IsolatedPhase::Finished, SandboxStep::Finished(unexpected_reply())),
            },
            IsolatedPhase::CopyingIn { offset } => match reply {
                SandboxReply::CopiedIn => (
                    IsolatedPhase::Calling { offset },
                    SandboxStep::Op(SandboxOp::Transcode { call, data: offset }),
                ),
                _ => (
                    IsolatedPhase::Freeing { outcome: None },
                    SandboxStep::Op(SandboxOp::Free { offset }),
                ),
            },
            IsolatedPhase::Calling { offset } => match reply {
                SandboxReply::Transcoded { success } => (
                    IsolatedPhase::Freeing { outcome: Some(success) },
                    SandboxStep::Op(SandboxOp::Free { offset }),
                ),
                _ => (
                    IsolatedPhase::Freeing { outcome: None },
                    SandboxStep::Op(SandboxOp::Free { offset }),
                ),
            },
            IsolatedPhase::Freeing { outcome } => match (reply, outcome) {
                (SandboxReply::Freed, Some(success)) => (
                    IsolatedPhase::Finished,
                    SandboxStep::Finished(Ok(success)),
                ),
                _ => (IsolatedPhase::Finished, SandboxStep::Finished(unexpected_reply())),
            },
            IsolatedPhase::Finished => (
                IsolatedPhase::Finished,
                SandboxStep::Finished(unexpected_reply()),
            ),
        };
        if !was_finished && matches!(phase, IsolatedPhase::Finished) {
            backend.busy = false;
        }
        self.phase = phase;
        step
    }
}

/// The answer to a reply that came out of turn.
fn unexpected_reply() -> (r: Result<bool, BasisuLoaderError>)
    ensures
        r == isolated_result(None),
{
    Err(BasisuLoaderError::InvariantViolation(InvariantViolation::UnexpectedReply))
}

/// The scratch allocation is freed once on every path.  While an allocation
/// is live, a step either keeps it live and asks for something other than
/// a free, or asks to free exactly that allocation and lets go of it.
/// Nothing is freed that is not live, and the transcode ends only with no
/// allocation live.  The backend is called on the allocation that the
/// container was copied to, with the arguments of the marshalled call.
pub proof fn lemma_scratch_is_freed_once(
    call: TranscodeCall,
    phase: IsolatedPhase,
    reply: SandboxReply,
)
    ensures
        ({
            let (next, step) = isolated_next(call, phase, reply);
            &&& phase.allocation() matches Some(offset) ==> {
                ||| step == SandboxStep::Op(SandboxOp::Free { offset }) && next.allocation() is None
                ||| next.allocation() == Some(offset) && step is Op && !(step->Op_0 is Free)
            }
            &&& step matches SandboxStep::Op(SandboxOp::Free { offset }) ==> phase.allocation()
                == Some(offset)
            &&& step is Finished ==> phase.allocation() is None && next is Finished
            &&& step matches SandboxStep::Op(SandboxOp::Transcode { call: made, data }) ==> made
                == call && phase == (IsolatedPhase::CopyingIn { offset: data })
            &&& step matches SandboxStep::Op(SandboxOp::CopyIn { offset, len }) ==> len
                == call.data_len && phase is Allocating && reply == (SandboxReply::Allocated {
                offset,
            })
        }),
{
}

/// An isolated transcode whose driver answers each operation in turn
/// allocates room for the container, copies it in, calls the backend on
/// the copy, frees the allocation and reports what the backend returned.
pub proof fn lemma_isolated_run(call: TranscodeCall, offset: u32, success: bool)
    ensures
        isolated_next(call, IsolatedPhase::Allocating, SandboxReply::Allocated { offset }) == (
            IsolatedPhase::CopyingIn { offset },
            SandboxStep::Op(SandboxOp::CopyIn { offset, len: call.data_len }),
        ),
        isolated_next(call, IsolatedPhase::CopyingIn { offset }, SandboxReply::CopiedIn) == (
            IsolatedPhase::Calling { offset },
            SandboxStep::Op(SandboxOp::Transcode { call, data: offset }),
        ),
        isolated_next(call, IsolatedPhase::Calling { offset }, SandboxReply::Transcoded { success })
            == (
            IsolatedPhase::Freeing { outcome: Some(success) },
            SandboxStep::Op(SandboxOp::Free { offset }),
        ),
        isolated_next(call, IsolatedPhase::Freeing { outcome: Some(success) }, SandboxReply::Freed)
            == (
            IsolatedPhase::Finished,
            SandboxStep::Finished(Ok::<bool, BasisuLoaderError>(success)),
        ),
{
}

/// The bytes `[start, end)` of sandbox memory.
#[derive(Clone, Copy, Debug, PartialEq, Eq, Hash, Structural)]
pub struct ByteRange {
    pub start: u32,
    pub end: u32,
}

/// Where in sandbox memory the pixel buffer lies, given its offset and its
/// length as the backend reports them.  A buffer that would end beyond the
/// 32-bit address space of the sandbox cannot exist; such a report is an
/// invariant violation.
pub fn output_range(dst_buf: u32, dst_buf_len: u32) -> (r: Result<ByteRange, BasisuLoaderError>)
    ensures
        match r {
            Ok(range) => range.start == dst_buf && range.end == dst_buf + dst_buf_len,
            Err(e) => dst_buf + dst_buf_len > u32::MAX && e
                == BasisuLoaderError::InvariantViolation(
                InvariantViolation::OutputRange { offset: dst_buf, len: dst_buf_len },
            ),
        },
{
    match dst_buf.checked_add(dst_buf_len) {
        Some(end) => Ok(ByteRange { start: dst_buf, end }),
        None => Err(
            BasisuLoaderError::InvariantViolation(
                InvariantViolation::OutputRange { offset: dst_buf, len: dst_buf_len },
            ),
        ),
    }
}

/// Sandbox memory after `data` has been copied in at `offset`: `data` where
/// it was put, the old bytes everywhere else.
pub open spec fn copied_in(memory: Seq<u8>, offset: u32, data: Seq<u8>) -> Seq<u8>
    recommends
        offset + data.len() <= memory.len(),
{
    Seq::new(
        memory.len(),
        |i: int|
            if offset <= i < offset + data.len() {
                data[i - offset]
            } else {
                memory[i]
            },
    )
}

/// The bytes that a copy out of `range` yields.  A range that reaches
/// beyond the memory is cut off at its end, as a typed-array view is.
pub open spec fn copied_out(memory: Seq<u8>, range: ByteRange) -> Seq<u8> {
    let start = if range.start <= memory.len() {
        range.start as int
    } else {
        memory.len() as int
    };
    let end = if range.end <= memory.len() {
        range.end as int
    } else {
        memory.len() as int
    };
    if start <= end {
        memory.subrange(start, end)
    } else {
        Seq::empty()
    }
}

/// Copying a container into sandbox memory and reading the same range back
/// yields the container, byte for byte, and leaves every byte outside the
/// range as it was.
pub proof fn lemma_copy_in_round_trip(memory: Seq<u8>, offset: u32, data: Seq<u8>)
    requires
        offset + data.len() <= memory.len(),
        offset + data.len() <= u32::MAX,
    ensures
        copied_in(memory, offset, data).len() == memory.len(),
        copied_out(
            copied_in(memory, offset, data),
            ByteRange { start: offset, end: (offset + data.len()) as u32 },
        ) == data,
        forall|i: int|
            0 <= i < memory.len() && !(offset <= i < offset + data.len()) ==> copied_in(
                memory,
                offset,
                data,
            )[i] == memory[i],
{
}

/// What a backend makes of a container under a capability mask: the output
/// fields, or nothing where it fails.
pub type BackendModel = spec_fn(Seq<u8>, TextureCompressionMethod) -> Option<TranscoderOutputView>;

/// What a transcode through the direct environment yields: the backend
/// reads the container where it lies, and the caller reads the output where
/// the backend left it.
pub open spec fn direct_transcode(
    backend: BackendModel,
    data: Seq<u8>,
    mask: TextureCompressionMethod,
) -> Option<TranscoderOutputView> {
    backend(data, mask)
}

/// What a transcode through the isolated environment yields.  The container
/// is copied to `offset` in `memory`; the backend reads it from there.  The
/// backend leaves its pixel buffer at `dst_buf` in `memory_after`, from
/// where it is copied out.
pub open spec fn isolated_transcode(
    backend: BackendModel,
    data: Seq<u8>,
    mask: TextureCompressionMethod,
    memory: Seq<u8>,
    offset: u32,
    memory_after: Seq<u8>,
    dst_buf: u32,
) -> Option<TranscoderOutputView> {
    let seen = copied_out(
        copied_in(memory, offset, data),
        ByteRange { start: offset, end: (offset + data.len()) as u32 },
    );
    match backend(seen, mask) {
        None => None,
        Some(output) => Some(
            TranscoderOutputView {
                dst_buf: copied_out(
                    memory_after,
                    ByteRange { start: dst_buf, end: (dst_buf + output.dst_buf.len()) as u32 },
                ),
                ..output
            },
        ),
    }
}

/// The same backend, given the same container and the same capability mask,
/// yields the same pixel bytes and the same output fields through either
/// environment, provided the container fits into sandbox memory at the
/// allocated offset and the pixel buffer lies in sandbox memory where the
/// backend says it does.
pub proof fn lemma_environments_agree(
    backend: BackendModel,
    data: Seq<u8>,
    mask: TextureCompressionMethod,
    memory: Seq<u8>,
    offset: u32,
    memory_after: Seq<u8>,
    dst_buf: u32,
)
    requires
        offset + data.len() <= memory.len(),
        offset + data.len() <= u32::MAX,
        backend(data, mask) matches Some(output) ==> {
            &&& dst_buf + output.dst_buf.len() <= memory_after.len()
            &&& dst_buf + output.dst_buf.len() <= u32::MAX
            &&& memory_after.subrange(dst_buf as int, dst_buf + output.dst_buf.len())
                == output.dst_buf
        },
    ensures
        isolated_transcode(backend, data, mask, memory, offset, memory_after, dst_buf)
            == direct_transcode(backend, data, mask),
{
    lemma_copy_in_round_trip(memory, offset, data);
}

} // verus!
