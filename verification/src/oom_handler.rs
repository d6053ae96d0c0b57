//! The safety buffer: heap space held back so that, when an allocation
//! fails, it can be given up at once and unwinding has memory to work with.

use vstd::prelude::*;
use crate::errors::EnclaveError;

verus! {

/// Bytes reserved by one chunk of the buffer.
pub const CHUNK_BYTES: usize = 1024;

/// Chunks the enclave-wide buffer aims for.
pub const SAFETY_BUFFER_CHUNKS: usize = 16384;

/// Chunks below which the enclave-wide buffer counts as missing.
pub const SAFETY_BUFFER_MIN_CHUNKS: usize = 2048;

/// `Vec::try_reserve_exact`: asks the allocator for room for `additional`
/// more bytes and tells whether it was granted. Nothing is claimed about when
/// the allocator grants it, only that the vector's contents stay as they were.
#[verifier::external_body]
fn try_reserve_exact_bytes(kb: &mut Vec<u8>, additional: usize) -> (granted: bool)
    ensures
        final(kb)@ == old(kb)@,
{
    kb.try_reserve_exact(additional).is_ok()
}

/// Whether `after` chunks is an acceptable end of a top-up that began with
/// `before` chunks: nothing was given up, the target was not passed, and the
/// top-up stopped short of the target only at or above the minimum.
pub open spec fn topped_up(before: nat, after: nat, chunks: nat, min_chunks: nat) -> bool {
    if before >= chunks {
        after == before
    } else {
        before <= after <= chunks && (after == chunks || after >= min_chunks)
    }
}

/// Whether `after` chunks is where a failed top-up may stand: some
/// allocation was refused below the minimum and below the target.
pub open spec fn fell_short(before: nat, after: nat, chunks: nat, min_chunks: nat) -> bool {
    before <= after < chunks && after < min_chunks
}

/// A top-up that succeeds leaves the buffer at its target or at least at its
/// minimum: an enclave never goes on with less than the minimum.
pub proof fn lemma_topped_up_holds_minimum(before: nat, after: nat, chunks: nat, min_chunks: nat)
    requires
        topped_up(before, after, chunks, min_chunks),
    ensures
        after >= chunks || after >= min_chunks,
        after >= before,
{
}

/// A top-up cannot both succeed and fail: there is no state that it may
/// leave either way.
pub proof fn lemma_top_up_outcomes_apart(before: nat, after: nat, chunks: nat, min_chunks: nat)
    ensures
        !(topped_up(before, after, chunks, min_chunks) && fell_short(
            before,
            after,
            chunks,
            min_chunks,
        )),
{
}

/// What a top-up does next.
#[derive(Clone, Copy, Debug, PartialEq, Eq)]
pub enum TopUpStep {
    /// Ask the allocator for a chunk of this many bytes.
    Reserve(usize),
    /// The top-up is over.
    Done(Result<(), EnclaveError>),
}

/// What a top-up toward `chunks` does next when `held` chunks are held and
/// `refused` tells whether the allocator refused the chunk last asked for.
/// At the target the top-up is over. Below it another chunk of `CHUNK_BYTES`
/// is asked for as long as none was refused. A refusal ends the top-up:
/// quietly when at least `min_chunks` chunks are held, as an error when not.
pub open spec fn next_top_up_step(held: nat, chunks: nat, min_chunks: nat, refused: bool)
    -> TopUpStep {
    if held >= chunks {
        TopUpStep::Done(Ok(()))
    } else if !refused {
        TopUpStep::Reserve(CHUNK_BYTES)
    } else if held >= min_chunks {
        TopUpStep::Done(Ok(()))
    } else {
        TopUpStep::Done(Err(EnclaveError::MemorySafetyAllocationError))
    }
}

/// Decides the next step of a top-up from the number of chunks held and the
/// allocator's answer to the last request.
pub fn top_up_step(held: usize, chunks: usize, min_chunks: usize, refused: bool) -> (r: TopUpStep)
    ensures
        r == next_top_up_step(held as nat, chunks as nat, min_chunks as nat, refused),
{
    if held >= chunks {
        TopUpStep::Done(Ok(()))
    } else if !refused {
        TopUpStep::Reserve(CHUNK_BYTES)
    } else if held >= min_chunks {
        TopUpStep::Done(Ok(()))
    } else {
        TopUpStep::Done(Err(EnclaveError::MemorySafetyAllocationError))
    }
}

/// The chunks held at the end of a top-up, and how it ends, when `held`
/// chunks are held, the allocator grants the next `grants` chunks that it is
/// asked for and refuses the one after them, and `refused` tells whether it
/// has just refused one.
pub open spec fn top_up_end(held: nat, chunks: nat, min_chunks: nat, grants: nat, refused: bool) -> (
    nat,
    Result<(), EnclaveError>,
)
    decreases grants, (if refused { 0nat } else { 1nat }),
{
    match next_top_up_step(held, chunks, min_chunks, refused) {
        TopUpStep::Done(end) => (held, end),
        TopUpStep::Reserve(_) => if grants > 0 {
            top_up_end(held + 1, chunks, min_chunks, (grants - 1) as nat, false)
        } else {
            top_up_end(held, chunks, min_chunks, 0, true)
        },
    }
}

/// Where a top-up ends for each way the allocator may answer.
///
/// A buffer at or above its target is left alone. Below the target, an
/// allocator that grants every chunk still missing brings the buffer to its
/// target and the top-up ends well. One that gives out earlier leaves the
/// chunks it granted, and the top-up ends well exactly when at least
/// `min_chunks` chunks are then held.
pub proof fn lemma_top_up_end(held: nat, chunks: nat, min_chunks: nat, grants: nat)
    ensures
        held >= chunks ==> top_up_end(held, chunks, min_chunks, grants, false) == (
            held,
            Ok::<(), EnclaveError>(()),
        ),
        held < chunks && held + grants >= chunks ==> top_up_end(
            held,
            chunks,
            min_chunks,
            grants,
            false,
        ) == (chunks, Ok::<(), EnclaveError>(())),
        held + grants < chunks && held + grants >= min_chunks ==> top_up_end(
            held,
            chunks,
            min_chunks,
            grants,
            false,
        ) == ((held + grants) as nat, Ok::<(), EnclaveError>(())),
        held + grants < chunks && held + grants < min_chunks ==> top_up_end(
            held,
            chunks,
            min_chunks,
            grants,
            false,
        ) == (
            (held + grants) as nat,
            Err::<(), EnclaveError>(EnclaveError::MemorySafetyAllocationError),
        ),
    decreases grants,
{
    if held < chunks {
        if grants > 0 {
            lemma_top_up_end(held + 1, chunks, min_chunks, (grants - 1) as nat);
        } else {
            assert(top_up_end(held, chunks, min_chunks, 0, false) == top_up_end(
                held,
                chunks,
                min_chunks,
                0,
                true,
            ));
        }
    }
}

/// However the allocator answers, the end of a top-up is one that the
/// contracts of the buffer's operations admit.
pub proof fn lemma_top_up_end_admitted(held: nat, chunks: nat, min_chunks: nat, grants: nat)
    ensures
        top_up_end(held, chunks, min_chunks, grants, false).1 is Ok ==> topped_up(
            held,
            top_up_end(held, chunks, min_chunks, grants, false).0,
            chunks,
            min_chunks,
        ),
        top_up_end(held, chunks, min_chunks, grants, false).1 is Err ==> fell_short(
            held,
            top_up_end(held, chunks, min_chunks, grants, false).0,
            chunks,
            min_chunks,
        ),
{
    lemma_top_up_end(held, chunks, min_chunks, grants);
}

/// Whether every chunk of `buffer` is reserved space and holds no data.
pub open spec fn all_unused(buffer: Seq<Vec<u8>>) -> bool {
    forall|i: int| 0 <= i < buffer.len() ==> (#[trigger] buffer[i])@.len() == 0
}

/// Reserved-but-unused heap chunks, growing toward `chunks` and never
/// accepted below `min_chunks`.
pub struct SafetyBuffer {
    chunks: usize,
    min_chunks: usize,
    buffer: Vec<Vec<u8>>,
}

impl SafetyBuffer {
    /// The number of chunks the buffer aims for.
    pub closed spec fn target(&self) -> nat {
        self.chunks as nat
    }

    /// The number of chunks below which a top-up fails.
    pub closed spec fn minimum(&self) -> nat {
        self.min_chunks as nat
    }

    /// The number of chunks held right now.
    pub closed spec fn reserved(&self) -> nat {
        self.buffer@.len()
    }

    /// Every chunk held is unused space.
    pub closed spec fn wf(&self) -> bool {
        all_unused(self.buffer@)
    }

    /// Reserves up to `chunks` chunks. Fails when the allocator gives out
    /// before `min_chunks` chunks are held.
    pub fn new(chunks: usize, min_chunks: usize) -> (r: Result<SafetyBuffer, EnclaveError>)
        ensures
            match r {
                Ok(b) => b.wf() && b.target() == chunks && b.minimum() == min_chunks && topped_up(
                    0,
                    b.reserved(),
                    chunks as nat,
                    min_chunks as nat,
                ),
                Err(e) => e == EnclaveError::MemorySafetyAllocationError && chunks > 0 && min_chunks
                    > 0,
            },
    {
        match SafetyBuffer::build_buffer(chunks, min_chunks) {
            Ok(buffer) => Ok(SafetyBuffer { chunks, min_chunks, buffer }),
            Err(e) => Err(e),
        }
    }

    /// The number of chunks held right now.
    pub fn reserved_chunks(&self) -> (r: usize)
        ensures
            r == self.reserved(),
    {
        self.buffer.len()
    }

    /// Gives every chunk back to the allocator.
    pub fn clear(&mut self)
        ensures
            final(self).reserved() == 0,
            final(self).target() == old(self).target(),
            final(self).minimum() == old(self).minimum(),
            final(self).wf(),
    {
        self.buffer = Vec::new();
    }

    /// A fresh buffer topped up toward `chunks`.
    pub fn build_buffer(chunks: usize, min_chunks: usize) -> (r: Result<Vec<Vec<u8>>, EnclaveError>)
        ensures
            match r {
                Ok(b) => all_unused(b@) && topped_up(0, b@.len(), chunks as nat, min_chunks as nat),
                Err(e) => e == EnclaveError::MemorySafetyAllocationError && chunks > 0 && min_chunks
                    > 0,
            },
    {
        let mut buffer: Vec<Vec<u8>> = Vec::with_capacity(chunks);
        match SafetyBuffer::top_up_buffer(&mut buffer, chunks, min_chunks) {
            Ok(()) => Ok(buffer),
            Err(e) => Err(e),
        }
    }

    /// Adds chunks to `buffer` until it holds `chunks` of them or the
    /// allocator refuses one, step by step as `top_up_step` decides: each
    /// chunk that the allocator grants is kept. A refusal ends the top-up
    /// quietly once `min_chunks` chunks are held, and is an error before
    /// that; the chunks gained so far stay in either case. When the allocator
    /// grants a chunk is its own affair, so this states what holds whatever
    /// it answered.
    pub fn top_up_buffer(buffer: &mut Vec<Vec<u8>>, chunks: usize, min_chunks: usize) -> (r: Result<
        (),
        EnclaveError,
    >)
        ensures
            old(buffer)@.len() <= final(buffer)@.len(),
            final(buffer)@.subrange(0, old(buffer)@.len() as int) == old(buffer)@,
            forall|i: int|
                old(buffer)@.len() <= i < final(buffer)@.len() ==> (#[trigger] final(buffer)@[i])@.len()
                    == 0,
            match r {
                Ok(()) => topped_up(
                    old(buffer)@.len(),
                    final(buffer)@.len(),
                    chunks as nat,
                    min_chunks as nat,
                ),
                Err(e) => e == EnclaveError::MemorySafetyAllocationError && fell_short(
                    old(buffer)@.len(),
                    final(buffer)@.len(),
                    chunks as nat,
                    min_chunks as nat,
                ),
            },
    {
        let ghost before = buffer@;
        let mut refused = false;
        loop
            invariant
                before == old(buffer)@,
                before.len() <= buffer@.len(),
                before.len() >= chunks ==> buffer@ == before,
                before.len() < chunks ==> buffer@.len() <= chunks,
                buffer@.subrange(0, before.len() as int) == before,
                forall|j: int| before.len() <= j < buffer@.len() ==> (#[trigger] buffer@[j])@.len() == 0,
            decreases 2 * (chunks - buffer@.len()) + (if refused { 0int } else { 1int }),
        {
            match top_up_step(buffer.len(), chunks, min_chunks, refused) {
                TopUpStep::Done(end) => {
                    return end;
                },
                TopUpStep::Reserve(bytes) => {
                    let mut kb: Vec<u8> = Vec::new();
                    if try_reserve_exact_bytes(&mut kb, bytes) {
                        buffer.push(kb);
                        assert(buffer@.subrange(0, before.len() as int) =~= before);
                    } else {
                        refused = true;
                    }
                },
            }
        }
    }

    /// Tops the buffer back up after it was cleared or left short.
    pub fn restore(&mut self) -> (r: Result<(), EnclaveError>)
        requires
            old(self).wf(),
        ensures
            final(self).wf(),
            final(self).target() == old(self).target(),
            final(self).minimum() == old(self).minimum(),
            match r {
                Ok(()) => topped_up(
                    old(self).reserved(),
                    final(self).reserved(),
                    old(self).target(),
                    old(self).minimum(),
                ),
                Err(e) => e == EnclaveError::MemorySafetyAllocationError && fell_short(
                    old(self).reserved(),
                    final(self).reserved(),
                    old(self).target(),
                    old(self).minimum(),
                ),
            },
    {
        if self.buffer.len() < self.chunks {
            let ghost before = self.buffer@;
            let r = SafetyBuffer::top_up_buffer(&mut self.buffer, self.chunks, self.min_chunks);
            proof {
                assert forall|i: int| 0 <= i < self.buffer@.len() implies (#[trigger] self.buffer@[i])@.len()
                    == 0 by {
                    if i < before.len() {
                        assert(self.buffer@[i] == self.buffer@.subrange(0, before.len() as int)[i]);
                    }
                }
            }
            r
        } else {
            Ok(())
        }
    }
}

/// The enclave-wide safety buffer together with the mark that an allocation
/// has failed. One supervisor exists per enclave, behind one lock.
pub struct OomSupervisor {
    buffer: SafetyBuffer,
    oom_happened: bool,
}

impl OomSupervisor {
    /// The safety buffer as it stands.
    pub closed spec fn buffer(&self) -> SafetyBuffer {
        self.buffer
    }

    /// Whether an allocation failure is on record.
    pub closed spec fn oom_happened(&self) -> bool {
        self.oom_happened
    }

    /// A supervisor over `buffer` with no allocation failure on record.
    pub fn new(buffer: SafetyBuffer) -> (r: OomSupervisor)
        ensures
            r.buffer() == buffer,
            !r.oom_happened(),
    {
        OomSupervisor { buffer, oom_happened: false }
    }

    /// The number of chunks the buffer holds right now.
    pub fn reserved_chunks(&self) -> (r: usize)
        ensures
            r == self.buffer().reserved(),
    {
        self.buffer.reserved_chunks()
    }

    /// What the allocation-failure hook does before the current operation is
    /// abandoned: records the failure and releases the whole buffer.
    pub fn handle_allocation_failure(&mut self)
        ensures
            final(self).oom_happened(),
            final(self).buffer().reserved() == 0,
            final(self).buffer().wf(),
            final(self).buffer().target() == old(self).buffer().target(),
            final(self).buffer().minimum() == old(self).buffer().minimum(),
    {
        self.oom_happened = true;
        self.buffer.clear();
    }
}

/// Arms the supervisor at an entry point: tops the buffer up and, if that
/// worked, forgets any earlier allocation failure. When the top-up fails the
/// record of an earlier failure is kept.
pub fn register_oom_handler(supervisor: &mut OomSupervisor) -> (r: Result<(), EnclaveError>)
    requires
        old(supervisor).buffer().wf(),
    ensures
        final(supervisor).buffer().wf(),
        final(supervisor).buffer().target() == old(supervisor).buffer().target(),
        final(supervisor).buffer().minimum() == old(supervisor).buffer().minimum(),
        match r {
            Ok(()) => !final(supervisor).oom_happened() && topped_up(
                old(supervisor).buffer().reserved(),
                final(supervisor).buffer().reserved(),
                old(supervisor).buffer().target(),
                old(supervisor).buffer().minimum(),
            ),
            Err(e) => e == EnclaveError::MemorySafetyAllocationError
                && final(supervisor).oom_happened() == old(supervisor).oom_happened()
                && fell_short(
                old(supervisor).buffer().reserved(),
                final(supervisor).buffer().reserved(),
                old(supervisor).buffer().target(),
                old(supervisor).buffer().minimum(),
            ),
        },
{
    match supervisor.buffer.restore() {
        Ok(()) => {
            get_then_clear_oom_happened(supervisor);
            Ok(())
        },
        Err(e) => Err(e),
    }
}

/// Reports whether an allocation failure is on record and wipes the record.
pub fn get_then_clear_oom_happened(supervisor: &mut OomSupervisor) -> (r: bool)
    ensures
        r == old(supervisor).oom_happened(),
        !final(supervisor).oom_happened(),
        final(supervisor).buffer() == old(supervisor).buffer(),
{
    let was = supervisor.oom_happened;
    supervisor.oom_happened = false;
    was
}

/// Tops the supervisor's buffer back up; the failure record is not touched.
pub fn restore_safety_buffer(supervisor: &mut OomSupervisor) -> (r: Result<(), EnclaveError>)
    requires
        old(supervisor).buffer().wf(),
    ensures
        final(supervisor).buffer().wf(),
        final(supervisor).oom_happened() == old(supervisor).oom_happened(),
        final(supervisor).buffer().target() == old(supervisor).buffer().target(),
        final(supervisor).buffer().minimum() == old(supervisor).buffer().minimum(),
        match r {
            Ok(()) => topped_up(
                old(supervisor).buffer().reserved(),
                final(supervisor).buffer().reserved(),
                old(supervisor).buffer().target(),
                old(supervisor).buffer().minimum(),
            ),
            Err(e) => e == EnclaveError::MemorySafetyAllocationError && fell_short(
                old(supervisor).buffer().reserved(),
                final(supervisor).buffer().reserved(),
                old(supervisor).buffer().target(),
                old(supervisor).buffer().minimum(),
            ),
        },
{
    supervisor.buffer.restore()
}

} // verus!
