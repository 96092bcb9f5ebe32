use vstd::prelude::*;

use crate::error::FillError;
use crate::sizing::BUFFER_SIZE;

verus! {

/// Length of the next chunk when `remaining` bytes are still to be written.
pub open spec fn chunk_len(remaining: nat) -> nat {
    if remaining < BUFFER_SIZE {
        remaining
    } else {
        BUFFER_SIZE as nat
    }
}

/// The lengths of the chunks that write `remaining` bytes, in order.
pub open spec fn chunk_schedule(remaining: nat) -> Seq<nat>
    decreases remaining,
{
    if remaining == 0 {
        Seq::empty()
    } else {
        seq![chunk_len(remaining)] + chunk_schedule((remaining - chunk_len(remaining)) as nat)
    }
}

/// Sum of a sequence of lengths.
pub open spec fn total(s: Seq<nat>) -> nat
    decreases s.len(),
{
    if s.len() == 0 {
        0
    } else {
        s[0] + total(s.drop_first())
    }
}

/// Produces the content of a filler file chunk by chunk: random bytes, in
/// chunks of at most one buffer, adding up to the target size exactly.
pub struct FillerPlan {
    target: u64,
    written: u64,
}

impl FillerPlan {
    pub closed spec fn target_spec(&self) -> u64 {
        self.target
    }

    pub closed spec fn written_spec(&self) -> u64 {
        self.written
    }

    /// The plan never writes past its target, and the target is at least one chunk.
    pub open spec fn wf(&self) -> bool {
        self.written_spec() <= self.target_spec() && self.target_spec() >= BUFFER_SIZE
    }

    /// Lengths of the chunks still to come.
    pub open spec fn pending(&self) -> Seq<nat> {
        chunk_schedule((self.target_spec() - self.written_spec()) as nat)
    }

    /// Starts a filler of `target_size` bytes; sizes below one chunk are refused.
    pub fn new(target_size: u64) -> (r: Result<FillerPlan, FillError>)
        ensures
            target_size >= BUFFER_SIZE <==> r is Ok,
            target_size < BUFFER_SIZE ==> r == Err::<FillerPlan, FillError>(FillError::InvalidSize),
            r matches Ok(p) ==> p.wf() && p.target_spec() == target_size && p.written_spec() == 0,
    {
        if target_size < BUFFER_SIZE {
            Err(FillError::InvalidSize)
        } else {
            Ok(FillerPlan { target: target_size, written: 0 })
        }
    }

    /// Total size of the filler.
    pub fn target(&self) -> (r: u64)
        ensures
            r == self.target_spec(),
    {
        self.target
    }

    /// Bytes handed out so far.
    pub fn written(&self) -> (r: u64)
        ensures
            r == self.written_spec(),
    {
        self.written
    }

    /// Whether every byte has been handed out.
    pub fn is_done(&self) -> (r: bool)
        requires
            self.wf(),
        ensures
            r == (self.written_spec() == self.target_spec()),
            r == (self.pending().len() == 0),
    {
        proof { lemma_schedule_shape((self.target - self.written) as nat); }
        self.written == self.target
    }

    /// Hands out the next chunk of random bytes, or `None` once the target is reached.
    pub fn next_chunk(&mut self) -> (r: Option<Vec<u8>>)
        requires
            old(self).wf(),
        ensures
            final(self).wf(),
            final(self).target_spec() == old(self).target_spec(),
            old(self).pending().len() == 0 <==> r is None,
            r is None ==> *final(self) == *old(self),
            r matches Some(c) ==> {
                &&& c@.len() == old(self).pending()[0]
                &&& final(self).pending() == old(self).pending().drop_first()
                &&& final(self).written_spec() == old(self).written_spec() + c@.len()
            },
    {
        let remaining = self.target - self.written;
        proof { lemma_schedule_shape(remaining as nat); }
        if remaining == 0 {
            return None;
        }
        let n: u64 = if remaining < BUFFER_SIZE { remaining } else { BUFFER_SIZE };
        let mut chunk: Vec<u8> = Vec::new();
        let mut i: u64 = 0;
        while i < n
            invariant
                i <= n,
                chunk@.len() == i,
            decreases n - i,
        {
            chunk.push(0u8);
            i = i + 1;
        }
        fill_random(&mut chunk);
        self.written = self.written + n;
        assert(self.target - self.written == remaining - n);
        Some(chunk)
    }
}

/// Shape of a chunk schedule: empty exactly for nothing left, and its first
/// entry is the next chunk length.
pub proof fn lemma_schedule_shape(remaining: nat)
    ensures
        chunk_schedule(remaining).len() == 0 <==> remaining == 0,
        remaining > 0 ==> chunk_schedule(remaining)[0] == chunk_len(remaining),
        remaining > 0 ==> chunk_schedule(remaining).drop_first()
            == chunk_schedule((remaining - chunk_len(remaining)) as nat),
{
    if remaining > 0 {
        let s = chunk_schedule(remaining);
        let rest = chunk_schedule((remaining - chunk_len(remaining)) as nat);
        assert(s.drop_first() =~= rest);
    }
}

/// A filler of `target_size` bytes is written by chunks that add up to exactly
/// `target_size`; each chunk holds between one byte and one buffer, and the last
/// one holds the remainder of `target_size` by the buffer size when there is one.
pub proof fn lemma_chunks_add_up(target_size: nat)
    ensures
        total(chunk_schedule(target_size)) == target_size,
        forall|i: int| 0 <= i < chunk_schedule(target_size).len() ==>
            0 < #[trigger] chunk_schedule(target_size)[i] <= BUFFER_SIZE,
        target_size % (BUFFER_SIZE as nat) != 0 ==>
            chunk_schedule(target_size).last() == target_size % (BUFFER_SIZE as nat),
    decreases target_size,
{
    if target_size > 0 {
        let c = chunk_len(target_size);
        let rest = (target_size - c) as nat;
        lemma_schedule_shape(target_size);
        lemma_chunks_add_up(rest);
        let s = chunk_schedule(target_size);
        assert forall|i: int| 0 <= i < s.len() implies 0 < #[trigger] s[i] <= BUFFER_SIZE by {
            if i > 0 {
                assert(s[i] == chunk_schedule(rest)[i - 1]);
            }
        }
        if target_size % (BUFFER_SIZE as nat) != 0 && rest > 0 {
            assert(rest % 1024 == target_size % 1024) by (nonlinear_arith)
                requires rest == target_size - 1024, target_size >= 1024;
        }
    }
}

/// Whatever a plan has handed out, the chunks still to come add up to exactly
/// the bytes still missing; so a fresh plan writes exactly its target.
pub proof fn lemma_plan_completes(p: FillerPlan)
    requires
        p.wf(),
    ensures
        total(p.pending()) == p.target_spec() - p.written_spec(),
        p.written_spec() == 0 ==> total(p.pending()) == p.target_spec(),
{
    lemma_chunks_add_up((p.target_spec() - p.written_spec()) as nat);
}

/// Relies on fastrand::fill: overwrites every byte of the buffer with a
/// random value and leaves its length alone.
#[verifier::external_body]
fn fill_random(buf: &mut Vec<u8>)
    ensures
        final(buf)@.len() == old(buf)@.len(),
{
    fastrand::fill(buf.as_mut_slice())
}

} // verus!
