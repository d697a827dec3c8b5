//! The payload generator: its state and the payloads it hands out.

use crate::buffer::{
    buffer_bytes, buffer_freeze, buffer_put_u32, buffer_resize, buffer_split,
    buffer_with_capacity, frozen_bytes,
};
use crate::config::{ConfigError, Mode};
use crate::wire::{
    lemma_payload_layout, payload_bytes, payload_discriminator, payload_tag, FILLER_TAG,
    HEADER_LEN, SAMPLE_TAG_SPAN,
};
use bytes::{Bytes, BytesMut};
use rand::Rng;
use vstd::prelude::*;

verus! {

/// The successor of `n`, starting over at zero after the largest value.
pub open spec fn wrapping_succ(n: u32) -> u32 {
    if n == u32::MAX {
        0
    } else {
        (n + 1) as u32
    }
}

/// The tag of the samples of burst number `burst`.
pub open spec fn sample_tag(burst: u32) -> u32 {
    burst % SAMPLE_TAG_SPAN
}

/// What a generator is, apart from its scratch buffer.
pub struct GeneratorView {
    /// Sample or filler.
    pub mode: Mode,
    /// Size of every payload.
    pub size: usize,
    /// Number of bursts closed so far, wrapping.
    pub burst: u32,
    /// The run's identifier.
    pub run_id: u32,
    /// The discriminator of the latest filler payload, wrapping.
    pub nonce: u32,
}

impl GeneratorView {
    /// The payload size fits the header and one allocation.
    pub open spec fn valid(self) -> bool {
        HEADER_LEN <= self.size <= isize::MAX
    }

    /// Tag of the next payload.
    pub open spec fn next_tag(self) -> u32 {
        match self.mode {
            Mode::Sample => sample_tag(self.burst),
            Mode::Filler => FILLER_TAG,
        }
    }

    /// Discriminator of the next payload.
    pub open spec fn next_discriminator(self) -> u32 {
        match self.mode {
            Mode::Sample => self.run_id,
            Mode::Filler => wrapping_succ(self.nonce),
        }
    }

    /// The next payload.
    pub open spec fn next_payload(self) -> Seq<u8> {
        payload_bytes(self.next_tag(), self.next_discriminator(), self.size as nat)
    }

    /// The generator after it handed out one payload: filler advances the
    /// nonce, samples change nothing.
    pub open spec fn after_payload(self) -> GeneratorView {
        match self.mode {
            Mode::Sample => self,
            Mode::Filler => GeneratorView { nonce: wrapping_succ(self.nonce), ..self },
        }
    }

    /// The generator after `n` payloads.
    pub open spec fn after_payloads(self, n: nat) -> GeneratorView
        decreases n,
    {
        if n == 0 {
            self
        } else {
            self.after_payloads((n - 1) as nat).after_payload()
        }
    }

    /// The generator after a burst was closed.
    pub open spec fn after_burst(self) -> GeneratorView {
        GeneratorView { burst: wrapping_succ(self.burst), ..self }
    }
}

/// One thing that happens to a generator.
pub enum GeneratorStep {
    /// A payload is handed out.
    Payload,
    /// A burst is closed.
    BurstEnd,
}

/// Number of payloads handed out in `steps`.
pub open spec fn payloads_in(steps: Seq<GeneratorStep>) -> nat
    decreases steps.len(),
{
    if steps.len() == 0 {
        0
    } else {
        payloads_in(steps.drop_last()) + if steps.last() is Payload {
            1nat
        } else {
            0nat
        }
    }
}

/// Number of bursts closed in `steps`.
pub open spec fn bursts_in(steps: Seq<GeneratorStep>) -> nat
    decreases steps.len(),
{
    if steps.len() == 0 {
        0
    } else {
        bursts_in(steps.drop_last()) + if steps.last() is BurstEnd {
            1nat
        } else {
            0nat
        }
    }
}

impl GeneratorView {
    /// The generator after everything in `steps` happened, in order.
    pub open spec fn after(self, steps: Seq<GeneratorStep>) -> GeneratorView
        decreases steps.len(),
    {
        if steps.len() == 0 {
            self
        } else {
            let before = self.after(steps.drop_last());
            match steps.last() {
                GeneratorStep::Payload => before.after_payload(),
                GeneratorStep::BurstEnd => before.after_burst(),
            }
        }
    }
}

/// Whatever happens to a generator, its mode, its payload size and its run
/// identifier stay; the burst counter has advanced by the number of bursts
/// closed, and in filler mode the nonce by the number of payloads handed
/// out, both modulo 2^32.
pub proof fn lemma_after_closed_form(g: GeneratorView, steps: Seq<GeneratorStep>)
    ensures
        g.after(steps).mode == g.mode,
        g.after(steps).size == g.size,
        g.after(steps).run_id == g.run_id,
        g.after(steps).burst == (g.burst + bursts_in(steps)) % 0x1_0000_0000,
        g.mode == Mode::Filler ==> g.after(steps).nonce == (g.nonce + payloads_in(steps))
            % 0x1_0000_0000,
        g.mode == Mode::Sample ==> g.after(steps).nonce == g.nonce,
    decreases steps.len(),
{
    if steps.len() > 0 {
        lemma_after_closed_form(g, steps.drop_last());
    }
}

/// Every payload of a run has exactly the configured size.
pub proof fn lemma_every_payload_has_configured_size(g: GeneratorView, steps: Seq<GeneratorStep>)
    requires
        g.valid(),
    ensures
        g.after(steps).valid(),
        g.after(steps).next_payload().len() == g.size,
{
    lemma_after_closed_form(g, steps);
    let h = g.after(steps);
    lemma_payload_layout(h.next_tag(), h.next_discriminator(), h.size as nat);
}

/// In sample mode handing out payloads changes nothing: as long as no burst
/// is closed, every payload is the same, tag and discriminator included.
pub proof fn lemma_sample_payloads_equal_within_burst(g: GeneratorView, steps: Seq<GeneratorStep>)
    requires
        g.mode == Mode::Sample,
        bursts_in(steps) == 0,
    ensures
        g.after(steps) == g,
        g.after(steps).next_tag() == g.next_tag(),
        g.after(steps).next_payload() == g.next_payload(),
{
    lemma_after_closed_form(g, steps);
}

/// In sample mode the tag after some bursts is the first tag advanced by
/// the number of bursts closed, modulo the tag span.
pub proof fn lemma_sample_tag_closed_form(g: GeneratorView, steps: Seq<GeneratorStep>)
    requires
        g.mode == Mode::Sample,
    ensures
        g.after(steps).next_tag() == (g.next_tag() + bursts_in(steps)) % (SAMPLE_TAG_SPAN as int),
{
    lemma_after_closed_form(g, steps);
}

/// In sample mode the tag of the next burst is one more than the tag of
/// this one, as long as the tag has not reached the end of its span.
pub proof fn lemma_sample_tag_grows_across_bursts(g: GeneratorView)
    requires
        g.mode == Mode::Sample,
        g.next_tag() + 1 < SAMPLE_TAG_SPAN,
    ensures
        g.after_burst().next_tag() == g.next_tag() + 1,
        g.after_burst().next_tag() >= g.next_tag(),
{
}

/// In sample mode the discriminator is the run identifier, whatever
/// happened since the run began.
pub proof fn lemma_sample_discriminator_constant(g: GeneratorView, steps: Seq<GeneratorStep>)
    requires
        g.mode == Mode::Sample,
    ensures
        g.after(steps).next_discriminator() == g.next_discriminator(),
        g.after(steps).next_discriminator() == g.run_id,
{
    lemma_after_closed_form(g, steps);
}

/// In filler mode every payload carries the sentinel tag.
pub proof fn lemma_filler_tag_is_sentinel(g: GeneratorView, steps: Seq<GeneratorStep>)
    requires
        g.mode == Mode::Filler,
    ensures
        g.after(steps).next_tag() == FILLER_TAG,
        g.after(steps).next_tag() == u32::MAX,
{
    lemma_after_closed_form(g, steps);
}

/// In filler mode each discriminator is one more than the one before, as
/// long as that one is not the largest 32-bit value. Closing a burst does
/// not touch the sequence.
pub proof fn lemma_filler_discriminator_grows(g: GeneratorView)
    requires
        g.mode == Mode::Filler,
        g.next_discriminator() < u32::MAX,
    ensures
        g.after_payload().next_discriminator() == g.next_discriminator() + 1,
        g.after_payload().next_discriminator() > g.next_discriminator(),
        g.after_burst().next_discriminator() == g.next_discriminator(),
{
}

/// In filler mode the discriminator after some payloads is the first one
/// advanced by their number, modulo 2^32: short of 2^32 payloads no
/// discriminator comes twice.
pub proof fn lemma_filler_discriminators_distinct(g: GeneratorView, steps: Seq<GeneratorStep>)
    requires
        g.mode == Mode::Filler,
    ensures
        g.after(steps).next_discriminator() == (g.next_discriminator() + payloads_in(steps))
            % 0x1_0000_0000,
        0 < payloads_in(steps) < 0x1_0000_0000 ==> g.after(steps).next_discriminator()
            != g.next_discriminator(),
{
    lemma_after_closed_form(g, steps);
}

/// The state of the payload generator. It is made once per run and never
/// reset.
pub struct GeneratorState {
    mode: Mode,
    size: usize,
    burst: u32,
    run_id: u32,
    nonce: u32,
    scratch: BytesMut,
}

/// `rand::Rng::gen` on the thread's generator: some 32-bit number. Nothing
/// is claimed of its value.
#[verifier::external_body]
fn random_u32() -> u32 {
    rand::thread_rng().gen()
}

impl View for GeneratorState {
    type V = GeneratorView;

    closed spec fn view(&self) -> GeneratorView {
        GeneratorView {
            mode: self.mode,
            size: self.size,
            burst: self.burst,
            run_id: self.run_id,
            nonce: self.nonce,
        }
    }
}

impl GeneratorState {
    /// The scratch buffer holds nothing between two payloads.
    pub closed spec fn scratch_clear(&self) -> bool {
        buffer_bytes(self.scratch) == Seq::<u8>::empty()
    }

    /// Well-formedness: a valid size and a clear scratch buffer.
    pub open spec fn wf(&self) -> bool {
        self@.valid() && self.scratch_clear()
    }

    /// A generator at burst zero with the given run identifier and starting
    /// nonce. A size under eight bytes is refused.
    pub fn seeded(mode: Mode, size: usize, run_id: u32, nonce: u32) -> (r: Result<
        GeneratorState,
        ConfigError,
    >)
        requires
            size <= isize::MAX,
        ensures
            r is Ok <==> size >= HEADER_LEN,
            r matches Ok(g) ==> g.wf() && g@ == (GeneratorView {
                mode,
                size,
                burst: 0,
                run_id,
                nonce,
            }),
            r matches Err(e) ==> e == ConfigError::PayloadTooSmall,
    {
        if size < HEADER_LEN {
            return Err(ConfigError::PayloadTooSmall);
        }
        let scratch = buffer_with_capacity(size);
        Ok(GeneratorState { mode, size, burst: 0, run_id, nonce, scratch })
    }

    /// A generator at burst zero whose run identifier and starting nonce are
    /// drawn at random. A size under eight bytes is refused.
    pub fn start(mode: Mode, size: usize) -> (r: Result<GeneratorState, ConfigError>)
        requires
            size <= isize::MAX,
        ensures
            r is Ok <==> size >= HEADER_LEN,
            r matches Ok(g) ==> g.wf() && g@.mode == mode && g@.size == size && g@.burst == 0,
            r matches Err(e) ==> e == ConfigError::PayloadTooSmall,
    {
        let nonce = random_u32();
        let run_id = random_u32();
        GeneratorState::seeded(mode, size, run_id, nonce)
    }

    /// Sample or filler.
    pub fn mode(&self) -> (m: Mode)
        ensures
            m == self@.mode,
    {
        self.mode
    }

    /// Size of every payload.
    pub fn size(&self) -> (n: usize)
        ensures
            n == self@.size,
    {
        self.size
    }

    /// Number of bursts closed so far.
    pub fn burst(&self) -> (n: u32)
        ensures
            n == self@.burst,
    {
        self.burst
    }

    /// The run's identifier.
    pub fn run_id(&self) -> (id: u32)
        ensures
            id == self@.run_id,
    {
        self.run_id
    }

    /// The discriminator of the latest filler payload.
    pub fn nonce(&self) -> (n: u32)
        ensures
            n == self@.nonce,
    {
        self.nonce
    }

    /// Hands out the next payload: exactly `size` bytes, made of the tag, the
    /// discriminator and zero filler. In filler mode the nonce advances by
    /// one; in sample mode the state is unchanged.
    pub fn next(&mut self) -> (payload: Bytes)
        requires
            old(self).wf(),
        ensures
            final(self).wf(),
            final(self)@ == old(self)@.after_payload(),
            frozen_bytes(payload) == old(self)@.next_payload(),
            frozen_bytes(payload).len() == old(self)@.size,
            payload_tag(frozen_bytes(payload)) == old(self)@.next_tag(),
            payload_discriminator(frozen_bytes(payload)) == old(self)@.next_discriminator(),
    {
        let tag: u32;
        let discriminator: u32;
        match self.mode {
            Mode::Sample => {
                tag = self.burst % SAMPLE_TAG_SPAN;
                discriminator = self.run_id;
            },
            Mode::Filler => {
                self.nonce = if self.nonce == u32::MAX {
                    0
                } else {
                    self.nonce + 1
                };
                tag = FILLER_TAG;
                discriminator = self.nonce;
            },
        }
        buffer_put_u32(&mut self.scratch, tag);
        buffer_put_u32(&mut self.scratch, discriminator);
        buffer_resize(&mut self.scratch, self.size, 0);
        let whole = buffer_split(&mut self.scratch);
        proof {
            lemma_payload_layout(tag, discriminator, self.size as nat);
            assert(buffer_bytes(whole) =~= payload_bytes(tag, discriminator, self.size as nat));
        }
        buffer_freeze(whole)
    }

    /// Closes the current burst: the burst counter advances by one, wrapping;
    /// nothing else changes.
    pub fn end_burst(&mut self)
        requires
            old(self).wf(),
        ensures
            final(self).wf(),
            final(self)@ == old(self)@.after_burst(),
    {
        self.burst = if self.burst == u32::MAX {
            0
        } else {
            self.burst + 1
        };
    }
}

} // verus!
