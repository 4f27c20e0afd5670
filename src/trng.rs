use vstd::prelude::*;

use crate::hardware::{InterruptLine, RngRegisters};
use crate::state::{GenerationState, WORD_BYTES};

verus! {

/// A consumer's answer on receiving randomness: whether it wants another word.
#[derive(Clone, Copy, Debug, PartialEq, Eq, Structural)]
pub enum Continue {
    /// Generate another word right away.
    More,
    /// Stop generating until the next `get`.
    Done,
}

/// The consumer of random words.
pub trait Client {
    /// Called when a word is complete. The consumer may draw it from
    /// `randomness`; the answer says whether generation goes on.
    fn randomness_available(&mut self, randomness: &mut TrngIter) -> Continue;
}

/// A one-shot iterator handed to the consumer: it yields the completed word
/// once, then nothing.
pub struct TrngIter {
    word: Option<u32>,
}

impl View for TrngIter {
    type V = Option<u32>;

    /// The word still to be drawn, if any.
    closed spec fn view(&self) -> Option<u32> {
        self.word
    }
}

impl TrngIter {
    /// An iterator over the word that `state` holds, if it is complete.
    fn over(state: &GenerationState) -> (r: TrngIter)
        ensures
            r@ == state.drawn_word(),
    {
        if state.index == WORD_BYTES {
            TrngIter { word: Some(state.randomness) }
        } else {
            TrngIter { word: None }
        }
    }

    /// Yields the word if it has not been drawn yet.
    pub fn next(&mut self) -> (r: Option<u32>)
        ensures
            r == old(self)@,
            final(self)@ is None,
    {
        let w = self.word;
        self.word = None;
        w
    }

    /// The word has been drawn (or there was none).
    fn is_drained(&self) -> (r: bool)
        ensures
            r == (self@ is None),
    {
        self.word.is_none()
    }
}

/// What one invocation of the interrupt handler did.
#[derive(Clone, Copy, Debug, PartialEq, Eq, Structural)]
pub enum Outcome {
    /// A byte was placed in the word and another byte was requested.
    Collected,
    /// The complete word was offered to the consumer; `taken` tells whether
    /// it drew the word, `answer` what it asked for.
    Delivered { answer: Continue, taken: bool },
    /// The word was complete but no consumer is registered: nothing happened.
    Discarded,
    /// The byte index was out of range and the state was reset.
    Recovered,
}

/// The interrupt line after the handler masked it and cleared its pending flag.
pub open spec fn masked_line() -> InterruptLine {
    InterruptLine { enabled: false, pending: false }
}

/// The interrupt line after the handler masked it and then re-armed generation.
pub open spec fn rearmed_line() -> InterruptLine {
    InterruptLine { enabled: true, pending: false }
}

/// The TRNG driver: the collection state, the peripheral it drives and the
/// registered consumer.
pub struct Trng<C> {
    /// Byte collection state, changed only by the interrupt handler.
    pub state: GenerationState,
    /// The peripheral's registers.
    pub regs: RngRegisters,
    /// The peripheral's interrupt source at the interrupt controller.
    pub nvic: InterruptLine,
    /// The registered consumer, if any.
    pub client: Option<C>,
}

impl<C: Client> Trng<C> {
    /// A driver with nothing collected, the peripheral in its reset state and
    /// no consumer.
    pub fn new() -> (r: Trng<C>)
        ensures
            r.state == GenerationState::empty(),
            r.regs == RngRegisters::reset(),
            r.nvic == (InterruptLine { enabled: false, pending: false }),
            r.client is None,
    {
        Trng {
            state: GenerationState::new(),
            regs: RngRegisters::new(),
            nvic: InterruptLine::new(),
            client: None,
        }
    }

    /// Registers `client` as the sole consumer, replacing any earlier one.
    pub fn set_client(&mut self, client: C)
        ensures
            final(self).client == Some(client),
            final(self).state == old(self).state,
            final(self).regs == old(self).regs,
            final(self).nvic == old(self).nvic,
    {
        self.client = Some(client);
    }

    /// Requests generation of a word: clears the event, enables the
    /// interrupt at the controller and the peripheral, and starts the task.
    pub fn get(&mut self)
        ensures
            final(self).state == old(self).state,
            final(self).client == old(self).client,
            final(self).regs == old(self).regs.started(),
            final(self).nvic == (InterruptLine { enabled: true, ..old(self).nvic }),
    {
        self.start_rng();
    }

    /// Arms the peripheral to produce one more byte.
    fn start_rng(&mut self)
        ensures
            final(self).state == old(self).state,
            final(self).client == old(self).client,
            final(self).regs == old(self).regs.started(),
            final(self).nvic == (InterruptLine { enabled: true, ..old(self).nvic }),
    {
        self.regs.event_valrdy = 0;
        self.nvic.enable();
        self.regs.enable_interrupts();
        self.regs.task_start = 1;
    }

    /// Handles the peripheral's "value ready" interrupt.
    ///
    /// The interrupt is masked and its pending flag cleared first. While
    /// bytes are missing, the byte in the value register is placed at the
    /// next position and another byte is requested. Once the word is
    /// complete, it is offered to the consumer, and generation is re-armed
    /// if the consumer asks for more. An out-of-range index resets the state.
    pub fn handle_interrupt(&mut self) -> (r: Outcome)
        ensures
            old(self).state.wf() ==> final(self).state.wf(),
            final(self).client is Some <==> old(self).client is Some,
            old(self).state.is_collecting() ==> {
                &&& r == Outcome::Collected
                &&& final(self).state == old(self).state.collected(old(self).regs.value)
                &&& final(self).regs == old(self).regs.interrupts_disabled().started()
                &&& final(self).nvic == rearmed_line()
                &&& final(self).client == old(self).client
            },
            old(self).state.is_ready() && old(self).client is None ==> {
                &&& r == Outcome::Discarded
                &&& final(self).state == old(self).state
                &&& final(self).regs == old(self).regs.interrupts_disabled()
                &&& final(self).nvic == masked_line()
            },
            old(self).state.is_ready() && old(self).client is Some ==> {
                &&& r is Delivered
                &&& r->taken ==> final(self).state == old(self).state.drawn()
                &&& !r->taken ==> final(self).state == old(self).state
                &&& r->answer == Continue::More ==> {
                    &&& final(self).regs == old(self).regs.interrupts_disabled().started()
                    &&& final(self).nvic == rearmed_line()
                }
                &&& r->answer == Continue::Done ==> {
                    &&& final(self).regs == old(self).regs.interrupts_disabled()
                    &&& final(self).nvic == masked_line()
                }
            },
            old(self).state.index > WORD_BYTES ==> {
                &&& r == Outcome::Recovered
                &&& final(self).state == GenerationState::empty()
                &&& final(self).regs == old(self).regs.interrupts_disabled()
                &&& final(self).nvic == masked_line()
                &&& final(self).client == old(self).client
            },
    {
        self.regs.disable_interrupts();
        self.nvic.disable();
        self.nvic.clear_pending();
        let index: usize = self.state.index;
        if index < WORD_BYTES {
            let b: u8 = self.regs.value;
            proof {
                if self.state.wf() {
                    crate::state::lemma_collected_wf(self.state, b);
                }
            }
            self.state.collect(b);
            self.start_rng();
            Outcome::Collected
        } else if index == WORD_BYTES {
            let mut slot: Option<C> = None;
            std::mem::swap(&mut slot, &mut self.client);
            match slot {
                Some(mut client) => {
                    let mut it = TrngIter::over(&self.state);
                    let answer = client.randomness_available(&mut it);
                    self.client = Some(client);
                    let taken = it.is_drained();
                    if taken {
                        self.state = GenerationState::new();
                    }
                    match answer {
                        Continue::More => self.start_rng(),
                        Continue::Done => {},
                    }
                    Outcome::Delivered { answer, taken }
                },
                None => Outcome::Discarded,
            }
        } else {
            self.state = GenerationState::new();
            Outcome::Recovered
        }
    }
}

} // verus!
