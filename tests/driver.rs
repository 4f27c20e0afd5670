use std::cell::RefCell;
use std::rc::Rc;

use nrf5x_trng::{Client, Continue, GenerationState, Outcome, Trng, TrngIter};

/// A consumer that draws every word it is offered (once or twice) and
/// records what it got.
struct Recorder {
    words: Rc<RefCell<Vec<u32>>>,
    answer: Continue,
    draws: usize,
    stale: Rc<RefCell<Vec<Option<u32>>>>,
}

impl Recorder {
    fn new(answer: Continue) -> (Recorder, Rc<RefCell<Vec<u32>>>) {
        let words = Rc::new(RefCell::new(Vec::new()));
        let r = Recorder { words: words.clone(), answer, draws: 1, stale: Rc::new(RefCell::new(Vec::new())) };
        (r, words)
    }
}

impl Client for Recorder {
    fn randomness_available(&mut self, randomness: &mut TrngIter) -> Continue {
        if let Some(w) = randomness.next() {
            self.words.borrow_mut().push(w);
        }
        for _ in 1..self.draws {
            self.stale.borrow_mut().push(randomness.next());
        }
        self.answer
    }
}

/// A consumer that never draws the word.
struct Ignorer;

impl Client for Ignorer {
    fn randomness_available(&mut self, _randomness: &mut TrngIter) -> Continue {
        Continue::Done
    }
}

/// The peripheral presents `byte` and raises its interrupt.
fn fire<C: Client>(trng: &mut Trng<C>, byte: u8) -> Outcome {
    trng.regs.value = byte;
    trng.regs.task_start = 0;
    trng.nvic.pending = true;
    trng.handle_interrupt()
}

fn empty() -> GenerationState {
    GenerationState { index: 0, randomness: 0 }
}

#[test]
fn four_bytes_make_word_least_significant_first() {
    let (rec, words) = Recorder::new(Continue::Done);
    let mut trng = Trng::new();
    trng.set_client(rec);
    trng.get();
    for b in [0x11u8, 0x22, 0x33, 0x44] {
        assert_eq!(fire(&mut trng, b), Outcome::Collected);
    }
    assert_eq!(trng.state, GenerationState { index: 4, randomness: 0x4433_2211 });
    let out = fire(&mut trng, 0x99);
    assert_eq!(out, Outcome::Delivered { answer: Continue::Done, taken: true });
    assert_eq!(*words.borrow(), vec![0x4433_2211u32]);
}

#[test]
fn extreme_bytes_make_word() {
    let (rec, words) = Recorder::new(Continue::Done);
    let mut trng = Trng::new();
    trng.set_client(rec);
    for b in [0xffu8, 0x00, 0xff, 0x00] {
        fire(&mut trng, b);
    }
    fire(&mut trng, 0);
    for b in [0x00u8, 0x00, 0x00, 0x80] {
        fire(&mut trng, b);
    }
    fire(&mut trng, 0);
    assert_eq!(*words.borrow(), vec![0x00ff_00ffu32, 0x8000_0000]);
}

#[test]
fn collecting_rearms_after_every_byte() {
    let mut trng: Trng<Ignorer> = Trng::new();
    for i in 0..4usize {
        assert_eq!(fire(&mut trng, 1), Outcome::Collected);
        assert_eq!(trng.state.index, i + 1);
        assert_eq!(trng.regs.task_start, 1);
        assert_eq!(trng.regs.event_valrdy, 0);
        assert_eq!(trng.regs.inten, 1);
        assert_eq!(trng.regs.intenset, 1);
        assert_eq!(trng.regs.intenclr, 1);
        assert!(trng.nvic.enabled);
        assert!(!trng.nvic.pending);
    }
}

#[test]
fn drawn_word_resets_state_and_stale_draw_is_empty() {
    let (mut rec, words) = Recorder::new(Continue::Done);
    rec.draws = 3;
    let stale = rec.stale.clone();
    let mut trng = Trng::new();
    trng.set_client(rec);
    for b in [1u8, 2, 3, 4] {
        fire(&mut trng, b);
    }
    let out = fire(&mut trng, 0);
    assert_eq!(out, Outcome::Delivered { answer: Continue::Done, taken: true });
    assert_eq!(*words.borrow(), vec![0x0403_0201u32]);
    assert_eq!(*stale.borrow(), vec![None, None]);
    assert_eq!(trng.state, empty());
}

#[test]
fn undrawn_word_stays_ready() {
    let mut trng = Trng::new();
    trng.set_client(Ignorer);
    for b in [1u8, 2, 3, 4] {
        fire(&mut trng, b);
    }
    let out = fire(&mut trng, 0);
    assert_eq!(out, Outcome::Delivered { answer: Continue::Done, taken: false });
    assert_eq!(trng.state, GenerationState { index: 4, randomness: 0x0403_0201 });
}

#[test]
fn done_leaves_generation_idle() {
    let (rec, _words) = Recorder::new(Continue::Done);
    let mut trng = Trng::new();
    trng.set_client(rec);
    for b in [1u8, 2, 3, 4] {
        fire(&mut trng, b);
    }
    fire(&mut trng, 0);
    assert_eq!(trng.regs.task_start, 0);
    assert_eq!(trng.regs.inten, 0);
    assert!(!trng.nvic.enabled);
    assert!(!trng.nvic.pending);
}

#[test]
fn no_consumer_discards_word_without_rearm() {
    let mut trng: Trng<Recorder> = Trng::new();
    trng.get();
    assert_eq!(trng.regs.task_start, 1);
    for b in [9u8, 8, 7, 6] {
        assert_eq!(fire(&mut trng, b), Outcome::Collected);
    }
    let out = fire(&mut trng, 0);
    assert_eq!(out, Outcome::Discarded);
    assert_eq!(trng.regs.task_start, 0);
    assert_eq!(trng.regs.inten, 0);
    assert!(!trng.nvic.enabled);
    assert!(!trng.nvic.pending);
    // The word stays where it is until a consumer draws it.
    assert_eq!(trng.state, GenerationState { index: 4, randomness: 0x0607_0809 });
}

#[test]
fn more_keeps_generating_over_five_words() {
    let (rec, words) = Recorder::new(Continue::More);
    let mut trng = Trng::new();
    trng.set_client(rec);
    trng.get();
    let mut expected: Vec<u32> = Vec::new();
    for cycle in 0..6u32 {
        let bytes = [cycle as u8, (cycle * 3) as u8, 0xa0 | cycle as u8, 0xff - cycle as u8];
        for b in bytes {
            assert_eq!(fire(&mut trng, b), Outcome::Collected);
        }
        let out = fire(&mut trng, 0);
        assert_eq!(out, Outcome::Delivered { answer: Continue::More, taken: true });
        assert_eq!(trng.regs.task_start, 1);
        assert!(trng.nvic.enabled);
        assert_eq!(trng.state, empty());
        expected.push(u32::from_le_bytes(bytes));
    }
    assert_eq!(*words.borrow(), expected);
}

#[test]
fn out_of_range_index_is_reset_without_delivery() {
    let (rec, words) = Recorder::new(Continue::More);
    let mut trng = Trng::new();
    trng.set_client(rec);
    trng.state = GenerationState { index: 5, randomness: 0xdead_beef };
    let out = fire(&mut trng, 0x42);
    assert_eq!(out, Outcome::Recovered);
    assert_eq!(trng.state, empty());
    assert!(words.borrow().is_empty());
    assert_eq!(trng.regs.task_start, 0);
    assert!(!trng.nvic.enabled);
    trng.state.index = usize::MAX;
    assert_eq!(fire(&mut trng, 0), Outcome::Recovered);
    assert_eq!(trng.state, empty());
}

#[test]
fn second_registration_replaces_first() {
    let (first, first_words) = Recorder::new(Continue::Done);
    let (second, second_words) = Recorder::new(Continue::Done);
    let mut trng = Trng::new();
    trng.set_client(first);
    trng.set_client(second);
    for b in [0xdeu8, 0xad, 0xbe, 0xef] {
        fire(&mut trng, b);
    }
    fire(&mut trng, 0);
    assert!(first_words.borrow().is_empty());
    assert_eq!(*second_words.borrow(), vec![0xefbe_addeu32]);
}

#[test]
fn set_client_leaves_generation_state_alone() {
    let mut trng: Trng<Ignorer> = Trng::new();
    fire(&mut trng, 0x12);
    let before = trng.state;
    trng.set_client(Ignorer);
    assert_eq!(trng.state, before);
    assert_eq!(before, GenerationState { index: 1, randomness: 0x12 });
}

#[test]
fn get_arms_the_peripheral() {
    let mut trng: Trng<Ignorer> = Trng::new();
    assert_eq!(trng.regs.task_start, 0);
    assert!(!trng.nvic.enabled);
    trng.get();
    trng.get();
    assert_eq!(trng.regs.task_start, 1);
    assert_eq!(trng.regs.event_valrdy, 0);
    assert_eq!(trng.regs.inten, 1);
    assert_eq!(trng.regs.intenset, 1);
    assert!(trng.nvic.enabled);
    assert_eq!(trng.state, empty());
}

#[test]
fn collect_places_bytes_in_order() {
    let mut state = GenerationState::new();
    for b in [5u8, 6, 7, 8] {
        state.collect(b);
    }
    assert_eq!(state, GenerationState { index: 4, randomness: 0x0807_0605 });
}
