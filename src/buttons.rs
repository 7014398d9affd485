//! State of the eight front buttons, read through an 8-channel parallel-in
//! serial-out shift register, and the press/release events between two
//! samples.
use vstd::prelude::*;

verus! {

/// One of the eight front buttons: A, B, Select, Start and a four-way d-pad.
#[derive(Clone, Copy, Debug, PartialEq, Eq, Structural)]
pub enum Button {
    B,
    A,
    Start,
    Select,
    Right,
    Down,
    Up,
    Left,
}

/// A change of one button between the previous and the current sample.
#[derive(Clone, Copy, Debug, PartialEq, Eq, Structural)]
pub enum Event {
    Pressed(Button),
    Released(Button),
}

/// Bit position of a button in a state byte (bit set = pressed).
pub open spec fn bit_index(b: Button) -> u8 {
    match b {
        Button::Left => 0,
        Button::Up => 1,
        Button::Down => 2,
        Button::Right => 3,
        Button::Select => 4,
        Button::Start => 5,
        Button::A => 6,
        Button::B => 7,
    }
}

/// The button wired to bit `pos` (`pos < 8`).
pub open spec fn button_at(pos: u8) -> Button {
    if pos == 0 {
        Button::Left
    } else if pos == 1 {
        Button::Up
    } else if pos == 2 {
        Button::Down
    } else if pos == 3 {
        Button::Right
    } else if pos == 4 {
        Button::Select
    } else if pos == 5 {
        Button::Start
    } else if pos == 6 {
        Button::A
    } else {
        Button::B
    }
}

/// Whether bit `pos` of `x` is set.
pub open spec fn bit_set(x: u8, pos: u8) -> bool {
    (x >> pos) & 1u8 == 1u8
}

/// Whether `b` is pressed in the state byte `state`.
pub open spec fn is_pressed(state: u8, b: Button) -> bool {
    bit_set(state, bit_index(b))
}

/// Number of set bits of `x` at positions `pos..8`.
pub open spec fn ones_from(x: u8, pos: u8) -> nat
    decreases 8 - pos,
{
    if pos >= 8 {
        0
    } else {
        (if bit_set(x, pos) {
            1nat
        } else {
            0nat
        }) + ones_from(x, (pos + 1) as u8)
    }
}

/// Number of set bits of `x`.
pub open spec fn popcount(x: u8) -> nat {
    ones_from(x, 0)
}

/// The event reported for bit `pos` when it changed and the current state is
/// `current`.
pub open spec fn event_for(current: u8, pos: u8) -> Event {
    if bit_set(current, pos) {
        Event::Pressed(button_at(pos))
    } else {
        Event::Released(button_at(pos))
    }
}

/// The button an event is about.
pub open spec fn event_button(e: Event) -> Button {
    match e {
        Event::Pressed(b) => b,
        Event::Released(b) => b,
    }
}

/// Events for the changed bits at positions `pos..8`, lowest position first.
pub open spec fn events_from(current: u8, changed: u8, pos: u8) -> Seq<Event>
    decreases 8 - pos,
{
    if pos >= 8 {
        Seq::empty()
    } else if bit_set(changed, pos) {
        seq![event_for(current, pos)] + events_from(current, changed, (pos + 1) as u8)
    } else {
        events_from(current, changed, (pos + 1) as u8)
    }
}

/// All events between a previous and a current state byte.
pub open spec fn event_seq(current: u8, previous: u8) -> Seq<Event> {
    events_from(current, current ^ previous, 0)
}

proof fn lemma_mask_bit(x: u8, pos: u8)
    requires
        pos < 8,
    ensures
        (x & (1u8 << pos) != 0) == bit_set(x, pos),
{
    assert((x & (1u8 << pos) != 0) == ((x >> pos) & 1u8 == 1u8)) by (bit_vector)
        requires
            pos < 8,
    ;
}

impl Button {
    /// Bit position of the button in a state byte.
    pub fn index(self) -> (r: u8)
        ensures
            r == bit_index(self),
            r < 8,
    {
        match self {
            Button::Left => 0,
            Button::Up => 1,
            Button::Down => 2,
            Button::Right => 3,
            Button::Select => 4,
            Button::Start => 5,
            Button::A => 6,
            Button::B => 7,
        }
    }

    /// The single-bit mask of the button in a state byte.
    pub fn mask(self) -> (r: u8)
        ensures
            r == 1u8 << bit_index(self),
    {
        1u8 << self.index()
    }

    /// The button wired to bit `pos`.
    pub fn at(pos: u8) -> (r: Button)
        requires
            pos < 8,
        ensures
            r == button_at(pos),
            bit_index(r) == pos,
    {
        if pos == 0 {
            Button::Left
        } else if pos == 1 {
            Button::Up
        } else if pos == 2 {
            Button::Down
        } else if pos == 3 {
            Button::Right
        } else if pos == 4 {
            Button::Select
        } else if pos == 5 {
            Button::Start
        } else if pos == 6 {
            Button::A
        } else {
            Button::B
        }
    }
}

/// The events between two samples, handed out one at a time.
///
/// It holds its own copy of the two samples, so a later `Buttons::update`
/// does not change what it yields. Once exhausted it stays exhausted.
pub struct EventIter {
    position: u8,
    current: u8,
    changed: u8,
}

impl EventIter {
    /// The events not yet handed out, in order.
    pub closed spec fn pending(&self) -> Seq<Event> {
        events_from(self.current, self.changed, self.position)
    }

    /// The next event: the lowest changed bit not yet reported.
    pub fn next(&mut self) -> (r: Option<Event>)
        ensures
            match r {
                None => old(self).pending().len() == 0 && final(self).pending().len() == 0,
                Some(e) => old(self).pending() == seq![e] + final(self).pending(),
            },
    {
        let current = self.current;
        let changed = self.changed;
        let mut i: u8 = self.position;
        while i < 8
            invariant
                self.current == current,
                self.changed == changed,
                events_from(current, changed, i) == old(self).pending(),
                *self == *old(self),
            decreases 8 - i,
        {
            let mask: u8 = 1u8 << i;
            proof {
                lemma_mask_bit(changed, i);
                lemma_mask_bit(current, i);
            }
            if changed & mask != 0 {
                let button = Button::at(i);
                self.position = i + 1;
                if current & mask != 0 {
                    return Some(Event::Pressed(button));
                } else {
                    return Some(Event::Released(button));
                }
            }
            i = i + 1;
        }
        self.position = i;
        None
    }
}

/// Current and previous sample of the eight buttons.
///
/// Both start at zero (nothing pressed) and change only through `update`,
/// which moves the current sample into `previous`.
pub struct Buttons {
    current: u8,
    previous: u8,
}

impl Buttons {
    /// The most recent sample.
    pub closed spec fn current(&self) -> u8 {
        self.current
    }

    /// The sample before the most recent one.
    pub closed spec fn previous(&self) -> u8 {
        self.previous
    }

    /// The state after recording the sample `m`.
    pub closed spec fn sampled(self, m: u8) -> Buttons {
        Buttons { current: m, previous: self.current }
    }

    /// The events between the previous and the current sample.
    pub open spec fn event_list(&self) -> Seq<Event> {
        event_seq(self.current(), self.previous())
    }

    /// A driver state with no button pressed in either sample.
    pub fn new() -> (r: Buttons)
        ensures
            r.current() == 0,
            r.previous() == 0,
    {
        Buttons { current: 0, previous: 0 }
    }

    /// Records a complete sample of the shift register (bit set = pressed,
    /// bit positions as in `Button::index`).
    pub fn update(&mut self, sample: u8)
        ensures
            *final(self) == old(self).sampled(sample),
            final(self).current() == sample,
            final(self).previous() == old(self).current(),
    {
        self.previous = self.current;
        self.current = sample;
    }

    /// The most recent sample as a byte.
    pub fn state(&self) -> (r: u8)
        ensures
            r == self.current(),
    {
        self.current
    }

    /// The sample before the most recent one as a byte.
    pub fn previous_state(&self) -> (r: u8)
        ensures
            r == self.previous(),
    {
        self.previous
    }

    /// Whether some button is pressed.
    pub fn some_pressed(&self) -> (r: bool)
        ensures
            r == (self.current() != 0),
    {
        self.current != 0
    }

    /// Whether no button is pressed.
    pub fn none_pressed(&self) -> (r: bool)
        ensures
            r == (self.current() == 0),
    {
        self.current == 0
    }

    /// Whether `button` is pressed.
    pub fn button_pressed(&self, button: Button) -> (r: bool)
        ensures
            r == is_pressed(self.current(), button),
    {
        proof {
            lemma_mask_bit(self.current, bit_index(button));
        }
        self.current & button.mask() != 0
    }

    pub fn a_pressed(&self) -> (r: bool)
        ensures
            r == is_pressed(self.current(), Button::A),
    {
        self.button_pressed(Button::A)
    }

    pub fn b_pressed(&self) -> (r: bool)
        ensures
            r == is_pressed(self.current(), Button::B),
    {
        self.button_pressed(Button::B)
    }

    pub fn start_pressed(&self) -> (r: bool)
        ensures
            r == is_pressed(self.current(), Button::Start),
    {
        self.button_pressed(Button::Start)
    }

    pub fn select_pressed(&self) -> (r: bool)
        ensures
            r == is_pressed(self.current(), Button::Select),
    {
        self.button_pressed(Button::Select)
    }

    pub fn right_pressed(&self) -> (r: bool)
        ensures
            r == is_pressed(self.current(), Button::Right),
    {
        self.button_pressed(Button::Right)
    }

    pub fn down_pressed(&self) -> (r: bool)
        ensures
            r == is_pressed(self.current(), Button::Down),
    {
        self.button_pressed(Button::Down)
    }

    pub fn up_pressed(&self) -> (r: bool)
        ensures
            r == is_pressed(self.current(), Button::Up),
    {
        self.button_pressed(Button::Up)
    }

    pub fn left_pressed(&self) -> (r: bool)
        ensures
            r == is_pressed(self.current(), Button::Left),
    {
        self.button_pressed(Button::Left)
    }

    /// The button changes between the previous and the current sample: one
    /// event per changed bit, lowest bit first, `Pressed` where the bit is
    /// set in the current sample and `Released` where it is clear. A button
    /// held across both samples gives no event.
    pub fn events(&self) -> (r: EventIter)
        ensures
            r.pending() == self.event_list(),
    {
        EventIter { position: 0, current: self.current, changed: self.current ^ self.previous }
    }
}

/// Bit position of the button an event is about.
pub open spec fn event_bit(e: Event) -> u8 {
    bit_index(event_button(e))
}

proof fn lemma_button_at_index(pos: u8)
    requires
        pos < 8,
    ensures
        bit_index(button_at(pos)) == pos,
{
}

proof fn lemma_events_from(current: u8, changed: u8, pos: u8)
    requires
        pos <= 8,
    ensures
        events_from(current, changed, pos).len() == ones_from(changed, pos),
        forall|i: int|
            0 <= i < events_from(current, changed, pos).len() ==> {
                let e = #[trigger] events_from(current, changed, pos)[i];
                &&& pos <= event_bit(e) < 8
                &&& bit_set(changed, event_bit(e))
                &&& e == event_for(current, event_bit(e))
            },
        forall|i: int, j: int|
            0 <= i < j < events_from(current, changed, pos).len() ==> event_bit(
                #[trigger] events_from(current, changed, pos)[i],
            ) < event_bit(#[trigger] events_from(current, changed, pos)[j]),
        forall|p: u8|
            pos <= p < 8 && #[trigger] bit_set(changed, p) ==> exists|i: int|
                0 <= i < events_from(current, changed, pos).len() && event_bit(
                    #[trigger] events_from(current, changed, pos)[i],
                ) == p,
    decreases 8 - pos,
{
    if pos < 8 {
        let next = (pos + 1) as u8;
        lemma_events_from(current, changed, next);
        lemma_button_at_index(pos);
        let rest = events_from(current, changed, next);
        let ev = events_from(current, changed, pos);
        if bit_set(changed, pos) {
            let e = event_for(current, pos);
            assert(ev == seq![e] + rest);
            assert(event_bit(e) == pos);
            assert forall|i: int| 0 < i < ev.len() implies ev[i] == rest[i - 1] by {}
            assert forall|p: u8| pos <= p < 8 && #[trigger] bit_set(changed, p) implies exists|i: int|
                0 <= i < ev.len() && event_bit(#[trigger] ev[i]) == p by {
                if p == pos {
                    assert(event_bit(ev[0]) == p);
                } else {
                    let k = choose|k: int| 0 <= k < rest.len() && event_bit(#[trigger] rest[k]) == p;
                    assert(ev[k + 1] == rest[k]);
                }
            }
        } else {
            assert(ev == rest);
        }
    }
}

/// Recording a sample `m` makes it the current sample and the former current
/// sample the previous one.
pub proof fn lemma_update_records_sample(b: Buttons, m: u8)
    ensures
        b.sampled(m).current() == m,
        b.sampled(m).previous() == b.current(),
{
}

/// After a transition from state `m1` to state `m2` the events are exactly
/// one per bit that differs: as many as the set bits of `m1 ^ m2`, each about
/// a changed bit, `Pressed` where the bit is set in `m2` and `Released`
/// where it is clear, in ascending bit position, and none missing.
pub proof fn lemma_transition_events(m1: u8, m2: u8)
    ensures
        event_seq(m2, m1).len() == popcount(m1 ^ m2),
        forall|i: int|
            0 <= i < event_seq(m2, m1).len() ==> {
                let e = #[trigger] event_seq(m2, m1)[i];
                &&& event_bit(e) < 8
                &&& bit_set(m1 ^ m2, event_bit(e))
                &&& (e is Pressed) == bit_set(m2, event_bit(e))
                &&& e == event_for(m2, event_bit(e))
            },
        forall|i: int, j: int|
            0 <= i < j < event_seq(m2, m1).len() ==> event_bit(#[trigger] event_seq(m2, m1)[i])
                < event_bit(#[trigger] event_seq(m2, m1)[j]),
        forall|p: u8|
            p < 8 && #[trigger] bit_set(m1 ^ m2, p) ==> exists|i: int|
                0 <= i < event_seq(m2, m1).len() && event_bit(#[trigger] event_seq(m2, m1)[i]) == p,
{
    assert(m2 ^ m1 == m1 ^ m2) by (bit_vector);
    lemma_events_from(m2, m1 ^ m2, 0);
}

/// Recording the same sample twice in a row leaves no event to report.
pub proof fn lemma_repeated_sample_is_quiet(b: Buttons, m: u8)
    ensures
        b.sampled(m).sampled(m).event_list() == Seq::<Event>::empty(),
{
    let s = b.sampled(m).sampled(m);
    assert(s.current() == m && s.previous() == m);
    assert(m ^ m == 0) by (bit_vector);
    assert forall|pos: u8| pos <= 8 implies events_from(m, 0, pos) == Seq::<Event>::empty() by {
        lemma_quiet_from(m, pos);
    }
}

proof fn lemma_quiet_from(current: u8, pos: u8)
    requires
        pos <= 8,
    ensures
        events_from(current, 0, pos) == Seq::<Event>::empty(),
    decreases 8 - pos,
{
    if pos < 8 {
        assert(!bit_set(0, pos)) by (bit_vector);
        lemma_quiet_from(current, (pos + 1) as u8);
    }
}

} // verus!
