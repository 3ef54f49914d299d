//! Control logic for a four-LED blinker.
//!
//! The board cycles through its four onboard LEDs, lighting one at a time
//! on a fixed delay and reporting each toggle on a debug channel. This
//! crate holds the decisions of that loop — which LED the cycle selects,
//! how the counter advances, what each step does to the LED states, and
//! the line logged for each LED — so that the hardware shell only has to
//! drive pins and wait.

use vstd::prelude::*;

verus! {

/// The four onboard LEDs, in the order the cycle visits them.
#[derive(Clone, Copy, PartialEq, Eq, Structural, Debug)]
pub enum Led {
    Green,
    Orange,
    Red,
    Blue,
}

/// How many LEDs take part in the cycle.
pub const LED_COUNT: u8 = 4;

/// How many processor cycles the busy-wait between steps consumes.
pub const DELAY_CYCLES: u32 = 8_000_000;

/// The LED that a counter value selects: the cycle visits
/// green, orange, red, blue and starts over.
pub open spec fn led_for(counter: u8) -> Led {
    if counter == 0 {
        Led::Green
    } else if counter == 1 {
        Led::Orange
    } else if counter == 2 {
        Led::Red
    } else {
        Led::Blue
    }
}

/// The counter value that follows `counter` in the cycle.
pub open spec fn next_counter(counter: u8) -> u8 {
    (((counter + 1) % (LED_COUNT as int)) as u8)
}

impl Led {
    /// The line reported on the debug channel when this LED is toggled.
    pub open spec fn message_spec(self) -> Seq<char> {
        match self {
            Led::Green => "Green LED toggled"@,
            Led::Orange => "Orange LED toggled"@,
            Led::Red => "Red LED toggled"@,
            Led::Blue => "Blue LED toggled"@,
        }
    }

    /// The line to log when this LED is toggled.
    pub fn message(&self) -> (m: &'static str)
        ensures
            m@ == self.message_spec(),
    {
        match self {
            Led::Green => "Green LED toggled",
            Led::Orange => "Orange LED toggled",
            Led::Red => "Red LED toggled",
            Led::Blue => "Blue LED toggled",
        }
    }
}

/// One full pass visits each LED once and brings the counter back to
/// where it began: advancing four times is the identity on counters
/// inside the cycle.
pub proof fn lemma_cycle_period(c: u8)
    requires
        c < LED_COUNT,
    ensures
        next_counter(next_counter(next_counter(next_counter(c)))) == c,
{
}

/// The state of the blink loop: the cycle counter together with a model
/// of which LEDs are currently energized.
pub struct Blinker {
    counter: u8,
    green_on: bool,
    orange_on: bool,
    red_on: bool,
    blue_on: bool,
}

impl Blinker {
    /// A blinker is well formed when its counter stays inside the cycle.
    pub closed spec fn wf(self) -> bool {
        self.counter < LED_COUNT
    }

    /// The position of the cycle counter.
    pub closed spec fn counter_spec(self) -> u8 {
        self.counter
    }

    /// Whether the model holds `led` energized.
    pub closed spec fn lit(self, led: Led) -> bool {
        match led {
            Led::Green => self.green_on,
            Led::Orange => self.orange_on,
            Led::Red => self.red_on,
            Led::Blue => self.blue_on,
        }
    }

    /// A fresh blinker: the cycle starts at green and every LED is dark.
    pub fn new() -> (b: Blinker)
        ensures
            b.wf(),
            b.counter_spec() == 0,
            forall|l: Led| !b.lit(l),
    {
        Blinker { counter: 0, green_on: false, orange_on: false, red_on: false, blue_on: false }
    }

    /// The LED that the current counter position selects.
    pub fn selected(&self) -> (l: Led)
        ensures
            l == led_for(self.counter_spec()),
    {
        if self.counter == 0 {
            Led::Green
        } else if self.counter == 1 {
            Led::Orange
        } else if self.counter == 2 {
            Led::Red
        } else {
            Led::Blue
        }
    }

    /// Mark every LED dark, as the loop does at the top of each pass.
    fn all_off(&mut self)
        ensures
            final(self).counter_spec() == old(self).counter_spec(),
            forall|l: Led| !final(self).lit(l),
    {
        self.green_on = false;
        self.orange_on = false;
        self.red_on = false;
        self.blue_on = false;
    }

    /// Invert the state of one LED and leave the rest alone.
    fn toggle(&mut self, led: Led)
        ensures
            final(self).counter_spec() == old(self).counter_spec(),
            final(self).lit(led) == !old(self).lit(led),
            forall|l: Led| l != led ==> final(self).lit(l) == old(self).lit(l),
    {
        match led {
            Led::Green => self.green_on = !self.green_on,
            Led::Orange => self.orange_on = !self.orange_on,
            Led::Red => self.red_on = !self.red_on,
            Led::Blue => self.blue_on = !self.blue_on,
        }
    }

    /// Move the counter one position along the cycle.
    fn advance(&mut self)
        requires
            old(self).wf(),
        ensures
            final(self).wf(),
            final(self).counter_spec() == next_counter(old(self).counter_spec()),
            forall|l: Led| final(self).lit(l) == old(self).lit(l),
    {
        self.counter = (self.counter + 1) % LED_COUNT;
    }

    /// One pass of the blink loop: darken every LED, toggle the one the
    /// counter selects — which therefore ends energized on its own — and
    /// advance the counter. Returns the LED that was toggled.
    pub fn step(&mut self) -> (l: Led)
        requires
            old(self).wf(),
        ensures
            final(self).wf(),
            l == led_for(old(self).counter_spec()),
            final(self).counter_spec() == next_counter(old(self).counter_spec()),
            final(self).lit(l),
            forall|k: Led| k != l ==> !final(self).lit(k),
    {
        self.all_off();
        let l = self.selected();
        self.toggle(l);
        self.advance();
        l
    }

    /// The position of the cycle counter.
    pub fn counter(&self) -> (c: u8)
        ensures
            c == self.counter_spec(),
    {
        self.counter
    }

    /// Whether the model holds `led` energized.
    pub fn is_lit(&self, led: Led) -> (r: bool)
        ensures
            r == self.lit(led),
    {
        match led {
            Led::Green => self.green_on,
            Led::Orange => self.orange_on,
            Led::Red => self.red_on,
            Led::Blue => self.blue_on,
        }
    }
}

/// What the program does when it reaches an unrecoverable fault. The
/// hook that the runtime invokes on a panic performs exactly what this
/// response orders, and nothing besides.
#[derive(Clone, Copy, Debug)]
pub struct FaultResponse {
    /// Execute one undefined-instruction trap, halting the processor.
    pub trap: bool,
    /// The LED to toggle first, if any.
    pub toggle: Option<Led>,
    /// The line to write to the debug channel first, if any.
    pub log: Option<&'static str>,
    /// Whether control returns to the blink loop afterwards.
    pub resume: bool,
}

/// The response to an unrecoverable fault: halt. One trap instruction
/// stops the processor; no LED is toggled, no line is logged, and
/// control never returns to the blink loop, so no further pass runs.
/// The response is fixed — it is the same on every invocation and
/// depends on nothing.
pub fn fault_response() -> (r: FaultResponse)
    ensures
        r.trap,
        r.toggle is None,
        r.log is None,
        !r.resume,
{
    FaultResponse { trap: true, toggle: None, log: None, resume: false }
}

} // verus!
