use vstd::prelude::*;

verus! {

/// The buttons of a standard NES controller, in the order in which the
/// controller's shift register reports them; `NoButton` is the position after
/// the eighth button.
#[derive(Clone, Copy, PartialEq, Eq, Structural, Debug)]
pub enum Button {
    A,
    B,
    Select,
    Start,
    Up,
    Down,
    Left,
    Right,
    NoButton,
}

/// The button that a read reports after `b`, when the strobe is low.
pub open spec fn next_button(b: Button) -> Button {
    match b {
        Button::A => Button::B,
        Button::B => Button::Select,
        Button::Select => Button::Start,
        Button::Start => Button::Up,
        Button::Up => Button::Down,
        Button::Down => Button::Left,
        Button::Left => Button::Right,
        Button::Right => Button::NoButton,
        Button::NoButton => Button::A,
    }
}

/// A standard controller: eight button states and the serial read position.
pub struct Controller {
    strobe: bool,
    button: Button,
    a: bool,
    b: bool,
    select: bool,
    start: bool,
    up: bool,
    down: bool,
    left: bool,
    right: bool,
}

impl Controller {
    /// Is `button` held down? (`NoButton` never is.)
    pub closed spec fn is_pressed(self, button: Button) -> bool {
        match button {
            Button::A => self.a,
            Button::B => self.b,
            Button::Select => self.select,
            Button::Start => self.start,
            Button::Up => self.up,
            Button::Down => self.down,
            Button::Left => self.left,
            Button::Right => self.right,
            Button::NoButton => false,
        }
    }

    /// Is the strobe high (the read position held at `A`)?
    pub closed spec fn strobe(self) -> bool {
        self.strobe
    }

    /// The button that the next read reports.
    pub closed spec fn current(self) -> Button {
        self.button
    }

    /// The value that a read returns.
    pub open spec fn read_value(self) -> u8 {
        if self.is_pressed(self.current()) { 1 } else { 0 }
    }

    /// The controller after a read: the same buttons and strobe, the read
    /// position advanced unless the strobe is high.
    pub closed spec fn after_read(self) -> Self {
        Controller { button: if self.strobe { self.button } else { next_button(self.button) }, ..self }
    }

    /// The controller after `strobe_high` or `strobe_low`.
    pub closed spec fn after_strobe(self, high: bool) -> Self {
        if high {
            Controller { strobe: true, button: Button::A, ..self }
        } else {
            Controller { strobe: false, ..self }
        }
    }

    /// Two controllers agree on every button, the strobe and the read position.
    pub open spec fn same_state(self, other: Self) -> bool {
        &&& self.strobe() == other.strobe()
        &&& self.current() == other.current()
        &&& forall|b: Button| self.is_pressed(b) == #[trigger] other.is_pressed(b)
    }

    pub proof fn lemma_after_read(self)
        ensures
            self.after_read().strobe() == self.strobe(),
            self.after_read().current() == if self.strobe() {
                self.current()
            } else {
                next_button(self.current())
            },
            forall|b: Button| #[trigger] self.after_read().is_pressed(b) == self.is_pressed(b),
    {
    }

    pub proof fn lemma_after_strobe(self, high: bool)
        ensures
            self.after_strobe(high).strobe() == high,
            high ==> self.after_strobe(high).current() == Button::A,
            !high ==> self.after_strobe(high).current() == self.current(),
            forall|b: Button| #[trigger] self.after_strobe(high).is_pressed(b) == self.is_pressed(b),
    {
    }

    /// The state at power-up: strobe low, at `A`, no button held.
    pub open spec fn is_power_up(self) -> bool {
        &&& !self.strobe()
        &&& self.current() == Button::A
        &&& forall|b: Button| !#[trigger] self.is_pressed(b)
    }

    pub fn initialize() -> (r: Self)
        ensures
            r.is_power_up(),
    {
        Self {
            strobe: false,
            button: Button::A,
            a: false,
            b: false,
            select: false,
            start: false,
            up: false,
            down: false,
            left: false,
            right: false,
        }
    }

    pub fn strobe_high(&mut self)
        ensures
            *final(self) == old(self).after_strobe(true),
            final(self).strobe(),
            final(self).current() == Button::A,
            forall|b: Button| #[trigger] final(self).is_pressed(b) == old(self).is_pressed(b),
    {
        self.strobe = true;
        self.button = Button::A;
    }

    pub fn strobe_low(&mut self)
        ensures
            *final(self) == old(self).after_strobe(false),
            !final(self).strobe(),
            final(self).current() == old(self).current(),
            forall|b: Button| #[trigger] final(self).is_pressed(b) == old(self).is_pressed(b),
    {
        self.strobe = false;
    }

    /// Reports the state of the current button (1 when pressed) and, unless
    /// the strobe is high, moves on to the next button.
    pub fn read(&mut self) -> (r: u8)
        ensures
            r == old(self).read_value(),
            r == (if old(self).is_pressed(old(self).current()) { 1u8 } else { 0u8 }),
            *final(self) == old(self).after_read(),
            final(self).strobe() == old(self).strobe(),
            final(self).current() == if old(self).strobe() {
                old(self).current()
            } else {
                next_button(old(self).current())
            },
            forall|b: Button| #[trigger] final(self).is_pressed(b) == old(self).is_pressed(b),
    {
        let data = self.read_button(self.button);
        if !self.strobe {
            self.button = match self.button {
                Button::A => Button::B,
                Button::B => Button::Select,
                Button::Select => Button::Start,
                Button::Start => Button::Up,
                Button::Up => Button::Down,
                Button::Down => Button::Left,
                Button::Left => Button::Right,
                Button::Right => Button::NoButton,
                Button::NoButton => Button::A,
            }
        }
        if data {
            0x01
        } else {
            0x00
        }
    }

    /// The button that the next read reports.
    pub fn button(&self) -> (r: Button)
        ensures
            r == self.current(),
    {
        self.button
    }

    pub fn read_button(&self, button: Button) -> (r: bool)
        ensures
            r == self.is_pressed(button),
            button == Button::NoButton ==> !r,
    {
        match button {
            Button::A => self.a,
            Button::B => self.b,
            Button::Select => self.select,
            Button::Start => self.start,
            Button::Up => self.up,
            Button::Down => self.down,
            Button::Left => self.left,
            Button::Right => self.right,
            Button::NoButton => false,
        }
    }

    pub fn set_button(&mut self, button: Button)
        ensures
            button != Button::NoButton ==> final(self).is_pressed(button),
            forall|b: Button| b != button ==> #[trigger] final(self).is_pressed(b) == old(self).is_pressed(b),
            final(self).strobe() == old(self).strobe(),
            final(self).current() == old(self).current(),
    {
        match button {
            Button::A => { self.a = true },
            Button::B => { self.b = true },
            Button::Select => { self.select = true },
            Button::Start => { self.start = true },
            Button::Up => { self.up = true },
            Button::Down => { self.down = true },
            Button::Left => { self.left = true },
            Button::Right => { self.right = true },
            Button::NoButton => {},
        }
    }

    pub fn clear_button(&mut self, button: Button)
        ensures
            !final(self).is_pressed(button),
            forall|b: Button| b != button ==> #[trigger] final(self).is_pressed(b) == old(self).is_pressed(b),
            final(self).strobe() == old(self).strobe(),
            final(self).current() == old(self).current(),
    {
        match button {
            Button::A => { self.a = false },
            Button::B => { self.b = false },
            Button::Select => { self.select = false },
            Button::Start => { self.start = false },
            Button::Up => { self.up = false },
            Button::Down => { self.down = false },
            Button::Left => { self.left = false },
            Button::Right => { self.right = false },
            Button::NoButton => {},
        }
    }
}

/// The button that is reported `k`-th: `A` for 0, ..., `Right` for 7, then
/// `NoButton`.
pub open spec fn button_with_index(k: nat) -> Button {
    if k == 0 {
        Button::A
    } else if k == 1 {
        Button::B
    } else if k == 2 {
        Button::Select
    } else if k == 3 {
        Button::Start
    } else if k == 4 {
        Button::Up
    } else if k == 5 {
        Button::Down
    } else if k == 6 {
        Button::Left
    } else if k == 7 {
        Button::Right
    } else {
        Button::NoButton
    }
}

/// The controller after `n` reads.
pub open spec fn after_reads(c: Controller, n: nat) -> Controller
    decreases n,
{
    if n == 0 {
        c
    } else {
        after_reads(c, (n - 1) as nat).after_read()
    }
}

proof fn lemma_reads_walk(c: Controller, k: nat)
    requires
        k <= 8,
        !c.strobe(),
        c.current() == Button::A,
    ensures
        after_reads(c, k).current() == button_with_index(k),
        !after_reads(c, k).strobe(),
        forall|b: Button| #[trigger] after_reads(c, k).is_pressed(b) == c.is_pressed(b),
    decreases k,
{
    if k > 0 {
        lemma_reads_walk(c, (k - 1) as nat);
        after_reads(c, (k - 1) as nat).lemma_after_read();
    }
}

/// After the strobe goes high and then low, reads report the buttons in the
/// order A, B, Select, Start, Up, Down, Left, Right (1 when pressed), and a
/// ninth read reports 0.
pub proof fn law_serial_report(c: Controller, k: nat)
    requires
        k <= 8,
    ensures
        after_reads(c.after_strobe(true).after_strobe(false), k).read_value() == if k < 8
            && c.is_pressed(button_with_index(k)) {
            1u8
        } else {
            0u8
        },
{
    let c0 = c.after_strobe(true).after_strobe(false);
    c.lemma_after_strobe(true);
    c.after_strobe(true).lemma_after_strobe(false);
    lemma_reads_walk(c0, k);
    assert(after_reads(c0, k).is_pressed(button_with_index(k)) == c.is_pressed(button_with_index(k)));
}

proof fn lemma_reads_hold(c: Controller, n: nat)
    requires
        c.strobe(),
    ensures
        after_reads(c, n).current() == c.current(),
        after_reads(c, n).strobe(),
        forall|b: Button| #[trigger] after_reads(c, n).is_pressed(b) == c.is_pressed(b),
    decreases n,
{
    if n > 0 {
        lemma_reads_hold(c, (n - 1) as nat);
        after_reads(c, (n - 1) as nat).lemma_after_read();
    }
}

/// While the strobe is high, every read reports the `A` button.
pub proof fn law_strobe_high_reports_a(c: Controller, n: nat)
    ensures
        after_reads(c.after_strobe(true), n).read_value() == if c.is_pressed(Button::A) {
            1u8
        } else {
            0u8
        },
{
    c.lemma_after_strobe(true);
    lemma_reads_hold(c.after_strobe(true), n);
    assert(after_reads(c.after_strobe(true), n).is_pressed(Button::A) == c.is_pressed(Button::A));
}

/// `NoButton` is never held, whatever was set: its reads report 0.
pub proof fn law_no_button_never_pressed(c: Controller)
    ensures
        !c.is_pressed(Button::NoButton),
{
}

} // verus!
