//! The quick-setting toggle: a counter with a timed countdown.
//!
//! Each handler mutates the state record and returns, in order, the change
//! signals that the caller must broadcast once the mutation has committed.
//! The periodic decay step (`tick`) is driven by the surrounding process on
//! a fixed period.

use vstd::prelude::*;

use crate::decimal::dec_seq;
use crate::decimal::i32_to_decimal;
use crate::decimal::int_dec_seq;

verus! {

/// A change signal of the quick-setting interface that the bus layer must
/// broadcast after a handler ran, in the order the handler lists them.
#[derive(Clone, Copy, Debug, PartialEq, Eq, Structural)]
pub enum QuickSettingSignal {
    LabelChanged,
    ActiveChanged,
    IconChanged,
}

/// The state record of the quick-setting toggle.
///
/// `counter` positive means a countdown is pending, zero idle, negative a
/// warning state. `status_path` is the bus path of the companion status
/// panel object; it never changes after construction.
pub struct QuickSetting {
    pub active: bool,
    pub counter: i32,
    pub status_path: String,
}

/// The state invariant of the handler-driven transitions: while the
/// countdown is running the counter is positive, so the counter never
/// becomes negative while `active` holds.
///
/// The plain `set_active` property write is exempt: it stores the flag
/// without validating the counter.
pub open spec fn wf(s: QuickSetting) -> bool {
    s.active ==> s.counter > 0
}

/// What a press does to the state: the counter goes up by one.
pub open spec fn press_transition(pre: QuickSetting) -> QuickSetting {
    QuickSetting { active: pre.active, counter: (pre.counter + 1) as i32, status_path: pre.status_path }
}

/// The signals a press asks for, in order.
pub open spec fn press_signals() -> Seq<QuickSettingSignal> {
    seq![QuickSettingSignal::LabelChanged, QuickSettingSignal::IconChanged]
}

/// What a long press does to the state: at or below zero it deepens the
/// warning by one; while counting it toggles the active flag.
pub open spec fn long_press_transition(pre: QuickSetting) -> QuickSetting {
    if pre.counter <= 0 {
        QuickSetting { active: pre.active, counter: (pre.counter - 1) as i32, status_path: pre.status_path }
    } else {
        QuickSetting { active: !pre.active, counter: pre.counter, status_path: pre.status_path }
    }
}

/// The signals a long press asks for, in order, unconditionally.
pub open spec fn long_press_signals() -> Seq<QuickSettingSignal> {
    seq![
        QuickSettingSignal::LabelChanged,
        QuickSettingSignal::ActiveChanged,
        QuickSettingSignal::IconChanged,
    ]
}

/// The counter after one tick: one less while the countdown is running.
pub open spec fn tick_counter(pre: QuickSetting) -> i32 {
    if pre.active && pre.counter > 0 {
        (pre.counter - 1) as i32
    } else {
        pre.counter
    }
}

/// What one tick does to the state: an active countdown loses one, and the
/// toggle switches off the moment the counter sits at zero. An inactive
/// setting is left alone.
pub open spec fn tick_transition(pre: QuickSetting) -> QuickSetting {
    QuickSetting {
        active: pre.active && tick_counter(pre) != 0,
        counter: tick_counter(pre),
        status_path: pre.status_path,
    }
}

/// The signals one tick asks for: none while inactive; the icon and active
/// flags when the countdown just ended; the label on every active tick.
pub open spec fn tick_signals(pre: QuickSetting) -> Seq<QuickSettingSignal> {
    if !pre.active {
        Seq::empty()
    } else if tick_counter(pre) == 0 {
        seq![
            QuickSettingSignal::IconChanged,
            QuickSettingSignal::ActiveChanged,
            QuickSettingSignal::LabelChanged,
        ]
    } else {
        seq![QuickSettingSignal::LabelChanged]
    }
}

/// The label text for a given counter value.
pub open spec fn label_seq(counter: int) -> Seq<char> {
    "Count: "@ + int_dec_seq(counter)
}

/// The icon identifier for a state, in strict priority order: active,
/// counting down, warning, idle.
pub open spec fn icon_seq(s: QuickSetting) -> Seq<char> {
    if s.active {
        "image-loading-symbolic"@
    } else if s.counter > 0 {
        "emblem-favorite-symbolic"@
    } else if s.counter < 0 {
        "dialog-question-symbolic"@
    } else {
        "emoji-people-symbolic"@
    }
}

/// The state after `n` ticks.
pub open spec fn tick_iter(s: QuickSetting, n: nat) -> QuickSetting
    decreases n,
{
    if n == 0 {
        s
    } else {
        tick_iter(tick_transition(s), (n - 1) as nat)
    }
}

/// The state after `n` presses.
pub open spec fn press_iter(s: QuickSetting, n: nat) -> QuickSetting
    decreases n,
{
    if n == 0 {
        s
    } else {
        press_iter(press_transition(s), (n - 1) as nat)
    }
}

/// While the setting is inactive, a tick changes nothing and asks for no
/// signal — however many ticks fire.
pub proof fn lemma_tick_idle(s: QuickSetting, n: nat)
    requires
        !s.active,
    ensures
        tick_transition(s) == s,
        tick_signals(s) == Seq::<QuickSettingSignal>::empty(),
        tick_iter(s, n) == s,
    decreases n,
{
    if n > 0 {
        lemma_tick_idle(s, (n - 1) as nat);
    }
}

/// Splitting a run of ticks: `a + b` ticks are `a` ticks followed by `b`.
proof fn lemma_tick_iter_add(s: QuickSetting, a: nat, b: nat)
    ensures
        tick_iter(s, a + b) == tick_iter(tick_iter(s, a), b),
    decreases a,
{
    if a > 0 {
        lemma_tick_iter_add(tick_transition(s), (a - 1) as nat, b);
    }
}

/// The countdown terminates: a running countdown of `n` reaches the idle
/// state after exactly `n` ticks, and every later tick leaves it there.
pub proof fn lemma_countdown(s: QuickSetting, n: nat)
    requires
        s.active,
        s.counter == n,
        n >= 1,
    ensures
        tick_iter(s, n).counter == 0,
        !tick_iter(s, n).active,
        forall|m: nat| #[trigger] tick_iter(s, n + m) == tick_iter(s, n),
    decreases n,
{
    reveal_with_fuel(tick_iter, 2);
    if n > 1 {
        lemma_countdown(tick_transition(s), (n - 1) as nat);
    }
    assert forall|m: nat| #[trigger] tick_iter(s, n + m) == tick_iter(s, n) by {
        lemma_tick_iter_add(s, n, m);
        lemma_tick_idle(tick_iter(s, n), m);
    }
}

/// Pressing only moves the counter: `n` presses add `n` to it and touch
/// nothing else.
proof fn lemma_press_iter(s: QuickSetting, n: nat)
    requires
        s.counter + n <= i32::MAX,
    ensures
        press_iter(s, n).counter == s.counter + n,
        press_iter(s, n).active == s.active,
        press_iter(s, n).status_path == s.status_path,
    decreases n,
{
    if n > 0 {
        lemma_press_iter(press_transition(s), (n - 1) as nat);
    }
}

/// Pressing `n` times from the idle state gives count `n`: the label then
/// reads `Count: {n}` and, the setting staying inactive, the icon is the
/// favorite icon.
pub proof fn lemma_press_n(s: QuickSetting, n: nat)
    requires
        !s.active,
        s.counter == 0,
        1 <= n <= i32::MAX,
    ensures
        press_iter(s, n).counter == n,
        press_iter(s, n).active == s.active,
        label_seq(press_iter(s, n).counter as int) == "Count: "@ + dec_seq(n),
        icon_seq(press_iter(s, n)) == "emblem-favorite-symbolic"@,
{
    lemma_press_iter(s, n);
}

/// A long press at or below zero only deepens the warning: from zero the
/// counter goes to -1, a further long press to -2, and the active flag
/// never toggles while the counter is at or below zero.
pub proof fn lemma_long_press_warning(s: QuickSetting)
    requires
        s.counter == 0,
    ensures
        long_press_transition(s).counter == -1,
        long_press_transition(s).active == s.active,
        long_press_transition(long_press_transition(s)).counter == -2,
        long_press_transition(long_press_transition(s)).active == s.active,
{
}

/// A long press while the counter is positive toggles the active flag and
/// leaves the counter unchanged.
pub proof fn lemma_long_press_toggle(s: QuickSetting)
    requires
        s.counter > 0,
    ensures
        long_press_transition(s).active == !s.active,
        long_press_transition(s).counter == s.counter,
{
}

/// Every handler-driven transition preserves the state invariant.
pub proof fn lemma_transitions_preserve_wf(s: QuickSetting)
    requires
        wf(s),
    ensures
        s.counter < i32::MAX ==> wf(press_transition(s)),
        s.counter > i32::MIN ==> wf(long_press_transition(s)),
        wf(tick_transition(s)),
{
}

impl QuickSetting {
    /// A fresh toggle: idle, counter at zero, pointing at its companion
    /// status panel.
    pub fn new(status_path: String) -> (r: QuickSetting)
        ensures
            !r.active,
            r.counter == 0,
            r.status_path == status_path,
    {
        QuickSetting { active: false, counter: 0, status_path }
    }

    /// Handles a press: the counter goes up by one; the label and icon
    /// signals are owed, in that order. Always succeeds.
    pub fn press(&mut self) -> (signals: Vec<QuickSettingSignal>)
        requires
            old(self).counter < i32::MAX,
        ensures
            *final(self) == press_transition(*old(self)),
            signals@ == press_signals(),
    {
        self.counter = self.counter + 1;
        let mut signals: Vec<QuickSettingSignal> = Vec::new();
        signals.push(QuickSettingSignal::LabelChanged);
        signals.push(QuickSettingSignal::IconChanged);
        proof {
            assert(signals@ =~= press_signals());
        }
        signals
    }

    /// Handles a long press: at or below zero the counter goes down by one,
    /// entering or deepening the warning state; while counting the active
    /// flag toggles and the counter stays. The label, active and icon
    /// signals are owed, in that order, unconditionally.
    pub fn long_press(&mut self) -> (signals: Vec<QuickSettingSignal>)
        requires
            old(self).counter <= 0 ==> old(self).counter > i32::MIN,
        ensures
            *final(self) == long_press_transition(*old(self)),
            signals@ == long_press_signals(),
    {
        if self.counter <= 0 {
            self.counter = self.counter - 1;
        } else {
            self.active = !self.active;
        }
        let mut signals: Vec<QuickSettingSignal> = Vec::new();
        signals.push(QuickSettingSignal::LabelChanged);
        signals.push(QuickSettingSignal::ActiveChanged);
        signals.push(QuickSettingSignal::IconChanged);
        proof {
            assert(signals@ =~= long_press_signals());
        }
        signals
    }

    /// One firing of the periodic decay task.
    pub fn tick(&mut self) -> (signals: Vec<QuickSettingSignal>)
        ensures
            *final(self) == tick_transition(*old(self)),
            signals@ == tick_signals(*old(self)),
    {
        let mut signals: Vec<QuickSettingSignal> = Vec::new();
        if self.active {
            if self.counter > 0 {
                self.counter = self.counter - 1;
            }
            if self.counter == 0 {
                self.active = false;
                signals.push(QuickSettingSignal::IconChanged);
                signals.push(QuickSettingSignal::ActiveChanged);
            }
            signals.push(QuickSettingSignal::LabelChanged);
        }
        proof {
            assert(signals@ =~= tick_signals(*old(self)));
        }
        signals
    }

    /// The bus path of the companion status panel object.
    pub fn status(&self) -> (r: String)
        ensures
            r == self.status_path,
    {
        self.status_path.clone()
    }

    /// The label property: the counter rendered as `Count: {counter}`.
    pub fn label(&self) -> (r: String)
        ensures
            r@ == label_seq(self.counter as int),
    {
        let r = String::from_str("Count: ").concat(i32_to_decimal(self.counter).as_str());
        proof {
            assert(r@ =~= label_seq(self.counter as int));
        }
        r
    }

    /// The icon property.
    pub fn icon(&self) -> (r: &'static str)
        ensures
            r@ == icon_seq(*self),
    {
        if self.active {
            "image-loading-symbolic"
        } else if self.counter > 0 {
            "emblem-favorite-symbolic"
        } else if self.counter < 0 {
            "dialog-question-symbolic"
        } else {
            "emoji-people-symbolic"
        }
    }

    /// The name property: a fixed string.
    pub fn name(&self) -> (r: &'static str)
        ensures
            r@ == "DBus Quick Setting demo"@,
    {
        "DBus Quick Setting demo"
    }

    /// The description property: a fixed string.
    pub fn description(&self) -> (r: &'static str)
        ensures
            r@ == "A demonstration of making a QuickSetting available entirely via DBus. Look ma no .so!"@,
    {
        "A demonstration of making a QuickSetting available entirely via DBus. Look ma no .so!"
    }

    /// The active property, read.
    pub fn active(&self) -> (r: bool)
        ensures
            r == self.active,
    {
        self.active
    }

    /// The counter, read. The bus interface derives its label and icon from
    /// it; the surrounding process reads it to guard the handlers' bounds.
    pub fn counter(&self) -> (r: i32)
        ensures
            r == self.counter,
    {
        self.counter
    }

    /// The active property, written directly. It neither validates nor
    /// resets the counter, and — unlike the handlers that announce their
    /// transitions — asks for no change signal.
    pub fn set_active(&mut self, active: bool)
        ensures
            final(self).active == active,
            final(self).counter == old(self).counter,
            final(self).status_path == old(self).status_path,
    {
        self.active = active;
    }
}

} // verus!
