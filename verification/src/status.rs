//! The companion status panel of the quick-setting toggle.
//!
//! As with the toggle, each handler mutates the state record and returns,
//! in order, the change signals that the caller must broadcast.

use vstd::prelude::*;

use crate::decimal::dec_seq;
use crate::decimal::lemma_dec_seq_injective;
use crate::decimal::lemma_dec_seq_len;
use crate::decimal::u64_to_decimal;

verus! {

/// A change signal of the status-panel interface that the bus layer must
/// broadcast after a handler ran, in the order the handler lists them.
#[derive(Clone, Copy, Debug, PartialEq, Eq, Structural)]
pub enum StatusSignal {
    FooterActivatableChanged,
    FooterIconChanged,
    FooterTextChanged,
}

/// The state record of the status panel.
///
/// `footer_count` counts footer activations within the current activation
/// period; it is reset to zero whenever the header toggles the footer.
pub struct QuickSettingStatus {
    pub header_activatable: bool,
    pub footer_activatable: bool,
    pub footer_count: u32,
}

/// What activating the footer does to the state: the count goes up by one
/// and both flags stay as they are.
pub open spec fn activate_footer_transition(pre: QuickSettingStatus) -> QuickSettingStatus {
    QuickSettingStatus {
        header_activatable: pre.header_activatable,
        footer_activatable: pre.footer_activatable,
        footer_count: (pre.footer_count + 1) as u32,
    }
}

/// The signals activating the footer asks for.
pub open spec fn activate_footer_signals() -> Seq<StatusSignal> {
    seq![StatusSignal::FooterTextChanged]
}

/// What activating the header does to the state: the footer flag flips and
/// the count is reset to zero, whatever it was.
pub open spec fn activate_header_transition(pre: QuickSettingStatus) -> QuickSettingStatus {
    QuickSettingStatus {
        header_activatable: pre.header_activatable,
        footer_activatable: !pre.footer_activatable,
        footer_count: 0,
    }
}

/// The signals activating the header asks for, in order.
pub open spec fn activate_header_signals() -> Seq<StatusSignal> {
    seq![
        StatusSignal::FooterActivatableChanged,
        StatusSignal::FooterIconChanged,
        StatusSignal::FooterTextChanged,
    ]
}

/// The footer text for a state: a fixed label while the footer is not
/// activatable; an invitation at count zero; the click count otherwise.
pub open spec fn footer_text_seq(s: QuickSettingStatus) -> Seq<char> {
    if s.footer_activatable {
        if s.footer_count == 0 {
            "Click me!"@
        } else {
            "Clicked "@ + dec_seq(s.footer_count as nat) + " times"@
        }
    } else {
        "I'm a label"@
    }
}

/// The footer icon for a state.
pub open spec fn footer_icon_seq(s: QuickSettingStatus) -> Seq<char> {
    if s.footer_activatable {
        "input-mouse-symbolic"@
    } else {
        "emblem-system-symbolic"@
    }
}

/// Activating the header always resets the footer count to zero, whatever
/// it was, and flips the footer flag; the header flag is untouched.
pub proof fn lemma_header_resets(s: QuickSettingStatus)
    ensures
        activate_header_transition(s).footer_count == 0,
        activate_header_transition(s).footer_activatable == !s.footer_activatable,
        activate_header_transition(s).header_activatable == s.header_activatable,
{
}

/// Activating the footer never touches either flag; it only ever moves the
/// count up by one.
pub proof fn lemma_footer_only_counts(s: QuickSettingStatus)
    ensures
        activate_footer_transition(s).footer_activatable == s.footer_activatable,
        activate_footer_transition(s).header_activatable == s.header_activatable,
        s.footer_count < u32::MAX ==> activate_footer_transition(s).footer_count == s.footer_count + 1,
{
}

/// While the footer is activatable, activating it changes the footer text:
/// the invitation gives way to a click count, and each further activation
/// shows a different count.
pub proof fn lemma_footer_text_changes(s: QuickSettingStatus)
    requires
        s.footer_activatable,
        s.footer_count < u32::MAX,
    ensures
        footer_text_seq(activate_footer_transition(s)) != footer_text_seq(s),
{
    let post = activate_footer_transition(s);
    let p = "Clicked "@;
    let t = " times"@;
    if s.footer_count == 0 {
        reveal_strlit("Click me!");
        reveal_strlit("Clicked ");
        reveal_strlit(" times");
        lemma_dec_seq_len(1);
        assert(footer_text_seq(post).len() >= p.len() + 1);
        assert(footer_text_seq(s).len() == 9);
    } else {
        let ka = s.footer_count as nat;
        let kb = post.footer_count as nat;
        let da = dec_seq(ka);
        let db = dec_seq(kb);
        lemma_dec_seq_injective(ka, kb);
        if footer_text_seq(post) == footer_text_seq(s) {
            if da.len() == db.len() {
                assert((p + da + t).subrange(p.len() as int, (p.len() + da.len()) as int) =~= da);
                assert((p + db + t).subrange(p.len() as int, (p.len() + db.len()) as int) =~= db);
                assert(da == db);
            } else {
                assert((p + da + t).len() != (p + db + t).len());
            }
            assert(false);
        }
    }
}

impl QuickSettingStatus {
    /// A fresh status panel: both header and footer activatable, count at
    /// zero.
    pub fn new() -> (r: QuickSettingStatus)
        ensures
            r.header_activatable,
            r.footer_activatable,
            r.footer_count == 0,
    {
        QuickSettingStatus { header_activatable: true, footer_activatable: true, footer_count: 0 }
    }

    /// The title property: a fixed string.
    pub fn title(&self) -> (r: &'static str)
        ensures
            r@ == "DBus Quick Setting Demo"@,
    {
        "DBus Quick Setting Demo"
    }

    /// The type property: a fixed string.
    pub fn type_(&self) -> (r: &'static str)
        ensures
            r@ == "placeholder"@,
    {
        "placeholder"
    }

    /// The header text property: fixed, empty.
    pub fn header_text(&self) -> (r: &'static str)
        ensures
            r@ == ""@,
    {
        ""
    }

    /// The header icon property: a fixed string.
    pub fn header_icon(&self) -> (r: &'static str)
        ensures
            r@ == "face-angel-symbolic"@,
    {
        "face-angel-symbolic"
    }

    /// The header-activatable property, read.
    pub fn header_activatable(&self) -> (r: bool)
        ensures
            r == self.header_activatable,
    {
        self.header_activatable
    }

    /// The footer text property.
    pub fn footer_text(&self) -> (r: String)
        ensures
            r@ == footer_text_seq(*self),
    {
        if self.footer_activatable {
            if self.footer_count == 0 {
                String::from_str("Click me!")
            } else {
                let r = String::from_str("Clicked ")
                    .concat(u64_to_decimal(self.footer_count as u64).as_str())
                    .concat(" times");
                proof {
                    assert(r@ =~= footer_text_seq(*self));
                }
                r
            }
        } else {
            String::from_str("I'm a label")
        }
    }

    /// The footer icon property.
    pub fn footer_icon(&self) -> (r: &'static str)
        ensures
            r@ == footer_icon_seq(*self),
    {
        if self.footer_activatable {
            "input-mouse-symbolic"
        } else {
            "emblem-system-symbolic"
        }
    }

    /// The footer-activatable property, read.
    pub fn footer_activatable(&self) -> (r: bool)
        ensures
            r == self.footer_activatable,
    {
        self.footer_activatable
    }

    /// The footer count, read. The surrounding process reads it to guard
    /// the handler's bound.
    pub fn footer_count(&self) -> (r: u32)
        ensures
            r == self.footer_count,
    {
        self.footer_count
    }

    /// Handles a footer activation: the count goes up by one and the footer
    /// text signal is owed. The flags are untouched.
    pub fn activate_footer(&mut self) -> (signals: Vec<StatusSignal>)
        requires
            old(self).footer_count < u32::MAX,
        ensures
            *final(self) == activate_footer_transition(*old(self)),
            signals@ == activate_footer_signals(),
    {
        self.footer_count = self.footer_count + 1;
        let mut signals: Vec<StatusSignal> = Vec::new();
        signals.push(StatusSignal::FooterTextChanged);
        proof {
            assert(signals@ =~= activate_footer_signals());
        }
        signals
    }

    /// Handles a header activation: the footer flag flips, the count resets
    /// to zero, and the footer activatable, icon and text signals are owed,
    /// in that order.
    pub fn activate_header(&mut self) -> (signals: Vec<StatusSignal>)
        ensures
            *final(self) == activate_header_transition(*old(self)),
            signals@ == activate_header_signals(),
    {
        self.footer_activatable = !self.footer_activatable;
        self.footer_count = 0;
        let mut signals: Vec<StatusSignal> = Vec::new();
        signals.push(StatusSignal::FooterActivatableChanged);
        signals.push(StatusSignal::FooterIconChanged);
        signals.push(StatusSignal::FooterTextChanged);
        proof {
            assert(signals@ =~= activate_header_signals());
        }
        signals
    }
}

} // verus!
