//! Modes handle controller, remote and audio input and create a color
//! map.  This module decides what a remote signal does to the mode
//! switcher.
pub mod double_blob;
pub mod manual;
pub mod mode_switcher;
use vstd::prelude::*;
use crate::ir::signal::Signal;
use crate::mode::mode_switcher::{ModeName, ModeSwitcher};

verus! {

/// What a remote signal does on the level of the mode switcher.
#[derive(Clone, Copy, Debug, PartialEq, Eq, Structural)]
pub enum SignalAction {
    /// Make the named mode the active one.
    Activate(ModeName),
    /// Switch the lights off or back on.
    SwitchOnOff,
    /// Hand the signal to the active mode.
    Forward,
}

/// The DIY buttons select the modes, the power button switches the
/// lights; all other buttons are for the active mode.  The switcher
/// holds a single auto mode and three manual ones: DIY3 selects the
/// auto mode and DIY6 the third manual mode, so that each of the six
/// modes has its own button.
pub open spec fn signal_action_spec(signal: Signal) -> SignalAction {
    match signal {
        Signal::Diy1 => SignalAction::Activate(ModeName::Manual1),
        Signal::Diy2 => SignalAction::Activate(ModeName::Manual2),
        Signal::Diy3 => SignalAction::Activate(ModeName::Auto),
        Signal::Diy4 => SignalAction::Activate(ModeName::DoubleBlob),
        Signal::Diy5 => SignalAction::Activate(ModeName::HighLow),
        Signal::Diy6 => SignalAction::Activate(ModeName::Manual3),
        Signal::Power => SignalAction::SwitchOnOff,
        _ => SignalAction::Forward,
    }
}

/// Decides what a remote signal does on the level of the mode switcher.
pub fn signal_action(signal: Signal) -> (a: SignalAction)
    ensures
        a == signal_action_spec(signal),
{
    match signal {
        Signal::Diy1 => SignalAction::Activate(ModeName::Manual1),
        Signal::Diy2 => SignalAction::Activate(ModeName::Manual2),
        Signal::Diy3 => SignalAction::Activate(ModeName::Auto),
        Signal::Diy4 => SignalAction::Activate(ModeName::DoubleBlob),
        Signal::Diy5 => SignalAction::Activate(ModeName::HighLow),
        Signal::Diy6 => SignalAction::Activate(ModeName::Manual3),
        Signal::Power => SignalAction::SwitchOnOff,
        _ => SignalAction::Forward,
    }
}

/// Applies a remote signal to the mode switcher.  Returns `true` where
/// the signal is for the active mode, which the caller then hands it
/// to.
pub fn handle_signal<M>(switcher: &mut ModeSwitcher<M>, signal: Signal) -> (forward: bool)
    ensures
        forward == (signal_action_spec(signal) == SignalAction::Forward),
        forall|n: ModeName| #[trigger] final(switcher).mode(n) == old(switcher).mode(n),
        match signal_action_spec(signal) {
            SignalAction::Activate(name) => final(switcher).active() == name
                && final(switcher).is_off() == old(switcher).is_off(),
            SignalAction::SwitchOnOff => final(switcher).active() == old(switcher).active()
                && final(switcher).is_off() == !old(switcher).is_off(),
            SignalAction::Forward => final(switcher).active() == old(switcher).active()
                && final(switcher).is_off() == old(switcher).is_off(),
        },
{
    match signal_action(signal) {
        SignalAction::Activate(name) => {
            switcher.activate_mode(name);
            false
        },
        SignalAction::SwitchOnOff => {
            switcher.switch_on_off();
            false
        },
        SignalAction::Forward => true,
    }
}

/// Each of the six DIY buttons selects its own mode, and every mode
/// has a DIY button.
pub proof fn lemma_diy_buttons_select_all_modes(name: ModeName)
    ensures
        exists|s: Signal| signal_action_spec(s) == SignalAction::Activate(name),
{
    match name {
        ModeName::Manual1 => assert(signal_action_spec(Signal::Diy1) == SignalAction::Activate(name)),
        ModeName::Manual2 => assert(signal_action_spec(Signal::Diy2) == SignalAction::Activate(name)),
        ModeName::Auto => assert(signal_action_spec(Signal::Diy3) == SignalAction::Activate(name)),
        ModeName::DoubleBlob => assert(signal_action_spec(Signal::Diy4) == SignalAction::Activate(name)),
        ModeName::HighLow => assert(signal_action_spec(Signal::Diy5) == SignalAction::Activate(name)),
        ModeName::Manual3 => assert(signal_action_spec(Signal::Diy6) == SignalAction::Activate(name)),
    }
}

} // verus!
