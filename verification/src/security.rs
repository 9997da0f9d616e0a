//! Emergency halt.

use vstd::prelude::*;

use crate::{Config, ConfigAccount};

verus! {

/// Sets or clears the emergency halt; every other setting is kept.
pub fn change_emergency_state(config: &mut ConfigAccount, state: bool)
    ensures
        final(config).config == (Config { halted: state, ..old(config).config }),
{
    config.config.halted = state;
}

} // verus!
