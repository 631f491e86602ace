//! Ready-made widgets built on the kernel.
pub mod status_badge;
pub mod tab_bar;
pub mod table;
pub mod full_screen_table;
pub mod app_layout;

use vstd::prelude::*;

verus! {

/// Messages that many components understand.
#[derive(Debug, Clone, Copy, PartialEq, Eq, Structural)]
pub enum ComponentMsg {
    /// The component gained focus.
    Focus,
    /// The component lost focus.
    Blur,
    /// A tick of an animation.
    Tick,
    /// The component was submitted.
    Submit,
    /// The component was cancelled.
    Cancel,
}

} // verus!
