//! The panel of a scene's parameters, as a list that any user interface can
//! show and write back through.
use vstd::prelude::*;

verus! {

/// One row of a panel. `F` names the parameters of the scene that the panel
/// belongs to.
#[derive(Debug, PartialEq, Eq)]
pub enum Control<F> {
    /// A title over the rows that follow.
    Heading { text: &'static str },
    /// A switch for the parameter `field`.
    Checkbox { label: &'static str, field: F, checked: bool },
    /// A slider for the parameter `field` over `min..=max`, which moves in
    /// steps of `step`, or freely where `step` is 0.
    Slider { label: &'static str, field: F, value: i32, min: i32, max: i32, step: i32 },
}

/// A parameter that has left its range.
#[derive(Debug, PartialEq, Eq)]
pub struct ConfigError<F> {
    /// The parameter.
    pub field: F,
    /// The value it has.
    pub value: i32,
    /// The least value it may have as things stand.
    pub min: i32,
    /// The greatest value it may have as things stand.
    pub max: i32,
}

} // verus!
