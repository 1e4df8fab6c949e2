//! The "memetics" tagging component: descriptive data the HUD lists.

use vstd::prelude::*;

verus! {

/// What kind of vessel holds the memetic content.
#[derive(Clone, Copy, PartialEq, Eq, Structural, Debug)]
pub enum ContainerType {
    Biological,
    Electronic,
}

/// Whether the container spreads its content or merely stores it.
#[derive(Clone, Copy, PartialEq, Eq, Structural, Debug)]
pub enum ContainerActivity {
    Active,
    Passive,
}

/// Component denoting an entity is able to contain memetics. Static after
/// creation; purely descriptive, consumed by the HUD.
#[derive(Clone, Copy, PartialEq, Eq, Structural, Debug)]
pub struct MemeContainer {
    pub container_type: ContainerType,
    pub container_activity: ContainerActivity,
    pub contains_infohazard: bool,
}

} // verus!
