//! Window-toolkit core logic: pointer input buffering, event propagation
//! order, the window-drag state machine and its cross-thread accumulator,
//! application lifetime bookkeeping, graphics re-initialisation
//! generations and the entity/layout-node mapping.

pub mod ecs;
pub mod outside;
