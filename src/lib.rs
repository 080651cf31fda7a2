//! The core of a fixed-timestep simulation loop: identifiers for renderer resources,
//! the entities that bundle them, transform tables, queued render updates, input
//! state, and the decisions of the two-phase tick.
use vstd::prelude::*;

pub mod being;
pub mod draw;
pub mod entity;
pub mod ids;
pub mod input;
pub mod render_updates;
pub mod schedule;
pub mod transforms;

pub use being::{BeingType, IsoBeingType};
pub use draw::{centered_position, CullingMethod, DepthTestMethod, DrawMethod, Index, WindowArgs};
pub use entity::Entity;
pub use ids::{IDManager, IDSize, IDType, ID};
pub use input::{apply_input, Button, ButtonState, Display, InputEvent, KeyCode, Keyboard, Mouse, MouseButton};
pub use render_updates::RenderUpdateData;
pub use schedule::{GameLoop, LoopAction, LoopEvent, LoopPhase, LoopState, TICK_NS};
pub use transforms::Transforms;

verus! {

/// A manager that has handed out no identifier yet, for a game to share among its
/// beings.
pub fn init() -> (r: IDManager)
    ensures
        r.issued() == ids::fresh_counts(),
{
    IDManager::new()
}

} // verus!
