//! Verified core of a Breakout-style arcade game.
//!
//! A ball bounces inside a bounded arena, deflected by a player-controlled
//! paddle, three oversized wall rectangles, and a grid of destructible bricks.
//! Coordinates are whole pixels of arena space, held as `i64`.  The windowing,
//! texture and event-loop shell around the game is plain I/O and lives outside
//! this crate; it calls [`sim::App::update`] once per simulated tick,
//! [`sim::App::event`] once per pointer move, and reads the public fields of
//! [`sim::App`] when drawing a frame.

pub mod collision;
pub mod geometry;
pub mod laws;
pub mod num;
pub mod sim;

pub use crate::collision::Edge;
pub use crate::collision::Part;
pub use crate::geometry::Brick;
pub use crate::geometry::Rectangle;
pub use crate::sim::App;
pub use crate::sim::get_bricks;
pub use crate::sim::get_edges;
