//! Fight scripting, menus and decision logic of a raid-encounter practice game,
//! verified with Verus. Rendering, physics and input polling live in the
//! application crate; everything here works on plain values.

pub mod ai;
pub mod audio;
pub mod controls;
pub mod hints;
pub mod loading;
pub mod menu;
pub mod player;
pub mod script;
pub mod state;
pub mod timer;
