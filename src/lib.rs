//! Vehicle rules of a top-down racing game: the checkpoint lap counter, the
//! track mask, the guidance field that AI cars follow, the decisions that the
//! steering controllers and the friction rule take from it, how map objects
//! are classified, and the order of the levels.
pub mod laps;
pub mod track;
pub mod guidance;
pub mod steering;
pub mod sprites;
pub mod levels;
