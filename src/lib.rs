pub mod clock;
pub mod frame;
pub mod io;
pub mod rom;
pub mod screen;
pub mod sound;
