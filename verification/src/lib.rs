//! A personal alarm clock: alarms that fire at an exact second on chosen
//! weekdays and start either a radio stream or a local audio file.

pub mod clock;
pub mod controllermod;
pub mod laws;
pub mod model;
pub mod modelmod;
pub mod musicmod;
pub mod scan;
pub mod text;
