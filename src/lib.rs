//! Sets NASA's astronomy picture of the day as the desktop wallpaper.
//!
//! The library holds the decisions of a run: the metadata request built from
//! the API key, what follows each stage's outcome, which settings tool applies
//! the image on the running desktop and with which arguments, and what that
//! tool's exit means. Performing requests, writing files and running programs
//! is left to the caller, which hands the outcomes back.

pub mod desktop;
pub mod pipeline;
pub mod text;
