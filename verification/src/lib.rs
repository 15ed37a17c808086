//! Two small stateful time-tracking primitives: a count-up stopwatch with lap
//! recording, and a countdown timer. Both accumulate elapsed (or remaining)
//! time across repeated pause/resume cycles and hand back the full session
//! history when stopped. Moments are wall-clock readings in milliseconds; the
//! clock itself is the only outside collaborator.

mod clock;
pub mod errors;
pub mod stopwatch;
pub mod time;
pub mod timer;

