//! A screen-recorder core: the stop-signal decisions, the timestamped output
//! path, and the capture-session handler's state machine, each with a
//! verified contract. The platform capture runtime, the encoder, the
//! terminal, and all other I/O live outside this library and drive it
//! through plain values.

pub mod capture;
pub mod output_path;
pub mod signal;
pub mod token;
