//! Turns a sensor log (time-stamped RAM, CPU and GPU usage samples in CSV form)
//! into the data of a line chart: normalised bytes, typed rows, series aligned
//! on a common axis with elapsed-time labels, and the plan of what is drawn.

pub mod align;
pub mod chart;
pub mod clock;
pub mod encoding;
pub mod ingest;
pub mod label;
pub mod reading;
