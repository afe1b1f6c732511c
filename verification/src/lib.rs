//! Endlessly repeat one line of text on standard output.
//!
//! The library holds everything about the repeater that can be stated and
//! proved: how the repeated line is built from the optional argument, which
//! bytes the output stream carries, and how the write loop reacts to the
//! outcome of each write. The surrounding binary only acquires the raw
//! output handle, performs the writes, and exits as the loop state directs.

pub mod control;
pub mod line;
