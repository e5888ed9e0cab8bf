//! Command handlers of a desktop application shell: string formatting, user
//! record transforms, a progress-event schedule, window actions and the
//! decisions of the update flow. Every handler is a pure function from plain
//! values to plain values; the host framework around it performs the I/O.
pub mod records;
pub mod tasks;
pub mod text;
pub mod update;
