//! Userspace runtime of MTOS, a small teaching operating system, with every
//! decision it takes proved.
//!
//! A user process reaches the kernel through one trap that carries a service
//! number and up to three words, and brings one signed word back. This
//! library never issues the trap itself. It says which trap an operation
//! needs and what the word that comes back means; the program around it
//! issues the trap and hands the answer in.
//!
//! - [`syscall`]: the services, their numbers, and the shapes of a trap.
//! - [`facade`]: one request per service, and the reading of its answer.
//! - [`lifecycle`]: writing a line, the way of a panic to the exit, and the
//!   allocator.
//! - [`decimal`]: decimal text of a `u32`, written and read back.
//! - [`template`]: text with a number put in.
//! - [`buffer`]: the fixed-capacity buffers that text is built in.
//! - [`arith`] and [`shell`]: what the demonstration programs compute and
//!   the command language of the demonstration shell.

pub mod arith;
pub mod buffer;
pub mod decimal;
pub mod facade;
pub mod lifecycle;
pub mod shell;
pub mod syscall;
pub mod template;
