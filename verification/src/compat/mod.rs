//! The integer types on which CUPS 2 and CUPS 3 disagree.
//!
//! | accessor | CUPS 2 | CUPS 3 |
//! |---|---|---|
//! | `ippGetCount` returns | `int` | `size_t` |
//! | `ippGetBoolean` returns | `int` | `bool` |
//! | element index arguments | `int` | `size_t` |
//!
//! Each generation has its own module with the same functions, so that a
//! caller picks one of the two and stays version-agnostic otherwise.

pub mod cups2;
pub mod cups3;
