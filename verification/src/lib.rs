//! Compile-time warning emulation for code-generation tooling.
//!
//! A macro expander that wants to surface a warning to its user, on a
//! toolchain with no native way to emit one from generated code, registers
//! the warning here.  Each registration buffers a small fragment that
//! defines a symbol marked deprecated, carrying the message and tagged with
//! the user's source location.  At the end of the expansion the buffered
//! fragments are rendered, in registration order, either as discard
//! statements for a function body or as uniquely named modules for item
//! scope; splicing that output makes the host compiler's own
//! deprecated-symbol diagnostic fire at the recorded location with the
//! message text.

pub mod emit;
pub mod names;
pub mod sink;
pub mod tokens;

pub use emit::{collect_warning_items, collect_warning_statements, warn};
pub use sink::WarningSink;
