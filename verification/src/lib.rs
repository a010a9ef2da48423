//! A verified process-boundary adapter around an external SEO-checking tool.
//!
//! The library owns the logic of one external-process invocation: building the
//! tool's argument list, normalizing the tool's exit status and captured
//! streams into a result value, and enumerating the fixed configuration
//! presets. Spawning the process itself is left to the surrounding
//! application, which feeds the captured outcome back in as plain values.

pub mod adapter;
pub mod json;
pub mod presets;
