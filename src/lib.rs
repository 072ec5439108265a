//! Interaction state and shader-program bootstrap for an interactive globe view.
//!
//! `state` holds the pointer/wheel/frame state machine that the input handlers
//! and the frame driver share; `program` compiles and links GPU programs and
//! reports their diagnostics.
pub mod program;
pub mod state;
