//! Decision logic for overlaying a prepass buffer (depth, normals or motion
//! vectors) onto the rendered frame of a camera.
//!
//! A camera is tagged with a [`mode::ShowPrepass`] to show one of its prepass
//! buffers. Frame by frame the stages in [`prepare`] give every tagged view
//! its uniform, its specialized pipeline and its bind group, and
//! [`node::ShowPrepassNode`] decides whether and how the view is drawn. The
//! library holds no GPU object: layouts, pipelines, bind groups and draws
//! are described as plain values for the host to carry out.

pub mod key;
pub mod laws;
pub mod layout;
pub mod mode;
pub mod node;
pub mod pipeline;
pub mod prepare;
pub mod view;
