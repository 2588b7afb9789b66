//! Isolated body-part atlases derived from one full-body skin atlas.
//!
//! The crate holds the geometric remapping of a skin atlas into one
//! single-part atlas per body part, the retry protocol that publishes each
//! of them, and the join that orders the five outcomes by body part.

pub mod atlas;
pub mod codec;
pub mod geometry;
pub mod json;
pub mod layout;
pub mod part;
pub mod pipeline;
pub mod profile;
pub mod remap;
pub mod upload;
