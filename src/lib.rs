//! Temporal smoothing for an "eye looking at a target" camera pose.
//!
//! The filter state and the per-entity decision of the update step live here
//! and are verified. They are generic over the sample type and the weight
//! type: the arithmetic of one filter step is handed in as a blend function.
pub mod smoother;
pub mod update;
