//! Analytical magnetostatics for cylindrical permanent magnets.
//!
//! The field formulas themselves are floating-point numerics and live outside
//! the verified core, in the surrounding application layer. What this crate
//! verifies is everything about the computation that is exact:
//!
//! - the error taxonomy and the policies that decide when each error is raised
//!   ([`error`], [`kernel`]),
//! - the branch-selection policy of the cylinder field solver ([`cylinder`]),
//! - the coordinate algebra of local/global frames, stated and proved over
//!   exact integer arithmetic ([`vector`], [`quaternion`], [`frame`]),
//! - the rigid-motion propagation protocol of source collections
//!   ([`sources`]), and
//! - the superposition protocol that sums per-source field contributions
//!   ([`superposition`]).

pub mod error;
pub mod vector;
pub mod quaternion;
pub mod frame;
pub mod kernel;
pub mod cylinder;
pub mod sources;
pub mod superposition;

pub use cylinder::{plan_cylinder_eval, CylinderEvalPlan, CylinderMagnet};
pub use error::FieldError;
pub use frame::Pose;
pub use kernel::{cel_preflight, IterationBudget, KernelStep, CEL_MAX_ITERATIONS};
pub use quaternion::Quaternion;
pub use sources::{Source, SourceCollection};
pub use superposition::{check_source_arrays, superpose, use_parallel, PARALLEL_THRESHOLD};
pub use vector::Vec3;
