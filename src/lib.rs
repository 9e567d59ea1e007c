//! Decision logic of a Monte-Carlo ray tracer, verified.
//!
//! Scalars of the tracer are IEEE-754 binary64 values. The library takes them
//! as their bit patterns (`u64`) and decides on them with exact IEEE ordering:
//! which root of a sphere is taken, whether a planar primitive is hit, which
//! of many hits is nearest, how a surface is oriented, what the radiance
//! estimator does after each bounce, and how the framebuffer is filled.
pub mod ordering;
pub mod hittable;
pub mod material;
pub mod integrator;
pub mod render;
