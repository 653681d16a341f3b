//! Host-side scheduling of GPU Fourier transforms, verified.
//!
//! Given an axis length, a precision and the limits of a device, the planners choose
//! register tables and radix stages, the uploads an axis is split over, the workgroup of
//! each upload, and the lanes that Rader and Bluestein transforms take. Every planner has
//! an exact contract: its result is a spec function of its arguments, errors included.
//!
//! - [`config`], [`error`] and [`policy`]: devices, precisions, and per-device defaults.
//! - [`arith`] and [`factors`]: checked integer arithmetic, roots, and prime factors.
//! - [`registers`] and [`quad`]: radix stages and registers of one transform.
//! - [`splits`], [`upload_count`] and [`uploads`]: how an axis is split over uploads.
//! - [`axis_block`], [`stockham_blocks`] and [`four_step_blocks`]: workgroup shapes.
//! - [`rader_tables`], [`double_root`], [`shared_search`], [`rader_registers`],
//!   [`rader_containers`], [`rader_tree`], [`rader_parents`], [`rader_blocks`],
//!   [`rader_uploads`] and [`direct_rader`]: prime factors that are convolved.
//! - [`bluestein`]: padded convolution lengths.
//! - [`radix_laws`], [`register_laws`], [`split_laws`], [`choice_laws`], [`capacity_laws`],
//!   [`accounting_laws`], [`upload_laws`], [`validity_laws`], [`padding_laws`] and
//!   [`policy_laws`]: what holds of stages, registers, splits, uploads, paddings and defaults.
//! - [`group_laws`], [`memory_laws`], [`four_step_laws`] and [`rader_shape_laws`]: what every
//!   workgroup shape keeps.
//! - [`rader_laws`], [`lane_laws`], [`pressure_laws`], [`container_laws`], [`coupling_laws`],
//!   [`scaling_laws`], [`demand_laws`], [`direct_laws`], [`tree_laws`] and [`parent_laws`]:
//!   what holds of convolved primes.

pub mod accounting_laws;
pub mod arith;
pub mod axis_block;
pub mod bluestein;
pub mod capacity_laws;
pub mod choice_laws;
pub mod config;
pub mod container_laws;
pub mod coupling_laws;
pub mod demand_laws;
pub mod direct_laws;
pub mod direct_rader;
pub mod double_root;
pub mod error;
pub mod factors;
pub mod four_step_blocks;
pub mod four_step_laws;
pub mod group_laws;
pub mod lane_laws;
pub mod memory_laws;
pub mod padding_laws;
pub mod parent_laws;
pub mod policy;
pub mod policy_laws;
pub mod pressure_laws;
pub mod quad;
pub mod rader_blocks;
pub mod rader_containers;
pub mod rader_laws;
pub mod rader_parents;
pub mod rader_registers;
pub mod rader_shape_laws;
pub mod rader_tables;
pub mod rader_tree;
pub mod rader_uploads;
pub mod radix_laws;
pub mod register_laws;
pub mod registers;
pub mod scaling_laws;
pub mod shared_search;
pub mod split_laws;
pub mod splits;
pub mod stockham_blocks;
pub mod tree_laws;
pub mod upload_count;
pub mod upload_laws;
pub mod uploads;
pub mod validity_laws;
