use vstd::prelude::*;

pub mod primitives;
pub mod sorted;
pub mod storage_errors;
pub mod storage_types;
pub mod storage_state;
pub mod storage_bag_ops;
pub mod storage_objects;
pub mod storage_mutation;
pub mod storage_api;
pub mod storage_vouchers;
pub mod storage_moves;
pub mod storage_buckets;
pub mod storage_lead;
pub mod storage_blacklist;
pub mod storage_distribution;
pub mod content;
pub mod content_ops;
pub mod storage_laws;
pub mod weights;
pub mod storage_weights;
pub mod membership_weights;
pub mod content_directory;
pub mod content_directory_laws;
pub mod content_directory_checks;
pub mod content_directory_limits;
pub mod content_directory_permissions;
pub mod content_laws;
pub mod storage_assignment_laws;
