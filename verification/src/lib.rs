//! Query-layer logic for a plant-design database: text primitives, SQL
//! builders, classifiers, connection and write routing decisions.
use vstd::prelude::*;

pub mod text;
pub mod refno;
pub mod query_builder;
pub mod resilience;
pub mod connection_manager;
pub mod model_write;
pub mod error_handler;
pub mod datacenter_query;
pub mod resolve;
pub mod attr_cache;
pub mod cache_manager;
pub mod material;
pub mod geom;
pub mod queries;
pub mod annotation_query;
pub mod inst_structs;
pub mod measurement_query;
pub mod mdb;
pub mod pipeline;
pub mod json;
pub mod material_rows;
pub mod material_sql;
pub mod boolean_query;
pub mod inst_query;
pub mod pe_query;
pub mod graph;
pub mod geo_sql;
pub mod name_map;
pub mod schema;

pub use vstd::hash_map::StringHashMap;

verus! {

} // verus!
