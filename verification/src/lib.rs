pub mod compute_dust_search;
pub mod compute_naming_search;
pub mod compute_shaders;
pub mod compute_snowball_search;
pub mod config;
pub mod crash_report;
pub mod dust;
pub mod dust_search_setup;
pub mod encounter_data;
pub mod frame_images;
pub mod manip_data;
pub mod program_common;
pub mod rng;
pub mod run_context;
pub mod search_engine;
pub mod server;
pub mod snowball_order;
pub mod snowballs;
pub mod unique_seeds;
pub mod worker;
