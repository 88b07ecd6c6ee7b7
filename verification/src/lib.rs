//! Command-line layer of the Condor chunked video encoding framework: encoder
//! parameter parsing, command option vocabularies, input selection, progress
//! bookkeeping and text formatting.
pub mod text;
pub mod time_display;
pub mod float_text;
pub mod parameter_parser;
pub mod commands;
pub mod speed_pairs;
pub mod shared_progress;
pub mod hash_path;
pub mod benchmarker;
pub mod parallel_encoder;
pub mod input_model;
pub mod workflow;
pub mod help_text;
pub mod target_quality;
pub mod scene_lengths;
