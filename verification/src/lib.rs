//! Procedural film-grain synthesis core: a typed, range-bounded parameter
//! model, an undo/redo command history, export validation, and a GPU compute
//! rendering pipeline with verified dispatch arithmetic and buffer layout.
pub mod app_state;
pub mod compute_pipeline;
pub mod document;
pub mod error;
pub mod export;
pub mod film_stock;
pub mod gpu;
pub mod gpu_context;
pub mod grain_renderer;
pub mod history;
pub mod parameter;
pub mod presets;
pub mod validation;
