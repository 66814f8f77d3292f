pub mod actions;
pub mod components;
pub mod core_constants;
pub mod forward_model;
pub mod game_parameters;
pub mod game_state;
pub mod game_type;
pub mod glu;
pub mod ids;
pub mod interfaces;
pub mod player;
pub mod random;
