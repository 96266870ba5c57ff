pub mod api_keys;
pub mod applications;
pub mod assignments;
pub mod delivery;
pub mod endpoints;
pub mod environments;
pub mod event_types;
pub mod events;
