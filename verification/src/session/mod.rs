pub mod callback;
pub mod close;
pub mod dispatch;
pub mod leases;
pub mod lifetimes;
pub mod lookups;
pub mod output;
pub mod path;
pub mod probe;
pub mod resources;
pub mod retention;
pub mod rollback;
pub mod rules;
pub mod settle;
pub mod setup;
pub mod state;
pub mod steps;
pub mod supplies;
pub mod tracking;
pub mod types;
