pub mod ast;
pub mod backend;
pub mod building;
pub mod codegen;
pub mod error;
pub mod facade;
pub mod family;
pub mod fitting;
pub mod host;
pub mod messages;
pub mod number;
pub mod ordered;
pub mod plan;
pub mod precedence;
pub mod session;
pub mod text;
pub mod value;
