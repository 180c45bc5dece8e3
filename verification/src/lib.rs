pub mod diff;
pub mod digest;
pub mod hexadecimal;
pub mod identifier;
pub mod ir;
pub mod lines;
pub mod model;
pub mod order;
pub mod plan;
pub mod text;
pub mod timestamp;
