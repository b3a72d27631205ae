pub mod convert;
pub mod error;
pub mod param;
pub mod params;
pub mod text;
