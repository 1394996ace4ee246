pub mod clock;
pub mod constants;
pub mod snowflake;
pub mod text;
pub mod token;
