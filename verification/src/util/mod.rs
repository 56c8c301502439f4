pub mod json;
pub mod redact;
pub mod retry;
pub mod text;
pub mod time;
