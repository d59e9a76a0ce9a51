pub mod api;
pub mod audio;
pub mod flow;
pub mod injection;
pub mod keywords;
pub mod prompt;
pub mod text;
