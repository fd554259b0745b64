pub mod errors;
pub mod git_clone;
pub mod lua_types;
pub mod progress;
pub mod proto;
pub mod sub_path;
pub mod text;
pub mod upkg;
