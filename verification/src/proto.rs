pub mod git_clone;
