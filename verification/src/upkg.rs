pub mod download_deps;
pub mod verify_deps;
pub mod extract_deps;
