use vstd::prelude::*;

verus! {

#[verifier::external_type_specification]
#[verifier::external_body]
pub struct ExPathBuf(std::path::PathBuf);

/// Relies on `PathBuf::from` for `&str`: wraps the text as a path.
#[verifier::external_body]
fn path_from(s: &str) -> std::path::PathBuf {
    std::path::PathBuf::from(s)
}

/// The directory where the application keeps its data: the working directory.
pub fn get_data_dir() -> std::path::PathBuf {
    path_from(".")
}

} // verus!
