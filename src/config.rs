use vstd::prelude::*;

verus! {

#[verifier::external_type_specification]
#[verifier::external_body]
pub struct ExPathBuf(std::path::PathBuf);

/// The program's configuration: where the activity files and the store are.
#[derive(Debug)]
pub struct Config {
    data: std::path::PathBuf,
}

impl Config {
    pub fn new(data: std::path::PathBuf) -> (r: Config)
        ensures
            r.data() == data,
    {
        Config { data }
    }

    pub closed spec fn data(&self) -> std::path::PathBuf {
        self.data
    }

    pub fn get_data_path(&self) -> (r: &std::path::PathBuf)
        ensures
            *r == self.data(),
    {
        &self.data
    }
}

} // verus!
