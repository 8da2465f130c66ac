use vstd::prelude::*;

verus! {

#[verifier::external_type_specification]
#[verifier::external_body]
pub struct ExIoError(std::io::Error);

/// Why locating a repository failed: an I/O failure met while probing the
/// filesystem, "not found" included.
#[derive(Debug)]
pub enum GitError {
    IoError(std::io::Error),
}

impl From<std::io::Error> for GitError {
    fn from(err: std::io::Error) -> (r: GitError)
        ensures
            r == GitError::IoError(err),
    {
        GitError::IoError(err)
    }
}

impl vstd::std_specs::convert::FromSpecImpl<std::io::Error> for GitError {
    open spec fn obeys_from_spec() -> bool {
        true
    }

    open spec fn from_spec(v: std::io::Error) -> GitError {
        GitError::IoError(v)
    }
}

/// Relies on `std::io::Error::new`: an error of kind `NotFound` that carries
/// the given message.
#[verifier::external_body]
pub(crate) fn not_found(msg: &str) -> (r: std::io::Error) {
    std::io::Error::new(std::io::ErrorKind::NotFound, msg)
}

/// A handle on the working directory of a repository.
#[derive(Clone, Debug)]
pub struct Repo {
    workdir: String,
}

/// What a handle holds: the path of its working directory.
pub struct RepoView {
    pub workdir: Seq<char>,
}

impl View for Repo {
    type V = RepoView;

    closed spec fn view(&self) -> RepoView {
        RepoView { workdir: self.workdir@ }
    }
}

impl Repo {
    /// The handle that `at` makes from path `p`.
    pub open spec fn spec_at(p: Seq<char>) -> RepoView {
        RepoView { workdir: p }
    }

    /// A handle on `path`, taken as it is: nothing is checked.
    pub fn at(path: &str) -> (r: Repo)
        ensures
            r@ == Repo::spec_at(path@),
    {
        Repo { workdir: path.to_string() }
    }

    /// The handle's working directory.
    pub fn workdir(&self) -> (r: &str)
        ensures
            r@ == self@.workdir,
    {
        self.workdir.as_str()
    }

    /// A handle on a path held already as an owned string.
    pub(crate) fn from_string(workdir: String) -> (r: Repo)
        ensures
            r@.workdir == workdir@,
    {
        Repo { workdir }
    }
}

/// The working directory of a handle made by `at` is the path it was given,
/// exactly.
pub proof fn at_keeps_path(p: Seq<char>)
    ensures
        Repo::spec_at(p).workdir == p,
{
}

} // verus!
