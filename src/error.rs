use vstd::prelude::*;

verus! {

/// `std::io::Error`, carried through unread: the failure of a filesystem
/// operation or of launching a script.
#[verifier::external_type_specification]
#[verifier::external_body]
pub struct ExIoError(std::io::Error);

/// `toml::de::Error`, carried through unread: why a configuration could not
/// be decoded.
#[verifier::external_type_specification]
#[verifier::external_body]
pub struct ExTomlError(toml::de::Error);

/// What can go wrong with a module. Each variant but `Directory` names the
/// module it concerns first.
pub enum ModuleError {
    /// A declared resource is missing or its owner may not read it.
    Resource(String, String),
    /// The init or cleanup script is missing or not readable and executable.
    Script(String, String),
    /// The init or cleanup script ran and exited unsuccessfully.
    Exec(String, String),
    /// A target path is already taken.
    Install(String, String),
    /// An ancestor of a target path exists and is not a directory.
    InstallPath(String, String),
    /// A target is not a link to this module's resource.
    Uninstall(String, String),
    /// The configuration could not be decoded.
    Parse(String, toml::de::Error),
    /// Any other input or output failure.
    IO(String, std::io::Error),
    /// The modules directory could not be read.
    Directory,
}

/// A `ModuleError` with its text fields as sequences.
pub enum Fault {
    Resource(Seq<char>, Seq<char>),
    Script(Seq<char>, Seq<char>),
    Exec(Seq<char>, Seq<char>),
    Install(Seq<char>, Seq<char>),
    InstallPath(Seq<char>, Seq<char>),
    Uninstall(Seq<char>, Seq<char>),
    Parse(Seq<char>, toml::de::Error),
    IO(Seq<char>, std::io::Error),
    Directory,
}

impl View for ModuleError {
    type V = Fault;

    open spec fn view(&self) -> Fault {
        match self {
            ModuleError::Resource(m, d) => Fault::Resource(m@, d@),
            ModuleError::Script(m, d) => Fault::Script(m@, d@),
            ModuleError::Exec(m, d) => Fault::Exec(m@, d@),
            ModuleError::Install(m, d) => Fault::Install(m@, d@),
            ModuleError::InstallPath(m, d) => Fault::InstallPath(m@, d@),
            ModuleError::Uninstall(m, d) => Fault::Uninstall(m@, d@),
            ModuleError::Parse(m, e) => Fault::Parse(m@, *e),
            ModuleError::IO(m, e) => Fault::IO(m@, *e),
            ModuleError::Directory => Fault::Directory,
        }
    }
}

/// The view of an outcome that carries a `ModuleError`.
pub open spec fn outcome_view<T, V>(r: Result<T, ModuleError>, f: spec_fn(T) -> V) -> Result<V, Fault> {
    match r {
        Ok(t) => Ok(f(t)),
        Err(e) => Err(e@),
    }
}

} // verus!
