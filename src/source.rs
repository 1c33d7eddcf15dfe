//! The module being built: the facts that analysis of its directory yields.

use vstd::prelude::*;
use crate::config::{CrateType, DeclaredType};
use crate::error::BuildErrorKind;
use crate::text::{replace_all, replaced};

verus! {

pub const DASH: &'static str = "-";

pub const UNDERSCORE: &'static str = "_";

pub const PATH_SEP: &'static str = "/";

/// `dir` joined with the relative component `name`.
pub open spec fn join_path(dir: Seq<char>, name: Seq<char>) -> Seq<char> {
    dir + PATH_SEP@ + name
}

/// `dir` joined with the relative component `name`.
pub fn join(dir: &str, name: &str) -> (r: String)
    ensures
        r@ == join_path(dir@, name@),
{
    let mut r = String::from_str(dir);
    r.append(PATH_SEP);
    r.append(name);
    r
}

/// The file-name prefix of a module's library outputs: its name with every
/// dash turned into an underscore.
pub open spec fn output_prefix_of(name: Seq<char>) -> Seq<char> {
    replaced(name, DASH@, UNDERSCORE@)
}

/// A source module: name, directory, declared kind, and where its outputs go.
#[derive(Debug)]
pub struct SourceCrate {
    name: String,
    path: String,
    declared: DeclaredType,
    output_file_prefix: String,
    output_path: String,
}

impl SourceCrate {
    pub closed spec fn spec_name(&self) -> Seq<char> {
        self.name@
    }

    pub closed spec fn spec_path(&self) -> Seq<char> {
        self.path@
    }

    pub closed spec fn spec_declared(&self) -> DeclaredType {
        self.declared
    }

    pub closed spec fn spec_output_file_prefix(&self) -> Seq<char> {
        self.output_file_prefix@
    }

    pub closed spec fn spec_output_path(&self) -> Seq<char> {
        self.output_path@
    }

    /// A module named `name` in directory `path`, whose outputs go under
    /// `out_dir`, in a directory named after its output-file prefix.
    pub fn new(name: &str, path: &str, declared: DeclaredType, out_dir: &str) -> (r: SourceCrate)
        ensures
            r.spec_name() == name@,
            r.spec_path() == path@,
            r.spec_declared() == declared,
            r.spec_output_file_prefix() == output_prefix_of(name@),
            r.spec_output_path() == join_path(out_dir@, output_prefix_of(name@)),
    {
        let prefix = replace_all(name, DASH, UNDERSCORE);
        let output_path = join(out_dir, prefix.as_str());
        SourceCrate {
            name: String::from_str(name),
            path: String::from_str(path),
            declared,
            output_file_prefix: prefix,
            output_path,
        }
    }

    pub fn get_name(&self) -> (r: &str)
        ensures
            r@ == self.spec_name(),
    {
        self.name.as_str()
    }

    pub fn get_path(&self) -> (r: &str)
        ensures
            r@ == self.spec_path(),
    {
        self.path.as_str()
    }

    pub fn get_output_file_prefix(&self) -> (r: &str)
        ensures
            r@ == self.spec_output_file_prefix(),
    {
        self.output_file_prefix.as_str()
    }

    pub fn get_output_path(&self) -> (r: &str)
        ensures
            r@ == self.spec_output_path(),
    {
        self.output_path.as_str()
    }

    /// The crate type to build: the override where one is given, else the
    /// declared kind; a mixed module without an override is an error.
    pub fn get_crate_type(&self, over: Option<CrateType>) -> (r: Result<CrateType, BuildErrorKind>)
        ensures
            r == resolve_crate_type(self.spec_declared(), over),
    {
        match over {
            Some(t) => Ok(t),
            None => match self.declared {
                DeclaredType::Library => Ok(CrateType::Library),
                DeclaredType::Binary => Ok(CrateType::Binary),
                DeclaredType::Mixed => Err(BuildErrorKind::MissingCrateType),
            },
        }
    }
}

/// The crate type that a build of a module of kind `declared` uses.
pub open spec fn resolve_crate_type(declared: DeclaredType, over: Option<CrateType>) -> Result<
    CrateType,
    BuildErrorKind,
> {
    match over {
        Some(t) => Ok(t),
        None => match declared {
            DeclaredType::Library => Ok(CrateType::Library),
            DeclaredType::Binary => Ok(CrateType::Binary),
            DeclaredType::Mixed => Err(BuildErrorKind::MissingCrateType),
        },
    }
}

} // verus!
