use vstd::prelude::*;

use crate::error::{Erro, VersionError};
use crate::text::{
    chars_of, contains, contains_spec, rsplit_once, rsplit_once_spec, split_once, split_once_spec,
    string_of,
};

verus! {

/// The parts of a kernel version line, as plain text.
pub struct VersionParts {
    pub version: Seq<char>,
    pub compiled_by: Seq<char>,
    pub compiled_host: Seq<char>,
    pub compiler: Seq<char>,
}

/// A kernel version line is `VERSION (BY@HOST) (COMPILER) REST`: the text
/// up to the first ` (`, then up to the next `@`, then up to the next `) (`,
/// then up to the last `) `.
pub open spec fn parse_version(c: Seq<char>) -> Result<VersionParts, VersionError> {
    match split_once_spec(c, " ("@) {
        None => Err(VersionError::Version),
        Some((version, s1)) => match split_once_spec(s1, "@"@) {
            None => Err(VersionError::CompiledBy),
            Some((compiled_by, s2)) => match split_once_spec(s2, ") ("@) {
                None => Err(VersionError::CompilerHost),
                Some((compiled_host, s3)) => match rsplit_once_spec(s3, ") "@) {
                    None => Err(VersionError::Compiler),
                    Some((compiler, _)) => Ok(
                        VersionParts { version, compiled_by, compiled_host, compiler },
                    ),
                },
            },
        },
    }
}

/// Kernel version and compiler information.
#[derive(Debug, PartialEq, Eq)]
pub struct Version {
    pub version: String,
    pub compiled_by: String,
    pub compiled_host: String,
    pub compiler: String,
}

impl Version {
    pub open spec fn parts(&self) -> VersionParts {
        VersionParts {
            version: self.version@,
            compiled_by: self.compiled_by@,
            compiled_host: self.compiled_host@,
            compiler: self.compiler@,
        }
    }

    pub fn parse(content: &str) -> (r: Result<Version, Erro>)
        ensures
            match parse_version(content@) {
                Ok(p) => r matches Ok(v) && v.parts() == p,
                Err(e) => r == Err::<Version, Erro>(Erro::Version(e)),
            },
    {
        let c = chars_of(content);
        let open_paren = chars_of(" (");
        let at = chars_of("@");
        let between = chars_of(") (");
        let close = chars_of(") ");
        let (version, s1) = match split_once(c.as_slice(), open_paren.as_slice()) {
            Some(p) => p,
            None => return Err(Erro::Version(VersionError::Version)),
        };
        let (compiled_by, s2) = match split_once(s1.as_slice(), at.as_slice()) {
            Some(p) => p,
            None => return Err(Erro::Version(VersionError::CompiledBy)),
        };
        let (compiled_host, s3) = match split_once(s2.as_slice(), between.as_slice()) {
            Some(p) => p,
            None => return Err(Erro::Version(VersionError::CompilerHost)),
        };
        let (compiler, _) = match rsplit_once(s3.as_slice(), close.as_slice()) {
            Some(p) => p,
            None => return Err(Erro::Version(VersionError::Compiler)),
        };
        Ok(
            Version {
                version: string_of(version.as_slice()),
                compiled_by: string_of(compiled_by.as_slice()),
                compiled_host: string_of(compiled_host.as_slice()),
                compiler: string_of(compiler.as_slice()),
            },
        )
    }

    pub fn version(&self) -> (r: &str)
        ensures
            r@ == self.version@,
    {
        self.version.as_str()
    }

    /// Whether the version names a Linux kernel.
    pub fn is_linux(&self) -> (r: bool)
        ensures
            r == contains_spec(self.version@, "Linux"@),
    {
        let v = chars_of(self.version.as_str());
        let linux = chars_of("Linux");
        contains(v.as_slice(), linux.as_slice())
    }
}

} // verus!
