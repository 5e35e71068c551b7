//! The installer: what is put where in the directory of the Dart package.

use vstd::prelude::*;
use vstd::string::StringExecFns;
use std::path::PathBuf;
use crate::config::{CodeGeneratorConfig, ConfigView};
use crate::format::{registry_view, EntryView, Registry};
use crate::generator::{output_files, source_file_views, CodeGenerator, SourceFile, SourceFileView};
use crate::indent::{IndentConfig, Page};
use crate::schema::{schema_error, SchemaError};
use crate::text::string_views;

verus! {

/// `std::path::PathBuf`, an owned path of the file system. The library carries
/// such a value through and says nothing of what it holds.
#[verifier::external_type_specification]
#[verifier::external_body]
pub struct ExPathBuf(std::path::PathBuf);

/// A part of the runtime that generated code relies on.
#[derive(Clone, Copy, Debug, PartialEq, Eq, Structural)]
pub enum Runtime {
    /// The serializer and deserializer shared by the encodings.
    Serde,
    /// The Bincode encoding.
    Bincode,
    /// The BCS encoding.
    Bcs,
    /// The tests of the runtime.
    Test,
}

impl Runtime {
    /// The directory of the part within the package.
    pub open spec fn directory(self) -> Seq<Seq<char>> {
        match self {
            Runtime::Serde => seq!["lib"@, "serde"@],
            Runtime::Bincode => seq!["lib"@, "bincode"@],
            Runtime::Bcs => seq!["lib"@, "bcs"@],
            Runtime::Test => seq!["test"@, "src"@],
        }
    }
}

/// The test suite of the package, in the directory of the tests.
pub open spec fn test_file(config: ConfigView) -> SourceFileView {
    SourceFileView {
        path: seq!["test"@, "all_test.dart"@],
        contents: Page::blank(IndentConfig::Space(2)).test_suite(config).text,
    }
}

/// Every file of the generated module: the files generated for the registry
/// and the test suite.
pub open spec fn module_files(config: ConfigView, registry: Seq<EntryView>) -> Seq<
    SourceFileView,
> {
    output_files(config, registry).push(test_file(config))
}

/// The place of a generated Dart package in the file system.
pub struct Installer {
    install_dir: PathBuf,
}

impl Installer {
    /// The directory of the package.
    pub closed spec fn target(&self) -> PathBuf {
        self.install_dir
    }

    /// An installer into the given directory.
    pub fn new(install_dir: PathBuf) -> (r: Self)
        ensures
            r.target() == install_dir,
    {
        Installer { install_dir }
    }

    /// The directory of the package.
    pub fn install_dir(&self) -> (r: &PathBuf)
        ensures
            *r == self.target(),
    {
        &self.install_dir
    }

    /// The directory, within the package, of a part of the runtime.
    pub fn runtime_dir(&self, runtime: Runtime) -> (r: Vec<String>)
        ensures
            string_views(r@) == runtime.directory(),
    {
        let mut dir: Vec<String> = Vec::new();
        match runtime {
            Runtime::Serde => {
                dir.push(String::from_str("lib"));
                dir.push(String::from_str("serde"));
            },
            Runtime::Bincode => {
                dir.push(String::from_str("lib"));
                dir.push(String::from_str("bincode"));
            },
            Runtime::Bcs => {
                dir.push(String::from_str("lib"));
                dir.push(String::from_str("bcs"));
            },
            Runtime::Test => {
                dir.push(String::from_str("test"));
                dir.push(String::from_str("src"));
            },
        }
        assert(string_views(dir@) =~= runtime.directory());
        dir
    }

    /// Every file of the module generated for the registry under the given
    /// configuration, each with its place within the package; or what makes
    /// the registry unfit for generation.
    pub fn install_module(
        &self,
        config: &CodeGeneratorConfig,
        registry: &Registry,
    ) -> (r: Result<Vec<SourceFile>, SchemaError>)
        ensures
            match r {
                Ok(files) => {
                    &&& schema_error(registry_view(registry@), config@.external_definitions)
                        is None
                    &&& source_file_views(files@) == module_files(
                        config@,
                        registry_view(registry@),
                    )
                },
                Err(e) => schema_error(registry_view(registry@), config@.external_definitions)
                    == Some(e),
            },
    {
        let generator = CodeGenerator::new(config);
        match generator.output(registry) {
            Err(e) => Err(e),
            Ok(files) => {
                let mut files = files;
                let ghost before = source_file_views(files@);
                let mut path: Vec<String> = Vec::new();
                path.push(String::from_str("test"));
                path.push(String::from_str("all_test.dart"));
                assert(string_views(path@) =~= seq!["test"@, "all_test.dart"@]);
                files.push(SourceFile { path, contents: generator.output_test() });
                assert(source_file_views(files@) =~= before.push(test_file(config@)));
                Ok(files)
            },
        }
    }
}

} // verus!
