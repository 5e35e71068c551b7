//! The generator: from a registry to the text of every Dart source file.

use vstd::prelude::*;
use vstd::string::StringExecFns;
use crate::casing::{camel_case, to_camel_case};
use crate::config::{definitions_under, CodeGeneratorConfig, ConfigView, Encoding};
use crate::emitter::{DartEmitter, EmitterView};
use crate::format::{registry_view, ContainerFormat, ContainerView, EntryView, Registry};
use crate::helpers::{helper_table, HelperTable};
use crate::indent::{IndentConfig, IndentedWriter, Page};
use crate::schema::{check_registry, registry_is_resolved, schema_error, SchemaError};
use crate::text::{clone_strings, split, split_text, string_views};
use crate::walk::registry_resolved;

verus! {

/// The generator of a Dart package under one configuration.
pub struct CodeGenerator<'a> {
    /// What the caller chose for the run.
    config: &'a CodeGeneratorConfig,
}

impl<'a> View for CodeGenerator<'a> {
    type V = ConfigView;

    closed spec fn view(&self) -> ConfigView {
        self.config@
    }
}

impl<'a> CodeGenerator<'a> {
    /// A Dart code generator for the given configuration.
    pub fn new(config: &'a CodeGeneratorConfig) -> (r: Self)
        ensures
            r@ == config@,
    {
        CodeGenerator { config }
    }

    /// The configuration that the generator was made for.
    pub fn config(&self) -> (r: &'a CodeGeneratorConfig)
        ensures
            r@ == self@,
    {
        self.config
    }
}

/// What is emitted once for each active encoding, outside the classes.
#[derive(Clone, Copy, Debug, PartialEq, Eq, Structural)]
pub enum EncodingLine {
    /// In the library: the import of the encoding's runtime.
    LibraryImport,
    /// In the test suite: the import of the encoding's runtime.
    TestImport,
    /// In the test suite: the part that holds the encoding's tests.
    TestPart,
    /// In the test suite: the group that runs the encoding's tests.
    TestGroup,
}

impl Page {
    /// The page after the manifest of the Dart package named `module_name`.
    pub open spec fn package_manifest(self, module_name: Seq<char>) -> Page {
        self.put("name: "@).put(module_name).put(
            "\n            \nenvironment:\n  sdk: '>=2.10.0 <3.0.0'\n              \ndependencies:\n  optional: '5.0.0'\n  tuple: '1.0.3'  \n  json_serializable: '3.4.1'\n  hex: ^0.1.2\ndev_dependencies:\n  mockito: '>=4.0.0 <5.0.0'\n  test: '>=0.12.0 <2.0.0'\n  pedantic: '^1.0.0'\n  test_coverage: '^0.4.0'\n            \n"@,
        )
    }

    /// The page after the group that runs the tests of the encoding whose
    /// classes have the given prefix.
    pub open spec fn test_group(self, prefix: Seq<char>) -> Page {
        self.put("\tgroup('"@).put(prefix).put("', run"@).put(prefix).put("Tests);\n"@)
    }

    /// The page after the line of one kind for one encoding.
    pub open spec fn encoding_line(self, module_name: Seq<char>, encoding: Encoding, kind: EncodingLine)
        -> Page {
        let short = encoding.spec_name();
        match kind {
            EncodingLine::LibraryImport => self.put("import '../"@).put(short).put("/"@).put(
                short,
            ).put(".dart';\n"@),
            EncodingLine::TestImport => self.put("import 'package:"@).put(module_name).put(
                "/"@,
            ).put(short).put("/"@).put(short).put(".dart';\n"@),
            EncodingLine::TestPart => self.put("part 'src/"@).put(short).put("_test.dart';\n"@),
            EncodingLine::TestGroup => self.test_group(camel_case(short)),
        }
    }

    /// The page after the lines of one kind for the first `n` encodings.
    pub open spec fn encoding_lines(
        self,
        module_name: Seq<char>,
        encodings: Seq<Encoding>,
        n: nat,
        kind: EncodingLine,
    ) -> Page
        decreases n,
    {
        if n == 0 {
            self
        } else {
            self.encoding_lines(module_name, encodings, (n - 1) as nat, kind).encoding_line(
                module_name,
                encodings[n - 1],
                kind,
            )
        }
    }

    /// The page after the test suite of the package: its imports, its parts
    /// and the groups that it runs, with one of each for every active encoding.
    pub open spec fn test_suite(self, config: ConfigView) -> Page {
        let m = config.module_name;
        let e = config.encodings;
        self.put(
            "library bcs_test;\n\nimport 'package:test/test.dart';\nimport 'dart:typed_data';\nimport 'dart:convert';\nimport 'package:"@,
        ).put(m).put("/"@).put(m).put("/"@).put(m).put(".dart';\nimport 'package:"@).put(m).put(
            "/serde/serde.dart';\n"@,
        ).encoding_lines(m, e, e.len(), EncodingLine::TestImport).put(
            "part 'src/serde_test.dart';\npart 'src/dijets_test.dart';\n"@,
        ).encoding_lines(m, e, e.len(), EncodingLine::TestPart).put(
            "void main() {\n  group('Serde', runSerdeTests);\n  group('dijets', runDijetsTests);\n"@,
        ).encoding_lines(m, e, e.len(), EncodingLine::TestGroup).put("}\n"@)
    }

    /// The page after the imports of the first `n` of the given files.
    pub open spec fn file_imports(self, files: Seq<Seq<char>>, n: nat) -> Page
        decreases n,
    {
        if n == 0 {
            self
        } else {
            self.file_imports(files, (n - 1) as nat).put("import '"@).put(files[n - 1]).put(
                "';\n"@,
            )
        }
    }

    /// The page after the parts of the first `n` containers of the registry.
    pub open spec fn container_parts(self, registry: Seq<EntryView>, n: nat) -> Page
        decreases n,
    {
        if n == 0 {
            self
        } else {
            self.container_parts(registry, (n - 1) as nat).put("part '"@).put(
                registry[n - 1].name,
            ).put(".dart';\n"@)
        }
    }

    /// The page after the library that ties the generated files together: its
    /// imports, among them the runtime of every active encoding and every
    /// file declared under the namespace `import`, and its parts, which are
    /// the helpers and one file for each container.
    pub open spec fn library(self, config: ConfigView, registry: Seq<EntryView>) -> Page {
        let m = config.module_name;
        let e = config.encodings;
        let imported = self.put("library "@).put(m).put(
            "_types;\n\nimport 'dart:typed_data';\nimport 'package:optional/optional.dart';\nimport 'package:tuple/tuple.dart';\nimport 'package:hex/hex.dart';\nimport '../serde/serde.dart';\n"@,
        ).encoding_lines(m, e, e.len(), EncodingLine::LibraryImport);
        let extended = match definitions_under(config.external_definitions, "import"@) {
            Some(files) => imported.file_imports(files, files.len()),
            None => imported,
        };
        extended.put("\npart 'TraitHelpers.dart';\n"@).container_parts(registry, registry.len())
    }
}

/// The text of the file that holds the class, or the classes, of one container.
pub open spec fn container_class_text(
    config: ConfigView,
    namespace: Seq<Seq<char>>,
    name: Seq<char>,
    format: ContainerView,
) -> Seq<char> {
    EmitterView::start(config, namespace).preamble().container(name, format).page.text
}

/// The text of the file that holds the helpers of a registry.
pub open spec fn helper_class_text(
    config: ConfigView,
    namespace: Seq<Seq<char>>,
    registry: Seq<EntryView>,
) -> Seq<char> {
    EmitterView::start(config, namespace).preamble().trait_helpers(helper_table(registry)).page.text
}

/// Writes the lines of one kind for every encoding of the list.
fn write_encoding_lines(
    out: &mut IndentedWriter,
    module_name: &str,
    encodings: &Vec<Encoding>,
    kind: EncodingLine,
)
    ensures
        final(out)@ == old(out)@.encoding_lines(module_name@, encodings@, encodings@.len(), kind),
{
    let mut i: usize = 0;
    while i < encodings.len()
        invariant
            i <= encodings.len(),
            out@ == old(out)@.encoding_lines(module_name@, encodings@, i as nat, kind),
        decreases encodings.len() - i,
    {
        let short = encodings[i].name();
        match kind {
            EncodingLine::LibraryImport => {
                out.write_str("import '../");
                out.write_str(short);
                out.write_str("/");
                out.write_str(short);
                out.write_str(".dart';\n");
            },
            EncodingLine::TestImport => {
                out.write_str("import 'package:");
                out.write_str(module_name);
                out.write_str("/");
                out.write_str(short);
                out.write_str("/");
                out.write_str(short);
                out.write_str(".dart';\n");
            },
            EncodingLine::TestPart => {
                out.write_str("part 'src/");
                out.write_str(short);
                out.write_str("_test.dart';\n");
            },
            EncodingLine::TestGroup => {
                let prefix = to_camel_case(short);
                write_test_group(out, prefix.as_str());
            },
        }
        i += 1;
    }
}

/// Writes the group that runs the tests of the encoding whose classes have
/// the given prefix.
pub fn write_test_group(out: &mut IndentedWriter, prefix: &str)
    ensures
        final(out)@ == old(out)@.test_group(prefix@),
{
    out.write_str("\tgroup('");
    out.write_str(prefix);
    out.write_str("', run");
    out.write_str(prefix);
    out.write_str("Tests);\n");
}

impl<'a> CodeGenerator<'a> {
    /// The manifest of the Dart package.
    pub fn write_package(&self) -> (r: String)
        ensures
            r@ == Page::blank(IndentConfig::Space(2)).package_manifest(self@.module_name).text,
    {
        let mut out = IndentedWriter::new(IndentConfig::Space(2));
        out.write_str("name: ");
        out.write_str(self.config.module_name());
        out.write_str(
            "\n            \nenvironment:\n  sdk: '>=2.10.0 <3.0.0'\n              \ndependencies:\n  optional: '5.0.0'\n  tuple: '1.0.3'  \n  json_serializable: '3.4.1'\n  hex: ^0.1.2\ndev_dependencies:\n  mockito: '>=4.0.0 <5.0.0'\n  test: '>=0.12.0 <2.0.0'\n  pedantic: '^1.0.0'\n  test_coverage: '^0.4.0'\n            \n",
        );
        out.into_string()
    }

    /// The test suite of the Dart package.
    pub fn output_test(&self) -> (r: String)
        ensures
            r@ == Page::blank(IndentConfig::Space(2)).test_suite(self@).text,
    {
        let m = self.config.module_name();
        let encodings = self.config.encodings();
        let mut out = IndentedWriter::new(IndentConfig::Space(2));
        out.write_str(
            "library bcs_test;\n\nimport 'package:test/test.dart';\nimport 'dart:typed_data';\nimport 'dart:convert';\nimport 'package:",
        );
        out.write_str(m);
        out.write_str("/");
        out.write_str(m);
        out.write_str("/");
        out.write_str(m);
        out.write_str(".dart';\nimport 'package:");
        out.write_str(m);
        out.write_str("/serde/serde.dart';\n");
        write_encoding_lines(&mut out, m, &encodings, EncodingLine::TestImport);
        out.write_str("part 'src/serde_test.dart';\npart 'src/dijets_test.dart';\n");
        write_encoding_lines(&mut out, m, &encodings, EncodingLine::TestPart);
        out.write_str(
            "void main() {\n  group('Serde', runSerdeTests);\n  group('dijets', runDijetsTests);\n",
        );
        write_encoding_lines(&mut out, m, &encodings, EncodingLine::TestGroup);
        out.write_str("}\n");
        out.into_string()
    }

    /// The library that ties the generated files together.
    pub fn write_library(&self, registry: &Registry) -> (r: String)
        ensures
            r@ == Page::blank(IndentConfig::Space(2)).library(
                self@,
                registry_view(registry@),
            ).text,
    {
        let m = self.config.module_name();
        let encodings = self.config.encodings();
        let mut out = IndentedWriter::new(IndentConfig::Space(2));
        out.write_str("library ");
        out.write_str(m);
        out.write_str(
            "_types;\n\nimport 'dart:typed_data';\nimport 'package:optional/optional.dart';\nimport 'package:tuple/tuple.dart';\nimport 'package:hex/hex.dart';\nimport '../serde/serde.dart';\n",
        );
        write_encoding_lines(&mut out, m, &encodings, EncodingLine::LibraryImport);
        match self.config.definitions_under("import") {
            Some(files) => {
                let ghost imported = out@;
                let mut i: usize = 0;
                while i < files.len()
                    invariant
                        i <= files.len(),
                        out@ == imported.file_imports(string_views(files@), i as nat),
                    decreases files.len() - i,
                {
                    out.write_str("import '");
                    out.write_str(files[i].as_str());
                    out.write_str("';\n");
                    i += 1;
                }
            },
            None => {},
        }
        out.write_str("\npart 'TraitHelpers.dart';\n");
        let ghost headed = out@;
        let mut i: usize = 0;
        while i < registry.len()
            invariant
                i <= registry.len(),
                out@ == headed.container_parts(registry_view(registry@), i as nat),
            decreases registry.len() - i,
        {
            out.write_str("part '");
            out.write_str(registry[i].0.as_str());
            out.write_str(".dart';\n");
            i += 1;
        }
        out.into_string()
    }

    /// The file that holds the class, or the classes, of the container
    /// `name`; or the error for a container in which a placeholder occurs.
    pub fn write_container_class(
        &self,
        current_namespace: Vec<String>,
        name: &str,
        format: &ContainerFormat,
    ) -> (r: Result<String, SchemaError>)
        ensures
            match r {
                Ok(text) => format@.is_resolved() && text@ == container_class_text(
                    self@,
                    string_views(current_namespace@),
                    name@,
                    format@,
                ),
                Err(e) => !format@.is_resolved() && e == SchemaError::UnresolvedFormat,
            },
    {
        if !format.is_resolved() {
            return Err(SchemaError::UnresolvedFormat);
        }
        Ok(self.container_class(current_namespace, name, format))
    }

    /// The file that holds the class, or the classes, of a container without
    /// placeholders.
    fn container_class(
        &self,
        current_namespace: Vec<String>,
        name: &str,
        format: &ContainerFormat,
    ) -> (r: String)
        requires
            format@.is_resolved(),
        ensures
            r@ == container_class_text(self@, string_views(current_namespace@), name@, format@),
    {
        let mut emitter = DartEmitter::new(self, current_namespace);
        emitter.output_preamble();
        emitter.output_container(name, format);
        emitter.into_text()
    }

    /// The file that holds the helpers of the registry; or the error for a
    /// registry in which a placeholder occurs.
    pub fn write_helper_class(
        &self,
        current_namespace: Vec<String>,
        registry: &Registry,
    ) -> (r: Result<String, SchemaError>)
        ensures
            match r {
                Ok(text) => registry_resolved(registry_view(registry@)) && text@
                    == helper_class_text(
                    self@,
                    string_views(current_namespace@),
                    registry_view(registry@),
                ),
                Err(e) => !registry_resolved(registry_view(registry@)) && e
                    == SchemaError::UnresolvedFormat,
            },
    {
        if !registry_is_resolved(registry) {
            return Err(SchemaError::UnresolvedFormat);
        }
        let table = HelperTable::build(registry);
        Ok(self.helper_class(current_namespace, &table))
    }

    /// The file that holds the helpers of a table.
    fn helper_class(&self, current_namespace: Vec<String>, table: &HelperTable) -> (r: String)
        requires
            table.wf(),
        ensures
            r@ == EmitterView::start(self@, string_views(current_namespace@)).preamble().trait_helpers(
                table@,
            ).page.text,
    {
        let mut emitter = DartEmitter::new(self, current_namespace);
        emitter.output_preamble();
        emitter.output_helpers(table);
        emitter.into_text()
    }

}

/// One generated file: where it belongs, relative to the directory of the
/// package, and what it holds.
#[derive(Debug, PartialEq, Eq)]
pub struct SourceFile {
    /// The directories that lead to the file, outermost first, and its name.
    pub path: Vec<String>,
    /// The text of the file.
    pub contents: String,
}

/// The mathematical value of a [`SourceFile`].
pub struct SourceFileView {
    pub path: Seq<Seq<char>>,
    pub contents: Seq<char>,
}

impl View for SourceFile {
    type V = SourceFileView;

    open spec fn view(&self) -> SourceFileView {
        SourceFileView { path: string_views(self.path@), contents: self.contents@ }
    }
}

impl Clone for SourceFile {
    fn clone(&self) -> (r: Self)
        ensures
            r@ == self@,
    {
        SourceFile { path: clone_strings(&self.path), contents: self.contents.clone() }
    }
}

/// The views of a list of files, in order.
pub open spec fn source_file_views(files: Seq<SourceFile>) -> Seq<SourceFileView> {
    Seq::new(files.len(), |i: int| files[i]@)
}

/// The namespace of the generated classes: the parts of the library's name
/// between its dots.
pub open spec fn namespace_of(config: ConfigView) -> Seq<Seq<char>> {
    split(config.module_name, '.')
}

/// The directory of the library within the package: `lib`, then one
/// directory for each part of the namespace.
pub open spec fn library_dir(config: ConfigView) -> Seq<Seq<char>> {
    seq!["lib"@] + namespace_of(config)
}

/// The manifest of the package, at the top of the package.
pub open spec fn manifest_file(config: ConfigView) -> SourceFileView {
    SourceFileView {
        path: seq!["pubspec.yaml"@],
        contents: Page::blank(IndentConfig::Space(2)).package_manifest(config.module_name).text,
    }
}

/// The file of one container, named after it.
pub open spec fn container_file(config: ConfigView, entry: EntryView) -> SourceFileView {
    SourceFileView {
        path: library_dir(config).push(entry.name + ".dart"@),
        contents: container_class_text(config, namespace_of(config), entry.name, entry.format),
    }
}

/// The files of the containers of the registry, in order.
pub open spec fn container_files(config: ConfigView, registry: Seq<EntryView>) -> Seq<
    SourceFileView,
> {
    Seq::new(registry.len(), |i: int| container_file(config, registry[i]))
}

/// The file of the helpers.
pub open spec fn helper_file(config: ConfigView, registry: Seq<EntryView>) -> SourceFileView {
    SourceFileView {
        path: library_dir(config).push("TraitHelpers.dart"@),
        contents: helper_class_text(config, namespace_of(config), registry),
    }
}

/// The file of the library, named after it.
pub open spec fn library_file(config: ConfigView, registry: Seq<EntryView>) -> SourceFileView {
    SourceFileView {
        path: library_dir(config).push(config.module_name + ".dart"@),
        contents: Page::blank(IndentConfig::Space(2)).library(config, registry).text,
    }
}

/// Every file that is generated for a registry: the manifest, one file for
/// each container in the order of the registry, the helpers and the library.
pub open spec fn output_files(config: ConfigView, registry: Seq<EntryView>) -> Seq<
    SourceFileView,
> {
    seq![manifest_file(config)] + container_files(config, registry) + seq![
        helper_file(config, registry),
        library_file(config, registry),
    ]
}

impl<'a> CodeGenerator<'a> {
    /// The namespace of the generated classes.
    pub fn namespace(&self) -> (r: Vec<String>)
        ensures
            string_views(r@) == namespace_of(self@),
    {
        split_text(self.config.module_name(), '.')
    }

    /// The directory of the library within the package.
    pub fn library_dir(&self) -> (r: Vec<String>)
        ensures
            string_views(r@) == library_dir(self@),
    {
        let namespace = self.namespace();
        let mut dir: Vec<String> = Vec::new();
        dir.push(String::from_str("lib"));
        let mut i: usize = 0;
        assert(string_views(dir@) =~= seq!["lib"@] + string_views(namespace@).take(0));
        while i < namespace.len()
            invariant
                i <= namespace.len(),
                string_views(dir@) == seq!["lib"@] + string_views(namespace@).take(i as int),
            decreases namespace.len() - i,
        {
            let ghost before = string_views(dir@);
            dir.push(namespace[i].clone());
            assert(string_views(dir@) =~= before.push(namespace@[i as int]@));
            i += 1;
            assert(string_views(dir@) =~= seq!["lib"@] + string_views(namespace@).take(i as int));
        }
        assert(string_views(namespace@).take(i as int) =~= string_views(namespace@));
        dir
    }

    /// The file `name` in the directory `dir`.
    fn file_in(dir: &Vec<String>, name: String, contents: String) -> (r: SourceFile)
        ensures
            r@ == (SourceFileView { path: string_views(dir@).push(name@), contents: contents@ }),
    {
        let mut path = clone_strings(dir);
        let ghost before = string_views(path@);
        path.push(name);
        assert(string_views(path@) =~= before.push(name@));
        SourceFile { path, contents }
    }

    /// The manifest of the package, as a file.
    fn manifest_source_file(&self) -> (r: SourceFile)
        ensures
            r@ == manifest_file(self@),
    {
        let mut top: Vec<String> = Vec::new();
        top.push(String::from_str("pubspec.yaml"));
        assert(string_views(top@) =~= seq!["pubspec.yaml"@]);
        SourceFile { path: top, contents: self.write_package() }
    }

    /// The file of the container at index `i` of the registry.
    fn container_source_file(
        &self,
        namespace: &Vec<String>,
        dir: &Vec<String>,
        registry: &Registry,
        i: usize,
    ) -> (r: SourceFile)
        requires
            i < registry.len(),
            registry_view(registry@)[i as int].format.is_resolved(),
            string_views(namespace@) == namespace_of(self@),
            string_views(dir@) == library_dir(self@),
        ensures
            r@ == container_file(self@, registry_view(registry@)[i as int]),
    {
        let mut name = registry[i].0.clone();
        name.append(".dart");
        let text = self.container_class(
            clone_strings(namespace),
            registry[i].0.as_str(),
            &registry[i].1,
        );
        Self::file_in(dir, name, text)
    }

    /// The file of the helpers of a registry, from the table of its helpers.
    fn helper_source_file(
        &self,
        namespace: &Vec<String>,
        dir: &Vec<String>,
        table: &HelperTable,
        Ghost(registry): Ghost<Seq<EntryView>>,
    ) -> (r: SourceFile)
        requires
            table.wf(),
            table@ == helper_table(registry),
            string_views(namespace@) == namespace_of(self@),
            string_views(dir@) == library_dir(self@),
        ensures
            r@ == helper_file(self@, registry),
    {
        let helpers = self.helper_class(clone_strings(namespace), table);
        Self::file_in(dir, String::from_str("TraitHelpers.dart"), helpers)
    }

    /// The file of the library.
    fn library_source_file(&self, dir: &Vec<String>, registry: &Registry)
        -> (r: SourceFile)
        requires
            string_views(dir@) == library_dir(self@),
        ensures
            r@ == library_file(self@, registry_view(registry@)),
    {
        let mut library_name = String::from_str(self.config.module_name());
        library_name.append(".dart");
        Self::file_in(dir, library_name, self.write_library(registry))
    }

    /// Every file that is generated for a registry without placeholders. The
    /// table of the helpers is built before anything is emitted.
    fn source_files(&self, registry: &Registry) -> (files: Vec<SourceFile>)
        requires
            registry_resolved(registry_view(registry@)),
        ensures
            source_file_views(files@) == output_files(self@, registry_view(registry@)),
    {
        let ghost entries = registry_view(registry@);
        let ghost config = self@;
        let table = HelperTable::build(registry);
        let namespace = self.namespace();
        let dir = self.library_dir();
        let mut files: Vec<SourceFile> = Vec::new();
        files.push(self.manifest_source_file());
        assert(source_file_views(files@) =~= seq![manifest_file(config)] + container_files(
            config,
            entries,
        ).take(0));
        let mut i: usize = 0;
        while i < registry.len()
            invariant
                i <= registry.len(),
                entries == registry_view(registry@),
                config == self@,
                registry_resolved(entries),
                string_views(namespace@) == namespace_of(config),
                string_views(dir@) == library_dir(config),
                source_file_views(files@) == seq![manifest_file(config)] + container_files(
                    config,
                    entries,
                ).take(i as int),
            decreases registry.len() - i,
        {
            let ghost before = source_file_views(files@);
            assert(entries[i as int].format.is_resolved());
            let file = self.container_source_file(&namespace, &dir, registry, i);
            files.push(file);
            assert(source_file_views(files@) =~= before.push(
                container_file(config, entries[i as int]),
            ));
            i += 1;
            assert(source_file_views(files@) =~= seq![manifest_file(config)] + container_files(
                config,
                entries,
            ).take(i as int));
        }
        assert(container_files(config, entries).take(i as int) =~= container_files(config, entries));
        let ghost before = source_file_views(files@);
        let helpers = self.helper_source_file(&namespace, &dir, &table, Ghost(entries));
        files.push(helpers);
        let library = self.library_source_file(&dir, registry);
        files.push(library);
        assert(source_file_views(files@) =~= before.push(helper_file(config, entries)).push(
            library_file(config, entries),
        ));
        files
    }

    /// Every file that is generated for the registry, or what makes the
    /// registry unfit for generation. Nothing is generated for a registry
    /// that is unfit.
    pub fn output(&self, registry: &Registry) -> (r: Result<
        Vec<SourceFile>,
        SchemaError,
    >)
        ensures
            match r {
                Ok(files) => {
                    &&& schema_error(registry_view(registry@), self@.external_definitions) is None
                    &&& source_file_views(files@) == output_files(self@, registry_view(registry@))
                },
                Err(e) => schema_error(registry_view(registry@), self@.external_definitions)
                    == Some(e),
            },
    {
        match check_registry(registry, self.config) {
            Err(e) => Err(e),
            Ok(_) => Ok(self.source_files(registry)),
        }
    }
}

} // verus!
