//! What a caller chooses for one generation run.

use vstd::prelude::*;
use vstd::string::StringExecFns;
use crate::text::string_views;

verus! {

/// A binary wire encoding for which convenience operations are emitted.
#[derive(Clone, Copy, Debug, PartialEq, Eq, Structural, Hash)]
pub enum Encoding {
    Bincode,
    Bcs,
}

impl Encoding {
    /// The lower-case name of the encoding, as it appears in file and method names.
    pub open spec fn spec_name(self) -> Seq<char> {
        match self {
            Encoding::Bincode => "bincode"@,
            Encoding::Bcs => "bcs"@,
        }
    }

    /// The lower-case name of the encoding.
    pub fn name(self) -> (r: &'static str)
        ensures
            r@ == self.spec_name(),
    {
        match self {
            Encoding::Bincode => "bincode",
            Encoding::Bcs => "bcs",
        }
    }
}

/// The set of the encodings that occur in `chosen`, as a list without
/// repetition in which `Bincode` comes before `Bcs`.
pub open spec fn encoding_set(chosen: Seq<Encoding>) -> Seq<Encoding> {
    (if chosen.contains(Encoding::Bincode) {
        seq![Encoding::Bincode]
    } else {
        Seq::empty()
    }) + (if chosen.contains(Encoding::Bcs) {
        seq![Encoding::Bcs]
    } else {
        Seq::empty()
    })
}

/// The names declared under one namespace of the external definitions.
pub struct DefinitionsView {
    pub namespace: Seq<char>,
    pub names: Seq<Seq<char>>,
}

/// The views of the external definitions, in order.
pub open spec fn definition_views(definitions: Seq<(String, Vec<String>)>) -> Seq<
    DefinitionsView,
> {
    Seq::new(
        definitions.len(),
        |i: int|
            DefinitionsView {
                namespace: definitions[i].0@,
                names: string_views(definitions[i].1@),
            },
    )
}

/// The names declared under the first entry for `namespace`, if there is one.
pub open spec fn definitions_under(definitions: Seq<DefinitionsView>, namespace: Seq<char>)
    -> Option<Seq<Seq<char>>>
    decreases definitions.len(),
{
    if definitions.len() == 0 {
        None
    } else if definitions[0].namespace == namespace {
        Some(definitions[0].names)
    } else {
        definitions_under(definitions.drop_first(), namespace)
    }
}

/// Whether the entry declares types. The entry of the namespace `import`
/// does not: it lists the files that the library imports.
pub open spec fn declares_types(definitions: DefinitionsView) -> bool {
    definitions.namespace != "import"@
}

/// The namespace under which `name` is declared externally, if it is declared
/// at all: the last namespace of the definitions that declares it.
pub open spec fn qualifier(definitions: Seq<DefinitionsView>, name: Seq<char>) -> Option<
    Seq<char>,
>
    decreases definitions.len(),
{
    if definitions.len() == 0 {
        None
    } else if declares_types(definitions.last()) && definitions.last().names.contains(name) {
        Some(definitions.last().namespace)
    } else {
        qualifier(definitions.drop_last(), name)
    }
}

/// The name by which generated code refers to the container `name`: a
/// container that is declared externally is qualified by its namespace, one
/// of the registry stands for itself.
pub open spec fn qualified_name(definitions: Seq<DefinitionsView>, name: Seq<char>) -> Seq<char> {
    match qualifier(definitions, name) {
        Some(namespace) => namespace + "."@ + name,
        None => name,
    }
}

/// The mathematical value of a [`CodeGeneratorConfig`].
pub struct ConfigView {
    /// The name of the generated library.
    pub module_name: Seq<char>,
    /// Whether the classes get the methods that write and read their values
    /// and the operations on bytes.
    pub serialization: bool,
    /// The active encodings, without repetition, `Bincode` before `Bcs`.
    pub encodings: Seq<Encoding>,
    /// The names declared outside the registry, by namespace. The entry of
    /// the namespace `import` lists the files that the library imports.
    pub external_definitions: Seq<DefinitionsView>,
}

/// Whether `wanted` is one of `names`.
pub fn contains_string(names: &Vec<String>, wanted: &String) -> (r: bool)
    ensures
        r == string_views(names@).contains(wanted@),
{
    let mut i: usize = 0;
    while i < names.len()
        invariant
            i <= names.len(),
            forall|k: int| 0 <= k < i ==> string_views(names@)[k] != wanted@,
        decreases names.len() - i,
    {
        if names[i] == *wanted {
            assert(string_views(names@)[i as int] == wanted@);
            return true;
        }
        i += 1;
    }
    false
}

/// The configuration of one generation run.
pub struct CodeGeneratorConfig {
    module_name: String,
    serialization: bool,
    bincode: bool,
    bcs: bool,
    external_definitions: Vec<(String, Vec<String>)>,
}

impl View for CodeGeneratorConfig {
    type V = ConfigView;

    closed spec fn view(&self) -> ConfigView {
        ConfigView {
            module_name: self.module_name@,
            serialization: self.serialization,
            encodings: (if self.bincode {
                seq![Encoding::Bincode]
            } else {
                Seq::empty()
            }) + (if self.bcs {
                seq![Encoding::Bcs]
            } else {
                Seq::empty()
            }),
            external_definitions: definition_views(self.external_definitions@),
        }
    }
}

impl CodeGeneratorConfig {
    /// The configuration for a library of the given name: serialization code
    /// is emitted, no encoding is active and nothing is declared externally.
    pub fn new(module_name: String) -> (r: Self)
        ensures
            r@ == (ConfigView {
                module_name: module_name@,
                serialization: true,
                encodings: Seq::empty(),
                external_definitions: Seq::empty(),
            }),
    {
        let r = CodeGeneratorConfig {
            module_name,
            serialization: true,
            bincode: false,
            bcs: false,
            external_definitions: Vec::new(),
        };
        assert(r@.encodings =~= Seq::empty());
        assert(r@.external_definitions =~= Seq::empty());
        r
    }

    /// The same configuration, with serialization code emitted or not.
    pub fn with_serialization(self, serialization: bool) -> (r: Self)
        ensures
            r@ == (ConfigView { serialization, ..self@ }),
    {
        CodeGeneratorConfig {
            module_name: self.module_name,
            serialization,
            bincode: self.bincode,
            bcs: self.bcs,
            external_definitions: self.external_definitions,
        }
    }

    /// The same configuration, with the set of the given encodings active.
    pub fn with_encodings(self, encodings: Vec<Encoding>) -> (r: Self)
        ensures
            r@ == (ConfigView { encodings: encoding_set(encodings@), ..self@ }),
    {
        let mut bincode = false;
        let mut bcs = false;
        let mut i: usize = 0;
        while i < encodings.len()
            invariant
                i <= encodings.len(),
                bincode == encodings@.take(i as int).contains(Encoding::Bincode),
                bcs == encodings@.take(i as int).contains(Encoding::Bcs),
            decreases encodings.len() - i,
        {
            let ghost before = encodings@.take(i as int);
            let ghost after = encodings@.take(i + 1);
            proof {
                assert(after =~= before.push(encodings@[i as int]));
                assert(after[i as int] == encodings@[i as int]);
                assert forall|e: Encoding| before.contains(e) implies after.contains(e) by {
                    let k = choose|k: int| 0 <= k < before.len() && before[k] == e;
                    assert(after[k] == e);
                }
            }
            match encodings[i] {
                Encoding::Bincode => {
                    bincode = true;
                },
                Encoding::Bcs => {
                    bcs = true;
                },
            }
            i += 1;
        }
        assert(encodings@.take(i as int) =~= encodings@);
        CodeGeneratorConfig {
            module_name: self.module_name,
            serialization: self.serialization,
            bincode,
            bcs,
            external_definitions: self.external_definitions,
        }
    }

    /// The same configuration, with the given names declared externally, by
    /// namespace. The entry of the namespace `import` declares no types: it
    /// lists the files that the library imports.
    pub fn with_external_definitions(self, definitions: Vec<(String, Vec<String>)>) -> (r: Self)
        ensures
            r@ == (ConfigView { external_definitions: definition_views(definitions@), ..self@ }),
    {
        CodeGeneratorConfig {
            module_name: self.module_name,
            serialization: self.serialization,
            bincode: self.bincode,
            bcs: self.bcs,
            external_definitions: definitions,
        }
    }

    /// The name of the generated library.
    pub fn module_name(&self) -> (r: &str)
        ensures
            r@ == self@.module_name,
    {
        self.module_name.as_str()
    }

    /// Whether the classes get the methods that write and read their values
    /// and the operations on bytes.
    pub fn serialization(&self) -> (r: bool)
        ensures
            r == self@.serialization,
    {
        self.serialization
    }

    /// The active encodings, without repetition, `Bincode` before `Bcs`.
    pub fn encodings(&self) -> (r: Vec<Encoding>)
        ensures
            r@ == self@.encodings,
    {
        let mut out: Vec<Encoding> = Vec::new();
        if self.bincode {
            out.push(Encoding::Bincode);
        }
        if self.bcs {
            out.push(Encoding::Bcs);
        }
        assert(out@ =~= self@.encodings);
        out
    }

    /// The names declared outside the registry, by namespace.
    pub fn external_definitions(&self) -> (r: &Vec<(String, Vec<String>)>)
        ensures
            definition_views(r@) == self@.external_definitions,
    {
        &self.external_definitions
    }

    /// The name by which generated code refers to the container `name`.
    pub fn qualified_name(&self, name: &str) -> (r: String)
        ensures
            r@ == qualified_name(self@.external_definitions, name@),
    {
        let wanted = String::from_str(name);
        let import = String::from_str("import");
        let ghost all = definition_views(self.external_definitions@);
        let mut found: Option<usize> = None;
        let mut i: usize = 0;
        assert(all.take(0) =~= Seq::empty());
        while i < self.external_definitions.len()
            invariant
                i <= self.external_definitions.len(),
                wanted@ == name@,
                import@ == "import"@,
                all == definition_views(self.external_definitions@),
                match found {
                    Some(k) => k < i && qualifier(all.take(i as int), name@) == Some(
                        all[k as int].namespace,
                    ),
                    None => qualifier(all.take(i as int), name@) is None,
                },
            decreases self.external_definitions.len() - i,
        {
            proof {
                assert(all.take(i + 1).drop_last() =~= all.take(i as int));
                assert(all.take(i + 1).last() == all[i as int]);
            }
            if self.external_definitions[i].0 != import && contains_string(
                &self.external_definitions[i].1,
                &wanted,
            ) {
                found = Some(i);
            }
            i += 1;
        }
        assert(all.take(i as int) =~= all);
        match found {
            Some(k) => {
                let mut qualified = self.external_definitions[k].0.clone();
                qualified.append(".");
                qualified.append(name);
                qualified
            },
            None => wanted,
        }
    }

    /// The names declared under the first entry for `namespace`, if there is one.
    pub fn definitions_under(&self, namespace: &str) -> (r: Option<&Vec<String>>)
        ensures
            match r {
                Some(names) => definitions_under(self@.external_definitions, namespace@) == Some(
                    string_views(names@),
                ),
                None => definitions_under(self@.external_definitions, namespace@) is None,
            },
    {
        let wanted = String::from_str(namespace);
        let ghost all = definition_views(self.external_definitions@);
        let mut i: usize = 0;
        assert(all.skip(0) =~= all);
        while i < self.external_definitions.len()
            invariant
                i <= self.external_definitions.len(),
                wanted@ == namespace@,
                all == definition_views(self.external_definitions@),
                definitions_under(all, namespace@) == definitions_under(
                    all.skip(i as int),
                    namespace@,
                ),
            decreases self.external_definitions.len() - i,
        {
            proof {
                assert(all.skip(i as int)[0] == all[i as int]);
                assert(all.skip(i as int).drop_first() =~= all.skip(i + 1));
            }
            if self.external_definitions[i].0 == wanted {
                return Some(&self.external_definitions[i].1);
            }
            i += 1;
        }
        None
    }
}

} // verus!
