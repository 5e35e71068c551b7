//! The state of the emission of one Dart source file.

use vstd::prelude::*;
use crate::config::{qualified_name, ConfigView, DefinitionsView};
use crate::generator::CodeGenerator;
use crate::indent::{IndentConfig, IndentedWriter, Page};
use crate::text::{decimal, push_decimal, string_views};

verus! {

/// The mathematical value of a [`DartEmitter`].
pub struct EmitterView {
    /// The text emitted so far, and its layout state.
    pub page: Page,
    /// The classes that enclose what is emitted next, outermost first.
    pub namespace: Seq<Seq<char>>,
    /// The configuration of the run.
    pub config: ConfigView,
}

impl EmitterView {
    /// The state in which nothing has been emitted yet.
    pub open spec fn start(config: ConfigView, namespace: Seq<Seq<char>>) -> EmitterView {
        EmitterView { page: Page::blank(IndentConfig::Space(2)), namespace, config }
    }

    /// The names that are declared outside the registry.
    pub open spec fn definitions(self) -> Seq<DefinitionsView> {
        self.config.external_definitions
    }

    /// The state after `s` is written.
    pub open spec fn put(self, s: Seq<char>) -> EmitterView {
        EmitterView { page: self.page.put(s), namespace: self.namespace, config: self.config }
    }

    /// The state after the decimal numeral of `n` is written.
    pub open spec fn put_number(self, n: nat) -> EmitterView {
        self.put(decimal(n))
    }

    /// The state one step of indentation deeper.
    pub open spec fn indent(self) -> EmitterView {
        EmitterView { page: self.page.indent(), namespace: self.namespace, config: self.config }
    }

    /// The state one step of indentation less deep.
    pub open spec fn unindent(self) -> EmitterView {
        EmitterView { page: self.page.unindent(), namespace: self.namespace, config: self.config }
    }

    /// The state inside the body of the class `name`.
    pub open spec fn enter_class(self, name: Seq<char>) -> EmitterView {
        EmitterView {
            page: self.page.indent(),
            namespace: self.namespace.push(name),
            config: self.config,
        }
    }

    /// The state after the body of the innermost class.
    pub open spec fn leave_class(self) -> EmitterView {
        EmitterView {
            page: self.page.unindent(),
            namespace: if self.namespace.len() > 0 {
                self.namespace.drop_last()
            } else {
                self.namespace
            },
            config: self.config,
        }
    }

    /// The state after the line that opens every part of the library.
    pub open spec fn preamble(self) -> EmitterView {
        self.put("part of "@).put(self.config.module_name).put("_types;\n"@)
    }
}

/// What has been emitted of one Dart source file, and where emission stands.
pub struct DartEmitter<'a> {
    /// The text emitted so far.
    out: IndentedWriter,
    /// The generator that the file is emitted for.
    generator: &'a CodeGenerator<'a>,
    /// The classes that enclose what is emitted next, outermost first.
    current_namespace: Vec<String>,
}

impl<'a> View for DartEmitter<'a> {
    type V = EmitterView;

    closed spec fn view(&self) -> EmitterView {
        EmitterView {
            page: self.out@,
            namespace: string_views(self.current_namespace@),
            config: self.generator@,
        }
    }
}

impl<'a> DartEmitter<'a> {
    /// An emitter that has emitted nothing yet, indenting by two spaces.
    pub fn new(generator: &'a CodeGenerator<'a>, current_namespace: Vec<String>) -> (r: Self)
        ensures
            r@ == EmitterView::start(generator@, string_views(current_namespace@)),
    {
        DartEmitter {
            out: IndentedWriter::new(IndentConfig::Space(2)),
            generator,
            current_namespace,
        }
    }

    /// The generator that the file is emitted for.
    pub fn generator(&self) -> (r: &'a CodeGenerator<'a>)
        ensures
            r@ == self@.config,
    {
        self.generator
    }

    /// Writes `text` at the current indentation.
    pub fn write(&mut self, text: &str)
        ensures
            final(self)@ == old(self)@.put(text@),
    {
        self.out.write_str(text);
    }

    /// Writes the decimal numeral of `n` at the current indentation.
    pub fn write_number(&mut self, n: u64)
        ensures
            final(self)@ == old(self)@.put_number(n as nat),
    {
        let mut digits = String::new();
        push_decimal(&mut digits, n);
        assert(digits@ =~= decimal(n as nat));
        self.out.write_str(digits.as_str());
    }

    /// Goes one step of indentation deeper.
    pub fn indent(&mut self)
        ensures
            final(self)@ == old(self)@.indent(),
    {
        self.out.indent();
    }

    /// Goes one step of indentation back.
    pub fn unindent(&mut self)
        ensures
            final(self)@ == old(self)@.unindent(),
    {
        self.out.unindent();
    }

    /// Writes the line that opens every part of the library.
    pub fn output_preamble(&mut self)
        ensures
            final(self)@ == old(self)@.preamble(),
    {
        self.write("part of ");
        self.write(self.generator.config().module_name());
        self.write("_types;\n");
    }

    /// The name by which generated code refers to the container `name`: a
    /// container that is declared externally is qualified by its namespace.
    pub fn quote_qualified_name(&self, name: &str) -> (r: String)
        ensures
            r@ == qualified_name(self@.config.external_definitions, name@),
    {
        self.generator.config().qualified_name(name)
    }

    /// Enters the body of the class `name`.
    pub fn enter_class(&mut self, name: &str)
        ensures
            final(self)@ == old(self)@.enter_class(name@),
    {
        self.out.indent();
        self.current_namespace.push(name.to_owned());
        assert(string_views(self.current_namespace@) =~= string_views(
            old(self).current_namespace@,
        ).push(name@));
    }

    /// Leaves the body of the innermost class.
    pub fn leave_class(&mut self)
        ensures
            final(self)@ == old(self)@.leave_class(),
    {
        self.out.unindent();
        let _ = self.current_namespace.pop();
        assert(string_views(self.current_namespace@) =~= if old(self).current_namespace@.len()
            > 0 {
            string_views(old(self).current_namespace@).drop_last()
        } else {
            string_views(old(self).current_namespace@)
        });
    }

    /// The text emitted so far.
    pub fn text(&self) -> (r: &str)
        ensures
            r@ == self@.page.text,
    {
        self.out.as_str()
    }

    /// Gives up the emitter for the text emitted.
    pub fn into_text(self) -> (r: String)
        ensures
            r@ == self@.page.text,
    {
        self.out.into_string()
    }
}

} // verus!
