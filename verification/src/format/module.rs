//! Imports and exports.

use vstd::prelude::*;
use crate::ast::{
    ExportDefaultDeclarationKind, ImportDeclaration, ImportDeclarationSpecifier,
    ImportDefaultSpecifier, ImportNamespaceSpecifier, ImportSpecifier, ModuleDeclaration,
};
use crate::doc::{
    Doc, DocView, Separator, array, join, joined, no_parts, parts_new, parts_push, text, txt,
    views,
};
use crate::format::class::{class_doc, print_class};
use crate::format::function::{function_doc, print_function};
use crate::format::literal::{
    format_string_literal, placeholder, placeholder_text, string_literal_doc,
};
use crate::format::{
    binding_identifier_doc, declaration_doc, format_binding_identifier, format_declaration,
    format_operand_at, operand_at, push_semi, with_semi,
};
use crate::operator::Precedence;
use crate::session::{Prettier, Style};

verus! {

/// A named import: the local name alone where the imported name is the
/// same piece of the source, else the imported name, `as` and the local
/// name.
pub open spec fn import_specifier_doc(specifier: ImportSpecifier) -> DocView {
    if specifier.imported.span == specifier.local.span {
        binding_identifier_doc(specifier.local)
    } else {
        DocView::Concat(
            no_parts().push(DocView::Text(specifier.imported.name@)).push(txt(" as ")).push(
                binding_identifier_doc(specifier.local),
            ),
        )
    }
}

pub fn format_import_specifier(specifier: &ImportSpecifier) -> (doc: Doc)
    ensures
        doc@ == import_specifier_doc(*specifier),
{
    if specifier.imported.span.start == specifier.local.span.start && specifier.imported.span.end
        == specifier.local.span.end {
        format_binding_identifier(&specifier.local)
    } else {
        let mut parts = parts_new();
        parts_push(&mut parts, text(specifier.imported.name.as_str()));
        parts_push(&mut parts, text(" as "));
        parts_push(&mut parts, format_binding_identifier(&specifier.local));
        array(parts)
    }
}

pub open spec fn import_default_specifier_doc(specifier: ImportDefaultSpecifier) -> DocView {
    binding_identifier_doc(specifier.local)
}

pub fn format_import_default_specifier(specifier: &ImportDefaultSpecifier) -> (doc: Doc)
    ensures
        doc@ == import_default_specifier_doc(*specifier),
{
    format_binding_identifier(&specifier.local)
}

pub open spec fn import_namespace_specifier_doc(specifier: ImportNamespaceSpecifier) -> DocView {
    DocView::Concat(no_parts().push(txt("* as ")).push(binding_identifier_doc(specifier.local)))
}

pub fn format_import_namespace_specifier(specifier: &ImportNamespaceSpecifier) -> (doc: Doc)
    ensures
        doc@ == import_namespace_specifier_doc(*specifier),
{
    let mut parts = parts_new();
    parts_push(&mut parts, text("* as "));
    parts_push(&mut parts, format_binding_identifier(&specifier.local));
    array(parts)
}

pub open spec fn import_declaration_specifier_doc(specifier: ImportDeclarationSpecifier) -> DocView {
    match specifier {
        ImportDeclarationSpecifier::ImportSpecifier(inner) => import_specifier_doc(inner),
        ImportDeclarationSpecifier::ImportDefaultSpecifier(inner) => import_default_specifier_doc(
            inner,
        ),
        ImportDeclarationSpecifier::ImportNamespaceSpecifier(inner) => import_namespace_specifier_doc(
            inner,
        ),
    }
}

pub fn format_import_declaration_specifier(specifier: &ImportDeclarationSpecifier) -> (doc: Doc)
    ensures
        doc@ == import_declaration_specifier_doc(*specifier),
{
    match specifier {
        ImportDeclarationSpecifier::ImportSpecifier(inner) => format_import_specifier(inner),
        ImportDeclarationSpecifier::ImportDefaultSpecifier(inner) => format_import_default_specifier(
            inner,
        ),
        ImportDeclarationSpecifier::ImportNamespaceSpecifier(inner) => format_import_namespace_specifier(
            inner,
        ),
    }
}

/// The documents of the specifiers among `specifiers[..upto]` that are
/// named imports, where `named` is set, or that are not, where it is not.
pub open spec fn specifier_docs(
    specifiers: Seq<ImportDeclarationSpecifier>,
    upto: int,
    named: bool,
) -> Seq<DocView>
    decreases upto,
{
    if 0 < upto <= specifiers.len() {
        if (specifiers[upto - 1] is ImportSpecifier) == named {
            specifier_docs(specifiers, upto - 1, named).push(
                import_declaration_specifier_doc(specifiers[upto - 1]),
            )
        } else {
            specifier_docs(specifiers, upto - 1, named)
        }
    } else {
        no_parts()
    }
}

pub fn format_specifiers(specifiers: &Vec<ImportDeclarationSpecifier>, named: bool) -> (docs: Vec<
    Doc,
>)
    ensures
        views(docs@) == specifier_docs(specifiers@, specifiers@.len() as int, named),
{
    let mut docs = parts_new();
    let mut i: usize = 0;
    while i < specifiers.len()
        invariant
            i <= specifiers.len(),
            views(docs@) == specifier_docs(specifiers@, i as int, named),
        decreases specifiers.len() - i,
    {
        let is_named = matches!(&specifiers[i], ImportDeclarationSpecifier::ImportSpecifier(_));
        if is_named == named {
            parts_push(&mut docs, format_import_declaration_specifier(&specifiers[i]));
        }
        i += 1;
    }
    docs
}

/// The named imports between curly brackets.
pub open spec fn named_imports_doc(named: Seq<DocView>) -> DocView {
    if named.len() == 0 {
        txt("{}")
    } else {
        DocView::Concat(
            no_parts().push(txt("{ ")).push(
                DocView::Concat(joined(Separator::CommaSpace.doc_spec(), named)),
            ).push(txt(" }")),
        )
    }
}

/// What an import binds: the default and namespace imports, then the named
/// imports between curly brackets, where there are any or nothing else is
/// bound.
pub open spec fn import_clause_doc(specifiers: Seq<ImportDeclarationSpecifier>) -> DocView {
    let plain = specifier_docs(specifiers, specifiers.len() as int, false);
    let named = specifier_docs(specifiers, specifiers.len() as int, true);
    DocView::Concat(
        joined(
            Separator::CommaSpace.doc_spec(),
            if named.len() > 0 || plain.len() == 0 {
                plain.push(named_imports_doc(named))
            } else {
                plain
            },
        ),
    )
}

pub fn format_import_clause(specifiers: &Vec<ImportDeclarationSpecifier>) -> (doc: Doc)
    ensures
        doc@ == import_clause_doc(specifiers@),
{
    let mut plain = format_specifiers(specifiers, false);
    let named = format_specifiers(specifiers, true);
    if named.len() > 0 || plain.len() == 0 {
        let braces = if named.len() == 0 {
            text("{}")
        } else {
            let mut parts = parts_new();
            parts_push(&mut parts, text("{ "));
            parts_push(&mut parts, array(join(Separator::CommaSpace, named)));
            parts_push(&mut parts, text(" }"));
            array(parts)
        };
        parts_push(&mut plain, braces);
    }
    array(join(Separator::CommaSpace, plain))
}

/// An import: `import`, `type` where it imports types, what it binds and
/// `from` where it binds anything, the source, and the end of the
/// statement.
pub open spec fn import_declaration_doc(declaration: ImportDeclaration, style: Style) -> DocView {
    let parts = no_parts().push(txt("import"));
    let parts = if declaration.is_type {
        parts.push(txt(" type"))
    } else {
        parts
    };
    let parts = match declaration.specifiers {
        Some(specifiers) => parts.push(txt(" ")).push(import_clause_doc(specifiers@)).push(
            txt(" from "),
        ),
        None => parts.push(txt(" ")),
    };
    DocView::Concat(with_semi(parts.push(string_literal_doc(declaration.source, style)), style))
}

pub fn format_import_declaration(declaration: &ImportDeclaration, p: &Prettier) -> (doc: Doc)
    ensures
        doc@ == import_declaration_doc(*declaration, p@),
{
    let mut parts = parts_new();
    parts_push(&mut parts, text("import"));
    if declaration.is_type {
        parts_push(&mut parts, text(" type"));
    }
    match &declaration.specifiers {
        Some(specifiers) => {
            parts_push(&mut parts, text(" "));
            parts_push(&mut parts, format_import_clause(specifiers));
            parts_push(&mut parts, text(" from "));
        },
        None => {
            parts_push(&mut parts, text(" "));
        },
    }
    parts_push(&mut parts, format_string_literal(&declaration.source, p));
    push_semi(&mut parts, p);
    array(parts)
}

pub open spec fn export_default_kind_doc(kind: ExportDefaultDeclarationKind, style: Style) -> DocView
    decreases kind, 2nat,
{
    match kind {
        ExportDefaultDeclarationKind::Expression(inner) => DocView::Concat(
            with_semi(no_parts().push(operand_at(inner, Precedence::Assign, style)), style),
        ),
        ExportDefaultDeclarationKind::FunctionDeclaration(inner) => function_doc(*inner, style),
        ExportDefaultDeclarationKind::ClassDeclaration(inner) => class_doc(*inner, style),
        ExportDefaultDeclarationKind::Unsupported => DocView::Text(placeholder_text()),
    }
}

pub fn format_export_default_kind(kind: &ExportDefaultDeclarationKind, p: &Prettier) -> (doc: Doc)
    ensures
        doc@ == export_default_kind_doc(*kind, p@),
    decreases kind, 2nat,
{
    match kind {
        ExportDefaultDeclarationKind::Expression(inner) => {
            let mut parts = parts_new();
            parts_push(&mut parts, format_operand_at(inner, Precedence::Assign, p));
            push_semi(&mut parts, p);
            array(parts)
        },
        ExportDefaultDeclarationKind::FunctionDeclaration(inner) => print_function(p, inner),
        ExportDefaultDeclarationKind::ClassDeclaration(inner) => print_class(p, inner),
        ExportDefaultDeclarationKind::Unsupported => placeholder(),
    }
}

/// An export: `export default` before what is exported by default,
/// `export` before an exported declaration. The other forms are not
/// covered.
pub open spec fn export_declaration_doc(declaration: ModuleDeclaration, style: Style) -> DocView
    decreases declaration, 0nat,
{
    match declaration {
        ModuleDeclaration::ExportDefaultDeclaration(inner) => DocView::Concat(
            no_parts().push(txt("export default ")).push(
                export_default_kind_doc(inner.declaration, style),
            ),
        ),
        ModuleDeclaration::ExportNamedDeclaration(inner) => match inner.declaration {
            Some(exported) => DocView::Concat(
                no_parts().push(txt("export ")).push(declaration_doc(exported, style)),
            ),
            None => DocView::Text(placeholder_text()),
        },
        _ => DocView::Text(placeholder_text()),
    }
}

pub fn print_export_declaration(p: &Prettier, declaration: &ModuleDeclaration) -> (doc: Doc)
    ensures
        doc@ == export_declaration_doc(*declaration, p@),
    decreases declaration, 0nat,
{
    match declaration {
        ModuleDeclaration::ExportDefaultDeclaration(inner) => {
            let mut parts = parts_new();
            parts_push(&mut parts, text("export default "));
            parts_push(&mut parts, format_export_default_kind(&inner.declaration, p));
            array(parts)
        },
        ModuleDeclaration::ExportNamedDeclaration(inner) => match &inner.declaration {
            Some(exported) => {
                let mut parts = parts_new();
                parts_push(&mut parts, text("export "));
                parts_push(&mut parts, format_declaration(exported, p));
                array(parts)
            },
            None => placeholder(),
        },
        _ => placeholder(),
    }
}

pub open spec fn module_declaration_doc(declaration: ModuleDeclaration, style: Style) -> DocView
    decreases declaration, 1nat,
{
    match declaration {
        ModuleDeclaration::ImportDeclaration(inner) => import_declaration_doc(*inner, style),
        _ => export_declaration_doc(declaration, style),
    }
}

pub fn format_module_declaration(declaration: &ModuleDeclaration, p: &Prettier) -> (doc: Doc)
    ensures
        doc@ == module_declaration_doc(*declaration, p@),
    decreases declaration, 1nat,
{
    match declaration {
        ModuleDeclaration::ImportDeclaration(inner) => format_import_declaration(inner, p),
        _ => print_export_declaration(p, declaration),
    }
}

} // verus!
