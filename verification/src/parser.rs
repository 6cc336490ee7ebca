//! From a declaration to the validated description of a record.
//!
//! Every defect of the declaration's annotations is reported in one pass: a
//! malformed annotation on one field does not hide those on the next.

use crate::attribute::{spec_parse_body, BuilderAttribute, BuilderAttributeBody};
use crate::declaration::{Attribute, Data, Declaration, FieldDecl, Fields, Generics};
use crate::errors::{
    lemma_views_push, views, Diagnostic, DiagnosticView, ParseResult, SyntaxErrors,
};
use crate::span::Span;
use crate::types::{BuilderInfo, Field};
use vstd::prelude::*;

verus! {

/// The name that marks an annotation as one of this library's.
pub open spec fn namespace() -> Seq<char> {
    "builder"@
}

/// What is reported of a declaration that is not a record.
pub open spec fn msg_not_a_struct() -> Seq<char> {
    "Can only derive `Builder` for a struct"@
}

/// What is reported of a record whose fields have no names.
pub open spec fn msg_unnamed_fields() -> Seq<char> {
    "only named fields are supported"@
}

/// What is reported of `required` on the record itself.
pub open spec fn msg_required_on_record() -> Seq<char> {
    "required is only valid on a field"@
}

/// Whether the annotation is one of this library's.
pub open spec fn is_ours(attr: Attribute) -> bool {
    attr.name@ == namespace()
}

/// The directives that one annotation contributes: those of its body if it is
/// ours and well formed, none otherwise.
pub open spec fn entry_directives(attr: Attribute) -> Seq<BuilderAttribute> {
    if is_ours(attr) {
        match spec_parse_body(attr.tokens@, attr.span) {
            Ok(list) => list,
            Err(_) => Seq::empty(),
        }
    } else {
        Seq::empty()
    }
}

/// The errors that one annotation contributes: the one of its body if it is
/// ours and malformed, none otherwise.
pub open spec fn entry_errors(attr: Attribute) -> Seq<DiagnosticView> {
    if is_ours(attr) {
        match spec_parse_body(attr.tokens@, attr.span) {
            Ok(_) => Seq::empty(),
            Err(error) => seq![error],
        }
    } else {
        Seq::empty()
    }
}

/// The directives of all the annotations, in the order of the annotations and,
/// within one, in the order of writing.
pub open spec fn all_directives(attrs: Seq<Attribute>) -> Seq<BuilderAttribute>
    decreases attrs.len(),
{
    if attrs.len() == 0 {
        Seq::empty()
    } else {
        all_directives(attrs.drop_last()) + entry_directives(attrs.last())
    }
}

/// The errors of all the annotations, in the order of the annotations.
pub open spec fn all_errors(attrs: Seq<Attribute>) -> Seq<DiagnosticView>
    decreases attrs.len(),
{
    if attrs.len() == 0 {
        Seq::empty()
    } else {
        all_errors(attrs.drop_last()) + entry_errors(attrs.last())
    }
}

/// What the annotations of one declaration or field yield: every error, if
/// there is any, else every directive.
pub open spec fn spec_extract(attrs: Seq<Attribute>) -> Result<
    Seq<BuilderAttribute>,
    Seq<DiagnosticView>,
> {
    if all_errors(attrs).len() == 0 {
        Ok(all_directives(attrs))
    } else {
        Err(all_errors(attrs))
    }
}

/// Reads the annotations of one declaration or field. Annotations of other
/// namespaces are passed over. Each of ours is read on its own, so that one
/// malformed body does not keep the others from being read.
pub fn extract(attrs: &Vec<Attribute>) -> (res: ParseResult<Vec<BuilderAttribute>>)
    ensures
        match res {
            Ok(directives) => spec_extract(attrs@) == Ok::<_, Seq<DiagnosticView>>(directives@),
            Err(errors) => spec_extract(attrs@) == Err::<Seq<BuilderAttribute>, _>(errors@),
        },
{
    let mut ours: Vec<BuilderAttribute> = Vec::new();
    let mut errs: Vec<Diagnostic> = Vec::new();
    let mut i: usize = 0;
    while i < attrs.len()
        invariant
            i <= attrs.len(),
            ours@ == all_directives(attrs@.take(i as int)),
            views(errs@) == all_errors(attrs@.take(i as int)),
        decreases attrs.len() - i,
    {
        let attr = &attrs[i];
        proof {
            assert(attrs@.take(i + 1).drop_last() =~= attrs@.take(i as int));
            assert(attrs@.take(i + 1).last() == attrs@[i as int]);
        }
        let ghost before = errs@;
        let name = String::from_str("builder");
        if attr.name == name {
            match BuilderAttributeBody::parse(&attr.tokens, attr.span) {
                Ok(body) => {
                    let mut list = body.0;
                    ours.append(&mut list);
                },
                Err(error) => {
                    proof {
                        lemma_views_push(errs@, error);
                    }
                    errs.push(error);
                },
            }
        }
        proof {
            assert(views(errs@) =~= views(before) + entry_errors(*attr));
        }
        i += 1;
    }
    proof {
        assert(attrs@.take(attrs.len() as int) =~= attrs@);
    }
    if errs.is_empty() {
        Ok(ours)
    } else {
        Err(SyntaxErrors::from(errs))
    }
}

/// The error that reports a directive found on the record itself.
pub open spec fn misplaced(directive: BuilderAttribute) -> DiagnosticView {
    DiagnosticView { span: directive.spec_span(), message: msg_required_on_record() }
}

/// The errors of the record's own annotations: those of its malformed
/// annotations if there are any, else one for each directive, since a
/// directive is valid on a field only.
pub open spec fn record_errors(attrs: Seq<Attribute>) -> Seq<DiagnosticView> {
    match spec_extract(attrs) {
        Ok(directives) => directives.map_values(|d: BuilderAttribute| misplaced(d)),
        Err(errors) => errors,
    }
}

/// The errors of the fields' annotations, in the order of the fields.
pub open spec fn field_errors(fields: Seq<FieldDecl>) -> Seq<DiagnosticView>
    decreases fields.len(),
{
    if fields.len() == 0 {
        Seq::empty()
    } else {
        field_errors(fields.drop_last()) + all_errors(fields.last().attrs@)
    }
}

/// The directives that a field ends up with: those of its annotations, or
/// none if any of its annotations is malformed.
pub open spec fn field_directives(decl: FieldDecl) -> Seq<BuilderAttribute> {
    match spec_extract(decl.attrs@) {
        Ok(directives) => directives,
        Err(_) => Seq::empty(),
    }
}

/// Whether `field` is what `decl` becomes: the same name and type, with the
/// directives of its annotations.
pub open spec fn describes(field: Field, decl: FieldDecl) -> bool {
    &&& field.name == decl.ident
    &&& field.ty == decl.ty
    &&& field.directives@ == field_directives(decl)
}

/// Whether `fields` is what `decls` become, field by field, in order.
pub open spec fn describe_all(fields: Seq<Field>, decls: Seq<FieldDecl>) -> bool {
    &&& fields.len() == decls.len()
    &&& forall|i: int| 0 <= i < decls.len() ==> describes(#[trigger] fields[i], decls[i])
}

/// Every error of a record with named fields: those of the record's own
/// annotations, then those of its fields, in declaration order.
pub open spec fn struct_errors(attrs: Seq<Attribute>, fields: Seq<FieldDecl>) -> Seq<
    DiagnosticView,
> {
    record_errors(attrs) + field_errors(fields)
}

/// Every error of a declaration. A declaration that is not a record with
/// named fields has exactly one, located at the declaration.
pub open spec fn declaration_errors(decl: Declaration) -> Seq<DiagnosticView> {
    match decl.data {
        Data::Struct(Fields::Named(fields)) => struct_errors(decl.attrs@, fields@),
        Data::Struct(_) => seq![DiagnosticView { span: decl.span, message: msg_unnamed_fields() }],
        _ => seq![DiagnosticView { span: decl.span, message: msg_not_a_struct() }],
    }
}

/// Records one error for each directive found on the record itself.
pub fn reject_directives(directives: &Vec<BuilderAttribute>, errors: &mut SyntaxErrors)
    ensures
        final(errors)@ == old(errors)@ + directives@.map_values(|d: BuilderAttribute| misplaced(d)),
{
    let ghost start = errors@;
    let mut i: usize = 0;
    while i < directives.len()
        invariant
            i <= directives.len(),
            errors@ == start + directives@.take(i as int).map_values(
                |d: BuilderAttribute| misplaced(d),
            ),
        decreases directives.len() - i,
    {
        match directives[i] {
            BuilderAttribute::Required(span) => {
                errors.add(span, "required is only valid on a field");
            },
        }
        proof {
            assert(directives@.take(i + 1) =~= directives@.take(i as int).push(directives@[i as int]));
            assert(errors@ =~= start + directives@.take(i + 1).map_values(
                |d: BuilderAttribute| misplaced(d),
            ));
        }
        i += 1;
    }
    proof {
        assert(directives@.take(directives.len() as int) =~= directives@);
    }
}

/// Reads the annotations of every field, in declaration order. The errors of
/// a field's annotations go to `errors`; the field itself is kept in the
/// result, without directives, so that the list stays complete.
pub fn collect_fields(decls: Vec<FieldDecl>, errors: &mut SyntaxErrors) -> (fields: Vec<Field>)
    ensures
        final(errors)@ == old(errors)@ + field_errors(decls@),
        describe_all(fields@, decls@),
{
    let ghost start = errors@;
    let mut fields: Vec<Field> = Vec::new();
    let mut i: usize = 0;
    while i < decls.len()
        invariant
            i <= decls.len(),
            errors@ == start + field_errors(decls@.take(i as int)),
            describe_all(fields@, decls@.take(i as int)),
        decreases decls.len() - i,
    {
        let decl = &decls[i];
        proof {
            assert(decls@.take(i + 1).drop_last() =~= decls@.take(i as int));
            assert(decls@.take(i + 1).last() == decls@[i as int]);
        }
        let ghost before = errors@;
        let name = match &decl.ident {
            Some(ident) => Some(ident.clone()),
            None => None,
        };
        let field = match extract(&decl.attrs) {
            Ok(directives) => Field { name, ty: decl.ty.clone(), directives },
            Err(e) => {
                errors.merge(e);
                Field { name, ty: decl.ty.clone(), directives: Vec::new() }
            },
        };
        proof {
            assert(errors@ =~= before + all_errors(decl.attrs@));
            assert(describes(field, *decl));
        }
        fields.push(field);
        proof {
            assert(errors@ =~= start + field_errors(decls@.take(i + 1)));
            assert forall|k: int| 0 <= k < i + 1 implies describes(
                #[trigger] fields@[k],
                decls@.take(i + 1)[k],
            ) by {
                if k < i {
                    assert(decls@.take(i as int)[k] == decls@.take(i + 1)[k]);
                }
            }
        }
        i += 1;
    }
    proof {
        assert(decls@.take(decls.len() as int) =~= decls@);
    }
    fields
}

/// Validates a record. One with named fields yields its description if none
/// of its annotations is at fault, else every error found. One without named
/// fields yields the one error that says so, located at `span`.
pub fn parse_builder_struct(
    fields: Fields,
    name: String,
    generics: Generics,
    attrs: Vec<Attribute>,
    span: Span,
) -> (res: ParseResult<BuilderInfo>)
    ensures
        match fields {
            Fields::Named(decls) => match res {
                Ok(info) => {
                    &&& struct_errors(attrs@, decls@).len() == 0
                    &&& info.name == name
                    &&& info.generics == generics
                    &&& describe_all(info.fields@, decls@)
                },
                Err(errors) => {
                    &&& errors@.len() > 0
                    &&& errors@ == struct_errors(attrs@, decls@)
                },
            },
            _ => res matches Err(errors) && errors@ == seq![
                DiagnosticView { span, message: msg_unnamed_fields() },
            ],
        },
{
    let mut errors = SyntaxErrors::default();
    let decls = match fields {
        Fields::Named(decls) => decls,
        _ => {
            errors.add(span, "only named fields are supported");
            assert(errors@ =~= seq![DiagnosticView { span, message: msg_unnamed_fields() }]);
            return Err(errors);
        },
    };
    match extract(&attrs) {
        Ok(directives) => {
            reject_directives(&directives, &mut errors);
        },
        Err(e) => {
            errors.merge(e);
        },
    }
    assert(errors@ =~= record_errors(attrs@));
    let fields = collect_fields(decls, &mut errors);
    match errors.finish() {
        Ok(_) => Ok(BuilderInfo { name, generics, fields }),
        Err(errors) => Err(errors),
    }
}

/// Validates a declaration: the description of the record it declares, or
/// every error found in it.
pub fn parse(decl: Declaration) -> (res: ParseResult<BuilderInfo>)
    ensures
        match res {
            Ok(info) => {
                &&& declaration_errors(decl).len() == 0
                &&& decl.data matches Data::Struct(Fields::Named(decls))
                &&& info.name == decl.ident
                &&& info.generics == decl.generics
                &&& describe_all(info.fields@, decls@)
            },
            Err(errors) => {
                &&& errors@.len() > 0
                &&& errors@ == declaration_errors(decl)
            },
        },
{
    let Declaration { attrs, ident, generics, data, span } = decl;
    match data {
        Data::Struct(fields) => parse_builder_struct(fields, ident, generics, attrs, span),
        _ => {
            let mut errors = SyntaxErrors::default();
            errors.add(span, "Can only derive `Builder` for a struct");
            assert(errors@ =~= seq![DiagnosticView { span, message: msg_not_a_struct() }]);
            Err(errors)
        },
    }
}

/// Whether the field has exactly one annotation, which is ours and malformed.
pub open spec fn has_one_malformed(decl: FieldDecl) -> bool {
    &&& decl.attrs@.len() == 1
    &&& is_ours(decl.attrs@[0])
    &&& spec_parse_body(decl.attrs@[0].tokens@, decl.attrs@[0].span) is Err
}

/// The annotations of a field that has one malformed annotation yield exactly
/// the error of that annotation.
pub proof fn lemma_one_malformed(decl: FieldDecl)
    requires
        has_one_malformed(decl),
    ensures
        all_errors(decl.attrs@) == seq![
            spec_parse_body(decl.attrs@[0].tokens@, decl.attrs@[0].span)->Err_0,
        ],
{
    let attrs = decl.attrs@;
    assert(attrs.drop_last().len() == 0);
    assert(all_errors(attrs.drop_last()) =~= Seq::<DiagnosticView>::empty());
    assert(attrs.last() == attrs[0]);
    assert(all_errors(attrs) =~= entry_errors(attrs[0]));
}

/// Where every field carries one malformed annotation, the fields yield
/// exactly one error each, in declaration order.
pub proof fn law_one_error_per_malformed_field(fields: Seq<FieldDecl>)
    requires
        forall|i: int| 0 <= i < fields.len() ==> has_one_malformed(#[trigger] fields[i]),
    ensures
        field_errors(fields).len() == fields.len(),
        forall|i: int|
            0 <= i < fields.len() ==> #[trigger] field_errors(fields)[i] == spec_parse_body(
                fields[i].attrs@[0].tokens@,
                fields[i].attrs@[0].span,
            )->Err_0,
    decreases fields.len(),
{
    if fields.len() > 0 {
        let front = fields.drop_last();
        assert forall|i: int| 0 <= i < front.len() implies has_one_malformed(
            #[trigger] front[i],
        ) by {
            assert(front[i] == fields[i]);
        }
        law_one_error_per_malformed_field(front);
        assert(has_one_malformed(fields[fields.len() - 1]));
        lemma_one_malformed(fields.last());
        assert forall|i: int| 0 <= i < fields.len() implies #[trigger] field_errors(fields)[i]
            == spec_parse_body(fields[i].attrs@[0].tokens@, fields[i].attrs@[0].span)->Err_0 by {
            if i < front.len() {
                assert(front[i] == fields[i]);
                assert(field_errors(fields)[i] == field_errors(front)[i]);
            }
        }
    }
}

/// A record with named fields, none of whose own annotations is at fault,
/// fails with exactly the errors of its fields.
pub proof fn law_field_errors_are_reported(decl: Declaration)
    requires
        decl.data matches Data::Struct(Fields::Named(_)),
        record_errors(decl.attrs@).len() == 0,
    ensures
        decl.data matches Data::Struct(Fields::Named(fields)) && declaration_errors(decl)
            == field_errors(fields@),
{
    if let Data::Struct(Fields::Named(fields)) = decl.data {
        assert(record_errors(decl.attrs@) =~= Seq::<DiagnosticView>::empty());
        assert(declaration_errors(decl) =~= field_errors(fields@));
    }
}

/// A declaration that is not a record has exactly one error, located at the
/// declaration, whatever its annotations are.
pub proof fn law_non_record_is_rejected(decl: Declaration)
    requires
        !(decl.data is Struct),
    ensures
        declaration_errors(decl) == seq![
            DiagnosticView { span: decl.span, message: msg_not_a_struct() },
        ],
{
}

/// Every directive on a record with named fields is reported as valid on a
/// field only, however many fields the record has: where the record's own
/// annotations are well formed, the errors of the declaration begin with one
/// error for each of their directives, in order.
pub proof fn law_record_directives_are_rejected(decl: Declaration, j: int)
    requires
        decl.data matches Data::Struct(Fields::Named(_)),
        all_errors(decl.attrs@).len() == 0,
        0 <= j < all_directives(decl.attrs@).len(),
    ensures
        declaration_errors(decl).len() >= all_directives(decl.attrs@).len(),
        declaration_errors(decl)[j] == misplaced(all_directives(decl.attrs@)[j]),
{
}

} // verus!
