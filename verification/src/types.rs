//! The validated description of a record, and the builder made from it.

use crate::attribute::BuilderAttribute;
use crate::declaration::{GenericParam, Generics};
use vstd::prelude::*;

verus! {

/// One field of a validated record.
#[derive(Debug)]
pub struct Field {
    pub name: Option<String>,
    /// The type expression, as it was written.
    pub ty: String,
    /// The directives of the field's annotations, in the order in which they
    /// were written.
    pub directives: Vec<BuilderAttribute>,
}

/// The validated description of one record: what a builder is made from.
#[derive(Debug)]
pub struct BuilderInfo {
    pub name: String,
    pub generics: Generics,
    pub fields: Vec<Field>,
}

/// What the finalizer does with one slot.
#[derive(Clone, Copy, Debug, PartialEq, Eq, Structural)]
pub enum Finalize {
    /// Take the stored value; an empty slot is a failure that cannot be
    /// recovered from.
    Require,
    /// Take the stored value, or the default value of the field's type if the
    /// slot is empty.
    OrDefault,
}

/// One storage slot of a builder: it holds a value of type `ty`, or nothing.
#[derive(Debug)]
pub struct Slot {
    pub name: Option<String>,
    pub ty: String,
}

/// One setter of a builder: it takes a value of any type that converts into
/// `ty`, stores the converted value in the slot at index `slot`, and returns
/// the builder.
#[derive(Debug)]
pub struct Setter {
    pub name: Option<String>,
    pub ty: String,
    pub slot: usize,
}

/// One step of the finalizer: how the field `name` of the record is obtained
/// from the slot at index `slot`.
#[derive(Debug)]
pub struct FinalizerStep {
    pub name: Option<String>,
    pub slot: usize,
    pub finalize: Finalize,
}

/// The definition of the builder of one record.
///
/// The builder is a type named `name`, declared with `generics` and referred
/// to with `arguments`. It has one slot for each field of the record, all of
/// them empty in a new builder. The record gets an associated function named
/// `factory`, which returns a new builder. The builder gets an associated
/// function named `constructor`, which does the same, the setters, and a
/// method named `finalizer`, which turns the builder into the record by taking
/// the `steps` in order.
#[derive(Debug)]
pub struct BuilderDefinition {
    pub record: String,
    pub name: String,
    pub generics: Generics,
    pub arguments: Vec<String>,
    pub factory: String,
    pub constructor: String,
    pub finalizer: String,
    pub slots: Vec<Slot>,
    pub setters: Vec<Setter>,
    pub steps: Vec<FinalizerStep>,
}

/// What is appended to a record's name to name its builder.
pub open spec fn builder_suffix() -> Seq<char> {
    "Builder"@
}

/// Whether the directive at index `j` is `required`.
pub open spec fn required_at(directives: Seq<BuilderAttribute>, j: int) -> bool {
    directives[j] is Required
}

/// Whether one of the directives is `required`.
pub open spec fn is_required(directives: Seq<BuilderAttribute>) -> bool {
    exists|j: int| 0 <= j < directives.len() && #[trigger] required_at(directives, j)
}

/// What the finalizer does with the slot of a field that has these
/// directives.
pub open spec fn finalize_of(directives: Seq<BuilderAttribute>) -> Finalize {
    if is_required(directives) {
        Finalize::Require
    } else {
        Finalize::OrDefault
    }
}

/// Whether the arguments are the names of the parameters, in order.
pub open spec fn names_of(arguments: Seq<String>, params: Seq<GenericParam>) -> bool {
    &&& arguments.len() == params.len()
    &&& forall|i: int| 0 <= i < params.len() ==> #[trigger] arguments[i] == params[i].name
}

/// Whether slot, setter and finalizer step are those of `field`, which is the
/// field at index `i`.
pub open spec fn made_from(
    slot: Slot,
    setter: Setter,
    step: FinalizerStep,
    field: Field,
    i: int,
) -> bool {
    &&& slot.name == field.name
    &&& slot.ty == field.ty
    &&& setter.name == field.name
    &&& setter.ty == field.ty
    &&& setter.slot == i
    &&& step.name == field.name
    &&& step.slot == i
    &&& step.finalize == finalize_of(field.directives@)
}

impl BuilderInfo {
    /// Whether `def` is the definition of the builder of this record.
    pub open spec fn builds(self, def: BuilderDefinition) -> bool {
        &&& def.record == self.name
        &&& def.name@ == self.name@ + builder_suffix()
        &&& def.generics == self.generics
        &&& names_of(def.arguments@, self.generics.params@)
        &&& def.factory@ == "builder"@
        &&& def.constructor@ == "new"@
        &&& def.finalizer@ == "build"@
        &&& def.slots@.len() == self.fields@.len()
        &&& def.setters@.len() == self.fields@.len()
        &&& def.steps@.len() == self.fields@.len()
        &&& forall|i: int|
            #![trigger def.slots@[i]]
            #![trigger def.setters@[i]]
            #![trigger def.steps@[i]]
            #![trigger self.fields@[i]]
            0 <= i < self.fields@.len() ==> made_from(
                def.slots@[i],
                def.setters@[i],
                def.steps@[i],
                self.fields@[i],
                i,
            )
    }

    /// The definition of the builder of this record. It cannot fail.
    pub fn generate_builder(self) -> (def: BuilderDefinition)
        ensures
            self.builds(def),
            def.well_formed(),
    {
        let BuilderInfo { name, generics, fields } = self;
        let mut slots: Vec<Slot> = Vec::new();
        let mut setters: Vec<Setter> = Vec::new();
        let mut steps: Vec<FinalizerStep> = Vec::new();
        let mut i: usize = 0;
        while i < fields.len()
            invariant
                i <= fields.len(),
                slots@.len() == i,
                setters@.len() == i,
                steps@.len() == i,
                forall|k: int|
                    #![trigger slots@[k]]
                    #![trigger setters@[k]]
                    #![trigger steps@[k]]
                    #![trigger fields@[k]]
                    0 <= k < i ==> made_from(slots@[k], setters@[k], steps@[k], fields@[k], k),
            decreases fields.len() - i,
        {
            let field = &fields[i];
            let finalize = if has_required(&field.directives) {
                Finalize::Require
            } else {
                Finalize::OrDefault
            };
            slots.push(Slot { name: clone_name(&field.name), ty: field.ty.clone() });
            setters.push(Setter { name: clone_name(&field.name), ty: field.ty.clone(), slot: i });
            steps.push(FinalizerStep { name: clone_name(&field.name), slot: i, finalize });
            i += 1;
        }
        let arguments = argument_names(&generics.params);
        let builder_name = name.clone().concat("Builder");
        BuilderDefinition {
            record: name,
            name: builder_name,
            generics,
            arguments,
            factory: String::from_str("builder"),
            constructor: String::from_str("new"),
            finalizer: String::from_str("build"),
            slots,
            setters,
            steps,
        }
    }
}

/// Whether one of the directives is `required`.
pub fn has_required(directives: &Vec<BuilderAttribute>) -> (res: bool)
    ensures
        res == is_required(directives@),
{
    let mut i: usize = 0;
    while i < directives.len()
        invariant
            i <= directives.len(),
            forall|j: int| 0 <= j < i ==> !#[trigger] required_at(directives@, j),
        decreases directives.len() - i,
    {
        let found = match directives[i] {
            BuilderAttribute::Required(_) => true,
        };
        if found {
            assert(required_at(directives@, i as int));
            return true;
        }
        i += 1;
    }
    false
}

/// The names of the generic parameters, in order.
pub fn argument_names(params: &Vec<GenericParam>) -> (arguments: Vec<String>)
    ensures
        names_of(arguments@, params@),
{
    let mut arguments: Vec<String> = Vec::new();
    let mut i: usize = 0;
    while i < params.len()
        invariant
            i <= params.len(),
            arguments@.len() == i,
            forall|k: int| 0 <= k < i ==> #[trigger] arguments@[k] == params@[k].name,
        decreases params.len() - i,
    {
        arguments.push(params[i].name.clone());
        i += 1;
    }
    arguments
}

fn clone_name(name: &Option<String>) -> (copy: Option<String>)
    ensures
        copy == *name,
{
    match name {
        Some(name) => Some(name.clone()),
        None => None,
    }
}

} // verus!
