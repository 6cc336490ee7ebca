use builder_core::attribute::BuilderAttribute;
use builder_core::declaration::{GenericParam, Generics};
use builder_core::span::Span;
use builder_core::types::{
    argument_names, has_required, BuilderDefinition, BuilderInfo, Field, Finalize,
};

fn plain(name: &str, ty: &str) -> Field {
    Field { name: Some(name.to_string()), ty: ty.to_string(), directives: vec![] }
}

fn required(name: &str, ty: &str) -> Field {
    Field {
        name: Some(name.to_string()),
        ty: ty.to_string(),
        directives: vec![BuilderAttribute::Required(Span::new(0, 8))],
    }
}

fn describe(name: &str, params: Vec<GenericParam>, fields: Vec<Field>) -> BuilderDefinition {
    BuilderInfo { name: name.to_string(), generics: Generics { params, where_clause: None }, fields }
        .generate_builder()
}

#[test]
fn has_required_tells_directives_apart() {
    assert!(!has_required(&vec![]));
    assert!(has_required(&vec![BuilderAttribute::Required(Span::new(1, 2))]));
    assert!(has_required(&vec![
        BuilderAttribute::Required(Span::new(1, 2)),
        BuilderAttribute::Required(Span::new(3, 4)),
    ]));
}

#[test]
fn argument_names_follow_the_parameters() {
    let params = vec![
        GenericParam { name: "'a".to_string(), decl: "'a".to_string() },
        GenericParam { name: "T".to_string(), decl: "T: Clone + 'a".to_string() },
        GenericParam { name: "N".to_string(), decl: "const N: usize".to_string() },
    ];
    assert_eq!(argument_names(&params), vec!["'a", "T", "N"]);
    assert!(argument_names(&vec![]).is_empty());
}

#[test]
fn builder_is_named_after_the_record() {
    let def = describe("Config", vec![], vec![]);
    assert_eq!(def.record, "Config");
    assert_eq!(def.name, "ConfigBuilder");
    assert_eq!(def.factory, "builder");
    assert_eq!(def.constructor, "new");
    assert_eq!(def.finalizer, "build");
    assert!(def.slots.is_empty());
    assert!(def.setters.is_empty());
    assert!(def.steps.is_empty());
    assert!(def.arguments.is_empty());
}

#[test]
fn one_slot_setter_and_step_per_field() {
    let def = describe(
        "Config",
        vec![],
        vec![required("host", "String"), plain("retries", "u16"), plain("tags", "Vec<String>")],
    );
    assert_eq!(def.slots.len(), 3);
    assert_eq!(def.setters.len(), 3);
    assert_eq!(def.steps.len(), 3);
    let names = ["host", "retries", "tags"];
    let types = ["String", "u16", "Vec<String>"];
    for i in 0..3 {
        assert_eq!(def.slots[i].name.as_deref(), Some(names[i]));
        assert_eq!(def.slots[i].ty, types[i]);
        assert_eq!(def.setters[i].name.as_deref(), Some(names[i]));
        assert_eq!(def.setters[i].ty, types[i]);
        assert_eq!(def.setters[i].slot, i);
        assert_eq!(def.steps[i].name.as_deref(), Some(names[i]));
        assert_eq!(def.steps[i].slot, i);
    }
}

#[test]
fn required_changes_the_finalizer_only() {
    let def = describe("Config", vec![], vec![required("host", "String"), plain("retries", "u16")]);
    assert_eq!(def.steps[0].finalize, Finalize::Require);
    assert_eq!(def.steps[1].finalize, Finalize::OrDefault);
    assert_eq!(def.slots[0].ty, "String");
    assert_eq!(def.setters[0].ty, "String");
}

#[test]
fn field_without_name_is_carried_through() {
    let def = describe(
        "Odd",
        vec![],
        vec![Field { name: None, ty: "u8".to_string(), directives: vec![] }],
    );
    assert_eq!(def.slots[0].name, None);
    assert_eq!(def.setters[0].name, None);
    assert_eq!(def.steps[0].name, None);
}

#[test]
fn generics_are_copied_and_named_as_arguments() {
    let info = BuilderInfo {
        name: "Wrapper".to_string(),
        generics: Generics {
            params: vec![
                GenericParam { name: "T".to_string(), decl: "T: Default".to_string() },
                GenericParam { name: "U".to_string(), decl: "U".to_string() },
            ],
            where_clause: Some("where U: Clone".to_string()),
        },
        fields: vec![plain("inner", "T"), plain("other", "U")],
    };
    let def = info.generate_builder();
    assert_eq!(def.name, "WrapperBuilder");
    assert_eq!(def.generics.params.len(), 2);
    assert_eq!(def.generics.params[0].name, "T");
    assert_eq!(def.generics.params[0].decl, "T: Default");
    assert_eq!(def.generics.params[1].name, "U");
    assert_eq!(def.generics.params[1].decl, "U");
    assert_eq!(def.generics.where_clause.as_deref(), Some("where U: Clone"));
    assert_eq!(def.arguments, vec!["T", "U"]);
    assert_eq!(def.slots[0].ty, "T");
    assert_eq!(def.setters[0].ty, "T");
}

#[test]
fn generated_definition_is_well_formed() {
    let mut def = describe("Config", vec![], vec![required("host", "String"), plain("size", "u16")]);
    assert!(def.is_well_formed());
    def.setters[1].slot = 0;
    assert!(!def.is_well_formed());
    def.setters[1].slot = 1;
    def.steps.pop();
    assert!(!def.is_well_formed());
    assert!(describe("Empty", vec![], vec![]).is_well_formed());
}

#[test]
fn new_builder_has_only_empty_slots() {
    let def = describe("Config", vec![], vec![required("host", "String"), plain("retries", "u16")]);
    let state: Vec<Option<i64>> = def.new_state();
    assert_eq!(state, vec![None, None]);
}

#[test]
fn build_right_after_new_yields_defaults() {
    let def = describe(
        "Config",
        vec![],
        vec![plain("a", "i64"), plain("b", "i64"), plain("c", "i64")],
    );
    let state: Vec<Option<i64>> = def.new_state();
    let defaults = vec![0, -1, 42];
    assert!(!def.fails(&state));
    assert_eq!(def.build(&state, &defaults), vec![0, -1, 42]);
    assert_eq!(def.try_build(&state, &defaults), Some(vec![0, -1, 42]));
}

#[test]
fn build_of_record_without_fields() {
    let def = describe("Empty", vec![], vec![]);
    let state: Vec<Option<u8>> = def.new_state();
    assert_eq!(def.try_build(&state, &vec![]), Some(vec![]));
}

#[test]
fn setters_commute() {
    let def = describe("Pair", vec![], vec![plain("a", "i64"), plain("b", "i64")]);
    let defaults = vec![0, 0];
    let mut ab: Vec<Option<i64>> = def.new_state();
    def.set(&mut ab, 0, 7);
    def.set(&mut ab, 1, 9);
    let mut ba: Vec<Option<i64>> = def.new_state();
    def.set(&mut ba, 1, 9);
    def.set(&mut ba, 0, 7);
    assert_eq!(ab, ba);
    assert_eq!(def.build(&ab, &defaults), vec![7, 9]);
    assert_eq!(def.build(&ba, &defaults), vec![7, 9]);
}

#[test]
fn setter_changes_its_own_slot_only() {
    let def = describe(
        "Triple",
        vec![],
        vec![plain("a", "i64"), plain("b", "i64"), plain("c", "i64")],
    );
    let mut state: Vec<Option<i64>> = def.new_state();
    def.set(&mut state, 1, 5);
    assert_eq!(state, vec![None, Some(5), None]);
    def.set(&mut state, 1, 6);
    assert_eq!(state, vec![None, Some(6), None]);
    assert_eq!(def.build(&state, &vec![10, 20, 30]), vec![10, 6, 30]);
}

#[test]
fn required_field_unset_fails_and_set_succeeds() {
    let def = describe("Config", vec![], vec![required("host", "str"), plain("retries", "str")]);
    let defaults = vec!["", "3"];
    let mut state: Vec<Option<&str>> = def.new_state();
    assert!(def.fails(&state));
    assert_eq!(def.try_build(&state, &defaults), None);
    def.set(&mut state, 1, "5");
    assert!(def.fails(&state));
    assert_eq!(def.try_build(&state, &defaults), None);
    def.set(&mut state, 0, "localhost");
    assert!(!def.fails(&state));
    assert_eq!(def.build(&state, &defaults), vec!["localhost", "5"]);
}

#[test]
fn required_field_never_takes_the_default() {
    let def = describe("One", vec![], vec![required("only", "i64")]);
    let mut state: Vec<Option<i64>> = def.new_state();
    assert_eq!(def.try_build(&state, &vec![99]), None);
    def.set(&mut state, 0, 1);
    assert_eq!(def.try_build(&state, &vec![99]), Some(vec![1]));
}

#[test]
fn generic_field_holds_exactly_the_value_supplied() {
    let def = describe(
        "Wrapper",
        vec![GenericParam { name: "T".to_string(), decl: "T".to_string() }],
        vec![plain("inner", "T")],
    );
    assert_eq!(def.arguments, vec!["T"]);
    assert_eq!(def.generics.params[0].decl, "T");
    let mut state: Vec<Option<(u8, char)>> = def.new_state();
    def.set(&mut state, 0, (3, 'x'));
    assert_eq!(def.build(&state, &vec![(0, ' ')]), vec![(3, 'x')]);
}
