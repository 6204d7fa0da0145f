use traffic_maker::shape::{
    check_pallet, event_derive, get_fields, Attribute, Data, Declaration, DeriveError, EventShape,
    Field, FieldType, FieldValue, Record,
};

fn pallet(name: &str) -> Vec<Attribute> {
    vec![Attribute { name: String::from("pallet"), value: Some(String::from(name)) }]
}

fn field(name: &str, ty: FieldType) -> Field {
    Field { name: String::from(name), ty, ignored: false, default: None }
}

fn ignored_field(name: &str, ty: FieldType, default: Option<FieldValue>) -> Field {
    Field { name: String::from(name), ty, ignored: true, default }
}

fn unit_shape() -> EventShape {
    event_derive(&Declaration {
        name: String::from("UnitEvent"),
        attributes: pallet("Pallet_1"),
        data: Data::Unit,
    })
    .unwrap()
}

fn simple_shape() -> EventShape {
    event_derive(&Declaration {
        name: String::from("SimpleEvent"),
        attributes: pallet("Pallet_2"),
        data: Data::Named(vec![field("f1", FieldType::Text), field("f2", FieldType::Number)]),
    })
    .unwrap()
}

fn complex_shape() -> EventShape {
    event_derive(&Declaration {
        name: String::from("ComplexEvent"),
        attributes: pallet("Pallet_3"),
        data: Data::Named(vec![
            field("f1", FieldType::Number),
            field("f2", FieldType::Number),
            ignored_field("f3", FieldType::Number, None),
            ignored_field("result", FieldType::Outcome, Some(FieldValue::Outcome(Ok(())))),
        ]),
    })
    .unwrap()
}

fn unit_event() -> Record {
    Record {
        pallet: String::from("Pallet_1"),
        variant: String::from("UnitEvent"),
        relevant: vec![],
        ignored: vec![],
    }
}

fn simple_event(f1: &str, f2: u128) -> Record {
    Record {
        pallet: String::from("Pallet_2"),
        variant: String::from("SimpleEvent"),
        relevant: vec![FieldValue::Text(String::from(f1)), FieldValue::Number(f2)],
        ignored: vec![],
    }
}

fn complex_event(f1: u32, f2: u32, f3: u32, result: Result<(), ()>) -> Record {
    Record {
        pallet: String::from("Pallet_3"),
        variant: String::from("ComplexEvent"),
        relevant: vec![FieldValue::Number(f1 as u128), FieldValue::Number(f2 as u128)],
        ignored: vec![FieldValue::Number(f3 as u128), FieldValue::Outcome(result)],
    }
}

#[test]
fn generates_kind_properly() {
    let event = unit_event();
    assert_eq!(("Pallet_1", "UnitEvent"), event.kind());
    assert_eq!(("Pallet_1", "UnitEvent"), unit_shape().from_relevant_fields(vec![]).kind());

    let event = simple_event("", 0);
    assert_eq!(("Pallet_2", "SimpleEvent"), event.kind());
    assert_eq!(
        ("Pallet_2", "SimpleEvent"),
        simple_shape()
            .from_relevant_fields(vec![FieldValue::Text(String::new()), FieldValue::Number(0)])
            .kind()
    );

    let event = complex_event(1, 2, 3, Ok(()));
    assert_eq!(("Pallet_3", "ComplexEvent"), event.kind());
    assert_eq!(
        ("Pallet_3", "ComplexEvent"),
        complex_shape()
            .from_relevant_fields(vec![FieldValue::Number(1), FieldValue::Number(2)])
            .kind()
    );
}

#[test]
fn generates_matches_for_unit_event() {
    let event1 = unit_event();
    let event2 = unit_event();
    assert!(event1.matches(&event2));
}

#[test]
fn generates_matches_for_simple_event_positive_check() {
    let event1 = simple_event("a", 10);
    let event2 = simple_event("a", 10);

    assert!(event1.matches(&event2));
}

#[test]
fn generates_matches_for_simple_event_negative_check() {
    let event1 = simple_event("a", 10);
    let event2 = simple_event("a", 11);

    assert!(!event1.matches(&event2));
}

#[test]
fn generates_matches_for_complex_event_positive_check_with_identical_args() {
    let event1 = complex_event(1, 2, 3, Ok(()));
    let event2 = complex_event(1, 2, 3, Ok(()));

    assert!(event1.matches(&event2));
}

#[test]
fn generates_matches_for_complex_event_positive_check_with_almost_identical_args() {
    let event1 = complex_event(1, 2, 3, Ok(()));
    let event2 = complex_event(1, 2, 4, Ok(()));

    assert!(event1.matches(&event2));
}

#[test]
fn generates_matches_for_complex_event_negative_check() {
    let event1 = complex_event(1, 2, 3, Ok(()));
    let event2 = complex_event(0, 2, 3, Ok(()));

    assert!(!event1.matches(&event2));
}

#[test]
fn generates_constructor_for_unit_event() {
    let _ = unit_shape().from_relevant_fields(vec![]);
}

#[test]
fn generates_constructor_for_simple_event() {
    let event = simple_shape()
        .from_relevant_fields(vec![FieldValue::Text(String::from("b")), FieldValue::Number(10)]);
    assert_eq!(event, simple_event("b", 10));
}

#[test]
fn generates_constructor_for_complex_event() {
    let event =
        complex_shape().from_relevant_fields(vec![FieldValue::Number(1), FieldValue::Number(2)]);
    assert_eq!(event, complex_event(1, 2, 0, Ok(())));
}

#[test]
fn events_of_different_kinds_never_match() {
    let simple = simple_event("a", 10);
    let other = Record {
        pallet: String::from("Pallet_9"),
        variant: String::from("SimpleEvent"),
        relevant: vec![FieldValue::Text(String::from("a")), FieldValue::Number(10)],
        ignored: vec![],
    };
    assert!(!simple.matches(&other));
    assert!(!unit_event().matches(&simple));
}

#[test]
fn ignored_fields_count_for_equality_but_not_for_matching() {
    let event1 = complex_event(1, 2, 3, Ok(()));
    let event2 = complex_event(1, 2, 3, Err(()));
    assert!(event1.matches(&event2));
    assert!(event1 != event2);
}

#[test]
fn fields_are_told_apart_in_their_order() {
    let declaration = Declaration {
        name: String::from("Mixed"),
        attributes: pallet("Pallet_4"),
        data: Data::Named(vec![
            ignored_field("when", FieldType::Number, None),
            field("who", FieldType::Bytes),
            ignored_field("how", FieldType::Outcome, None),
            field("what", FieldType::Text),
        ]),
    };
    let fields = get_fields(&declaration).unwrap();
    let relevant: Vec<&str> = fields.relevant.iter().map(|f| f.name.as_str()).collect();
    let ignored: Vec<&str> = fields.ignored.iter().map(|f| f.name.as_str()).collect();
    assert_eq!(relevant, vec!["who", "what"]);
    assert_eq!(ignored, vec!["when", "how"]);
}

#[test]
fn stand_ins_follow_the_type_of_the_field() {
    let shape = event_derive(&Declaration {
        name: String::from("Defaults"),
        attributes: pallet("Pallet_5"),
        data: Data::Named(vec![
            ignored_field("n", FieldType::Number, None),
            ignored_field("t", FieldType::Text, None),
            ignored_field("b", FieldType::Bytes, None),
            ignored_field("o", FieldType::Outcome, None),
            ignored_field("given", FieldType::Number, Some(FieldValue::Number(7))),
        ]),
    })
    .unwrap();
    let event = shape.from_relevant_fields(vec![]);
    assert_eq!(
        event.ignored,
        vec![
            FieldValue::Number(0),
            FieldValue::Text(String::new()),
            FieldValue::Bytes(vec![]),
            FieldValue::Outcome(Ok(())),
            FieldValue::Number(7),
        ]
    );
}

#[test]
fn pallet_is_read_from_the_first_attribute_of_that_name() {
    let declaration = Declaration {
        name: String::from("Twice"),
        attributes: vec![
            Attribute { name: String::from("doc"), value: Some(String::from("text")) },
            Attribute { name: String::from("pallet"), value: Some(String::from("First")) },
            Attribute { name: String::from("pallet"), value: Some(String::from("Second")) },
        ],
        data: Data::Unit,
    };
    assert_eq!(check_pallet(&declaration), Ok(String::from("First")));
}

#[test]
fn declarations_that_cannot_be_read_are_turned_down() {
    let no_pallet = Declaration {
        name: String::from("Nameless"),
        attributes: vec![],
        data: Data::Unit,
    };
    assert_eq!(event_derive(&no_pallet).err(), Some(DeriveError::MissingPallet));

    let bad_pallet = Declaration {
        name: String::from("Odd"),
        attributes: vec![Attribute { name: String::from("pallet"), value: None }],
        data: Data::Unit,
    };
    assert_eq!(event_derive(&bad_pallet).err(), Some(DeriveError::InvalidPallet));

    let unnamed = Declaration {
        name: String::from("Tuple"),
        attributes: pallet("Pallet_6"),
        data: Data::Unnamed,
    };
    assert_eq!(event_derive(&unnamed).err(), Some(DeriveError::UnnamedFields));
    assert_eq!(
        DeriveError::UnnamedFields.message(),
        "❌ Currently, structs with unnamed fields are not supported."
    );

    let not_a_struct = Declaration {
        name: String::from("Choice"),
        attributes: pallet("Pallet_7"),
        data: Data::NotAStruct,
    };
    assert_eq!(event_derive(&not_a_struct).err(), Some(DeriveError::UnexpectedData));
    assert_eq!(
        DeriveError::UnexpectedData.message(),
        "❌ Only structs can derive from `Event`."
    );
}
