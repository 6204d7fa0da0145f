//! Events described by their shape.
//!
//! Most events are plain structures with a pallet, a name and named fields, some of which
//! a scenario cannot foresee. Instead of writing each such event out, one can declare its
//! shape: from the declaration come the kind of the event, the rule by which two events
//! of the shape match, and the way to make one from the fields that matter.

use vstd::prelude::*;
use vstd::string::*;

verus! {

/// What can go wrong when a shape is made from a declaration.
#[derive(Debug, Clone, Copy, PartialEq, Eq, Structural)]
pub enum DeriveError {
    /// The declaration is not that of a structure.
    UnexpectedData,
    /// The fields of the structure have no names.
    UnnamedFields,
    /// The declaration does not say which pallet emits the event.
    MissingPallet,
    /// The declaration names the pallet in a form that cannot be read.
    InvalidPallet,
}

impl DeriveError {
    /// The line by which the error is reported.
    pub open spec fn spec_message(&self) -> Seq<char> {
        match self {
            DeriveError::UnexpectedData => "❌ Only structs can derive from `Event`."@,
            DeriveError::UnnamedFields => "❌ Currently, structs with unnamed fields are not supported."@,
            DeriveError::MissingPallet => "Struct should have exactly one `pallet` attribute"@,
            DeriveError::InvalidPallet => "Invalid `pallet` attribute"@,
        }
    }

    /// The line by which the error is reported.
    pub fn message(&self) -> (text: String)
        ensures
            text@ == self.spec_message(),
    {
        match self {
            DeriveError::UnexpectedData => String::from_str(
                "❌ Only structs can derive from `Event`.",
            ),
            DeriveError::UnnamedFields => String::from_str(
                "❌ Currently, structs with unnamed fields are not supported.",
            ),
            DeriveError::MissingPallet => String::from_str(
                "Struct should have exactly one `pallet` attribute",
            ),
            DeriveError::InvalidPallet => String::from_str("Invalid `pallet` attribute"),
        }
    }
}

/// What a field holds, as plain mathematics.
pub enum ValueModel {
    /// A number.
    Number(u128),
    /// A text.
    Text(Seq<char>),
    /// Some bytes.
    Bytes(Seq<u8>),
    /// Whether a call went through.
    Outcome(bool),
}

/// What a field holds.
#[derive(Debug)]
pub enum FieldValue {
    /// A number.
    Number(u128),
    /// A text.
    Text(String),
    /// Some bytes, such as an account or a hash.
    Bytes(Vec<u8>),
    /// How a call ended.
    Outcome(Result<(), ()>),
}

impl View for FieldValue {
    type V = ValueModel;

    open spec fn view(&self) -> ValueModel {
        match self {
            FieldValue::Number(number) => ValueModel::Number(*number),
            FieldValue::Text(text) => ValueModel::Text(text@),
            FieldValue::Bytes(bytes) => ValueModel::Bytes(bytes@),
            FieldValue::Outcome(outcome) => ValueModel::Outcome(outcome is Ok),
        }
    }
}

/// Whether two vectors hold the same bytes.
pub fn same_bytes(left: &Vec<u8>, right: &Vec<u8>) -> (same: bool)
    ensures
        same == (left@ == right@),
{
    if left.len() != right.len() {
        return false;
    }
    let mut i: usize = 0;
    while i < left.len()
        invariant
            i <= left@.len(),
            left@.len() == right@.len(),
            forall|j: int| 0 <= j < i ==> left@[j] == right@[j],
        decreases left@.len() - i,
    {
        if left[i] != right[i] {
            return false;
        }
        i = i + 1;
    }
    assert(left@ =~= right@);
    true
}

impl FieldValue {
    /// Whether `other` holds the same.
    pub fn same(&self, other: &FieldValue) -> (same: bool)
        ensures
            same == (self@ == other@),
    {
        match (self, other) {
            (FieldValue::Number(left), FieldValue::Number(right)) => *left == *right,
            (FieldValue::Text(left), FieldValue::Text(right)) => *left == *right,
            (FieldValue::Bytes(left), FieldValue::Bytes(right)) => same_bytes(left, right),
            (FieldValue::Outcome(left), FieldValue::Outcome(right)) => left.is_ok()
                == right.is_ok(),
            _ => false,
        }
    }
}

impl Clone for FieldValue {
    fn clone(&self) -> (copy: Self)
        ensures
            copy@ == self@,
    {
        match self {
            FieldValue::Number(number) => FieldValue::Number(*number),
            FieldValue::Text(text) => FieldValue::Text(text.clone()),
            FieldValue::Bytes(bytes) => {
                let mut copy: Vec<u8> = Vec::new();
                let mut i: usize = 0;
                while i < bytes.len()
                    invariant
                        i <= bytes@.len(),
                        copy@ == bytes@.take(i as int),
                    decreases bytes@.len() - i,
                {
                    copy.push(bytes[i]);
                    assert(copy@ =~= bytes@.take(i + 1));
                    i = i + 1;
                }
                assert(copy@ =~= bytes@);
                FieldValue::Bytes(copy)
            },
            FieldValue::Outcome(outcome) => FieldValue::Outcome(
                match outcome {
                    Ok(()) => Ok(()),
                    Err(()) => Err(()),
                },
            ),
        }
    }
}

impl PartialEq for FieldValue {
    fn eq(&self, other: &Self) -> (same: bool) {
        self.same(other)
    }
}

impl vstd::std_specs::cmp::PartialEqSpecImpl for FieldValue {
    open spec fn obeys_eq_spec() -> bool {
        true
    }

    open spec fn eq_spec(&self, other: &Self) -> bool {
        self@ == other@
    }
}

/// What kind of value a field holds.
#[derive(Debug, Clone, Copy, PartialEq, Eq, Structural)]
pub enum FieldType {
    /// A number.
    Number,
    /// A text.
    Text,
    /// Some bytes.
    Bytes,
    /// How a call ended.
    Outcome,
}

impl FieldType {
    /// The value that stands in for one that is not given: zero, the empty text, no
    /// bytes, and a call that went through.
    pub open spec fn spec_default(self) -> ValueModel {
        match self {
            FieldType::Number => ValueModel::Number(0),
            FieldType::Text => ValueModel::Text(Seq::empty()),
            FieldType::Bytes => ValueModel::Bytes(Seq::empty()),
            FieldType::Outcome => ValueModel::Outcome(true),
        }
    }

    /// The value that stands in for one that is not given.
    pub fn default_value(self) -> (value: FieldValue)
        ensures
            value@ == self.spec_default(),
    {
        match self {
            FieldType::Number => FieldValue::Number(0),
            FieldType::Text => FieldValue::Text(String::new()),
            FieldType::Bytes => FieldValue::Bytes(Vec::new()),
            FieldType::Outcome => FieldValue::Outcome(Ok(())),
        }
    }
}

/// One named field of a declared event.
#[derive(Debug)]
pub struct Field {
    /// The name of the field.
    pub name: String,
    /// What kind of value it holds.
    pub ty: FieldType,
    /// Whether the field takes no part in matching.
    pub ignored: bool,
    /// What an ignored field holds in an expected event, if not the usual stand-in.
    pub default: Option<FieldValue>,
}

impl Field {
    /// What the field holds in an event that is made from the fields that matter.
    pub open spec fn stand_in(&self) -> ValueModel {
        match self.default {
            Some(value) => value@,
            None => self.ty.spec_default(),
        }
    }
}

/// The fields of a declared event, those that take part in matching apart from those
/// that do not, each group in the order of declaration.
#[derive(Debug)]
pub struct Fields {
    /// The fields that take part in matching.
    pub relevant: Vec<Field>,
    /// The fields that take no part in matching.
    pub ignored: Vec<Field>,
}

/// What is declared besides the fields: a name, and a value or none.
#[derive(Debug)]
pub struct Attribute {
    /// The name of the attribute.
    pub name: String,
    /// The text that the attribute is set to, if it is set to a text.
    pub value: Option<String>,
}

/// What kind of thing is declared.
#[derive(Debug)]
pub enum Data {
    /// A structure with named fields.
    Named(Vec<Field>),
    /// A structure without fields.
    Unit,
    /// A structure whose fields have no names.
    Unnamed,
    /// Something else than a structure.
    NotAStruct,
}

/// The declaration of an event.
#[derive(Debug)]
pub struct Declaration {
    /// The name of the event's variant.
    pub name: String,
    /// The attributes, in the order of declaration.
    pub attributes: Vec<Attribute>,
    /// What is declared.
    pub data: Data,
}

/// Whether the first attribute named `pallet` stands at place `i`.
pub open spec fn pallet_at(attributes: Seq<Attribute>, i: int) -> bool {
    &&& 0 <= i < attributes.len()
    &&& attributes[i].name@ == "pallet"@
    &&& forall|j: int| 0 <= j < i ==> attributes[j].name@ != "pallet"@
}

/// Reads from the declaration which pallet emits the event: the text that the first
/// attribute named `pallet` is set to. Further such attributes are not looked at.
pub fn check_pallet(input: &Declaration) -> (outcome: Result<String, DeriveError>)
    ensures
        (forall|j: int| 0 <= j < input.attributes@.len() ==> input.attributes@[j].name@
            != "pallet"@) ==> outcome == Err::<String, DeriveError>(DeriveError::MissingPallet),
        forall|i: int|
            pallet_at(input.attributes@, i) ==> match input.attributes@[i].value {
                Some(text) => outcome is Ok && outcome->Ok_0@ == text@,
                None => outcome == Err::<String, DeriveError>(DeriveError::InvalidPallet),
            },
{
    let mut i: usize = 0;
    while i < input.attributes.len()
        invariant
            i <= input.attributes@.len(),
            forall|j: int| 0 <= j < i ==> input.attributes@[j].name@ != "pallet"@,
        decreases input.attributes@.len() - i,
    {
        let attribute = &input.attributes[i];
        let wanted = String::from_str("pallet");
        if attribute.name == wanted {
            assert forall|k: int| pallet_at(input.attributes@, k) implies k == i by {}
            return match &attribute.value {
                Some(text) => Ok(text.clone()),
                None => Err(DeriveError::InvalidPallet),
            };
        }
        i = i + 1;
    }
    assert forall|k: int| pallet_at(input.attributes@, k) implies false by {}
    Err(DeriveError::MissingPallet)
}

impl Clone for Field {
    fn clone(&self) -> (copy: Self)
        ensures
            copy.name@ == self.name@,
            copy.ty == self.ty,
            copy.ignored == self.ignored,
            copy.stand_in() == self.stand_in(),
            copy.default is Some <==> self.default is Some,
    {
        Field {
            name: self.name.clone(),
            ty: self.ty,
            ignored: self.ignored,
            default: match &self.default {
                Some(value) => Some(value.clone()),
                None => None,
            },
        }
    }
}

/// Whether `copy` says of a field what `field` says.
pub open spec fn same_field(copy: Field, field: Field) -> bool {
    &&& copy.name@ == field.name@
    &&& copy.ty == field.ty
    &&& copy.ignored == field.ignored
    &&& copy.stand_in() == field.stand_in()
}

/// Whether `part` is made of those of `declared` that are ignored, or of those that are
/// not, in their order: `places` tells where each stands in `declared`.
pub open spec fn selected(part: Seq<Field>, declared: Seq<Field>, ignored: bool, places: Seq<int>) -> bool {
    &&& places.len() == part.len()
    &&& forall|i: int|
        0 <= i < part.len() ==> 0 <= #[trigger] places[i] < declared.len() && same_field(
            part[i],
            declared[places[i]],
        ) && part[i].ignored == ignored
    &&& forall|i: int, j: int| 0 <= i < j < places.len() ==> places[i] < places[j]
    &&& forall|k: int|
        0 <= k < declared.len() && declared[k].ignored == ignored ==> exists|i: int|
            0 <= i < places.len() && #[trigger] places[i] == k
}

/// Tells the fields of a declared structure apart: those that take part in matching and
/// those that do not. A structure without fields has none of either; anything that is
/// not a structure with named fields or without fields is turned down.
pub fn get_fields(ast: &Declaration) -> (outcome: Result<Fields, DeriveError>)
    ensures
        ast.data is Named ==> outcome is Ok && exists|relevant: Seq<int>, ignored: Seq<int>|
            #![trigger selected(outcome->Ok_0.relevant@, ast.data->Named_0@, false, relevant), selected(outcome->Ok_0.ignored@, ast.data->Named_0@, true, ignored)]
            selected(outcome->Ok_0.relevant@, ast.data->Named_0@, false, relevant) && selected(
                outcome->Ok_0.ignored@,
                ast.data->Named_0@,
                true,
                ignored,
            ),
        ast.data is Unit ==> outcome is Ok && outcome->Ok_0.relevant@.len() == 0
            && outcome->Ok_0.ignored@.len() == 0,
        ast.data is Unnamed ==> outcome == Err::<Fields, DeriveError>(DeriveError::UnnamedFields),
        ast.data is NotAStruct ==> outcome == Err::<Fields, DeriveError>(
            DeriveError::UnexpectedData,
        ),
{
    match &ast.data {
        Data::NotAStruct => Err(DeriveError::UnexpectedData),
        Data::Unnamed => Err(DeriveError::UnnamedFields),
        Data::Unit => Ok(Fields { relevant: Vec::new(), ignored: Vec::new() }),
        Data::Named(declared) => {
            let mut relevant: Vec<Field> = Vec::new();
            let mut ignored: Vec<Field> = Vec::new();
            let ghost mut relevant_places: Seq<int> = Seq::empty();
            let ghost mut ignored_places: Seq<int> = Seq::empty();
            let mut k: usize = 0;
            while k < declared.len()
                invariant
                    k <= declared@.len(),
                    selected(relevant@, declared@.take(k as int), false, relevant_places),
                    selected(ignored@, declared@.take(k as int), true, ignored_places),
                decreases declared@.len() - k,
            {
                let field = declared[k].clone();
                let ghost before = declared@.take(k as int);
                let ghost after = declared@.take(k + 1);
                let ghost old_relevant = relevant_places;
                let ghost old_ignored = ignored_places;
                let ghost old_relevant_part = relevant@;
                let ghost old_ignored_part = ignored@;
                let is_ignored = field.ignored;
                if is_ignored {
                    ignored.push(field);
                    proof {
                        ignored_places = ignored_places.push(k as int);
                    }
                } else {
                    relevant.push(field);
                    proof {
                        relevant_places = relevant_places.push(k as int);
                    }
                }
                proof {
                    assert forall|i: int| 0 <= i < before.len() implies after[i] == before[i] by {}
                    assert forall|j: int|
                        0 <= j < after.len() && after[j].ignored == false implies exists|i: int|
                        0 <= i < relevant_places.len() && #[trigger] relevant_places[i] == j by {
                        if j < k {
                            assert(before[j].ignored == false);
                            let i = choose|i: int|
                                0 <= i < old_relevant.len() && #[trigger] old_relevant[i] == j;
                            assert(relevant_places[i] == j);
                        } else {
                            assert(relevant_places[relevant_places.len() - 1] == j);
                        }
                    }
                    assert forall|j: int|
                        0 <= j < after.len() && after[j].ignored == true implies exists|i: int|
                        0 <= i < ignored_places.len() && #[trigger] ignored_places[i] == j by {
                        if j < k {
                            assert(before[j].ignored == true);
                            let i = choose|i: int|
                                0 <= i < old_ignored.len() && #[trigger] old_ignored[i] == j;
                            assert(ignored_places[i] == j);
                        } else {
                            assert(ignored_places[ignored_places.len() - 1] == j);
                        }
                    }
                    assert forall|i: int| 0 <= i < relevant@.len() implies 0
                        <= #[trigger] relevant_places[i] < after.len() && same_field(
                        relevant@[i],
                        after[relevant_places[i]],
                    ) && relevant@[i].ignored == false by {
                        if i < old_relevant_part.len() {
                            assert(relevant@[i] == old_relevant_part[i]);
                            assert(0 <= old_relevant[i] < before.len());
                        }
                    }
                    assert forall|i: int| 0 <= i < ignored@.len() implies 0
                        <= #[trigger] ignored_places[i] < after.len() && same_field(
                        ignored@[i],
                        after[ignored_places[i]],
                    ) && ignored@[i].ignored == true by {
                        if i < old_ignored_part.len() {
                            assert(ignored@[i] == old_ignored_part[i]);
                            assert(0 <= old_ignored[i] < before.len());
                        }
                    }
                    assert forall|i: int, j: int|
                        0 <= i < j < relevant_places.len() implies relevant_places[i]
                        < relevant_places[j] by {
                        assert(0 <= old_relevant[i] < before.len());
                    }
                    assert forall|i: int, j: int|
                        0 <= i < j < ignored_places.len() implies ignored_places[i]
                        < ignored_places[j] by {
                        assert(0 <= old_ignored[i] < before.len());
                    }
                }
                k = k + 1;
            }
            assert(declared@.take(declared@.len() as int) =~= declared@);
            let outcome: Result<Fields, DeriveError> = Ok(Fields { relevant, ignored });
            assert(selected(outcome->Ok_0.relevant@, ast.data->Named_0@, false, relevant_places));
            assert(selected(outcome->Ok_0.ignored@, ast.data->Named_0@, true, ignored_places));
            outcome
        },
    }
}

/// The shape of an event: what a declaration comes to.
#[derive(Debug)]
pub struct EventShape {
    /// The pallet that emits the event.
    pub pallet: String,
    /// The name of the event's variant.
    pub variant: String,
    /// The fields of the event.
    pub fields: Fields,
}

/// Makes the shape of an event from its declaration. The pallet is read first, then the
/// fields; the first thing that cannot be read decides the error.
pub fn event_derive(input: &Declaration) -> (outcome: Result<EventShape, DeriveError>)
    ensures
        outcome is Ok ==> outcome->Ok_0.variant@ == input.name@ && (input.data is Named
            || input.data is Unit) && exists|i: int|
            #[trigger] pallet_at(input.attributes@, i) && input.attributes@[i].value is Some
                && outcome->Ok_0.pallet@ == input.attributes@[i].value->Some_0@,
        outcome is Ok && input.data is Unit ==> outcome->Ok_0.fields.relevant@.len() == 0
            && outcome->Ok_0.fields.ignored@.len() == 0,
        outcome is Ok && input.data is Named ==> exists|relevant: Seq<int>, ignored: Seq<int>|
            #![trigger selected(outcome->Ok_0.fields.relevant@, input.data->Named_0@, false, relevant), selected(outcome->Ok_0.fields.ignored@, input.data->Named_0@, true, ignored)]
            selected(outcome->Ok_0.fields.relevant@, input.data->Named_0@, false, relevant)
                && selected(outcome->Ok_0.fields.ignored@, input.data->Named_0@, true, ignored),
        (forall|j: int| 0 <= j < input.attributes@.len() ==> input.attributes@[j].name@
            != "pallet"@) ==> outcome == Err::<EventShape, DeriveError>(
            DeriveError::MissingPallet,
        ),
        forall|i: int|
            pallet_at(input.attributes@, i) ==> {
                &&& input.attributes@[i].value is None ==> outcome == Err::<
                    EventShape,
                    DeriveError,
                >(DeriveError::InvalidPallet)
                &&& input.attributes@[i].value is Some ==> {
                    &&& input.data is Unnamed ==> outcome == Err::<EventShape, DeriveError>(
                        DeriveError::UnnamedFields,
                    )
                    &&& input.data is NotAStruct ==> outcome == Err::<EventShape, DeriveError>(
                        DeriveError::UnexpectedData,
                    )
                    &&& (input.data is Named || input.data is Unit) ==> outcome is Ok
                }
            },
{
    let pallet = match check_pallet(input) {
        Ok(pallet) => pallet,
        Err(error) => {
            return Err(error);
        },
    };
    proof {
        if forall|j: int|
            0 <= j < input.attributes@.len() ==> input.attributes@[j].name@ != "pallet"@ {
            assert(false);
        }
        let j = choose|j: int|
            0 <= j < input.attributes@.len() && input.attributes@[j].name@ == "pallet"@;
        lemma_first_pallet(input.attributes@, j);
    }
    let fields = match get_fields(input) {
        Ok(fields) => fields,
        Err(error) => {
            return Err(error);
        },
    };
    let ghost relevant_part = fields.relevant@;
    let ghost ignored_part = fields.ignored@;
    let outcome: Result<EventShape, DeriveError> = Ok(
        EventShape { pallet, variant: input.name.clone(), fields },
    );
    proof {
        assert(outcome->Ok_0.fields.relevant@ == relevant_part);
        assert(outcome->Ok_0.fields.ignored@ == ignored_part);
        if input.data is Named {
            let (relevant, ignored) = choose|relevant: Seq<int>, ignored: Seq<int>|
                #![trigger selected(relevant_part, input.data->Named_0@, false, relevant), selected(ignored_part, input.data->Named_0@, true, ignored)]
                selected(relevant_part, input.data->Named_0@, false, relevant) && selected(
                    ignored_part,
                    input.data->Named_0@,
                    true,
                    ignored,
                );
            assert(selected(
                outcome->Ok_0.fields.relevant@,
                input.data->Named_0@,
                false,
                relevant,
            ) && selected(outcome->Ok_0.fields.ignored@, input.data->Named_0@, true, ignored));
        }
    }
    outcome
}

/// Where some attribute is named `pallet`, there is a first such attribute.
pub proof fn lemma_first_pallet(attributes: Seq<Attribute>, j: int)
    requires
        0 <= j < attributes.len(),
        attributes[j].name@ == "pallet"@,
    ensures
        exists|i: int| #[trigger] pallet_at(attributes, i) && i <= j,
    decreases j,
{
    if exists|k: int| 0 <= k < j && attributes[k].name@ == "pallet"@ {
        let k = choose|k: int| 0 <= k < j && attributes[k].name@ == "pallet"@;
        lemma_first_pallet(attributes, k);
    } else {
        assert(pallet_at(attributes, j));
    }
}

/// An event of a declared shape.
#[derive(Debug)]
pub struct Record {
    /// The pallet that emits the event.
    pub pallet: String,
    /// The name of the event's variant.
    pub variant: String,
    /// What the fields that take part in matching hold, in the order of declaration.
    pub relevant: Vec<FieldValue>,
    /// What the other fields hold, in the order of declaration.
    pub ignored: Vec<FieldValue>,
}

/// Whether two rows of values hold the same, place by place.
pub open spec fn same_values(left: Seq<FieldValue>, right: Seq<FieldValue>) -> bool {
    left.len() == right.len() && forall|i: int| 0 <= i < left.len() ==> left[i]@ == right[i]@
}

/// Whether two rows of values hold the same, place by place.
pub fn values_agree(left: &Vec<FieldValue>, right: &Vec<FieldValue>) -> (agree: bool)
    ensures
        agree == same_values(left@, right@),
{
    if left.len() != right.len() {
        return false;
    }
    let mut i: usize = 0;
    while i < left.len()
        invariant
            i <= left@.len(),
            left@.len() == right@.len(),
            forall|j: int| 0 <= j < i ==> left@[j]@ == right@[j]@,
        decreases left@.len() - i,
    {
        if !left[i].same(&right[i]) {
            return false;
        }
        i = i + 1;
    }
    true
}

impl Record {
    /// Whether `other` is an event of the same kind.
    pub open spec fn same_kind(&self, other: &Record) -> bool {
        self.pallet@ == other.pallet@ && self.variant@ == other.variant@
    }

    /// Whether `other` is what `self` expects: an event of the same kind that agrees in
    /// every field that takes part in matching. An event without such fields matches
    /// every event of its kind.
    pub open spec fn agrees_with(&self, other: &Record) -> bool {
        self.same_kind(other) && same_values(self.relevant@, other.relevant@)
    }

    /// Whether `other` is the same event, field by field.
    pub open spec fn equals(&self, other: &Record) -> bool {
        self.agrees_with(other) && same_values(self.ignored@, other.ignored@)
    }

    /// The pallet that emits the event and the name of its variant.
    pub fn kind(&self) -> (kind: (&str, &str))
        ensures
            kind.0@ == self.pallet@,
            kind.1@ == self.variant@,
    {
        (self.pallet.as_str(), self.variant.as_str())
    }

    /// Whether `other` is what `self` expects.
    pub fn matches(&self, other: &Record) -> (agree: bool)
        ensures
            agree == self.agrees_with(other),
    {
        self.pallet == other.pallet && self.variant == other.variant && values_agree(
            &self.relevant,
            &other.relevant,
        )
    }
}

impl PartialEq for Record {
    fn eq(&self, other: &Self) -> (same: bool) {
        self.matches(other) && values_agree(&self.ignored, &other.ignored)
    }
}

impl vstd::std_specs::cmp::PartialEqSpecImpl for Record {
    open spec fn obeys_eq_spec() -> bool {
        true
    }

    open spec fn eq_spec(&self, other: &Self) -> bool {
        self.equals(other)
    }
}

impl EventShape {
    /// Makes an event of this shape from the values of the fields that take part in
    /// matching, given in the order of declaration. Every other field holds what the
    /// declaration names as its stand-in, or else the usual stand-in for its type.
    pub fn from_relevant_fields(&self, values: Vec<FieldValue>) -> (event: Record)
        requires
            values@.len() == self.fields.relevant@.len(),
        ensures
            event.pallet@ == self.pallet@,
            event.variant@ == self.variant@,
            event.relevant@ == values@,
            event.ignored@.len() == self.fields.ignored@.len(),
            forall|i: int|
                0 <= i < event.ignored@.len() ==> (#[trigger] event.ignored@[i])@
                    == self.fields.ignored@[i].stand_in(),
    {
        let mut ignored: Vec<FieldValue> = Vec::new();
        let mut i: usize = 0;
        while i < self.fields.ignored.len()
            invariant
                i <= self.fields.ignored@.len(),
                ignored@.len() == i,
                forall|j: int|
                    0 <= j < i ==> (#[trigger] ignored@[j])@ == self.fields.ignored@[j].stand_in(),
            decreases self.fields.ignored@.len() - i,
        {
            let field = &self.fields.ignored[i];
            let value = match &field.default {
                Some(value) => value.clone(),
                None => field.ty.default_value(),
            };
            ignored.push(value);
            i = i + 1;
        }
        Record {
            pallet: self.pallet.clone(),
            variant: self.variant.clone(),
            relevant: values,
            ignored,
        }
    }
}

} // verus!
