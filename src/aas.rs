//! Asset Administration Shell: the parsed description of an asset, and the
//! structural queries the twin runtime asks of it.
use vstd::prelude::*;
use crate::actor::string_views;
use crate::search::{first_match, lemma_first_match, str_eq};
use vstd::string::StrSliceExecFns;

verus! {

/// Declared type of a property's value.
pub enum ValueType {
    String,
    Int,
    Float,
    Bool,
    Json,
}

/// A property's value. A floating-point value is held as its IEEE-754
/// binary64 bit pattern.
pub enum PropertyValue {
    Str(String),
    Int(i64),
    Flt(u64),
    Bool(bool),
    Obj(serde_json::Value),
    Null,
}

/// A typed value, such as "StateOfCharge" or "FirmwareVersion".
pub struct Property {
    pub id_short: String,
    pub value_type: ValueType,
    pub value: PropertyValue,
}

/// An input or output parameter of an operation.
pub struct OperationVariable {
    pub name: String,
    pub value_type: ValueType,
    pub value: PropertyValue,
}

/// An operation with its input and output variables.
pub struct Operation {
    pub id_short: String,
    pub input_variables: Vec<OperationVariable>,
    pub output_variables: Vec<OperationVariable>,
}

/// A named event, such as "ChargingStarted".
pub struct Event {
    pub id_short: String,
}

/// A named group of elements.
pub struct SubmodelCollection {
    pub id_short: String,
    pub value: Vec<SubmodelElement>,
}

/// A reference to another entity, such as a sensor; `value` names the target.
pub struct ReferenceElement {
    pub id_short: String,
    pub value: String,
}

/// An element of a submodel.
pub enum SubmodelElement {
    Property(Property),
    Operation(Operation),
    Event(Event),
    Collection(SubmodelCollection),
    ReferenceElement(ReferenceElement),
}

/// A group of elements about one aspect of the asset.
pub struct Submodel {
    pub id: String,
    pub id_short: String,
    pub elements: Vec<SubmodelElement>,
}

/// The description of an asset: its id, short name, optional description,
/// and submodels in document order.
pub struct AssetAdministrationShell {
    pub id: String,
    pub id_short: String,
    pub description: Option<String>,
    pub submodels: Vec<Submodel>,
}

/// The characters of an optional string.
pub open spec fn opt_view(o: Option<String>) -> Option<Seq<char>> {
    match o {
        Some(s) => Some(s@),
        None => None,
    }
}

/// Whether a submodel has short name `name`.
pub open spec fn short_name_is(name: Seq<char>) -> spec_fn(Submodel) -> bool {
    |s: Submodel| s.id_short@ == name
}

/// Whether a submodel has id `id`.
pub open spec fn id_is(id: Seq<char>) -> spec_fn(Submodel) -> bool {
    |s: Submodel| s.id@ == id
}

/// Whether an element is a collection with short name `name`.
pub open spec fn collection_named(name: Seq<char>) -> spec_fn(SubmodelElement) -> bool {
    |e: SubmodelElement| e matches SubmodelElement::Collection(c) && c.id_short@ == name
}

/// Whether an element is a reference element with short name `name`.
pub open spec fn reference_named(name: Seq<char>) -> spec_fn(SubmodelElement) -> bool {
    |e: SubmodelElement| e matches SubmodelElement::ReferenceElement(r) && r.id_short@ == name
}

/// Whether an element is a property with short name `name`.
pub open spec fn property_named(name: Seq<char>) -> spec_fn(SubmodelElement) -> bool {
    |e: SubmodelElement| e matches SubmodelElement::Property(p) && p.id_short@ == name
}

/// The first top-level collection named `collection` in the first submodel
/// with short name `submodel`.
pub open spec fn top_collection(
    aas: AssetAdministrationShell,
    submodel: Seq<char>,
    collection: Seq<char>,
) -> Option<SubmodelCollection> {
    match first_match(aas.submodels@, short_name_is(submodel)) {
        None => None,
        Some(i) => {
            let elems = aas.submodels@[i].elements@;
            match first_match(elems, collection_named(collection)) {
                Some(j) => match elems[j] {
                    SubmodelElement::Collection(c) => Some(c),
                    _ => None,
                },
                None => None,
            }
        },
    }
}

/// The payload of the first reference element named `reference` in
/// `top_collection(aas, submodel, collection)`.
pub open spec fn reference_value(
    aas: AssetAdministrationShell,
    submodel: Seq<char>,
    collection: Seq<char>,
    reference: Seq<char>,
) -> Option<Seq<char>> {
    match top_collection(aas, submodel, collection) {
        None => None,
        Some(c) => match first_match(c.value@, reference_named(reference)) {
            Some(k) => match c.value@[k] {
                SubmodelElement::ReferenceElement(r) => Some(r.value@),
                _ => None,
            },
            None => None,
        },
    }
}

/// Depth-first, pre-order search for a collection named `target`: the
/// collection itself, else the first match within its elements.
pub open spec fn find_collection(c: SubmodelCollection, target: Seq<char>) -> Option<SubmodelCollection>
    decreases c, 0int,
{
    if c.id_short@ == target {
        Some(c)
    } else {
        find_collection_in(c.value@, target, 0)
    }
}

/// The first match of `find_collection` over the collections among
/// `elems[i..]`, in order.
pub open spec fn find_collection_in(elems: Seq<SubmodelElement>, target: Seq<char>, i: int) -> Option<
    SubmodelCollection,
>
    decreases elems, elems.len() - i,
{
    if i < 0 || i >= elems.len() {
        None
    } else {
        let here = match elems[i] {
            SubmodelElement::Collection(sub) => find_collection(sub, target),
            _ => None,
        };
        match here {
            Some(found) => Some(found),
            None => find_collection_in(elems, target, i + 1),
        }
    }
}


/// The string values of the properties named `target` under a collection,
/// nested collections entered, in depth-first pre-order.
pub open spec fn gather(c: SubmodelCollection, target: Seq<char>) -> Seq<Seq<char>>
    decreases c, 0int,
{
    gather_in(c.value@, target, 0)
}

/// `gather` over `elems[i..]`, in order.
pub open spec fn gather_in(elems: Seq<SubmodelElement>, target: Seq<char>, i: int) -> Seq<Seq<char>>
    decreases elems, elems.len() - i,
{
    if i < 0 || i >= elems.len() {
        seq![]
    } else {
        let here = match elems[i] {
            SubmodelElement::Collection(sub) => gather(sub, target),
            SubmodelElement::Property(p) => {
                if p.id_short@ == target {
                    match p.value {
                        PropertyValue::Str(v) => seq![v@],
                        _ => seq![],
                    }
                } else {
                    seq![]
                }
            },
            _ => seq![],
        };
        here + gather_in(elems, target, i + 1)
    }
}

/// The string values of the properties named `target` under
/// `top_collection(aas, submodel, collection)`; empty where there is none.
pub open spec fn elements_in_collection(
    aas: AssetAdministrationShell,
    submodel: Seq<char>,
    collection: Seq<char>,
    target: Seq<char>,
) -> Seq<Seq<char>> {
    match top_collection(aas, submodel, collection) {
        Some(c) => gather(c, target),
        None => seq![],
    }
}

/// Whether a character is the reference separator `#`.
pub open spec fn is_hash() -> spec_fn(char) -> bool {
    |c: char| c == '#'
}

/// A reference `<submodel id>#<element short name>` split at its one `#`;
/// none where it holds no `#` or more than one.
pub open spec fn split_reference(s: Seq<char>) -> Option<(Seq<char>, Seq<char>)> {
    match first_match(s, is_hash()) {
        None => None,
        Some(i) => {
            let rest = s.subrange(i + 1, s.len() as int);
            if first_match(rest, is_hash()) is None {
                Some((s.subrange(0, i), rest))
            } else {
                None
            }
        },
    }
}

/// The string value of the first `SensorID` property of the collection named
/// `element`, searched depth-first within the first submodel whose id is
/// `submodel_id`.
pub open spec fn sensor_of(aas: AssetAdministrationShell, submodel_id: Seq<char>, element: Seq<char>) -> Option<
    Seq<char>,
> {
    match first_match(aas.submodels@, id_is(submodel_id)) {
        None => None,
        Some(i) => match find_collection_in(aas.submodels@[i].elements@, element, 0) {
            None => None,
            Some(c) => match first_match(c.value@, property_named("SensorID"@)) {
                None => None,
                Some(k) => match c.value@[k] {
                    SubmodelElement::Property(p) => match p.value {
                        PropertyValue::Str(v) => Some(v@),
                        _ => None,
                    },
                    _ => None,
                },
            },
        },
    }
}

/// The sensor id that a reference names, if it resolves.
pub open spec fn resolved_reference(aas: AssetAdministrationShell, r: Seq<char>) -> Option<Seq<char>> {
    match split_reference(r) {
        Some((sid, element)) => sensor_of(aas, sid, element),
        None => None,
    }
}

/// Position of the first submodel satisfying `by_id ? id_is(name) : short_name_is(name)`.
fn find_submodel(subs: &Vec<Submodel>, name: &str, by_id: bool) -> (r: Option<usize>)
    ensures
        by_id ==> (r matches Some(i) ==> i < subs@.len() && first_match(subs@, id_is(name@)) == Some(
            i as int,
        )),
        by_id ==> (r is None ==> first_match(subs@, id_is(name@)) is None),
        !by_id ==> (r matches Some(i) ==> i < subs@.len() && first_match(subs@, short_name_is(name@))
            == Some(i as int)),
        !by_id ==> (r is None ==> first_match(subs@, short_name_is(name@)) is None),
{
    let ghost p = if by_id { id_is(name@) } else { short_name_is(name@) };
    let mut i: usize = 0;
    while i < subs.len()
        invariant
            i <= subs@.len(),
            p == (if by_id { id_is(name@) } else { short_name_is(name@) }),
            forall|j: int| 0 <= j < i ==> !p(#[trigger] subs@[j]),
        decreases subs@.len() - i,
    {
        let hit = if by_id {
            str_eq(subs[i].id.as_str(), name)
        } else {
            str_eq(subs[i].id_short.as_str(), name)
        };
        if hit {
            proof {
                lemma_first_match(subs@, p);
            }
            return Some(i);
        }
        i = i + 1;
    }
    proof {
        lemma_first_match(subs@, p);
    }
    None
}

/// Position of the first collection named `name` among `elems`.
fn find_named_collection(elems: &Vec<SubmodelElement>, name: &str) -> (r: Option<usize>)
    ensures
        r matches Some(i) ==> i < elems@.len() && first_match(elems@, collection_named(name@)) == Some(
            i as int,
        ),
        r is None ==> first_match(elems@, collection_named(name@)) is None,
{
    let ghost p = collection_named(name@);
    let mut i: usize = 0;
    while i < elems.len()
        invariant
            i <= elems@.len(),
            p == collection_named(name@),
            forall|j: int| 0 <= j < i ==> !p(#[trigger] elems@[j]),
        decreases elems@.len() - i,
    {
        let hit = match &elems[i] {
            SubmodelElement::Collection(c) => str_eq(c.id_short.as_str(), name),
            _ => false,
        };
        if hit {
            proof {
                lemma_first_match(elems@, p);
            }
            return Some(i);
        }
        i = i + 1;
    }
    proof {
        lemma_first_match(elems@, p);
    }
    None
}

/// Position of the first element among `elems` that is a reference element
/// (`want_property` false) or a property (`want_property` true) named `name`.
fn find_named_leaf(elems: &Vec<SubmodelElement>, name: &str, want_property: bool) -> (r: Option<usize>)
    ensures
        want_property ==> (r matches Some(i) ==> i < elems@.len() && first_match(
            elems@,
            property_named(name@),
        ) == Some(i as int)),
        want_property ==> (r is None ==> first_match(elems@, property_named(name@)) is None),
        !want_property ==> (r matches Some(i) ==> i < elems@.len() && first_match(
            elems@,
            reference_named(name@),
        ) == Some(i as int)),
        !want_property ==> (r is None ==> first_match(elems@, reference_named(name@)) is None),
{
    let ghost p = if want_property { property_named(name@) } else { reference_named(name@) };
    let mut i: usize = 0;
    while i < elems.len()
        invariant
            i <= elems@.len(),
            p == (if want_property { property_named(name@) } else { reference_named(name@) }),
            forall|j: int| 0 <= j < i ==> !p(#[trigger] elems@[j]),
        decreases elems@.len() - i,
    {
        let hit = match &elems[i] {
            SubmodelElement::Property(prop) => want_property && str_eq(prop.id_short.as_str(), name),
            SubmodelElement::ReferenceElement(re) => !want_property && str_eq(
                re.id_short.as_str(),
                name,
            ),
            _ => false,
        };
        if hit {
            proof {
                lemma_first_match(elems@, p);
            }
            return Some(i);
        }
        i = i + 1;
    }
    proof {
        lemma_first_match(elems@, p);
    }
    None
}

impl AssetAdministrationShell {
    /// The first top-level collection named `collection` in the first
    /// submodel with short name `submodel`.
    pub fn find_top_collection(&self, submodel: &str, collection: &str) -> (r: Option<&SubmodelCollection>)
        ensures
            r matches Some(c) ==> top_collection(*self, submodel@, collection@) == Some(*c),
            r is None ==> top_collection(*self, submodel@, collection@) is None,
    {
        match find_submodel(&self.submodels, submodel, false) {
            None => None,
            Some(i) => {
                let elems = &self.submodels[i].elements;
                match find_named_collection(elems, collection) {
                    None => None,
                    Some(j) => match &elems[j] {
                        SubmodelElement::Collection(c) => Some(c),
                        _ => None,
                    },
                }
            },
        }
    }

    /// Finds the submodel by short name, within it the first top-level
    /// collection with the given short name, within that the first reference
    /// element with the given short name, and returns its payload.
    pub fn find_reference_value_in_collection(
        &self,
        submodel_id_short: &str,
        collection_id_short: &str,
        reference_element_id_short: &str,
    ) -> (r: Option<String>)
        ensures
            opt_view(r) == reference_value(
                *self,
                submodel_id_short@,
                collection_id_short@,
                reference_element_id_short@,
            ),
    {
        match self.find_top_collection(submodel_id_short, collection_id_short) {
            None => None,
            Some(c) => match find_named_leaf(&c.value, reference_element_id_short, false) {
                None => None,
                Some(k) => match &c.value[k] {
                    SubmodelElement::ReferenceElement(re) => Some(re.value.clone()),
                    _ => None,
                },
            },
        }
    }
}


/// The reference `s` split at its one `#`.
fn split_at_hash(s: &str) -> (r: Option<(String, String)>)
    ensures
        split_reference(s@) matches Some(parts) ==> r matches Some(x) && x.0@ == parts.0 && x.1@
            == parts.1,
        split_reference(s@) is None ==> r is None,
{
    let n = s.unicode_len();
    let ghost p = is_hash();
    let mut i: usize = 0;
    while i < n
        invariant
            n == s@.len(),
            i <= n,
            p == is_hash(),
            forall|j: int| 0 <= j < i ==> !p(#[trigger] s@[j]),
        ensures
            i <= n,
            i < n ==> p(s@[i as int]),
            forall|j: int| 0 <= j < i ==> !p(#[trigger] s@[j]),
        decreases n - i,
    {
        if s.get_char(i) == '#' {
            break;
        }
        i = i + 1;
    }
    proof {
        lemma_first_match(s@, p);
    }
    if i == n {
        return None;
    }
    assert(first_match(s@, p) == Some(i as int));
    let ghost rest = s@.subrange(i + 1, n as int);
    let mut k: usize = i + 1;
    while k < n
        invariant
            n == s@.len(),
            i < k <= n,
            p == is_hash(),
            rest == s@.subrange(i + 1, n as int),
            first_match(s@, p) == Some(i as int),
            forall|j: int| 0 <= j < k - i - 1 ==> !p(#[trigger] rest[j]),
        decreases n - k,
    {
        if s.get_char(k) == '#' {
            proof {
                assert(rest[k - i - 1] == s@[k as int]);
                lemma_first_match(rest, p);
            }
            return None;
        }
        assert(rest[k - i - 1] == s@[k as int]);
        k = k + 1;
    }
    proof {
        lemma_first_match(rest, p);
        assert(first_match(s@, p) == Some(i as int));
    }
    let head = s.substring_char(0, i).to_owned();
    let tail = s.substring_char(i + 1, n).to_owned();
    Some((head, tail))
}

impl AssetAdministrationShell {
    /// Depth-first, pre-order search for a collection with short name
    /// `target`: `collection` itself, else the first match among its nested
    /// collections.
    pub fn find_collection_by_id_short<'a>(collection: &'a SubmodelCollection, target: &str) -> (r:
        Option<&'a SubmodelCollection>)
        ensures
            r matches Some(c) ==> find_collection(*collection, target@) == Some(*c),
            r is None ==> find_collection(*collection, target@) is None,
        decreases *collection, 0int,
    {
        if str_eq(collection.id_short.as_str(), target) {
            return Some(collection);
        }
        AssetAdministrationShell::find_collection_in_elements(&collection.value, target)
    }

    /// `find_collection_by_id_short` over the collections among `elems`, the
    /// first match in order.
    pub fn find_collection_in_elements<'a>(elems: &'a Vec<SubmodelElement>, target: &str) -> (r: Option<
        &'a SubmodelCollection,
    >)
        ensures
            r matches Some(c) ==> find_collection_in(elems@, target@, 0) == Some(*c),
            r is None ==> find_collection_in(elems@, target@, 0) is None,
        decreases elems@, elems@.len() + 1,
    {
        let mut i: usize = 0;
        while i < elems.len()
            invariant
                i <= elems@.len(),
                find_collection_in(elems@, target@, 0) == find_collection_in(elems@, target@, i as int),
            decreases elems@.len() - i,
        {
            if let SubmodelElement::Collection(sub) = &elems[i] {
                assert(decreases_to!(elems@ => elems@[i as int]));
                if let Some(found) = AssetAdministrationShell::find_collection_by_id_short(sub, target) {
                    return Some(found);
                }
            }
            i = i + 1;
        }
        None
    }
}


impl AssetAdministrationShell {
    /// Resolves `<submodel id>#<element short name>`: in the first submodel
    /// with that id, the first collection of that short name (depth-first),
    /// and in it the string value of the first `SensorID` property.
    pub fn resolve_sensor_reference(&self, full_ref: &str) -> (r: Option<String>)
        ensures
            opt_view(r) == resolved_reference(*self, full_ref@),
    {
        let (submodel_id, element_id_short) = match split_at_hash(full_ref) {
            Some(parts) => parts,
            None => return None,
        };
        let i = match find_submodel(&self.submodels, submodel_id.as_str(), true) {
            Some(i) => i,
            None => return None,
        };
        let sensors = match AssetAdministrationShell::find_collection_in_elements(
            &self.submodels[i].elements,
            element_id_short.as_str(),
        ) {
            Some(c) => c,
            None => return None,
        };
        let k = match find_named_leaf(&sensors.value, "SensorID", true) {
            Some(k) => k,
            None => return None,
        };
        match &sensors.value[k] {
            SubmodelElement::Property(prop) => match &prop.value {
                PropertyValue::Str(v) => Some(v.clone()),
                _ => None,
            },
            _ => None,
        }
    }

    /// Appends to `result` the string values of the properties named `target`
    /// under `collection`, nested collections entered, in depth-first
    /// pre-order.
    pub fn gather_sensor_ids_in_collection(
        collection: &SubmodelCollection,
        target: &str,
        result: &mut Vec<String>,
    )
        ensures
            string_views(final(result)@) == string_views(old(result)@) + gather(*collection, target@),
        decreases *collection, 0int,
    {
        AssetAdministrationShell::gather_in_elements(&collection.value, target, result)
    }

    /// `gather_sensor_ids_in_collection` over each of `elems` in order.
    pub fn gather_in_elements(elems: &Vec<SubmodelElement>, target: &str, result: &mut Vec<String>)
        ensures
            string_views(final(result)@) == string_views(old(result)@) + gather_in(
                elems@,
                target@,
                0,
            ),
        decreases elems@, elems@.len() + 1,
    {
        let ghost start = string_views(result@);
        let mut i: usize = 0;
        while i < elems.len()
            invariant
                i <= elems@.len(),
                string_views(result@) + gather_in(elems@, target@, i as int) == start + gather_in(
                    elems@,
                    target@,
                    0,
                ),
            decreases elems@.len() - i,
        {
            let ghost before = string_views(result@);
            let ghost rest = gather_in(elems@, target@, i as int + 1);
            match &elems[i] {
                SubmodelElement::Collection(sub) => {
                    assert(decreases_to!(elems@ => elems@[i as int]));
                    AssetAdministrationShell::gather_sensor_ids_in_collection(sub, target, result);
                    assert(string_views(result@) + rest =~= before + (gather(*sub, target@) + rest));
                },
                SubmodelElement::Property(prop) => {
                    if str_eq(prop.id_short.as_str(), target) {
                        if let PropertyValue::Str(v) = &prop.value {
                            result.push(v.clone());
                            assert(string_views(result@) =~= before.push(v@));
                            assert(string_views(result@) + rest =~= before + (seq![v@] + rest));
                        } else {
                            assert(before + rest =~= before + (Seq::<Seq<char>>::empty() + rest));
                        }
                    } else {
                        assert(before + rest =~= before + (Seq::<Seq<char>>::empty() + rest));
                    }
                },
                _ => {
                    assert(before + rest =~= before + (Seq::<Seq<char>>::empty() + rest));
                },
            }
            i = i + 1;
        }
        assert(gather_in(elems@, target@, i as int) =~= Seq::<Seq<char>>::empty());
        assert(string_views(result@) =~= string_views(result@) + Seq::<Seq<char>>::empty());
    }

    /// The string values of the properties named `target` under the first
    /// top-level collection named `collection` of the first submodel with
    /// short name `submodel`, in depth-first pre-order; empty where either is
    /// missing.
    pub fn find_elements_in_collection(&self, submodel: &str, collection: &str, target: &str) -> (r:
        Vec<String>)
        ensures
            string_views(r@) == elements_in_collection(*self, submodel@, collection@, target@),
    {
        let mut found: Vec<String> = Vec::new();
        match self.find_top_collection(submodel, collection) {
            Some(c) => {
                AssetAdministrationShell::gather_sensor_ids_in_collection(c, target, &mut found);
                assert(string_views(found@) =~= gather(*c, target@));
            },
            None => {
                assert(string_views(found@) =~= Seq::<Seq<char>>::empty());
            },
        }
        found
    }
}


/// A reference built from a submodel id and an element short name, neither
/// holding `#`, resolves to the `SensorID` found under that submodel and
/// element.
pub proof fn lemma_reference_round_trip(
    aas: AssetAdministrationShell,
    submodel_id: Seq<char>,
    element: Seq<char>,
)
    requires
        !submodel_id.contains('#'),
        !element.contains('#'),
    ensures
        split_reference(submodel_id + seq!['#'] + element) == Some((submodel_id, element)),
        resolved_reference(aas, submodel_id + seq!['#'] + element) == sensor_of(
            aas,
            submodel_id,
            element,
        ),
{
    let s = submodel_id + seq!['#'] + element;
    let n = submodel_id.len() as int;
    let p = is_hash();
    lemma_first_match(s, p);
    assert(s[n] == '#');
    assert forall|j: int| 0 <= j < n implies !p(#[trigger] s[j]) by {
        assert(s[j] == submodel_id[j]);
    }
    assert(first_match(s, p) == Some(n));
    let rest = s.subrange(n + 1, s.len() as int);
    assert(rest =~= element);
    lemma_first_match(rest, p);
    if first_match(rest, p) is Some {
        let k = first_match(rest, p)->0;
        assert(element.contains(rest[k]));
    }
    assert(s.subrange(0, n) =~= submodel_id);
}

} // verus!
