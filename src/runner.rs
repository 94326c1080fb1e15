//! The twin runner: one asset's shell, its actor, and the binding of bus
//! devices to the actor's slots. Messages arrive from the runtime and replace
//! the actor value.
use vstd::prelude::*;
use vstd::string::StrSliceExecFns;
use crate::aas::{AssetAdministrationShell, elements_in_collection, opt_view, reference_value, resolved_reference};
use crate::actor::{Actor, ActorView, Model, ModelView, fresh_actor, string_views};
use crate::models::{ChargingStation, LightBulb};
use crate::tables::Registry;

verus! {

/// A message to a twin.
pub enum ActorMessage {
    /// A reading of a device, in thousandths of its unit.
    InputChange(String, i64),
    /// A named command with its JSON payload.
    Command(String, serde_json::Value),
}

/// Why a twin could not be built.
pub enum TwinError {
    /// The asset id has fewer than four colon-separated segments.
    MissingKind(String),
    /// No model is registered for the asset kind.
    UnknownKind(String),
}

/// The colon-separated segments of `s`, in order (one segment where `s` holds
/// no colon).
pub open spec fn segments(s: Seq<char>) -> Seq<Seq<char>>
    decreases s.len(),
{
    if s.len() == 0 {
        seq![seq![]]
    } else {
        let prev = segments(s.drop_last());
        if s.last() == ':' {
            prev.push(seq![])
        } else {
            prev.update(prev.len() - 1, prev.last().push(s.last()))
        }
    }
}

/// Every string has at least one segment.
proof fn lemma_segments_nonempty(s: Seq<char>)
    ensures
        segments(s).len() >= 1,
    decreases s.len(),
{
    if s.len() > 0 {
        lemma_segments_nonempty(s.drop_last());
    }
}

/// The asset kind: the fourth colon-separated segment of an asset id.
pub open spec fn asset_kind(id: Seq<char>) -> Option<Seq<char>> {
    if segments(id).len() > 3 {
        Some(segments(id)[3])
    } else {
        None
    }
}

/// The colon-separated segments of `s`.
pub fn split_segments(s: &str) -> (r: Vec<String>)
    ensures
        string_views(r@) == segments(s@),
{
    let n = s.unicode_len();
    let mut done: Vec<String> = Vec::new();
    let mut start: usize = 0;
    let mut i: usize = 0;
    assert(s@.subrange(0, 0) =~= Seq::<char>::empty());
    assert(string_views(done@).push(s@.subrange(0, 0)) =~= seq![Seq::<char>::empty()]);
    while i < n
        invariant
            n == s@.len(),
            start <= i <= n,
            segments(s@.subrange(0, i as int)) == string_views(done@).push(s@.subrange(start as int, i as int)),
        decreases n - i,
    {
        let ghost pre = s@.subrange(0, i as int + 1);
        assert(pre.drop_last() =~= s@.subrange(0, i as int));
        assert(pre.last() == s@[i as int]);
        if s.get_char(i) == ':' {
            let seg = s.substring_char(start, i).to_owned();
            let ghost before = string_views(done@);
            done.push(seg);
            assert(string_views(done@) =~= before.push(seg@));
            start = i + 1;
            assert(s@.subrange(start as int, i as int + 1) =~= Seq::<char>::empty());
            assert(segments(pre) =~= string_views(done@).push(s@.subrange(start as int, i as int + 1)));
        } else {
            assert(s@.subrange(start as int, i as int + 1) =~= s@.subrange(start as int, i as int).push(s@[i as int]));
            assert(segments(pre) =~= string_views(done@).push(s@.subrange(start as int, i as int + 1)));
        }
        i = i + 1;
    }
    let last = s.substring_char(start, n).to_owned();
    let ghost before = string_views(done@);
    done.push(last);
    assert(string_views(done@) =~= before.push(last@));
    assert(s@.subrange(0, n as int) =~= s@);
    done
}

/// The kind segment of an asset id, if it has one.
pub fn kind_of(id: &str) -> (r: Option<String>)
    ensures
        opt_view(r) == asset_kind(id@),
{
    let segs = split_segments(id);
    if segs.len() > 3 {
        Some(segs[3].clone())
    } else {
        None
    }
}


/// The models that twins can be built from, by asset kind.
pub struct ModelCatalog {
    models: Registry<Model>,
}

impl View for ModelCatalog {
    type V = Map<Seq<char>, ModelView>;

    closed spec fn view(&self) -> Map<Seq<char>, ModelView> {
        self.models@.map_values(|m: Model| m@)
    }
}

impl ModelCatalog {
    /// Every registered model is well formed.
    pub closed spec fn wf(&self) -> bool {
        forall|k: Seq<char>| #[trigger] self.models@.contains_key(k) ==> self.models@[k]@.wf()
    }

    /// A catalog with no models.
    pub fn new() -> (r: ModelCatalog)
        ensures
            r.wf(),
            r@ == Map::<Seq<char>, ModelView>::empty(),
    {
        let r = ModelCatalog { models: Registry::new() };
        assert(r@ =~= Map::<Seq<char>, ModelView>::empty());
        r
    }

    /// Builds twins of asset kind `kind` from `model`, replacing any earlier
    /// model of that kind.
    pub fn register(&mut self, kind: String, model: Model)
        requires
            old(self).wf(),
            model@.wf(),
        ensures
            final(self).wf(),
            final(self)@ == old(self)@.insert(kind@, model@),
    {
        let ghost k = kind@;
        let ghost mv = model@;
        self.models.register(kind, model);
        assert(self@ =~= old(self)@.insert(k, mv));
    }

    /// The catalog of the sample models: `light` for the light bulb and
    /// `charging-station` for the charging station. No other kind, `ev`
    /// included, has a model until one is registered.
    pub fn standard() -> (r: ModelCatalog)
        ensures
            r.wf(),
            r@ == Map::<Seq<char>, ModelView>::empty().insert("light"@, crate::models::light_bulb_model()).insert(
                "charging-station"@,
                crate::models::charging_station_model(),
            ),
    {
        let mut r = ModelCatalog::new();
        r.register("light".to_owned(), LightBulb::model());
        r.register("charging-station".to_owned(), ChargingStation::model());
        r
    }

    /// An actor of the model of `kind` with its default parameters, and the
    /// model's slots.
    pub fn create_default(&self, kind: &str) -> (r: Option<(Actor, Vec<String>)>)
        requires
            self.wf(),
        ensures
            r is None <==> !self@.contains_key(kind@),
            r matches Some(p) ==> p.0@ == fresh_actor(self@[kind@], self@[kind@].default_params())
                && p.0@.wf() && string_views(p.1@) == self@[kind@].slots,
    {
        match self.models.get(kind) {
            Some(m) => Some(m.copy().create_default()),
            None => None,
        }
    }
}

/// The sensor bound to `slot`: the `DataSource` reference of the collection
/// named after the slot in submodel `PowerAndElectrical`, resolved.
pub open spec fn slot_sensor(aas: AssetAdministrationShell, slot: Seq<char>) -> Option<Seq<char>> {
    match reference_value(aas, "PowerAndElectrical"@, slot, "DataSource"@) {
        Some(r) => resolved_reference(aas, r),
        None => None,
    }
}

/// The slot map built from `slots` in order: each resolved sensor to its
/// slot, a later slot replacing an earlier one of the same sensor.
pub open spec fn bind_slots(aas: AssetAdministrationShell, slots: Seq<Seq<char>>) -> Map<Seq<char>, Seq<char>>
    decreases slots.len(),
{
    if slots.len() == 0 {
        Map::empty()
    } else {
        let m = bind_slots(aas, slots.drop_last());
        match slot_sensor(aas, slots.last()) {
            Some(d) => m.insert(d, slots.last()),
            None => m,
        }
    }
}

/// A slot map holds only devices resolved from the shell: each is bound to one
/// of the declared slots whose sensor reference resolves to it.
pub proof fn lemma_bound_devices_resolved(aas: AssetAdministrationShell, slots: Seq<Seq<char>>, d: Seq<char>)
    requires
        bind_slots(aas, slots).contains_key(d),
    ensures
        slots.contains(bind_slots(aas, slots)[d]),
        slot_sensor(aas, bind_slots(aas, slots)[d]) == Some(d),
    decreases slots.len(),
{
    let prev = slots.drop_last();
    if slot_sensor(aas, slots.last()) == Some(d) {
        assert(slots[slots.len() - 1] == slots.last());
    } else {
        lemma_bound_devices_resolved(aas, prev, d);
        let v = bind_slots(aas, prev)[d];
        let k = choose|k: int| 0 <= k < prev.len() && prev[k] == v;
        assert(slots[k] == v);
    }
}

/// The device ids a twin subscribes to: the `SensorID` properties under
/// collection `Sensors` of submodel `IoTDataSources`.
pub open spec fn subscription_list(aas: AssetAdministrationShell) -> Seq<Seq<char>> {
    elements_in_collection(aas, "IoTDataSources"@, "Sensors"@, "SensorID"@)
}

/// Whether a slot has no sensor in `aas`.
pub open spec fn unbound_in(aas: AssetAdministrationShell) -> spec_fn(Seq<char>) -> bool {
    |slot: Seq<char>| slot_sensor(aas, slot) is None
}

/// What a twin's initialisation found.
pub struct InitOutcome {
    /// Device ids to subscribe to.
    pub subscriptions: Vec<String>,
    /// Slots whose sensor could not be resolved.
    pub unbound: Vec<String>,
}

/// The characters of each value of a map of strings.
pub open spec fn name_map(m: Map<Seq<char>, String>) -> Map<Seq<char>, Seq<char>> {
    m.map_values(|s: String| s@)
}

/// One asset's twin: its shell, its actor, the slots the actor listens on, and
/// the map from device ids to slots.
pub struct TwinRunner {
    aas: AssetAdministrationShell,
    actor: Actor,
    slots: Vec<String>,
    slot_map: Registry<String>,
}

impl TwinRunner {
    /// The shell of this twin.
    pub closed spec fn spec_aas(&self) -> AssetAdministrationShell {
        self.aas
    }

    /// The twin's actor.
    pub closed spec fn spec_actor(&self) -> ActorView {
        self.actor@
    }

    /// The slots the actor listens on.
    pub closed spec fn spec_slots(&self) -> Seq<Seq<char>> {
        string_views(self.slots@)
    }

    /// The map from device ids to slot names.
    pub closed spec fn spec_slot_map(&self) -> Map<Seq<char>, Seq<char>> {
        name_map(self.slot_map@)
    }

    /// Builds the twin of `aas` from the catalog's model for the asset kind:
    /// an actor with default parameters and an empty slot map.
    pub fn new(aas: AssetAdministrationShell, catalog: &ModelCatalog) -> (r: Result<TwinRunner, TwinError>)
        requires
            catalog.wf(),
        ensures
            match asset_kind(aas.id@) {
                None => r matches Err(TwinError::MissingKind(id)) && id@ == aas.id@,
                Some(k) => if catalog@.contains_key(k) {
                    r matches Ok(t) && t.spec_aas() == aas && t.spec_actor() == fresh_actor(
                        catalog@[k],
                        catalog@[k].default_params(),
                    ) && t.spec_slots() == catalog@[k].slots && t.spec_slot_map() == Map::<
                        Seq<char>,
                        Seq<char>,
                    >::empty()
                } else {
                    r matches Err(TwinError::UnknownKind(kind)) && kind@ == k
                },
            },
            r matches Ok(t) ==> t.spec_actor().wf(),
    {
        let kind = match kind_of(aas.id.as_str()) {
            Some(k) => k,
            None => {
                let id = aas.id.clone();
                return Err(TwinError::MissingKind(id));
            },
        };
        match catalog.create_default(kind.as_str()) {
            Some((actor, slots)) => {
                let slot_map: Registry<String> = Registry::new();
                assert(name_map(slot_map@) =~= Map::<Seq<char>, Seq<char>>::empty());
                Ok(TwinRunner { aas, actor, slots, slot_map })
            },
            None => Err(TwinError::UnknownKind(kind)),
        }
    }

    /// The asset id of this twin.
    pub fn id(&self) -> (r: String)
        ensures
            r@ == self.spec_aas().id@,
    {
        self.aas.id.clone()
    }

    /// The twin's actor.
    pub fn actor(&self) -> (r: &Actor)
        ensures
            r@ == self.spec_actor(),
    {
        &self.actor
    }

    /// The slots the actor listens on.
    pub fn slots(&self) -> (r: &Vec<String>)
        ensures
            string_views(r@) == self.spec_slots(),
    {
        &self.slots
    }

    /// The slot bound to `device`, if any.
    pub fn slot_for(&self, device: &str) -> (r: Option<&String>)
        ensures
            r matches Some(s) ==> self.spec_slot_map().contains_key(device@) && self.spec_slot_map()[device@]
                == s@,
            r is None ==> !self.spec_slot_map().contains_key(device@),
    {
        self.slot_map.get(device)
    }

    /// Binds each slot to its sensor. Returns the device ids to subscribe to
    /// (none to subscribe where empty) and the slots left unbound.
    pub fn init(&mut self) -> (r: InitOutcome)
        ensures
            final(self).spec_slot_map() == bind_slots(old(self).spec_aas(), old(self).spec_slots()),
            final(self).spec_aas() == old(self).spec_aas(),
            final(self).spec_actor() == old(self).spec_actor(),
            final(self).spec_slots() == old(self).spec_slots(),
            string_views(r.subscriptions@) == subscription_list(old(self).spec_aas()),
            string_views(r.unbound@) == old(self).spec_slots().filter(unbound_in(old(self).spec_aas())),
    {
        let mut slot_map: Registry<String> = Registry::new();
        let mut unbound: Vec<String> = Vec::new();
        let ghost slots = string_views(self.slots@);
        let mut i: usize = 0;
        assert(name_map(slot_map@) =~= bind_slots(self.aas, slots.subrange(0, 0)));
        proof {
            reveal(Seq::filter);
            assert(string_views(unbound@) =~= slots.subrange(0, 0).filter(unbound_in(self.aas)));
        }
        while i < self.slots.len()
            invariant
                i <= self.slots@.len(),
                slots == string_views(self.slots@),
                name_map(slot_map@) == bind_slots(self.aas, slots.subrange(0, i as int)),
                string_views(unbound@) == slots.subrange(0, i as int).filter(unbound_in(self.aas)),
            decreases self.slots@.len() - i,
        {
            let s = &self.slots[i];
            let ghost pre = slots.subrange(0, i as int + 1);
            let ghost before_unbound = string_views(unbound@);
            assert(pre.drop_last() =~= slots.subrange(0, i as int));
            assert(pre.last() == s@);
            proof {
                reveal(Seq::filter);
            }
            let found = match self.aas.find_reference_value_in_collection(
                "PowerAndElectrical",
                s.as_str(),
                "DataSource",
            ) {
                Some(reference) => self.aas.resolve_sensor_reference(reference.as_str()),
                None => None,
            };
            match found {
                Some(sensor) => {
                    let ghost before = slot_map@;
                    let ghost d = sensor@;
                    slot_map.register(sensor, s.clone());
                    assert(name_map(slot_map@) =~= name_map(before).insert(d, s@));
                },
                None => {
                    unbound.push(s.clone());
                    assert(string_views(unbound@) =~= before_unbound.push(s@));
                },
            }
            i = i + 1;
        }
        assert(slots.subrange(0, i as int) =~= slots);
        self.slot_map = slot_map;
        let subscriptions = self.aas.find_elements_in_collection("IoTDataSources", "Sensors", "SensorID");
        InitOutcome { subscriptions, unbound }
    }

    /// Applies a message: a reading of a bound device updates its slot, a
    /// command is executed; the actor is replaced by the result. A reading of
    /// an unbound device is dropped and `false` returned.
    pub fn handle(&mut self, msg: ActorMessage) -> (r: bool)
        requires
            old(self).spec_actor().wf(),
        ensures
            final(self).spec_aas() == old(self).spec_aas(),
            final(self).spec_slots() == old(self).spec_slots(),
            final(self).spec_slot_map() == old(self).spec_slot_map(),
            final(self).spec_actor().wf(),
            match msg {
                ActorMessage::InputChange(device, value) => {
                    if old(self).spec_slot_map().contains_key(device@) {
                        r && final(self).spec_actor() == old(self).spec_actor().input_change(
                            old(self).spec_slot_map()[device@],
                            value,
                        )
                    } else {
                        !r && final(self).spec_actor() == old(self).spec_actor()
                    }
                },
                ActorMessage::Command(command, _) => r && final(self).spec_actor()
                    == old(self).spec_actor().execute(command@),
            },
    {
        match msg {
            ActorMessage::InputChange(device, value) => {
                let next = match self.slot_map.get(device.as_str()) {
                    Some(slot) => Some(self.actor.input_change(slot.as_str(), value)),
                    None => None,
                };
                match next {
                    Some(a) => {
                        self.actor = a;
                        true
                    },
                    None => false,
                }
            },
            ActorMessage::Command(command, args) => {
                let a = self.actor.execute(command.as_str(), &args);
                self.actor = a;
                true
            },
        }
    }
}

} // verus!
