//! The SOVD to UDS translator: the catalogue of data items and actuators,
//! and the planning and finishing of each SOVD operation around the UDS
//! exchanges that a session performs.

use vstd::prelude::*;
use crate::data_identifiers;
use crate::dtc::{dtc_count, parse_dtc_data, record_matches};
use crate::error::Sovd2UdsError;
use crate::models::{
    ActuatorControlRequest, ActuatorControlResponse, Component, DataItem, DataItemValue,
    DtcManagementRequest, DtcManagementResponse, DtcResults, Timestamp,
};
use crate::session::UdsOperation;
use crate::hex::{encode, hex_of};
use crate::text::{decimal_of, push_decimal};
use crate::uds::RoutineControlType;
use crate::value::{
    coerce, convert_uds_data_to_sovd, data_type_named, serialize_value_to_bytes, value_bytes,
    DataType, SovdValue,
};
use crate::table::{find_key, has_key, lemma_table_entry, lemma_table_push, lemma_table_update, table_map, unique_keys};
use crate::text::str_eq;

verus! {

/// Name, category, data type and description of a data item id.
pub open spec fn item_info(id: Seq<char>) -> (Seq<char>, Seq<char>, Seq<char>, Seq<char>) {
    if id == "vin"@ {
        ("Vehicle Identification Number"@, "identData"@, "string"@, "Unique vehicle identification number"@)
    } else if id == "ecu_serial_number"@ {
        ("ECU Serial Number"@, "identData"@, "string"@, "ECU serial number"@)
    } else if id == "ecu_hardware_version"@ {
        ("ECU Hardware Version"@, "identData"@, "string"@, "ECU hardware version"@)
    } else if id == "ecu_software_version"@ {
        ("ECU Software Version"@, "identData"@, "string"@, "ECU software version"@)
    } else if id == "manufacturing_date"@ {
        ("Manufacturing Date"@, "identData"@, "string"@, "ECU manufacturing date"@)
    } else if id == "system_supplier_id"@ {
        ("System Supplier ID"@, "identData"@, "string"@, "System supplier identifier"@)
    } else {
        (id, "unknown"@, "string"@, "Unknown data item"@)
    }
}

/// `item` describes the data item `id`.
pub open spec fn item_matches(item: DataItem, id: Seq<char>) -> bool {
    let info = item_info(id);
    &&& item.id@ == id
    &&& item.name@ == info.0
    &&& item.category@ == info.1
    &&& item.data_type matches Some(t) && t@ == info.2
    &&& item.description matches Some(d) && d@ == info.3
}

/// The well-known data items, in catalogue order.
pub open spec fn default_item_ids() -> Seq<Seq<char>> {
    seq![
        "vin"@,
        "ecu_serial_number"@,
        "ecu_hardware_version"@,
        "ecu_software_version"@,
        "manufacturing_date"@,
        "system_supplier_id"@,
    ]
}

/// `m` maps exactly the well-known data items to their DIDs.
pub open spec fn is_default_did_map(m: Map<Seq<char>, u16>) -> bool {
    &&& m.dom() == default_item_ids().to_set()
    &&& m.contains_key("vin"@) && m["vin"@] == 0xF190u16
    &&& m.contains_key("ecu_serial_number"@) && m["ecu_serial_number"@] == 0xF18Cu16
    &&& m.contains_key("ecu_hardware_version"@) && m["ecu_hardware_version"@] == 0xF191u16
    &&& m.contains_key("ecu_software_version"@) && m["ecu_software_version"@] == 0xF194u16
    &&& m.contains_key("manufacturing_date"@) && m["manufacturing_date"@] == 0xF18Bu16
    &&& m.contains_key("system_supplier_id"@) && m["system_supplier_id"@] == 0xF18Au16
}

/// Id, name and description of each listed component.
pub open spec fn component_table() -> Seq<(Seq<char>, Seq<char>, Seq<char>)> {
    seq![
        ("engine"@, "Engine Control Unit"@, "Main engine control unit"@),
        ("transmission"@, "Transmission Control Unit"@, "Automatic transmission control"@),
        ("abs"@, "ABS Control Unit"@, "Anti-lock braking system"@),
        ("airbag"@, "Airbag Control Unit"@, "Airbag and restraint system"@),
    ]
}

/// Routine id of an actuator, if it has one.
pub open spec fn routine_of(actuator: Seq<char>) -> Option<u16> {
    if actuator == "fuel_pump"@ {
        Some(0x0201)
    } else if actuator == "cooling_fan"@ {
        Some(0x0202)
    } else if actuator == "throttle"@ {
        Some(0x0203)
    } else {
        None
    }
}

/// Views of a list of strings.
pub open spec fn str_views(v: Seq<String>) -> Seq<Seq<char>> {
    v.map_values(|s: String| s@)
}

/// `acc` followed by those of `ids` that are not in it yet, each once, in
/// order.
pub open spec fn add_new_ids(acc: Seq<Seq<char>>, ids: Seq<Seq<char>>) -> Seq<Seq<char>>
    decreases ids.len(),
{
    if ids.len() == 0 {
        acc
    } else {
        let a = add_new_ids(acc, ids.drop_last());
        if a.contains(ids.last()) { a } else { a.push(ids.last()) }
    }
}

/// The union of the items of the categories `cats`, in order of first
/// appearance; an unknown category contributes nothing.
pub open spec fn category_ids(cmap: Map<Seq<char>, Vec<String>>, cats: Seq<Seq<char>>) -> Seq<Seq<char>>
    decreases cats.len(),
{
    if cats.len() == 0 {
        Seq::empty()
    } else {
        let prev = category_ids(cmap, cats.drop_last());
        if cmap.contains_key(cats.last()) {
            add_new_ids(prev, str_views(cmap[cats.last()]@))
        } else {
            prev
        }
    }
}

/// Translator state: the catalogue of data items and their categories.
pub struct SovdUdsTranslator {
    did_mappings: Vec<(String, u16)>,
    category_mappings: Vec<(String, Vec<String>)>,
}

impl SovdUdsTranslator {
    /// Each data item id and each category appears once.
    pub closed spec fn wf(&self) -> bool {
        &&& unique_keys(self.did_mappings@)
        &&& unique_keys(self.category_mappings@)
    }

    /// DID of each catalogued data item.
    pub closed spec fn did_map(&self) -> Map<Seq<char>, u16> {
        table_map(self.did_mappings@)
    }

    /// Catalogued data item ids, in the order they were added.
    pub closed spec fn item_ids(&self) -> Seq<Seq<char>> {
        self.did_mappings@.map_values(|e: (String, u16)| e.0@)
    }

    /// Item ids of each category.
    pub closed spec fn category_map(&self) -> Map<Seq<char>, Vec<String>> {
        table_map(self.category_mappings@)
    }

    /// A translator holding the well-known data items, all in category
    /// `identData`.
    pub fn new() -> (r: SovdUdsTranslator)
        ensures
            r.wf(),
            r.item_ids() == default_item_ids(),
            is_default_did_map(r.did_map()),
            r.category_map().dom() == set!["identData"@],
            str_views(r.category_map()["identData"@]@) == default_item_ids(),
    {
        let mut t = SovdUdsTranslator { did_mappings: Vec::new(), category_mappings: Vec::new() };
        t.initialize_default_mappings();
        t
    }

    fn initialize_default_mappings(&mut self)
        requires
            old(self).did_mappings@.len() == 0,
            old(self).category_mappings@.len() == 0,
        ensures
            final(self).wf(),
            final(self).item_ids() == default_item_ids(),
            is_default_did_map(final(self).did_map()),
            final(self).category_map().dom() == set!["identData"@],
            str_views(final(self).category_map()["identData"@]@) == default_item_ids(),
    {
        let mut d: Vec<(String, u16)> = Vec::new();
        d.push((String::from_str("vin"), data_identifiers::VIN));
        d.push((String::from_str("ecu_serial_number"), data_identifiers::ECU_SERIAL_NUMBER));
        d.push((String::from_str("ecu_hardware_version"), data_identifiers::ECU_HARDWARE_VERSION));
        d.push((String::from_str("ecu_software_version"), data_identifiers::ECU_SOFTWARE_VERSION));
        d.push((String::from_str("manufacturing_date"), data_identifiers::ECU_MANUFACTURING_DATE));
        d.push((String::from_str("system_supplier_id"), data_identifiers::SYSTEM_SUPPLIER_ID));
        let mut ident_data: Vec<String> = Vec::new();
        ident_data.push(String::from_str("vin"));
        ident_data.push(String::from_str("ecu_serial_number"));
        ident_data.push(String::from_str("ecu_hardware_version"));
        ident_data.push(String::from_str("ecu_software_version"));
        ident_data.push(String::from_str("manufacturing_date"));
        ident_data.push(String::from_str("system_supplier_id"));
        let mut c: Vec<(String, Vec<String>)> = Vec::new();
        c.push((String::from_str("identData"), ident_data));
        proof {
            reveal_strlit("vin");
            reveal_strlit("ecu_serial_number");
            reveal_strlit("ecu_hardware_version");
            reveal_strlit("ecu_software_version");
            reveal_strlit("manufacturing_date");
            reveal_strlit("system_supplier_id");
            let ds = d@;
            let keys = default_item_ids();
            assert forall|i: int, j: int| 0 <= i < j < ds.len() implies (#[trigger] ds[i]).0@ != (#[trigger] ds[j]).0@ by {
                assert(ds[i].0@.len() != ds[j].0@.len() || ds[i].0@[0] != ds[j].0@[0]
                    || ds[i].0@[4] != ds[j].0@[4] || ds[i].0@[5] != ds[j].0@[5]);
            }
            assert forall|k: Seq<char>| table_map(ds).dom().contains(k) <==> #[trigger] keys.to_set().contains(k) by {
                if has_key(ds, k) {
                    let i = choose|i: int| 0 <= i < ds.len() && (#[trigger] ds[i]).0@ == k;
                    assert(keys[i] == k);
                }
                if keys.to_set().contains(k) {
                    let i = choose|i: int| 0 <= i < keys.len() && keys[i] == k;
                    assert(ds[i].0@ == k);
                }
            }
            assert(table_map(ds).dom() =~= keys.to_set());
            lemma_table_entry(ds, 0);
            lemma_table_entry(ds, 1);
            lemma_table_entry(ds, 2);
            lemma_table_entry(ds, 3);
            lemma_table_entry(ds, 4);
            lemma_table_entry(ds, 5);
            assert(ds.map_values(|e: (String, u16)| e.0@) =~= keys);
            let cs = c@;
            lemma_table_entry(cs, 0);
            assert forall|k: Seq<char>| table_map(cs).dom().contains(k) <==> #[trigger] set!["identData"@].contains(k) by {
                if has_key(cs, k) {
                    let i = choose|i: int| 0 <= i < cs.len() && (#[trigger] cs[i]).0@ == k;
                    assert(i == 0);
                }
            }
            assert(table_map(cs).dom() =~= set!["identData"@]);
            assert(str_views(table_map(cs)["identData"@]@) =~= keys);
        }
        self.did_mappings = d;
        self.category_mappings = c;
    }

    /// Adds a data item, or gives an existing one a new DID.
    pub fn add_did_mapping(&mut self, sovd_id: String, did: u16)
        requires
            old(self).wf(),
        ensures
            final(self).wf(),
            final(self).did_map() == old(self).did_map().insert(sovd_id@, did),
            old(self).did_map().contains_key(sovd_id@) ==> final(self).item_ids() == old(self).item_ids(),
            !old(self).did_map().contains_key(sovd_id@) ==> final(self).item_ids() == old(self).item_ids().push(sovd_id@),
            final(self).category_map() == old(self).category_map(),
    {
        match find_key(&self.did_mappings, sovd_id.as_str()) {
            Some(i) => {
                proof {
                    lemma_table_update(self.did_mappings@, i as int, (sovd_id, did));
                }
                let ghost before = self.did_mappings@;
                self.did_mappings.set(i, (sovd_id, did));
                proof {
                    lemma_table_entry(before, i as int);
                    assert(self.did_mappings@.map_values(|e: (String, u16)| e.0@)
                        =~= before.map_values(|e: (String, u16)| e.0@));
                }
            },
            None => {
                proof {
                    lemma_table_push(self.did_mappings@, (sovd_id, did));
                }
                let ghost before = self.did_mappings@;
                self.did_mappings.push((sovd_id, did));
                proof {
                    assert(self.did_mappings@.map_values(|e: (String, u16)| e.0@)
                        =~= before.map_values(|e: (String, u16)| e.0@).push(sovd_id@));
                }
            },
        }
    }

    /// DID of a data item, if catalogued.
    pub fn get_did(&self, data_item_id: &str) -> (r: Option<u16>)
        requires
            self.wf(),
        ensures
            r == (if self.did_map().contains_key(data_item_id@) {
                Some(self.did_map()[data_item_id@])
            } else {
                None
            }),
    {
        match find_key(&self.did_mappings, data_item_id) {
            Some(i) => {
                proof {
                    lemma_table_entry(self.did_mappings@, i as int);
                }
                Some(self.did_mappings[i].1)
            },
            None => None,
        }
    }

    /// The listed components: engine, transmission, abs, airbag.
    pub fn get_components(&self) -> (r: Vec<Component>)
        ensures
            r@.len() == 4,
            forall|i: int| 0 <= i < 4 ==> {
                &&& (#[trigger] r@[i]).id@ == component_table()[i].0
                &&& r@[i].name@ == component_table()[i].1
                &&& r@[i].description matches Some(d) && d@ == component_table()[i].2
            },
    {
        let mut v: Vec<Component> = Vec::new();
        v.push(Component {
            id: String::from_str("engine"),
            name: String::from_str("Engine Control Unit"),
            description: Some(String::from_str("Main engine control unit")),
        });
        v.push(Component {
            id: String::from_str("transmission"),
            name: String::from_str("Transmission Control Unit"),
            description: Some(String::from_str("Automatic transmission control")),
        });
        v.push(Component {
            id: String::from_str("abs"),
            name: String::from_str("ABS Control Unit"),
            description: Some(String::from_str("Anti-lock braking system")),
        });
        v.push(Component {
            id: String::from_str("airbag"),
            name: String::from_str("Airbag Control Unit"),
            description: Some(String::from_str("Airbag and restraint system")),
        });
        v
    }

    /// The catalogue entry describing `item_id`; an id outside the
    /// well-known set is described as unknown.
    pub fn create_data_item(&self, item_id: &str) -> (r: DataItem)
        ensures
            item_matches(r, item_id@),
    {
        let (name, category, data_type, description) = if str_eq(item_id, "vin") {
            ("Vehicle Identification Number", "identData", "string", "Unique vehicle identification number")
        } else if str_eq(item_id, "ecu_serial_number") {
            ("ECU Serial Number", "identData", "string", "ECU serial number")
        } else if str_eq(item_id, "ecu_hardware_version") {
            ("ECU Hardware Version", "identData", "string", "ECU hardware version")
        } else if str_eq(item_id, "ecu_software_version") {
            ("ECU Software Version", "identData", "string", "ECU software version")
        } else if str_eq(item_id, "manufacturing_date") {
            ("Manufacturing Date", "identData", "string", "ECU manufacturing date")
        } else if str_eq(item_id, "system_supplier_id") {
            ("System Supplier ID", "identData", "string", "System supplier identifier")
        } else {
            (item_id, "unknown", "string", "Unknown data item")
        };
        DataItem {
            id: String::from_str(item_id),
            name: String::from_str(name),
            category: String::from_str(category),
            data_type: Some(String::from_str(data_type)),
            description: Some(String::from_str(description)),
        }
    }

    /// The data items of the given categories, each once, or all
    /// catalogued items when the filter is absent or empty.
    pub fn get_component_data_items(&self, categories: Option<&[String]>) -> (r: Vec<DataItem>)
        requires
            self.wf(),
        ensures
            ({
                let ids = match categories {
                    Some(cats) => if cats@.len() == 0 {
                        self.item_ids()
                    } else {
                        category_ids(self.category_map(), str_views(cats@))
                    },
                    None => self.item_ids(),
                };
                &&& r@.len() == ids.len()
                &&& forall|i: int| 0 <= i < ids.len() ==> item_matches(#[trigger] r@[i], ids[i])
            }),
    {
        let mut items: Vec<DataItem> = Vec::new();
        let all = match categories {
            None => true,
            Some(cats) => cats.len() == 0,
        };
        if all {
            let mut i: usize = 0;
            while i < self.did_mappings.len()
                invariant
                    i <= self.did_mappings@.len(),
                    items@.len() == i,
                    forall|j: int| 0 <= j < i ==> item_matches(#[trigger] items@[j], self.item_ids()[j]),
                decreases self.did_mappings@.len() - i,
            {
                let item = self.create_data_item(self.did_mappings[i].0.as_str());
                items.push(item);
                i = i + 1;
            }
            proof {
                assert(self.item_ids().len() == self.did_mappings@.len());
            }
            return items;
        }
        let cats = match categories {
            Some(cats) => cats,
            None => {
                return items;
            },
        };
        let mut c: usize = 0;
        while c < cats.len()
            invariant
                c <= cats@.len(),
                unique_keys(self.category_mappings@),
                items@.len() == category_ids(self.category_map(), str_views(cats@.subrange(0, c as int))).len(),
                forall|j: int| 0 <= j < items@.len() ==> item_matches(#[trigger] items@[j],
                    category_ids(self.category_map(), str_views(cats@.subrange(0, c as int)))[j]),
            decreases cats@.len() - c,
        {
            let ghost done = category_ids(self.category_map(), str_views(cats@.subrange(0, c as int)));
            let ghost next = str_views(cats@.subrange(0, c + 1 as int));
            assert(next.drop_last() =~= str_views(cats@.subrange(0, c as int)));
            assert(next.last() == cats@[c as int]@);
            match find_key(&self.category_mappings, cats[c].as_str()) {
                Some(k) => {
                    proof {
                        lemma_table_entry(self.category_mappings@, k as int);
                    }
                    let ids = &self.category_mappings[k].1;
                    let ghost added = str_views(ids@);
                    let mut j: usize = 0;
                    while j < ids.len()
                        invariant
                            j <= ids@.len(),
                            added == str_views(ids@),
                            items@.len() == add_new_ids(done, added.subrange(0, j as int)).len(),
                            forall|m: int| 0 <= m < items@.len() ==> item_matches(#[trigger] items@[m],
                                add_new_ids(done, added.subrange(0, j as int))[m]),
                        decreases ids@.len() - j,
                    {
                        let ghost cur = add_new_ids(done, added.subrange(0, j as int));
                        let ghost nxt = added.subrange(0, j + 1 as int);
                        assert(nxt.drop_last() =~= added.subrange(0, j as int));
                        assert(nxt.last() == ids@[j as int]@);
                        let id = ids[j].as_str();
                        let mut present = false;
                        let mut k2: usize = 0;
                        while k2 < items.len()
                            invariant
                                k2 <= items@.len(),
                                items@.len() == cur.len(),
                                forall|m: int| 0 <= m < items@.len() ==> item_matches(#[trigger] items@[m], cur[m]),
                                present <==> exists|m: int| 0 <= m < k2 && cur[m] == id@,
                            decreases items@.len() - k2,
                        {
                            if str_eq(items[k2].id.as_str(), id) {
                                present = true;
                            }
                            assert(item_matches(items@[k2 as int], cur[k2 as int]));
                            k2 = k2 + 1;
                        }
                        assert(present <==> cur.contains(id@));
                        if !present {
                            let item = self.create_data_item(id);
                            items.push(item);
                        }
                        assert(add_new_ids(done, nxt) == (if cur.contains(id@) { cur } else { cur.push(id@) }));
                        j = j + 1;
                    }
                    assert(added.subrange(0, ids@.len() as int) =~= added);
                },
                None => {},
            }
            c = c + 1;
        }
        assert(cats@.subrange(0, cats@.len() as int) =~= cats@);
        items
    }
}

impl Default for SovdUdsTranslator {
    /// The same as [`SovdUdsTranslator::new`].
    fn default() -> (r: SovdUdsTranslator)
        ensures
            r.wf(),
            r.item_ids() == default_item_ids(),
            is_default_did_map(r.did_map()),
            r.category_map().dom() == set!["identData"@],
            str_views(r.category_map()["identData"@]@) == default_item_ids(),
    {
        SovdUdsTranslator::new()
    }
}

/// Routine id of an actuator; an unknown actuator is an invalid request.
pub fn get_routine_id(actuator_id: &str) -> (r: Result<u16, crate::error::Sovd2UdsError>)
    ensures
        match r {
            Ok(id) => routine_of(actuator_id@) == Some(id),
            Err(e) => routine_of(actuator_id@) is None && e is InvalidRequest,
        },
{
    if str_eq(actuator_id, "fuel_pump") {
        Ok(0x0201)
    } else if str_eq(actuator_id, "cooling_fan") {
        Ok(0x0202)
    } else if str_eq(actuator_id, "throttle") {
        Ok(0x0203)
    } else {
        let mut msg = String::from_str("Unknown actuator: ");
        msg.append(actuator_id);
        Err(crate::error::Sovd2UdsError::InvalidRequest(msg))
    }
}

/// What a DTC request asks for.
#[derive(Debug, Clone, Copy, PartialEq, Eq, Structural)]
pub enum DtcAction {
    /// Clear every DTC group.
    Clear,
    /// Report DTCs by status mask.
    Read,
    /// Read freeze-frame data.
    FreezeFrame,
}

/// The DTC action named `a`, if any.
pub open spec fn dtc_action_named(a: Seq<char>) -> Option<DtcAction> {
    if a == "clear"@ {
        Some(DtcAction::Clear)
    } else if a == "read"@ {
        Some(DtcAction::Read)
    } else if a == "freeze_frame"@ {
        Some(DtcAction::FreezeFrame)
    } else {
        None
    }
}

/// Name of a DTC action.
pub open spec fn dtc_action_name(a: DtcAction) -> Seq<char> {
    match a {
        DtcAction::Clear => "clear"@,
        DtcAction::Read => "read"@,
        DtcAction::FreezeFrame => "freeze_frame"@,
    }
}

/// The UDS operation of a DTC action: clear group 0xFFFFFF, or read DTC
/// information with sub-function 0x02 (by status mask) or 0x04 (freeze
/// frame).
pub open spec fn dtc_action_op(a: DtcAction) -> UdsOperation {
    match a {
        DtcAction::Clear => UdsOperation::ClearDiagnosticInformation(0xFFFFFF),
        DtcAction::Read => UdsOperation::ReadDtcInformation(0x02),
        DtcAction::FreezeFrame => UdsOperation::ReadDtcInformation(0x04),
    }
}

/// Routine control type of an actuator action: `start` or `stop`.
pub open spec fn actuator_control_type(action: Seq<char>) -> Option<RoutineControlType> {
    if action == "start"@ {
        Some(RoutineControlType::StartRoutine)
    } else if action == "stop"@ {
        Some(RoutineControlType::StopRoutine)
    } else {
        None
    }
}

/// Routine parameters of an actuator request: the serialised value, or
/// nothing when no value is given; `None` when the value cannot be
/// serialised.
pub open spec fn actuator_params(value: Option<SovdValue>) -> Option<Seq<u8>> {
    match value {
        Some(v) => value_bytes(v@),
        None => Some(Seq::empty()),
    }
}

/// A copy of a value.
pub fn copy_value(v: &SovdValue) -> (r: SovdValue)
    ensures
        r@ == v@,
{
    match v {
        SovdValue::Null => SovdValue::Null,
        SovdValue::Bool(b) => SovdValue::Bool(*b),
        SovdValue::UInt(n) => SovdValue::UInt(*n),
        SovdValue::Signed(n) => SovdValue::Signed(*n),
        SovdValue::Fractional => SovdValue::Fractional,
        SovdValue::Text(s) => SovdValue::Text(s.clone()),
        SovdValue::Structured => SovdValue::Structured,
    }
}

impl SovdUdsTranslator {
    /// The read of a data item: its DID, or data-item-not-found when it is
    /// not catalogued.
    pub fn plan_read_data_item(&self, data_item_id: &str) -> (r: Result<UdsOperation, Sovd2UdsError>)
        requires
            self.wf(),
        ensures
            match r {
                Ok(op) => self.did_map().contains_key(data_item_id@)
                    && op == UdsOperation::ReadDataByIdentifier(self.did_map()[data_item_id@]),
                Err(e) => !self.did_map().contains_key(data_item_id@) && e is DataItemNotFound,
            },
    {
        match self.get_did(data_item_id) {
            Some(did) => Ok(UdsOperation::ReadDataByIdentifier(did)),
            None => Err(Sovd2UdsError::DataItemNotFound(String::from_str(data_item_id))),
        }
    }

    /// The value of a data item from the bytes read for it, coerced by the
    /// item's declared type, stamped now, of good quality.
    pub fn data_item_value(&self, data_item_id: &str, raw: &[u8]) -> (r: DataItemValue)
        ensures
            r.id@ == data_item_id@,
            r.name@ == item_info(data_item_id@).0,
            r.category@ == item_info(data_item_id@).1,
            r.data@ == coerce(raw@, data_type_named(item_info(data_item_id@).2)),
            r.timestamp is Some,
            r.quality matches Some(q) && q@ == "good"@,
    {
        let item = self.create_data_item(data_item_id);
        let data_type = match &item.data_type {
            Some(t) => DataType::from_name(t.as_str()),
            None => DataType::Text,
        };
        let data = convert_uds_data_to_sovd(raw, data_type);
        DataItemValue {
            id: String::from_str(data_item_id),
            name: item.name,
            category: item.category,
            data,
            timestamp: Some(Timestamp::now()),
            quality: Some(String::from_str("good")),
        }
    }

    /// The action of a DTC request and its UDS operation; an unknown
    /// action is an invalid request.
    pub fn plan_manage_dtcs(&self, request: &DtcManagementRequest) -> (r: Result<(DtcAction, UdsOperation), Sovd2UdsError>)
        ensures
            match r {
                Ok((a, op)) => dtc_action_named(request.action@) == Some(a) && op == dtc_action_op(a),
                Err(e) => dtc_action_named(request.action@) is None && e is InvalidRequest,
            },
    {
        let action = request.action.as_str();
        if str_eq(action, "clear") {
            Ok((DtcAction::Clear, UdsOperation::ClearDiagnosticInformation(0xFFFFFF)))
        } else if str_eq(action, "read") {
            Ok((DtcAction::Read, UdsOperation::ReadDtcInformation(0x02)))
        } else if str_eq(action, "freeze_frame") {
            Ok((DtcAction::FreezeFrame, UdsOperation::ReadDtcInformation(0x04)))
        } else {
            let mut msg = String::from_str("Unknown DTC action: ");
            msg.append(action);
            Err(Sovd2UdsError::InvalidRequest(msg))
        }
    }

    /// The response to a completed DTC action, from the payload returned:
    /// nothing for a clear, the parsed records for a read, the payload as
    /// hex for a freeze frame.
    pub fn finish_manage_dtcs(&self, action: DtcAction, raw: &[u8]) -> (r: DtcManagementResponse)
        ensures
            r.action@ == dtc_action_name(action),
            r.status@ == "success"@,
            r.timestamp is Some,
            action == DtcAction::Clear ==> r.results is None
                && (r.message matches Some(m) && m@ == "All DTCs cleared successfully"@),
            action == DtcAction::Read ==> (r.results matches Some(DtcResults::Dtcs(v))
                && v@.len() == dtc_count(raw@.len() as int)
                && (forall|i: int| 0 <= i < v@.len() ==> record_matches(#[trigger] v@[i], raw@, i))
                && (r.message matches Some(m) && m@ == "Found "@ + decimal_of(v@.len()) + " DTCs"@)),
            action == DtcAction::FreezeFrame ==> (r.results matches Some(DtcResults::FreezeFrame(h))
                && h@ == hex_of(raw@))
                && (r.message matches Some(m) && m@ == "Freeze frame data retrieved"@),
    {
        match action {
            DtcAction::Clear => DtcManagementResponse {
                action: String::from_str("clear"),
                status: String::from_str("success"),
                results: None,
                message: Some(String::from_str("All DTCs cleared successfully")),
                timestamp: Some(Timestamp::now()),
            },
            DtcAction::Read => {
                let dtcs = parse_dtc_data(raw);
                let mut msg = String::from_str("Found ");
                push_decimal(&mut msg, dtcs.len());
                msg.append(" DTCs");
                DtcManagementResponse {
                    action: String::from_str("read"),
                    status: String::from_str("success"),
                    results: Some(DtcResults::Dtcs(dtcs)),
                    message: Some(msg),
                    timestamp: Some(Timestamp::now()),
                }
            },
            DtcAction::FreezeFrame => DtcManagementResponse {
                action: String::from_str("freeze_frame"),
                status: String::from_str("success"),
                results: Some(DtcResults::FreezeFrame(encode(raw))),
                message: Some(String::from_str("Freeze frame data retrieved")),
                timestamp: Some(Timestamp::now()),
            },
        }
    }

    /// The routine control that an actuator request asks for; an unknown
    /// actuator, an action other than `start` and `stop`, or a value that
    /// cannot be serialised is an invalid request.
    pub fn plan_control_actuator(&self, request: &ActuatorControlRequest) -> (r: Result<UdsOperation, Sovd2UdsError>)
        ensures
            match r {
                Ok(op) => routine_of(request.actuator_id@) is Some
                    && actuator_control_type(request.action@) is Some
                    && actuator_params(request.value) is Some
                    && (op matches UdsOperation::RoutineControl(t, id, params)
                    && t == actuator_control_type(request.action@)->Some_0.spec_code()
                    && id == routine_of(request.actuator_id@)->Some_0
                    && params@ == actuator_params(request.value)->Some_0),
                Err(e) => e is InvalidRequest && (routine_of(request.actuator_id@) is None
                    || actuator_control_type(request.action@) is None
                    || actuator_params(request.value) is None),
            },
    {
        let routine_id = get_routine_id(request.actuator_id.as_str())?;
        let control_type = if str_eq(request.action.as_str(), "start") {
            RoutineControlType::StartRoutine
        } else if str_eq(request.action.as_str(), "stop") {
            RoutineControlType::StopRoutine
        } else {
            let mut msg = String::from_str("Unknown actuator action: ");
            msg.append(request.action.as_str());
            return Err(Sovd2UdsError::InvalidRequest(msg));
        };
        let params = match &request.value {
            Some(value) => serialize_value_to_bytes(value)?,
            None => Vec::new(),
        };
        Ok(UdsOperation::RoutineControl(control_type.code(), routine_id, params))
    }

    /// The response to a completed actuator control: the request echoed,
    /// status `success`, stamped now.
    pub fn finish_control_actuator(&self, request: &ActuatorControlRequest) -> (r: ActuatorControlResponse)
        ensures
            r.actuator_id@ == request.actuator_id@,
            r.action@ == request.action@,
            r.status@ == "success"@,
            match (r.value, request.value) {
                (Some(a), Some(b)) => a@ == b@,
                (None, None) => true,
                _ => false,
            },
            r.message matches Some(m)
                && m@ == "Actuator "@ + request.actuator_id@ + " "@ + request.action@ + " successfully"@,
            r.timestamp is Some,
    {
        let mut msg = String::from_str("Actuator ");
        msg.append(request.actuator_id.as_str());
        msg.append(" ");
        msg.append(request.action.as_str());
        msg.append(" successfully");
        ActuatorControlResponse {
            actuator_id: request.actuator_id.clone(),
            action: request.action.clone(),
            status: String::from_str("success"),
            value: match &request.value {
                Some(v) => Some(copy_value(v)),
                None => None,
            },
            message: Some(msg),
            timestamp: Some(Timestamp::now()),
        }
    }
}

} // verus!
