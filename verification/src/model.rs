//! The session's data model.
//!
//! Operations never touch hardware themselves: the caller hands them a
//! snapshot of what the adapter currently reports — every visible
//! peripheral with its advertised data, its connection state and, where
//! discovery ran, its GATT services. The types here are those snapshots
//! and the plain values the session produces from them: scan table
//! rows, connect requests and the on-demand GATT topology aggregate.

use vstd::prelude::*;
use crate::flags::{CharacteristicProperties, NativeProperties, normalized_bits};

verus! {

/// The stable identifier a platform exposes for one peripheral. Some
/// platforms report the hardware address; others hide it behind an
/// opaque per-session identifier. The tag records which form is
/// active, so nothing downstream mistakes an opaque identifier for a
/// real address.
#[derive(Debug)]
pub enum PeripheralIdentity {
    /// A real hardware address.
    Address(String),
    /// An opaque identifier the platform substitutes for the address.
    OpaqueId(String),
}

impl PeripheralIdentity {
    /// The identifier text, whichever form is active.
    pub open spec fn id_text(self) -> Seq<char> {
        match self {
            PeripheralIdentity::Address(s) => s@,
            PeripheralIdentity::OpaqueId(s) => s@,
        }
    }

    /// A copy of the identifier text.
    pub fn id_string(&self) -> (r: String)
        ensures
            r@ == self.id_text(),
    {
        match self {
            PeripheralIdentity::Address(s) => s.clone(),
            PeripheralIdentity::OpaqueId(s) => s.clone(),
        }
    }
}

/// Chooses the identity form for the platform at hand: a platform that
/// exposes only an opaque session identifier yields `OpaqueId`, every
/// other one the hardware address.
pub fn identity_from_platform(uses_opaque_id: bool, opaque_id: String, address: String) -> (r:
    PeripheralIdentity)
    ensures
        uses_opaque_id ==> r == PeripheralIdentity::OpaqueId(opaque_id),
        !uses_opaque_id ==> r == PeripheralIdentity::Address(address),
{
    if uses_opaque_id {
        PeripheralIdentity::OpaqueId(opaque_id)
    } else {
        PeripheralIdentity::Address(address)
    }
}

/// The native capability report of one discovered characteristic.
#[derive(Debug)]
pub struct CharacteristicSnapshot {
    /// The characteristic's UUID, as text.
    pub uuid: String,
    /// The platform's capability bits, reduced to plain booleans.
    pub native: NativeProperties,
}

/// One discovered service with its characteristics, in discovery order.
#[derive(Debug)]
pub struct ServiceSnapshot {
    /// The service's UUID, as text.
    pub uuid: String,
    /// The service's characteristics, in discovery order.
    pub characteristics: Vec<CharacteristicSnapshot>,
}

/// What the adapter currently reports about one visible peripheral.
/// The set of visible peripherals is cumulative across the radio's
/// internal cache — "currently known", not "seen just now".
#[derive(Debug)]
pub struct PeripheralSnapshot {
    /// The advertised local name, if any was seen.
    pub name: Option<String>,
    /// The platform identity (address or opaque identifier).
    pub identity: PeripheralIdentity,
    /// The received signal strength, if any was reported.
    pub rssi: Option<i16>,
    /// The company code of the first manufacturer datum, if any.
    pub company_id: Option<u16>,
    /// Whether the hardware reports this peripheral as connected.
    pub connected: bool,
    /// The discovered services, where discovery ran; empty otherwise.
    pub services: Vec<ServiceSnapshot>,
}

/// Sentinel company identifier meaning "no manufacturer data seen".
pub const COMPANY_ID_NONE: usize = usize::MAX;

/// One row of the scan table. The table is rebuilt wholesale by every
/// scan; `id` is the row's position in that table.
#[derive(Debug)]
pub struct BlePeripheral {
    /// The advertised name, or "unknown" where none was seen.
    pub name: String,
    /// The platform identifier; an address or an opaque identifier,
    /// depending on the platform — never assume a real address.
    pub address_uuid: String,
    /// The signal strength, or 0 where none was reported.
    pub rssi: i16,
    /// The 0-based position of this row in the scan table.
    pub id: usize,
    /// The first manufacturer-data company code, or `COMPANY_ID_NONE`.
    pub company_id: usize,
}

/// The name a peripheral is displayed under: the advertised name, with
/// "unknown" as the fallback.
pub open spec fn display_name(name: Option<String>) -> Seq<char> {
    match name {
        Some(n) => n@,
        None => "unknown"@,
    }
}

/// The signal strength recorded for a peripheral, with 0 as fallback.
pub open spec fn effective_rssi(rssi: Option<i16>) -> i16 {
    match rssi {
        Some(r) => r,
        None => 0,
    }
}

/// The company code recorded for a peripheral, with the sentinel
/// `COMPANY_ID_NONE` as fallback.
pub open spec fn effective_company(company: Option<u16>) -> usize {
    match company {
        Some(c) => c as usize,
        None => COMPANY_ID_NONE,
    }
}

/// How one scan table row relates to the observation it was built
/// from and to its position in the table.
pub open spec fn entry_matches_observation(
    e: BlePeripheral,
    obs: PeripheralSnapshot,
    index: int,
) -> bool {
    &&& e.name@ == display_name(obs.name)
    &&& e.address_uuid@ == obs.identity.id_text()
    &&& e.rssi == effective_rssi(obs.rssi)
    &&& e.id == index
    &&& e.company_id == effective_company(obs.company_id)
}

/// Value equality of two scan table rows (string fields by text).
pub open spec fn entry_eq(a: BlePeripheral, b: BlePeripheral) -> bool {
    &&& a.name@ == b.name@
    &&& a.address_uuid@ == b.address_uuid@
    &&& a.rssi == b.rssi
    &&& a.id == b.id
    &&& a.company_id == b.company_id
}

/// A copy of the name a peripheral is displayed under, with the
/// "unknown" fallback applied.
pub fn display_name_string(name: &Option<String>) -> (r: String)
    ensures
        r@ == display_name(*name),
{
    match name {
        Some(n) => n.clone(),
        None => "unknown".to_owned(),
    }
}

/// Builds the scan table row for one observation at one position.
pub fn scan_entry_of(obs: &PeripheralSnapshot, index: usize) -> (e: BlePeripheral)
    ensures
        entry_matches_observation(e, *obs, index as int),
{
    let name: String = display_name_string(&obs.name);
    let rssi: i16 = match obs.rssi {
        Some(r) => r,
        None => 0,
    };
    let company_id: usize = match obs.company_id {
        Some(c) => c as usize,
        None => COMPANY_ID_NONE,
    };
    BlePeripheral { name, address_uuid: obs.identity.id_string(), rssi, id: index, company_id }
}

/// One characteristic of the reported GATT topology, with normalized
/// capability flags.
#[derive(Debug)]
pub struct Characteristic {
    /// The characteristic's UUID, as text.
    pub uuid: String,
    /// The normalized capability flags.
    pub properties: CharacteristicProperties,
}

/// One service of the reported GATT topology, with its ordered
/// characteristic list.
#[derive(Debug)]
pub struct Service {
    /// The service's UUID, as text.
    pub uuid: String,
    /// The characteristics, in discovery order.
    pub characteristics: Vec<Characteristic>,
}

/// The on-demand aggregate describing the connected peripheral. It is
/// built fresh on every request and never cached: the peripheral's
/// topology may legitimately change between invocations.
#[derive(Debug)]
pub struct BlePeripheralInfo {
    /// The peripheral's display name ("unknown" where none was seen).
    pub periph_name: String,
    /// The platform identifier (address or opaque identifier).
    pub periph_mac: String,
    /// The signal strength, or 0 where none was reported.
    pub rssi: i16,
    /// The discovered services, in discovery order.
    pub services: Vec<Service>,
}

/// How one reported characteristic relates to its native snapshot.
pub open spec fn characteristic_matches(c: Characteristic, cs: CharacteristicSnapshot) -> bool {
    &&& c.uuid@ == cs.uuid@
    &&& c.properties.bits == normalized_bits(cs.native)
}

/// How one reported service relates to its snapshot: same UUID, and
/// characteristics corresponding one to one, in order.
pub open spec fn service_matches(s: Service, ss: ServiceSnapshot) -> bool {
    &&& s.uuid@ == ss.uuid@
    &&& s.characteristics@.len() == ss.characteristics@.len()
    &&& forall|i: int|
        0 <= i < ss.characteristics@.len() ==> #[trigger] characteristic_matches(
            s.characteristics@[i],
            ss.characteristics@[i],
        )
}

/// How the reported aggregate relates to the snapshot of the
/// peripheral it describes.
pub open spec fn info_matches_snapshot(info: BlePeripheralInfo, obs: PeripheralSnapshot) -> bool {
    &&& info.periph_name@ == display_name(obs.name)
    &&& info.periph_mac@ == obs.identity.id_text()
    &&& info.rssi == effective_rssi(obs.rssi)
    &&& info.services@.len() == obs.services@.len()
    &&& forall|i: int|
        0 <= i < obs.services@.len() ==> #[trigger] service_matches(
            info.services@[i],
            obs.services@[i],
        )
}

/// Whether no visible peripheral is currently connected.
pub open spec fn no_connected(visible: Seq<PeripheralSnapshot>) -> bool {
    forall|i: int| 0 <= i < visible.len() ==> !(#[trigger] visible[i]).connected
}

/// Whether `i` is the position of the first connected peripheral.
pub open spec fn is_first_connected(visible: Seq<PeripheralSnapshot>, i: int) -> bool {
    &&& 0 <= i < visible.len()
    &&& visible[i].connected
    &&& forall|j: int| 0 <= j < i ==> !(#[trigger] visible[j]).connected
}

/// Finds the first currently connected peripheral, if any. Every
/// operation that needs "the connected peripheral" resolves it afresh
/// through this one function rather than caching a handle.
pub fn find_first_connected(visible: &Vec<PeripheralSnapshot>) -> (r: Option<usize>)
    ensures
        match r {
            Some(i) => is_first_connected(visible@, i as int),
            None => no_connected(visible@),
        },
{
    let mut i: usize = 0;
    while i < visible.len()
        invariant
            i <= visible@.len(),
            forall|j: int| 0 <= j < i ==> !(#[trigger] visible@[j]).connected,
        decreases visible@.len() - i,
    {
        if visible[i].connected {
            return Some(i);
        }
        i = i + 1;
    }
    None
}

/// A connect request: the caller supplies exactly one of the three
/// identifier kinds. Supplying none, or more than one, is rejected —
/// the kinds are mutually exclusive.
#[derive(Debug)]
pub struct ConnectRequest {
    /// Identify the peripheral by its advertised (display) name.
    pub name: Option<String>,
    /// Identify it by its platform identifier (address or opaque id).
    pub address_or_uuid: Option<String>,
    /// Identify it by its row index in the last scan table.
    pub scan_index: Option<usize>,
}

/// How many identifier kinds the request supplies.
pub open spec fn kind_count(req: ConnectRequest) -> int {
    (if req.name is Some {
        1int
    } else {
        0int
    }) + (if req.address_or_uuid is Some {
        1int
    } else {
        0int
    }) + (if req.scan_index is Some {
        1int
    } else {
        0int
    })
}

/// Whether the request supplies exactly one identifier kind.
pub open spec fn exactly_one_kind(req: ConnectRequest) -> bool {
    kind_count(req) == 1
}

/// Whether one visible peripheral matches the request, against the
/// current scan table `entries` (a scan index names a row of the last
/// scan table, and matches the peripheral carrying that row's
/// identifier).
pub open spec fn request_matches_peripheral(
    req: ConnectRequest,
    entries: Seq<BlePeripheral>,
    p: PeripheralSnapshot,
) -> bool {
    ||| (req.name matches Some(n) && display_name(p.name) == n@)
    ||| (req.address_or_uuid matches Some(a) && p.identity.id_text() == a@)
    ||| (req.scan_index matches Some(k) && k < entries.len() && p.identity.id_text()
        == entries[k as int].address_uuid@)
}

/// Whether `i` is the position of the first visible peripheral the
/// request matches.
pub open spec fn is_first_request_match(
    req: ConnectRequest,
    entries: Seq<BlePeripheral>,
    visible: Seq<PeripheralSnapshot>,
    i: int,
) -> bool {
    &&& 0 <= i < visible.len()
    &&& request_matches_peripheral(req, entries, visible[i])
    &&& forall|j: int|
        0 <= j < i ==> !request_matches_peripheral(req, entries, #[trigger] visible[j])
}

/// Whether one visible peripheral matches the request, against the
/// given scan table.
pub fn matches_request(
    req: &ConnectRequest,
    entries: &Vec<BlePeripheral>,
    p: &PeripheralSnapshot,
) -> (r: bool)
    ensures
        r == request_matches_peripheral(*req, entries@, *p),
{
    let name_hit: bool = match &req.name {
        Some(n) => {
            let d = display_name_string(&p.name);
            d == *n
        },
        None => false,
    };
    let addr_hit: bool = match &req.address_or_uuid {
        Some(a) => {
            let s = p.identity.id_string();
            s == *a
        },
        None => false,
    };
    let idx_hit: bool = match req.scan_index {
        Some(k) => {
            if k < entries.len() {
                let s = p.identity.id_string();
                s == entries[k].address_uuid
            } else {
                false
            }
        },
        None => false,
    };
    name_hit || addr_hit || idx_hit
}

} // verus!
