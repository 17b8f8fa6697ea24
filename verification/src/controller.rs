//! The device session controller.
//!
//! One controller value owns the session state: the chosen adapter's
//! info text, the single-connection flag, the scan table of the last
//! scan, and the subscription registry. The session is single-flight —
//! the caller issues one operation at a time and awaits its completion
//! — so the state needs no locking.
//!
//! Hardware is the caller's side: each operation takes the caller's
//! current snapshot of the adapter-visible peripherals and returns the
//! decision (the table, the peripheral to connect, the I/O commands to
//! run). The connection flag is local state: it reflects the last
//! connect or disconnect this controller performed, without a hardware
//! round-trip, and may be stale versus hardware truth.

use vstd::prelude::*;
use crate::error::BleError;
use crate::flags::normalize_properties;
use crate::matching::{CharMatch, connected_matches, find_connected_matches};
use crate::model::{
    BlePeripheral, BlePeripheralInfo, Characteristic, PeripheralSnapshot, ConnectRequest, Service,
    entry_matches_observation, entry_eq, scan_entry_of, no_connected, is_first_connected,
    find_first_connected, exactly_one_kind, request_matches_peripheral, is_first_request_match,
    matches_request, display_name_string, info_matches_snapshot, characteristic_matches,
    service_matches,
};

verus! {

/// What a subscription listens for: unacknowledged notifications or
/// acknowledged indications.
#[derive(Clone, Copy, PartialEq, Eq, Structural, Debug)]
pub enum SubscriptionMode {
    /// Listen for notifications.
    Notify,
    /// Listen for indications.
    Indicate,
}

/// One planned write against a resolved characteristic.
#[derive(Debug)]
pub struct WriteCommand {
    /// The resolved characteristic the write goes to.
    pub target: CharMatch,
    /// The bytes to write.
    pub payload: Vec<u8>,
    /// Whether the write asks the peripheral for a response.
    pub with_response: bool,
}

/// A fresh copy of a byte payload.
fn copy_bytes(src: &Vec<u8>) -> (r: Vec<u8>)
    ensures
        r@ == src@,
{
    let mut out: Vec<u8> = Vec::new();
    let mut i: usize = 0;
    while i < src.len()
        invariant
            i <= src@.len(),
            out@.len() == i,
            forall|k: int| 0 <= k < i ==> out@[k] == src@[k],
        decreases src@.len() - i,
    {
        out.push(src[i]);
        i = i + 1;
    }
    proof {
        assert(out@ =~= src@);
    }
    out
}

/// One registered subscription. Delivered values are pushed to the
/// caller's sink in arrival order; the registry only records which
/// characteristic UUIDs the session wants delivered, and in which
/// mode.
#[derive(Debug)]
pub struct Subscription {
    /// The subscribed characteristic's UUID, as text.
    pub characteristic: String,
    /// Whether notifications or indications are listened for.
    pub mode: SubscriptionMode,
}

/// Whether the registry holds a subscription for this UUID and mode.
pub open spec fn has_subscription(
    subs: Seq<Subscription>,
    uuid: Seq<char>,
    mode: SubscriptionMode,
) -> bool {
    exists|k: int|
        0 <= k < subs.len() && (#[trigger] subs[k]).characteristic@ == uuid && subs[k].mode == mode
}

/// Whether the registry holds a subscription for this UUID, in
/// whichever mode.
pub open spec fn has_subscription_any(subs: Seq<Subscription>, uuid: Seq<char>) -> bool {
    exists|k: int| 0 <= k < subs.len() && (#[trigger] subs[k]).characteristic@ == uuid
}

/// The registry with every subscription for this UUID removed, other
/// entries kept in order.
pub open spec fn without_subscription(subs: Seq<Subscription>, uuid: Seq<char>) -> Seq<
    Subscription,
>
    decreases subs.len(),
{
    if subs.len() == 0 {
        Seq::empty()
    } else {
        let prefix = without_subscription(subs.drop_last(), uuid);
        if subs.last().characteristic@ == uuid {
            prefix
        } else {
            prefix.push(subs.last())
        }
    }
}

/// Removing a UUID that no registry entry carries changes nothing.
pub proof fn lemma_without_unchanged(subs: Seq<Subscription>, uuid: Seq<char>)
    requires
        forall|k: int| 0 <= k < subs.len() ==> (#[trigger] subs[k]).characteristic@ != uuid,
    ensures
        without_subscription(subs, uuid) == subs,
    decreases subs.len(),
{
    if subs.len() > 0 {
        assert(forall|k: int|
            0 <= k < subs.drop_last().len() ==> (#[trigger] subs.drop_last()[k]).characteristic@
                != uuid);
        lemma_without_unchanged(subs.drop_last(), uuid);
        assert(subs[subs.len() - 1].characteristic@ != uuid);
        assert(without_subscription(subs, uuid) =~= subs);
    }
}

/// After removing a UUID from the registry, no entry carries it.
pub proof fn lemma_without_removes_all(subs: Seq<Subscription>, uuid: Seq<char>)
    ensures
        forall|k: int|
            0 <= k < without_subscription(subs, uuid).len() ==> (#[trigger] without_subscription(
                subs,
                uuid,
            )[k]).characteristic@ != uuid,
    decreases subs.len(),
{
    if subs.len() > 0 {
        lemma_without_removes_all(subs.drop_last(), uuid);
    }
}

/// Unsubscribing is idempotent: removing a UUID a second time changes
/// nothing, whatever the registry held.
pub proof fn lemma_unsubscribe_idempotent(subs: Seq<Subscription>, uuid: Seq<char>)
    ensures
        without_subscription(without_subscription(subs, uuid), uuid) == without_subscription(
            subs,
            uuid,
        ),
{
    lemma_without_removes_all(subs, uuid);
    lemma_without_unchanged(without_subscription(subs, uuid), uuid);
}

/// Dropping a registry entry that carries the UUID leaves the filtered
/// registry as it was.
proof fn lemma_without_remove(subs: Seq<Subscription>, uuid: Seq<char>, i: int)
    requires
        0 <= i < subs.len(),
        subs[i].characteristic@ == uuid,
    ensures
        without_subscription(subs.remove(i), uuid) == without_subscription(subs, uuid),
    decreases subs.len(),
{
    if i == subs.len() - 1 {
        assert(subs.remove(i) =~= subs.drop_last());
    } else {
        assert(subs.remove(i).drop_last() =~= subs.drop_last().remove(i));
        assert(subs.remove(i).last() == subs.last());
        lemma_without_remove(subs.drop_last(), uuid, i);
    }
}

/// The session controller built on the `btleplug` hardware stack.
pub struct BtleplugController {
    connected: bool,
    adapter_info: String,
    scan_list: Vec<BlePeripheral>,
    subscriptions: Vec<Subscription>,
}

impl BtleplugController {
    /// Whether the session believes a peripheral is connected.
    pub closed spec fn connected_flag(self) -> bool {
        self.connected
    }

    /// The info text of the adapter selected at startup.
    pub closed spec fn adapter_text(self) -> Seq<char> {
        self.adapter_info@
    }

    /// The rows of the last scan's table.
    pub closed spec fn scan_entries(self) -> Seq<BlePeripheral> {
        self.scan_list@
    }

    /// The registered subscriptions, in registration order.
    pub closed spec fn subscription_entries(self) -> Seq<Subscription> {
        self.subscriptions@
    }

    /// Creates the session around the adapter selected at startup,
    /// disconnected, with an empty scan table and no subscriptions.
    pub fn new(adapter_info: String) -> (c: Self)
        ensures
            !c.connected_flag(),
            c.adapter_text() == adapter_info@,
            c.scan_entries().len() == 0,
            c.subscription_entries().len() == 0,
    {
        BtleplugController {
            connected: false,
            adapter_info,
            scan_list: Vec::new(),
            subscriptions: Vec::new(),
        }
    }

    /// The chosen adapter's info text.
    pub fn get_adapter_infos(&self) -> (r: String)
        ensures
            r@ == self.adapter_text(),
    {
        self.adapter_info.clone()
    }

    /// Whether the session believes a peripheral is connected. This is
    /// the local flag: no hardware round-trip happens, so it may be
    /// stale versus hardware truth.
    pub fn is_connected(&self) -> (r: bool)
        ensures
            r == self.connected_flag(),
    {
        self.connected
    }

    /// Rebuilds the scan table from the peripherals the adapter
    /// currently reports, one row per observation in order, each row's
    /// `id` its position. The previous table is replaced wholesale:
    /// entries not re-observed vanish. The rest of the session state
    /// is untouched.
    pub fn scan(&mut self, observed: &Vec<PeripheralSnapshot>)
        ensures
            final(self).scan_entries().len() == observed@.len(),
            forall|i: int|
                0 <= i < observed@.len() ==> entry_matches_observation(
                    #[trigger] final(self).scan_entries()[i],
                    observed@[i],
                    i,
                ),
            final(self).connected_flag() == old(self).connected_flag(),
            final(self).adapter_text() == old(self).adapter_text(),
            final(self).subscription_entries() == old(self).subscription_entries(),
    {
        let mut table: Vec<BlePeripheral> = Vec::new();
        let mut i: usize = 0;
        while i < observed.len()
            invariant
                i <= observed@.len(),
                table@.len() == i,
                forall|j: int|
                    0 <= j < i ==> entry_matches_observation(
                        #[trigger] table@[j],
                        observed@[j],
                        j,
                    ),
            decreases observed@.len() - i,
        {
            let e = scan_entry_of(&observed[i], i);
            table.push(e);
            i = i + 1;
        }
        self.scan_list = table;
    }

    /// A copy of the scan table, row for row.
    pub fn get_scan_list(&self) -> (r: Vec<BlePeripheral>)
        ensures
            r@.len() == self.scan_entries().len(),
            forall|i: int|
                0 <= i < r@.len() ==> entry_eq(#[trigger] r@[i], self.scan_entries()[i]),
    {
        let mut out: Vec<BlePeripheral> = Vec::new();
        let mut i: usize = 0;
        while i < self.scan_list.len()
            invariant
                i <= self.scan_list@.len(),
                out@.len() == i,
                forall|j: int| 0 <= j < i ==> entry_eq(#[trigger] out@[j], self.scan_list@[j]),
            decreases self.scan_list@.len() - i,
        {
            let e = &self.scan_list[i];
            out.push(
                BlePeripheral {
                    name: e.name.clone(),
                    address_uuid: e.address_uuid.clone(),
                    rssi: e.rssi,
                    id: e.id,
                    company_id: e.company_id,
                },
            );
            i = i + 1;
        }
        out
    }

    /// Resolves a connect request to the peripheral the session should
    /// connect to: the first visible match, with a scan index looked
    /// up in the last scan table. The request must supply exactly one
    /// identifier kind — the kinds are mutually exclusive. On failure
    /// the request is handed back inside the error, naming what was
    /// asked for.
    pub fn connect_target(&self, req: ConnectRequest, visible: &Vec<PeripheralSnapshot>) -> (r:
        Result<usize, BleError>)
        ensures
            match r {
                Ok(i) => exactly_one_kind(req) && is_first_request_match(
                    req,
                    self.scan_entries(),
                    visible@,
                    i as int,
                ),
                Err(e) => e == BleError::PeripheralNotFound(req) && (!exactly_one_kind(req)
                    || forall|j: int|
                    0 <= j < visible@.len() ==> !request_matches_peripheral(
                        req,
                        self.scan_entries(),
                        #[trigger] visible@[j],
                    )),
            },
    {
        let kinds: usize = (if req.name.is_some() {
            1
        } else {
            0
        }) + (if req.address_or_uuid.is_some() {
            1
        } else {
            0
        }) + (if req.scan_index.is_some() {
            1
        } else {
            0
        });
        if kinds != 1 {
            return Err(BleError::PeripheralNotFound(req));
        }
        let mut i: usize = 0;
        while i < visible.len()
            invariant
                i <= visible@.len(),
                exactly_one_kind(req),
                forall|j: int|
                    0 <= j < i ==> !request_matches_peripheral(
                        req,
                        self.scan_entries(),
                        #[trigger] visible@[j],
                    ),
            decreases visible@.len() - i,
        {
            if matches_request(&req, &self.scan_list, &visible[i]) {
                return Ok(i);
            }
            i = i + 1;
        }
        Err(BleError::PeripheralNotFound(req))
    }

    /// Applies the outcome of the hardware connect issued against the
    /// resolved target. Success marks the session connected at once;
    /// failure leaves the state exactly as it was and passes the
    /// hardware's reason through.
    pub fn complete_connect(&mut self, outcome: Result<(), String>) -> (r: Result<(), BleError>)
        ensures
            outcome is Ok ==> (final(self).connected_flag() && r is Ok
                && final(self).adapter_text() == old(self).adapter_text()
                && final(self).scan_entries() == old(self).scan_entries()
                && final(self).subscription_entries() == old(self).subscription_entries()),
            outcome matches Err(m) ==> (*final(self) == *old(self) && r == Err::<(), BleError>(
                BleError::ConnectFailure(m),
            )),
    {
        match outcome {
            Ok(_) => {
                self.connected = true;
                Ok(())
            },
            Err(m) => Err(BleError::ConnectFailure(m)),
        }
    }

    /// Hands back the first currently connected peripheral for the
    /// caller to disconnect and clears the session's connection flag
    /// at once; with none connected it succeeds as a no-op, leaving
    /// the state untouched.
    pub fn disconnect(&mut self, visible: &Vec<PeripheralSnapshot>) -> (r: Option<usize>)
        ensures
            match r {
                Some(i) => is_first_connected(visible@, i as int)
                    && !final(self).connected_flag(),
                None => no_connected(visible@) && *final(self) == *old(self),
            },
            final(self).adapter_text() == old(self).adapter_text(),
            final(self).scan_entries() == old(self).scan_entries(),
            final(self).subscription_entries() == old(self).subscription_entries(),
    {
        match find_first_connected(visible) {
            Some(i) => {
                self.connected = false;
                Some(i)
            },
            None => None,
        }
    }

    /// Plans a write: resolves the UUID across every connected visible
    /// peripheral and returns one write command per hit, each carrying
    /// the payload and the requested response mode, in resolution
    /// order. Deliberately one command per hit, not only the first —
    /// if several connected peripherals expose the same UUID the write
    /// runs once per hit; this is documented behaviour. With no hit at
    /// all (in particular with no connected peripheral) it fails,
    /// naming the UUID.
    pub fn write(
        &self,
        characteristic: &String,
        payload: &Vec<u8>,
        with_response: bool,
        visible: &Vec<PeripheralSnapshot>,
    ) -> (r: Result<Vec<WriteCommand>, BleError>)
        ensures
            ({
                let hits = connected_matches(visible@, characteristic@);
                match r {
                    Ok(cmds) => hits.len() > 0 && cmds@.len() == hits.len() && (forall|k: int|
                        0 <= k < hits.len() ==> ((#[trigger] cmds@[k]).target == hits[k]
                            && cmds@[k].payload@ == payload@ && cmds@[k].with_response
                            == with_response)),
                    Err(e) => hits.len() == 0 && (e matches BleError::CharacteristicNotFound(u)
                        && u@ == characteristic@),
                }
            }),
    {
        let targets = find_connected_matches(visible, characteristic);
        if targets.len() == 0 {
            return Err(BleError::CharacteristicNotFound(characteristic.clone()));
        }
        let mut cmds: Vec<WriteCommand> = Vec::new();
        let mut i: usize = 0;
        while i < targets.len()
            invariant
                targets@ == connected_matches(visible@, characteristic@),
                i <= targets@.len(),
                cmds@.len() == i,
                forall|k: int|
                    0 <= k < i ==> ((#[trigger] cmds@[k]).target == targets@[k]
                        && cmds@[k].payload@ == payload@ && cmds@[k].with_response
                        == with_response),
            decreases targets@.len() - i,
        {
            let t = targets[i];
            cmds.push(WriteCommand { target: t, payload: copy_bytes(payload), with_response });
            i = i + 1;
        }
        Ok(cmds)
    }

    /// Plans a read: resolves the UUID exactly as `write` does and
    /// returns the hits in order; the caller performs one read per hit
    /// and displays the bytes. With no hit it fails, naming the UUID.
    pub fn read(&self, characteristic: &String, visible: &Vec<PeripheralSnapshot>) -> (r: Result<
        Vec<CharMatch>,
        BleError,
    >)
        ensures
            ({
                let hits = connected_matches(visible@, characteristic@);
                match r {
                    Ok(ts) => hits.len() > 0 && ts@ == hits,
                    Err(e) => hits.len() == 0 && (e matches BleError::CharacteristicNotFound(u)
                        && u@ == characteristic@),
                }
            }),
    {
        let targets = find_connected_matches(visible, characteristic);
        if targets.len() == 0 {
            return Err(BleError::CharacteristicNotFound(characteristic.clone()));
        }
        Ok(targets)
    }

    /// Builds the on-demand aggregate describing the first connected
    /// peripheral: display name, identifier, signal strength and the
    /// full service list with normalized capability flags. It is built
    /// fresh on every call and never cached — the topology may
    /// legitimately change between invocations. With no connected
    /// peripheral it returns the explicit error rather than failing
    /// any other way.
    pub fn get_peripheral_infos(&self, visible: &Vec<PeripheralSnapshot>) -> (r: Result<
        BlePeripheralInfo,
        BleError,
    >)
        ensures
            match r {
                Ok(info) => exists|i: int|
                    #[trigger] is_first_connected(visible@, i) && info_matches_snapshot(
                        info,
                        visible@[i],
                    ),
                Err(e) => no_connected(visible@) && e is NoConnectedPeripheral,
            },
    {
        let pi: usize = match find_first_connected(visible) {
            Some(i) => i,
            None => {
                return Err(BleError::NoConnectedPeripheral);
            },
        };
        let mut services: Vec<Service> = Vec::new();
        let mut si: usize = 0;
        while si < visible[pi].services.len()
            invariant
                pi < visible@.len(),
                si <= visible@[pi as int].services@.len(),
                services@.len() == si,
                forall|k: int|
                    0 <= k < si ==> service_matches(
                        #[trigger] services@[k],
                        visible@[pi as int].services@[k],
                    ),
            decreases visible@[pi as int].services@.len() - si,
        {
            let mut chars: Vec<Characteristic> = Vec::new();
            let mut ci: usize = 0;
            while ci < visible[pi].services[si].characteristics.len()
                invariant
                    pi < visible@.len(),
                    si < visible@[pi as int].services@.len(),
                    ci <= visible@[pi as int].services@[si as int].characteristics@.len(),
                    chars@.len() == ci,
                    forall|k: int|
                        0 <= k < ci ==> characteristic_matches(
                            #[trigger] chars@[k],
                            visible@[pi as int].services@[si as int].characteristics@[k],
                        ),
                decreases visible@[pi as int].services@[si as int].characteristics@.len() - ci,
            {
                let c = &visible[pi].services[si].characteristics[ci];
                chars.push(
                    Characteristic {
                        uuid: c.uuid.clone(),
                        properties: normalize_properties(&c.native),
                    },
                );
                ci = ci + 1;
            }
            services.push(Service { uuid: visible[pi].services[si].uuid.clone(), characteristics: chars });
            si = si + 1;
        }
        let rssi: i16 = match visible[pi].rssi {
            Some(v) => v,
            None => 0,
        };
        let info = BlePeripheralInfo {
            periph_name: display_name_string(&visible[pi].name),
            periph_mac: visible[pi].identity.id_string(),
            rssi,
            services,
        };
        proof {
            assert(is_first_connected(visible@, pi as int) && info_matches_snapshot(
                info,
                visible@[pi as int],
            ));
        }
        Ok(info)
    }

    /// Whether a subscription for this UUID and mode is registered.
    fn subscription_registered(&self, characteristic: &String, mode: SubscriptionMode) -> (r:
        bool)
        ensures
            r == has_subscription(self.subscription_entries(), characteristic@, mode),
    {
        let mut i: usize = 0;
        while i < self.subscriptions.len()
            invariant
                i <= self.subscriptions@.len(),
                forall|k: int|
                    0 <= k < i ==> !((#[trigger] self.subscriptions@[k]).characteristic@
                        == characteristic@ && self.subscriptions@[k].mode == mode),
            decreases self.subscriptions@.len() - i,
        {
            if self.subscriptions[i].characteristic == *characteristic && self.subscriptions[i].mode
                == mode {
                return true;
            }
            i = i + 1;
        }
        false
    }

    /// Whether the session wants values of this characteristic
    /// delivered, in whichever mode. The caller's delivery loop asks
    /// this for each pushed value and hands matching ones to its sink,
    /// in arrival order.
    pub fn is_subscribed(&self, characteristic: &String) -> (r: bool)
        ensures
            r == has_subscription_any(self.subscription_entries(), characteristic@),
    {
        let mut i: usize = 0;
        while i < self.subscriptions.len()
            invariant
                i <= self.subscriptions@.len(),
                forall|k: int|
                    0 <= k < i ==> (#[trigger] self.subscriptions@[k]).characteristic@
                        != characteristic@,
            decreases self.subscriptions@.len() - i,
        {
            if self.subscriptions[i].characteristic == *characteristic {
                return true;
            }
            i = i + 1;
        }
        false
    }

    /// Subscribes to a characteristic's notifications or indications:
    /// resolves the UUID exactly as `read` does, hands back the hits
    /// for the caller to enable delivery on, and registers the
    /// subscription. Registration is idempotent — subscribing again in
    /// the same mode leaves the registry as it is. With no hit it
    /// fails, naming the UUID, and registers nothing.
    pub fn subscribe(
        &mut self,
        characteristic: &String,
        mode: SubscriptionMode,
        visible: &Vec<PeripheralSnapshot>,
    ) -> (r: Result<Vec<CharMatch>, BleError>)
        ensures
            ({
                let hits = connected_matches(visible@, characteristic@);
                let subs = old(self).subscription_entries();
                match r {
                    Ok(ts) => hits.len() > 0 && ts@ == hits
                        && (has_subscription(subs, characteristic@, mode)
                            ==> final(self).subscription_entries() == subs)
                        && (!has_subscription(subs, characteristic@, mode) ==> (
                            final(self).subscription_entries().len() == subs.len() + 1
                            && final(self).subscription_entries().take(subs.len() as int) == subs
                            && final(self).subscription_entries().last().characteristic@
                                == characteristic@
                            && final(self).subscription_entries().last().mode == mode)),
                    Err(e) => hits.len() == 0 && (e matches BleError::CharacteristicNotFound(u)
                        && u@ == characteristic@) && *final(self) == *old(self),
                }
            }),
            final(self).connected_flag() == old(self).connected_flag(),
            final(self).adapter_text() == old(self).adapter_text(),
            final(self).scan_entries() == old(self).scan_entries(),
    {
        let targets = find_connected_matches(visible, characteristic);
        if targets.len() == 0 {
            return Err(BleError::CharacteristicNotFound(characteristic.clone()));
        }
        if !self.subscription_registered(characteristic, mode) {
            self.subscriptions.push(
                Subscription { characteristic: characteristic.clone(), mode },
            );
            proof {
                assert(self.subscriptions@.take(self.subscriptions@.len() - 1)
                    =~= old(self).subscription_entries());
            }
        }
        Ok(targets)
    }

    /// Unsubscribes a characteristic: resolves the UUID exactly as
    /// `read` does, hands back the hits for the caller to disable
    /// delivery on, and removes every registration under the UUID,
    /// whatever its mode. Removing a UUID that was never subscribed is
    /// harmless, and unsubscribing twice is the same as once. With no
    /// hit it fails, naming the UUID, and removes nothing.
    pub fn unsubscribe(&mut self, characteristic: &String, visible: &Vec<PeripheralSnapshot>) -> (r:
        Result<Vec<CharMatch>, BleError>)
        ensures
            ({
                let hits = connected_matches(visible@, characteristic@);
                match r {
                    Ok(ts) => hits.len() > 0 && ts@ == hits && final(self).subscription_entries()
                        == without_subscription(
                        old(self).subscription_entries(),
                        characteristic@,
                    ),
                    Err(e) => hits.len() == 0 && (e matches BleError::CharacteristicNotFound(u)
                        && u@ == characteristic@) && *final(self) == *old(self),
                }
            }),
            final(self).connected_flag() == old(self).connected_flag(),
            final(self).adapter_text() == old(self).adapter_text(),
            final(self).scan_entries() == old(self).scan_entries(),
    {
        let targets = find_connected_matches(visible, characteristic);
        if targets.len() == 0 {
            return Err(BleError::CharacteristicNotFound(characteristic.clone()));
        }
        let mut i: usize = 0;
        while i < self.subscriptions.len()
            invariant
                i <= self.subscriptions@.len(),
                forall|k: int|
                    0 <= k < i ==> (#[trigger] self.subscriptions@[k]).characteristic@
                        != characteristic@,
                without_subscription(self.subscriptions@, characteristic@)
                    == without_subscription(
                    old(self).subscription_entries(),
                    characteristic@,
                ),
                self.connected == old(self).connected,
                self.adapter_info == old(self).adapter_info,
                self.scan_list == old(self).scan_list,
            decreases self.subscriptions@.len() - i,
        {
            if self.subscriptions[i].characteristic == *characteristic {
                let ghost pre = self.subscriptions@;
                self.subscriptions.remove(i);
                proof {
                    lemma_without_remove(pre, characteristic@, i as int);
                }
            } else {
                i = i + 1;
            }
        }
        proof {
            lemma_without_unchanged(self.subscriptions@, characteristic@);
        }
        Ok(targets)
    }
}

/// Each row of a freshly built scan table carries its own position as
/// its index, so indices are unique across the table.
pub proof fn lemma_scan_indices_unique(
    entries: Seq<BlePeripheral>,
    observed: Seq<PeripheralSnapshot>,
)
    requires
        entries.len() == observed.len(),
        forall|i: int|
            0 <= i < observed.len() ==> entry_matches_observation(
                #[trigger] entries[i],
                observed[i],
                i,
            ),
    ensures
        forall|i: int| 0 <= i < entries.len() ==> (#[trigger] entries[i]).id == i,
        forall|i: int, j: int|
            0 <= i < entries.len() && 0 <= j < entries.len() && i != j ==> (#[trigger] entries[i]).id
                != (#[trigger] entries[j]).id,
{
}

} // verus!
