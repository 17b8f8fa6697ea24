//! Characteristic resolution across connected peripherals.
//!
//! Characteristic I/O names a characteristic by UUID alone — GATT
//! UUIDs are taken to be globally unique within a session, so the
//! service hint of the command grammar plays no part in resolution.
//! Resolution walks every visible peripheral; for each connected one
//! it scans all characteristics of all services, and it deliberately
//! does not stop at the first hit: if several connected peripherals
//! expose the same UUID, the operation runs once per hit. This is
//! documented behaviour, not an accident.

use vstd::prelude::*;
use crate::model::{PeripheralSnapshot, ServiceSnapshot, CharacteristicSnapshot, no_connected};

verus! {

/// One resolved characteristic: positions into the visible-peripheral
/// snapshot the resolution ran against.
#[derive(Clone, Copy, PartialEq, Eq, Structural, Debug)]
pub struct CharMatch {
    /// Index of the peripheral among the visible peripherals.
    pub peripheral: usize,
    /// Index of the service within that peripheral's services.
    pub service: usize,
    /// Index of the characteristic within that service.
    pub characteristic: usize,
}

/// The matches within one service's characteristic list, in order.
pub open spec fn char_level_matches(
    pi: usize,
    si: usize,
    chars: Seq<CharacteristicSnapshot>,
    uuid: Seq<char>,
) -> Seq<CharMatch>
    decreases chars.len(),
{
    if chars.len() == 0 {
        Seq::empty()
    } else {
        let prefix = char_level_matches(pi, si, chars.drop_last(), uuid);
        if chars.last().uuid@ == uuid {
            prefix.push(
                CharMatch {
                    peripheral: pi,
                    service: si,
                    characteristic: (chars.len() - 1) as usize,
                },
            )
        } else {
            prefix
        }
    }
}

/// The matches within one peripheral's services, service by service.
pub open spec fn service_level_matches(
    pi: usize,
    services: Seq<ServiceSnapshot>,
    uuid: Seq<char>,
) -> Seq<CharMatch>
    decreases services.len(),
{
    if services.len() == 0 {
        Seq::empty()
    } else {
        service_level_matches(pi, services.drop_last(), uuid) + char_level_matches(
            pi,
            (services.len() - 1) as usize,
            services.last().characteristics@,
            uuid,
        )
    }
}

/// Every match of the UUID across all connected visible peripherals,
/// in peripheral, then service, then characteristic order. Peripherals
/// not reported connected contribute nothing.
pub open spec fn connected_matches(
    visible: Seq<PeripheralSnapshot>,
    uuid: Seq<char>,
) -> Seq<CharMatch>
    decreases visible.len(),
{
    if visible.len() == 0 {
        Seq::empty()
    } else {
        let prefix = connected_matches(visible.drop_last(), uuid);
        if visible.last().connected {
            prefix + service_level_matches(
                (visible.len() - 1) as usize,
                visible.last().services@,
                uuid,
            )
        } else {
            prefix
        }
    }
}

/// With no connected peripheral there is no match at all, whatever the
/// UUID: characteristic I/O on such a snapshot must fail.
pub proof fn lemma_no_connected_no_matches(visible: Seq<PeripheralSnapshot>, uuid: Seq<char>)
    requires
        no_connected(visible),
    ensures
        connected_matches(visible, uuid).len() == 0,
    decreases visible.len(),
{
    if visible.len() > 0 {
        assert(!visible[visible.len() - 1].connected);
        assert(forall|i: int|
            0 <= i < visible.drop_last().len() ==> !(#[trigger] visible.drop_last()[i]).connected);
        lemma_no_connected_no_matches(visible.drop_last(), uuid);
    }
}

/// Resolves a UUID against every connected visible peripheral,
/// returning every hit in peripheral, service, characteristic order.
pub fn find_connected_matches(visible: &Vec<PeripheralSnapshot>, uuid: &String) -> (r: Vec<
    CharMatch,
>)
    ensures
        r@ == connected_matches(visible@, uuid@),
{
    let mut acc: Vec<CharMatch> = Vec::new();
    let mut pi: usize = 0;
    while pi < visible.len()
        invariant
            pi <= visible@.len(),
            acc@ == connected_matches(visible@.take(pi as int), uuid@),
        decreases visible@.len() - pi,
    {
        if visible[pi].connected {
            let mut si: usize = 0;
            while si < visible[pi].services.len()
                invariant
                    pi < visible@.len(),
                    visible@[pi as int].connected,
                    si <= visible@[pi as int].services@.len(),
                    acc@ == connected_matches(visible@.take(pi as int), uuid@)
                        + service_level_matches(
                        pi,
                        visible@[pi as int].services@.take(si as int),
                        uuid@,
                    ),
                decreases visible@[pi as int].services@.len() - si,
            {
                let mut ci: usize = 0;
                while ci < visible[pi].services[si].characteristics.len()
                    invariant
                        pi < visible@.len(),
                        visible@[pi as int].connected,
                        si < visible@[pi as int].services@.len(),
                        ci <= visible@[pi as int].services@[si as int].characteristics@.len(),
                        acc@ == connected_matches(visible@.take(pi as int), uuid@)
                            + service_level_matches(
                            pi,
                            visible@[pi as int].services@.take(si as int),
                            uuid@,
                        ) + char_level_matches(
                            pi,
                            si,
                            visible@[pi as int].services@[si as int].characteristics@.take(
                                ci as int,
                            ),
                            uuid@,
                        ),
                    decreases visible@[pi as int].services@[si as int].characteristics@.len() - ci,
                {
                    if visible[pi].services[si].characteristics[ci].uuid == *uuid {
                        acc.push(CharMatch { peripheral: pi, service: si, characteristic: ci });
                    }
                    proof {
                        let cs = visible@[pi as int].services@[si as int].characteristics@;
                        assert(cs.take(ci as int + 1).drop_last() =~= cs.take(ci as int));
                        assert(cs.take(ci as int + 1).last() == cs[ci as int]);
                        if cs[ci as int].uuid@ == uuid@ {
                            assert(char_level_matches(pi, si, cs.take(ci as int + 1), uuid@)
                                == char_level_matches(pi, si, cs.take(ci as int), uuid@).push(
                                CharMatch { peripheral: pi, service: si, characteristic: ci },
                            ));
                            assert(acc@ =~= connected_matches(visible@.take(pi as int), uuid@)
                                + service_level_matches(
                                pi,
                                visible@[pi as int].services@.take(si as int),
                                uuid@,
                            ) + char_level_matches(pi, si, cs.take(ci as int + 1), uuid@));
                        } else {
                            assert(char_level_matches(pi, si, cs.take(ci as int + 1), uuid@)
                                == char_level_matches(pi, si, cs.take(ci as int), uuid@));
                        }
                    }
                    ci = ci + 1;
                }
                proof {
                    let svs = visible@[pi as int].services@;
                    let cs = svs[si as int].characteristics@;
                    assert(cs.take(cs.len() as int) =~= cs);
                    assert(svs.take(si as int + 1).drop_last() =~= svs.take(si as int));
                    assert(svs.take(si as int + 1).last() == svs[si as int]);
                    assert(service_level_matches(pi, svs.take(si as int + 1), uuid@)
                        == service_level_matches(pi, svs.take(si as int), uuid@)
                        + char_level_matches(pi, si, cs, uuid@));
                    assert(acc@ =~= connected_matches(visible@.take(pi as int), uuid@)
                        + service_level_matches(pi, svs.take(si as int + 1), uuid@));
                }
                si = si + 1;
            }
            proof {
                let svs = visible@[pi as int].services@;
                assert(svs.take(svs.len() as int) =~= svs);
            }
        }
        proof {
            let vs = visible@;
            assert(vs.take(pi as int + 1).drop_last() =~= vs.take(pi as int));
            assert(vs.take(pi as int + 1).last() == vs[pi as int]);
            if vs[pi as int].connected {
                assert(connected_matches(vs.take(pi as int + 1), uuid@) == connected_matches(
                    vs.take(pi as int),
                    uuid@,
                ) + service_level_matches(pi, vs[pi as int].services@, uuid@));
            } else {
                assert(connected_matches(vs.take(pi as int + 1), uuid@) == connected_matches(
                    vs.take(pi as int),
                    uuid@,
                ));
            }
            assert(acc@ =~= connected_matches(vs.take(pi as int + 1), uuid@));
        }
        pi = pi + 1;
    }
    proof {
        assert(visible@.take(visible@.len() as int) =~= visible@);
    }
    acc
}

} // verus!
