//! Finding a characteristic among the services that a device offers.

use vstd::prelude::*;

verus! {

/// A GATT service as discovery reported it: its UUID and the UUIDs of its
/// characteristics, in the order in which they were reported.
#[derive(Clone, Debug)]
pub struct GattService {
    pub uuid: u128,
    pub characteristics: Vec<u128>,
}

/// Whether characteristic `characteristic` of service `service` is the one
/// looked for.
pub open spec fn is_characteristic(
    services: Seq<GattService>,
    service_uuid: u128,
    char_uuid: u128,
    service: int,
    characteristic: int,
) -> bool {
    &&& 0 <= service < services.len()
    &&& services[service].uuid == service_uuid
    &&& 0 <= characteristic < services[service].characteristics@.len()
    &&& services[service].characteristics@[characteristic] == char_uuid
}

/// Whether `(service, characteristic)` comes before `(other_service,
/// other_characteristic)` in the order of discovery.
pub open spec fn comes_before(
    service: int,
    characteristic: int,
    other_service: int,
    other_characteristic: int,
) -> bool {
    service < other_service || (service == other_service && characteristic < other_characteristic)
}

/// Finds the characteristic `char_uuid` of a service `service_uuid`. Returns
/// the index of the service and, within it, of the characteristic: the first
/// such pair in the order of discovery, or `None` where there is none.
pub fn find_characteristic(services: &Vec<GattService>, service_uuid: u128, char_uuid: u128) -> (found:
    Option<(usize, usize)>)
    ensures
        match found {
            Some((service, characteristic)) => {
                &&& is_characteristic(
                    services@,
                    service_uuid,
                    char_uuid,
                    service as int,
                    characteristic as int,
                )
                &&& forall|s: int, c: int| #[trigger]
                    is_characteristic(services@, service_uuid, char_uuid, s, c) ==> !comes_before(
                        s,
                        c,
                        service as int,
                        characteristic as int,
                    )
            },
            None => forall|s: int, c: int|
                !#[trigger] is_characteristic(services@, service_uuid, char_uuid, s, c),
        },
{
    let mut s: usize = 0;
    while s < services.len()
        invariant
            s <= services.len(),
            forall|i: int, c: int|
                #[trigger] is_characteristic(services@, service_uuid, char_uuid, i, c) ==> s <= i,
        decreases services.len() - s,
    {
        if services[s].uuid == service_uuid {
            let characteristics = &services[s].characteristics;
            let mut c: usize = 0;
            while c < characteristics.len()
                invariant
                    s < services.len(),
                    characteristics == &services@[s as int].characteristics,
                    services@[s as int].uuid == service_uuid,
                    c <= characteristics.len(),
                    forall|i: int, j: int|
                        #[trigger] is_characteristic(services@, service_uuid, char_uuid, i, j)
                            ==> !comes_before(i, j, s as int, c as int),
                decreases characteristics.len() - c,
            {
                if characteristics[c] == char_uuid {
                    return Some((s, c));
                }
                c += 1;
            }
        }
        s += 1;
    }
    None
}

} // verus!
