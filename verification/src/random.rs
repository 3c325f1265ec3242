//! What the agent leaves to chance.

use vstd::prelude::*;
use crate::ids::{NodeId, Uuid};
use crate::kad::Contact;

verus! {

/// `rand::random`, of sixteen bytes: any bytes may come.
#[verifier::external_body]
fn random_bytes16() -> (r: [u8; 16])
{
    rand::random()
}

/// `rand::random`, of a number: any number may come.
#[verifier::external_body]
fn random_u32() -> (r: u32)
{
    rand::random()
}

/// `Rng::gen_range` of `rand` with the thread's generator: any number of the range may come, the
/// range's ends being among them.
#[verifier::external_body]
pub(crate) fn random_in_range(low: u128, high: u128) -> (r: u128)
    requires
        low <= high,
    ensures
        low <= r <= high,
{
    rand::Rng::gen_range(&mut rand::thread_rng(), low..=high)
}

/// Whether a number is a UUID of version 4 and of the common variant.
pub open spec fn is_uuid_v4(bits: u128) -> bool {
    bits as int / 0x1000_0000_0000_0000_0000 % 16 == 4 && bits as int / 0x4000_0000_0000_0000 % 4 == 2
}

/// `uuid::Uuid::new_v4`: a random number with the bits of version and variant set.
#[verifier::external_body]
fn random_uuid_v4() -> (r: u128)
    ensures
        is_uuid_v4(r),
{
    uuid::Uuid::new_v4().as_u128()
}

/// `SliceRandom::shuffle` of `rand` with the thread's generator: it permutes the contacts.
#[verifier::external_body]
pub(crate) fn shuffle_contacts(contacts: &mut Vec<Contact>)
    ensures
        final(contacts)@.to_multiset() == old(contacts)@.to_multiset(),
{
    rand::seq::SliceRandom::shuffle(contacts.as_mut_slice(), &mut rand::thread_rng());
}

/// Sixteen random bytes.
pub fn draw_bytes16() -> (r: [u8; 16])
{
    random_bytes16()
}

/// A random UDP key.
pub fn draw_udp_key() -> (r: u32)
{
    random_u32()
}

/// A fresh identifier.
pub fn draw_uuid() -> (r: Uuid)
    ensures
        is_uuid_v4(r.0),
{
    Uuid(random_uuid_v4())
}

/// A random target, whose lookup refreshes the routing table.
pub fn random_routing_refresh_target() -> (r: NodeId)
{
    NodeId(random_bytes16())
}

} // verus!
