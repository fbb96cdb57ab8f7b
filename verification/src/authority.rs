//! The authorization gate: one fixed admin identity may update profiles.

use vstd::prelude::*;
use crate::identity::IdentityKey;

verus! {

/// The bytes of the admin authority's key.
pub open spec fn admin_key_bytes() -> Seq<u8> {
    seq![
        222u8, 22u8, 218u8, 110u8, 46u8, 220u8, 196u8, 67u8,
        253u8, 184u8, 216u8, 174u8, 187u8, 148u8, 13u8, 20u8,
        131u8, 158u8, 186u8, 82u8, 14u8, 103u8, 147u8, 13u8,
        107u8, 189u8, 120u8, 49u8, 135u8, 108u8, 132u8, 128u8,
    ]
}

/// Whether `key` is the admin authority.
pub open spec fn is_admin(key: IdentityKey) -> bool {
    key@ == admin_key_bytes()
}

/// The key of the admin authority.
pub fn admin_pubkey() -> (key: IdentityKey)
    ensures
        is_admin(key),
{
    let bytes: [u8; 32] = [
        222, 22, 218, 110, 46, 220, 196, 67,
        253, 184, 216, 174, 187, 148, 13, 20,
        131, 158, 186, 82, 14, 103, 147, 13,
        107, 189, 120, 49, 135, 108, 132, 128,
    ];
    assert(bytes@ =~= admin_key_bytes());
    IdentityKey::new_from_array(bytes)
}

/// Tells whether `key` is the admin authority.
pub fn check_admin(key: &IdentityKey) -> (allowed: bool)
    ensures
        allowed == is_admin(*key),
{
    let admin = admin_pubkey();
    *key == admin
}

} // verus!
