//! Key framing for a shared key-value server: every key of a store lives
//! under its namespace followed by `:`, so that stores with different
//! namespaces never share a key.

use vstd::prelude::*;
use vstd::string::StringSliceAdditionalSpecFns;

verus! {

/// The byte `:`.
pub open spec fn colon() -> u8 {
    58u8
}

/// The prefix of a namespace: its UTF-8 bytes followed by `:`.
pub open spec fn namespace_prefix_spec(namespace: Seq<u8>) -> Seq<u8> {
    namespace.push(colon())
}

/// The prefix of the namespace `namespace`.
pub fn namespace_prefix(namespace: &str) -> (r: Vec<u8>)
    ensures
        r@ == namespace_prefix_spec(namespace.spec_bytes()),
{
    let bytes = namespace.as_bytes();
    let mut r: Vec<u8> = Vec::new();
    for i in 0..bytes.len()
        invariant
            bytes@ == namespace.spec_bytes(),
            r@ == bytes@.take(i as int),
    {
        r.push(bytes[i]);
        assert(bytes@.take(i + 1) == bytes@.take(i as int).push(bytes@[i as int]));
    }
    assert(bytes@.take(bytes@.len() as int) == bytes@);
    r.push(58u8);
    r
}

/// The stored key for an encoded key: the prefix, then the encoding.
pub fn framed_key(prefix: &Vec<u8>, encoded: &[u8]) -> (r: Vec<u8>)
    ensures
        r@ == prefix@ + encoded@,
{
    let mut r: Vec<u8> = Vec::new();
    for i in 0..prefix.len()
        invariant
            r@ == prefix@.take(i as int),
    {
        r.push(prefix[i]);
        assert(prefix@.take(i + 1) == prefix@.take(i as int).push(prefix@[i as int]));
    }
    assert(prefix@.take(prefix@.len() as int) == prefix@);
    for j in 0..encoded.len()
        invariant
            r@ == prefix@ + encoded@.take(j as int),
    {
        r.push(encoded[j]);
        assert(encoded@.take(j + 1) == encoded@.take(j as int).push(encoded@[j as int]));
    }
    assert(encoded@.take(encoded@.len() as int) == encoded@);
    r
}

/// Stores under different namespaces, neither of which holds a `:`, never
/// share a key, whatever the encoded keys are.
pub proof fn law_namespaces_do_not_collide(n1: Seq<u8>, n2: Seq<u8>, e1: Seq<u8>, e2: Seq<u8>)
    requires
        !n1.contains(colon()),
        !n2.contains(colon()),
        n1 != n2,
    ensures
        namespace_prefix_spec(n1) + e1 != namespace_prefix_spec(n2) + e2,
{
    let k1 = namespace_prefix_spec(n1) + e1;
    let k2 = namespace_prefix_spec(n2) + e2;
    if k1 == k2 {
        if n1.len() < n2.len() {
            assert(k1[n1.len() as int] == colon());
            assert(k2[n1.len() as int] == n2[n1.len() as int]);
            assert(n2.contains(colon()));
        } else if n2.len() < n1.len() {
            assert(k2[n2.len() as int] == colon());
            assert(k1[n2.len() as int] == n1[n2.len() as int]);
            assert(n1.contains(colon()));
        } else {
            assert forall|i: int| 0 <= i < n1.len() implies n1[i] == n2[i] by {
                assert(k1[i] == n1[i]);
                assert(k2[i] == n2[i]);
            }
            assert(n1 =~= n2);
        }
    }
}

} // verus!
