//! Route validity: the original boundary cases and the exact length
//! limits.

use offst::MAX_ROUTE_LEN;
use offst::crypto::PublicKey;
use offst::messages::{FriendsRoute, is_route_part_valid, is_route_valid, no_duplicates};

#[test]
fn test_friends_is_route_valid() {
    assert_eq!(is_route_valid(&[1]), false); // too short
    assert_eq!(is_route_part_valid(&[1]), true); // long enough
    assert_eq!(is_route_valid(&Vec::<u64>::new()), false); // empty route is invalid
    assert_eq!(is_route_part_valid(&Vec::<u64>::new()), true); // partial routes may be empty

    assert_eq!(is_route_valid(&[1, 2, 3, 4]), true); // usual route
    assert_eq!(is_route_valid(&[1, 2, 3, 4, 1]), true); // cyclic route that is at least 3 nodes long, having first item equal the last item
    assert_eq!(is_route_valid(&[1, 1]), false); // cyclic route that is too short (only 2 nodes long)
    assert_eq!(is_route_valid(&[1, 2, 3, 2, 4]), false); // Should have no repetitions that are not the first and last nodes.

    assert_eq!(is_route_part_valid(&[1, 2, 3, 4]), true); // usual route
    assert_eq!(is_route_part_valid(&[1, 2, 3, 4, 1]), false); // should have no cycles in a partial route
    assert_eq!(is_route_part_valid(&[1, 1]), false); // should have no repetitions in a partial route
    assert_eq!(is_route_part_valid(&[1, 2, 3, 2, 4]), false); // should have no repetitions in a partial route
}

#[test]
fn test_route_length_limits() {
    // Exactly 2 nodes: the shortest valid route.
    assert_eq!(is_route_valid(&[1, 2]), true);

    // Exactly MAX_ROUTE_LEN nodes: still valid.
    let full: Vec<u64> = (0..MAX_ROUTE_LEN as u64).collect();
    assert_eq!(is_route_valid(&full), true);

    // One more node: rejected.
    let too_long: Vec<u64> = (0..MAX_ROUTE_LEN as u64 + 1).collect();
    assert_eq!(is_route_valid(&too_long), false);

    // A two-node cycle is rejected, a three-node cycle is accepted.
    assert_eq!(is_route_valid(&[7, 7]), false);
    assert_eq!(is_route_valid(&[7, 8, 7]), true);

    assert_eq!(no_duplicates(&[1, 2, 3]), true);
    assert_eq!(no_duplicates(&[1, 2, 1]), false);
}

fn pk(byte: u8) -> PublicKey {
    PublicKey::from_bytes(vec![byte; 32])
}

#[test]
fn test_friends_route_methods() {
    let route = FriendsRoute { public_keys: vec![pk(1), pk(2), pk(3)] };
    assert_eq!(route.len(), 3);
    assert!(!route.is_empty());
    assert!(route.is_valid());
    assert!(route.is_part_valid());
    assert_eq!(route.index_to_pk(1).unwrap().bytes, vec![2u8; 32]);
    assert!(route.index_to_pk(3).is_none());
    assert_eq!(route.find_pk_pair(&pk(1), &pk(2)), Some(0));
    assert_eq!(route.find_pk_pair(&pk(2), &pk(3)), Some(1));
    assert_eq!(route.find_pk_pair(&pk(3), &pk(1)), None);

    let cycle = FriendsRoute { public_keys: vec![pk(1), pk(2), pk(1)] };
    assert!(cycle.is_valid());
    assert!(!cycle.is_part_valid());
}
