//! Liveness bookkeeping: friends coming online and going offline.

use offst::crypto::PublicKey;
use offst::liveness::{Liveness, LivenessMutation};

fn pk(byte: u8) -> PublicKey {
    PublicKey::from_bytes(vec![byte; 32])
}

#[test]
fn test_liveness_basic() {
    let mut liveness = Liveness::new();
    let pk_a = pk(0xaa);
    let pk_b = pk(0xbb);
    let pk_c = pk(0xcc);

    assert!(!liveness.is_online(&pk_a));
    assert!(!liveness.is_online(&pk_b));
    assert!(!liveness.is_online(&pk_c));

    liveness.mutate(&LivenessMutation::SetOnline(pk_a.clone()));
    assert!(liveness.is_online(&pk_a));
    assert!(!liveness.is_online(&pk_b));
    assert!(!liveness.is_online(&pk_c));

    liveness.mutate(&LivenessMutation::SetOnline(pk_a.clone()));
    assert!(liveness.is_online(&pk_a));
    assert!(!liveness.is_online(&pk_b));
    assert!(!liveness.is_online(&pk_c));

    liveness.mutate(&LivenessMutation::SetOnline(pk_b.clone()));
    assert!(liveness.is_online(&pk_a));
    assert!(liveness.is_online(&pk_b));
    assert!(!liveness.is_online(&pk_c));

    liveness.mutate(&LivenessMutation::SetOffline(pk_c.clone()));
    assert!(liveness.is_online(&pk_a));
    assert!(liveness.is_online(&pk_b));
    assert!(!liveness.is_online(&pk_c));

    liveness.mutate(&LivenessMutation::SetOffline(pk_b.clone()));
    assert!(liveness.is_online(&pk_a));
    assert!(!liveness.is_online(&pk_b));
    assert!(!liveness.is_online(&pk_c));

    liveness.mutate(&LivenessMutation::SetOffline(pk_b.clone()));
    assert!(liveness.is_online(&pk_a));
    assert!(!liveness.is_online(&pk_b));
    assert!(!liveness.is_online(&pk_c));

    liveness.mutate(&LivenessMutation::SetOffline(pk_a.clone()));
    assert!(!liveness.is_online(&pk_a));
    assert!(!liveness.is_online(&pk_b));
    assert!(!liveness.is_online(&pk_c));
}
