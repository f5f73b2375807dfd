use esp_visualize::association::AssocEvent;
use esp_visualize::manager::Credentials;
use esp_visualize::manager::Wifi;
use esp_visualize::seeds::combine_draws;
use esp_visualize::seeds::RandomSeeds;

#[test]
fn draws_pack_low_then_high() {
    assert_eq!(combine_draws(0x89ab_cdef, 0x0123_4567), 0x0123_4567_89ab_cdef);
    assert_eq!(combine_draws(0, 0), 0);
    assert_eq!(combine_draws(u32::MAX, u32::MAX), u64::MAX);
    assert_eq!(combine_draws(1, 0), 1);
    assert_eq!(combine_draws(0, 1), 1 << 32);
}

#[test]
fn seeds_come_from_disjoint_draws() {
    let s = RandomSeeds::from_draws(0xdead_beef, 0x0000_00ff, 0xcafe_f00d, 0x0000_0001);
    assert_eq!(s.net_seed, 0x0000_00ff_dead_beef);
    assert_eq!(s.tls_seed, 0x0000_0001_cafe_f00d);
}

#[test]
fn seeds_survive_reconnects_unchanged() {
    // The seeds are drawn once at boot; no amount of disconnect-and-retry
    // regenerates them within the process lifetime.
    let mut w = Wifi::new(
        Credentials { ssid: "panel-net".to_string(), psk: "hunter-two".to_string() },
        11,
        12,
        13,
        14,
    );
    let net_before = w.net_seed();
    let tls_before = w.tls_seed();
    let churn = [
        AssocEvent::Activate,
        AssocEvent::RadioStarted,
        AssocEvent::ScanFinished { found: 4 },
        AssocEvent::ConnectSucceeded,
        AssocEvent::LinkLost { reason: 1 },
        AssocEvent::QuiescenceElapsed,
        AssocEvent::RadioStarted,
        AssocEvent::ScanFinished { found: 0 },
        AssocEvent::ConnectFailed { reason: 2 },
        AssocEvent::QuiescenceElapsed,
    ];
    for e in churn {
        let _ = w.on_assoc_event(e);
    }
    assert_eq!(w.net_seed(), net_before);
    assert_eq!(w.tls_seed(), tls_before);
}
