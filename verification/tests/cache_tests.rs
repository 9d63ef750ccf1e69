use piper_server::cache::VoiceCache;
use piper_server::synth::PiperSynth;

#[test]
fn miss_on_empty_pool_returns_none() {
    let mut cache = VoiceCache::new(3);
    assert!(cache.pop_synth(&"en_GB vctk".to_string()).is_none());
    assert_eq!(cache.len(), 0);
}

#[test]
fn capacity_is_never_exceeded() {
    let mut cache = VoiceCache::new(2);
    for k in 0..10u64 {
        cache.push_synth(format!("model {k}"), PiperSynth::init(k), k);
        assert!(cache.len() <= 2);
    }
    let mut cache = VoiceCache::new(1);
    for k in 0..5u64 {
        cache.push_synth("same".to_string(), PiperSynth::init(k), k);
        assert_eq!(cache.len(), 1);
    }
}

#[test]
fn checkin_then_checkout_returns_identical_handle() {
    let mut cache = VoiceCache::new(3);
    cache.push_synth("en_US amy".to_string(), PiperSynth::init(7), 0);
    let got = cache.pop_synth(&"en_US amy".to_string()).expect("should hit the pool");
    assert_eq!(got.id, 7);
    assert_eq!(cache.len(), 0);
}

#[test]
fn checkout_matches_by_identity_only() {
    let mut cache = VoiceCache::new(3);
    cache.push_synth("en_US amy".to_string(), PiperSynth::init(1), 0);
    cache.push_synth("de_DE thorsten".to_string(), PiperSynth::init(2), 1);
    let got = cache.pop_synth(&"de_DE thorsten".to_string()).expect("should hit");
    assert_eq!(got.id, 2);
    assert!(cache.pop_synth(&"de_DE thorsten".to_string()).is_none());
    assert_eq!(cache.pop_synth(&"en_US amy".to_string()).expect("still resident").id, 1);
}

#[test]
fn checkout_is_exclusive() {
    let mut cache = VoiceCache::new(3);
    cache.push_synth("en_US amy".to_string(), PiperSynth::init(1), 0);
    cache.push_synth("en_US amy".to_string(), PiperSynth::init(2), 1);
    let first = cache.pop_synth(&"en_US amy".to_string()).expect("first hit");
    let second = cache.pop_synth(&"en_US amy".to_string()).expect("second hit");
    assert_ne!(first.id, second.id);
    assert!(cache.pop_synth(&"en_US amy".to_string()).is_none());
}

#[test]
fn full_pool_evicts_oldest_first() {
    let mut cache = VoiceCache::new(2);
    assert!(cache.push_synth("A".to_string(), PiperSynth::init(1), 0).is_none());
    assert!(cache.push_synth("B".to_string(), PiperSynth::init(2), 1).is_none());
    // B was referenced most recently, yet A still goes: eviction is by age.
    assert_eq!(cache.pop_synth(&"B".to_string()).expect("hit").id, 2);
    cache.push_synth("B".to_string(), PiperSynth::init(2), 2);
    let evicted = cache.push_synth("C".to_string(), PiperSynth::init(3), 3).expect("full pool");
    assert_eq!(evicted.id, 1, "A is the oldest entry");
    assert!(cache.pop_synth(&"A".to_string()).is_none());
    assert!(cache.pop_synth(&"B".to_string()).is_some());
    assert!(cache.pop_synth(&"C".to_string()).is_some());
}

#[test]
fn idle_sweep_removes_expired_and_keeps_fresh() {
    let mut cache = VoiceCache::new(4);
    cache.push_synth("old".to_string(), PiperSynth::init(1), 0);
    cache.push_synth("young".to_string(), PiperSynth::init(2), 50);
    // at time 60 with threshold 60: "old" has age 60 (expired), "young" age 10.
    let removed = cache.idle_sweep(60, 60);
    assert_eq!(removed.len(), 1);
    assert_eq!(removed[0].id, 1);
    assert!(cache.pop_synth(&"old".to_string()).is_none());
    assert_eq!(cache.pop_synth(&"young".to_string()).expect("kept").id, 2);
}

#[test]
fn idle_sweep_right_after_checkin_keeps_the_entry() {
    let mut cache = VoiceCache::new(4);
    cache.push_synth("fresh".to_string(), PiperSynth::init(9), 100);
    let removed = cache.idle_sweep(100, 60);
    assert!(removed.is_empty());
    assert_eq!(cache.len(), 1);
    assert_eq!(cache.pop_synth(&"fresh".to_string()).expect("kept").id, 9);
}

#[test]
fn idle_sweep_can_empty_the_pool() {
    let mut cache = VoiceCache::new(4);
    cache.push_synth("a".to_string(), PiperSynth::init(1), 0);
    cache.push_synth("b".to_string(), PiperSynth::init(2), 5);
    let removed = cache.idle_sweep(1000, 60);
    assert_eq!(removed.len(), 2);
    assert_eq!(removed[0].id, 1);
    assert_eq!(removed[1].id, 2);
    assert_eq!(cache.len(), 0);
}
