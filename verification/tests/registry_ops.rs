use pausable::args::{Arg, ArgValue, PauseOptions};
use pausable::host::{Event, Host};
use pausable::registry::{PauseError, Pausable, derive_pausable};

fn s(x: &str) -> String {
    x.to_string()
}

/// A context in the shape the host runtime hands a call: the component
/// lives at `alice.near`, the caller is `bob.near`.
fn get_context(owner: Option<&str>) -> Host {
    Host::new(s("bob.near"), s("alice.near"), owner.map(s))
}

/// A context where the caller is the recorded owner.
fn owner_context() -> Host {
    Host::new(s("bob.near"), s("alice.near"), Some(s("bob.near")))
}

fn default_capability() -> Pausable {
    Pausable::new(&PauseOptions { paused_storage_key: None })
}

fn sorted(mut v: Vec<String>) -> Vec<String> {
    v.sort();
    v
}

#[test]
fn default_storage_key_bytes() {
    let p = default_capability();
    assert_eq!(p.pa_storage_key(), b"__PAUSE__".to_vec());
}

#[test]
fn configured_storage_key_bytes() {
    let p = Pausable::new(&PauseOptions { paused_storage_key: Some(s("PAUSED")) });
    assert_eq!(p.pa_storage_key(), b"PAUSED".to_vec());
}

#[test]
fn derive_pausable_parses_options() {
    let arg = Arg { key: s("paused_storage_key"), value: ArgValue::Str(s("P")) };
    let p = derive_pausable(&vec![arg]).unwrap();
    assert_eq!(p.pa_storage_key(), b"P".to_vec());

    let p = derive_pausable(&Vec::new()).unwrap();
    assert_eq!(p.pa_storage_key(), b"__PAUSE__".to_vec());

    let bad = Arg { key: s("key"), value: ArgValue::Str(s("P")) };
    assert!(derive_pausable(&vec![bad]).is_err());
}

#[test]
fn all_paused_is_none_when_never_written() {
    let h = owner_context();
    let p = default_capability();
    assert!(p.pa_all_paused(&h).unwrap().is_none());
}

#[test]
fn pause_then_all_paused_contains_label() {
    let mut h = owner_context();
    let p = default_capability();
    p.pa_pause_feature(&mut h, s("withdraw")).unwrap();
    let labels = p.pa_all_paused(&h).unwrap().unwrap();
    assert_eq!(labels, vec![s("withdraw")]);
    assert_eq!(p.pa_is_paused(&h, s("withdraw")).unwrap(), true);
    assert_eq!(p.pa_is_paused(&h, s("deposit")).unwrap(), false);
}

#[test]
fn unpause_right_after_pause_removes_label() {
    let mut h = owner_context();
    let p = default_capability();
    p.pa_pause_feature(&mut h, s("a")).unwrap();
    p.pa_pause_feature(&mut h, s("b")).unwrap();
    p.pa_unpause_feature(&mut h, s("a")).unwrap();
    let labels = p.pa_all_paused(&h).unwrap().unwrap();
    assert_eq!(labels, vec![s("b")]);
    assert_eq!(p.pa_is_paused(&h, s("a")).unwrap(), false);
    assert_eq!(p.pa_is_paused(&h, s("b")).unwrap(), true);
}

#[test]
fn unpausing_last_label_deletes_the_entry() {
    let mut h = owner_context();
    let p = default_capability();
    p.pa_pause_feature(&mut h, s("withdraw")).unwrap();
    p.pa_unpause_feature(&mut h, s("withdraw")).unwrap();
    assert!(p.pa_all_paused(&h).unwrap().is_none());
}

#[test]
fn pausing_twice_keeps_a_set() {
    let mut h = owner_context();
    let p = default_capability();
    p.pa_pause_feature(&mut h, s("withdraw")).unwrap();
    p.pa_pause_feature(&mut h, s("withdraw")).unwrap();
    let labels = p.pa_all_paused(&h).unwrap().unwrap();
    assert_eq!(labels, vec![s("withdraw")]);
}

#[test]
fn pausing_several_labels() {
    let mut h = owner_context();
    let p = default_capability();
    p.pa_pause_feature(&mut h, s("withdraw")).unwrap();
    p.pa_pause_feature(&mut h, s("deposit")).unwrap();
    let labels = sorted(p.pa_all_paused(&h).unwrap().unwrap());
    assert_eq!(labels, vec![s("deposit"), s("withdraw")]);
}

#[test]
fn unpausing_an_absent_label_is_harmless() {
    let mut h = owner_context();
    let p = default_capability();
    p.pa_pause_feature(&mut h, s("withdraw")).unwrap();
    p.pa_unpause_feature(&mut h, s("deposit")).unwrap();
    let labels = p.pa_all_paused(&h).unwrap().unwrap();
    assert_eq!(labels, vec![s("withdraw")]);
}

#[test]
fn reserved_label_pauses_everything() {
    let mut h = owner_context();
    let p = default_capability();
    p.pa_pause_feature(&mut h, s("ALL")).unwrap();
    assert_eq!(p.pa_is_paused(&h, s("withdraw")).unwrap(), true);
    assert_eq!(p.pa_is_paused(&h, s("anything at all")).unwrap(), true);
    assert_eq!(p.pa_is_paused(&h, s("ALL")).unwrap(), true);
}

#[test]
fn mutators_emit_events() {
    let mut h = owner_context();
    let p = default_capability();
    p.pa_pause_feature(&mut h, s("withdraw")).unwrap();
    p.pa_unpause_feature(&mut h, s("withdraw")).unwrap();
    assert_eq!(
        h.events,
        vec![
            Event::Pause { by: s("bob.near"), key: s("withdraw") },
            Event::Unpause { by: s("bob.near"), key: s("withdraw") },
        ]
    );
}

#[test]
fn non_owner_cannot_pause() {
    let mut h = get_context(Some("carol.near"));
    let p = default_capability();
    let r = p.pa_pause_feature(&mut h, s("withdraw"));
    assert_eq!(r.unwrap_err(), PauseError::NotOwner);
    assert!(p.pa_all_paused(&h).unwrap().is_none());
    assert!(h.events.is_empty());
}

#[test]
fn non_owner_cannot_unpause() {
    let mut h = owner_context();
    let p = default_capability();
    p.pa_pause_feature(&mut h, s("withdraw")).unwrap();
    h.owner = Some(s("carol.near"));
    let r = p.pa_unpause_feature(&mut h, s("withdraw"));
    assert_eq!(r.unwrap_err(), PauseError::NotOwner);
    assert_eq!(p.pa_all_paused(&h).unwrap().unwrap(), vec![s("withdraw")]);
    assert_eq!(h.events.len(), 1);
}

#[test]
fn no_recorded_owner_rejects_every_mutator_call() {
    let mut h = get_context(None);
    let p = default_capability();
    let r = p.pa_pause_feature(&mut h, s("withdraw"));
    assert_eq!(r.unwrap_err(), PauseError::NotOwner);
}

#[test]
fn corrupt_registry_aborts_reads_and_mutations() {
    let mut h = owner_context();
    let p = default_capability();
    // A foreign write puts a malformed label set (a duplicate) under the key.
    let key = p.pa_storage_key();
    h.storage.write(&key, vec![s("withdraw"), s("withdraw")]);
    assert_eq!(p.pa_all_paused(&h).unwrap_err(), PauseError::CorruptRegistry);
    assert_eq!(p.pa_is_paused(&h, s("withdraw")).unwrap_err(), PauseError::CorruptRegistry);
    assert_eq!(
        p.pa_pause_feature(&mut h, s("x")).unwrap_err(),
        PauseError::CorruptRegistry
    );
    assert_eq!(
        p.pa_unpause_feature(&mut h, s("x")).unwrap_err(),
        PauseError::CorruptRegistry
    );
    assert!(h.events.is_empty());
}

#[test]
fn capabilities_with_distinct_keys_do_not_interfere() {
    let mut h = owner_context();
    let p1 = default_capability();
    let p2 = Pausable::new(&PauseOptions { paused_storage_key: Some(s("OTHER")) });
    p1.pa_pause_feature(&mut h, s("withdraw")).unwrap();
    assert!(p2.pa_all_paused(&h).unwrap().is_none());
    assert_eq!(p2.pa_is_paused(&h, s("withdraw")).unwrap(), false);
}

#[test]
fn error_messages() {
    assert_eq!(PauseError::NotOwner.message(), s("Method must be called by owner"));
    assert_eq!(PauseError::CorruptRegistry.message(), s("Invalid format for paused keys"));
    assert_eq!(PauseError::MethodPaused.message(), s("Method is paused"));
    assert_eq!(PauseError::MethodMustBePaused.message(), s("Method must be paused"));
}
