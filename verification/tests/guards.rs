use pausable::args::{Arg, ArgValue, ExceptSubArgs, ParseError, PauseOptions, SubArg};
use pausable::guard::{Guard, GuardedOp, OpDecl, Polarity, check_guard, if_paused, pause, run_guarded};
use pausable::host::Host;
use pausable::registry::{PauseError, Pausable};

fn s(x: &str) -> String {
    x.to_string()
}

fn op(name: &str) -> OpDecl {
    OpDecl { name: s(name), host_wrapped: false }
}

fn host(predecessor: &str, current: &str, owner: Option<&str>) -> Host {
    Host::new(s(predecessor), s(current), owner.map(s))
}

fn default_capability() -> Pausable {
    Pausable::new(&PauseOptions { paused_storage_key: None })
}

/// A host where the given labels are paused; the component is
/// `alice.near`, the owner is `owner.near`, and the caller is `bob.near`.
fn host_with_paused(labels: &[&str]) -> (Pausable, Host) {
    let p = default_capability();
    let mut h = host("owner.near", "alice.near", Some("owner.near"));
    for l in labels {
        p.pa_pause_feature(&mut h, s(l)).unwrap();
    }
    h.predecessor_account_id = s("bob.near");
    (p, h)
}

fn forbid_guard(label: &str, except: ExceptSubArgs) -> Guard {
    Guard { label: s(label), except, polarity: Polarity::ForbidPaused }
}

fn require_guard(label: &str, except: ExceptSubArgs) -> Guard {
    Guard { label: s(label), except, polarity: Polarity::RequirePaused }
}

fn no_bypass() -> ExceptSubArgs {
    ExceptSubArgs { owner: false, _self: false }
}

#[test]
fn pause_injects_guard_with_default_label() {
    let g = pause(&Vec::new(), op("withdraw")).unwrap();
    assert_eq!(g.op.name, s("withdraw"));
    let guard = g.guard.unwrap();
    assert_eq!(guard.label, s("withdraw"));
    assert_eq!(guard.polarity, Polarity::ForbidPaused);
    assert_eq!(guard.except, no_bypass());
}

#[test]
fn pause_injects_guard_with_explicit_label() {
    let args = vec![Arg { key: s("name"), value: ArgValue::Str(s("payments")) }];
    let g = pause(&args, op("withdraw")).unwrap();
    assert_eq!(g.guard.unwrap().label, s("payments"));
}

#[test]
fn pause_keeps_bypass_flags() {
    let items = vec![SubArg { key: s("self"), value: None }];
    let args = vec![Arg { key: s("except"), value: ArgValue::List(items) }];
    let g = pause(&args, op("withdraw")).unwrap();
    let guard = g.guard.unwrap();
    assert!(guard.except._self);
    assert!(!guard.except.owner);
}

#[test]
fn pause_rejects_bad_arguments() {
    let args = vec![Arg { key: s("label"), value: ArgValue::Str(s("x")) }];
    assert_eq!(pause(&args, op("withdraw")).unwrap_err(), ParseError::UnknownKey);
}

#[test]
fn if_paused_requires_a_label() {
    assert_eq!(if_paused(&Vec::new(), op("rescue")).unwrap_err(), ParseError::MissingName);
}

#[test]
fn if_paused_injects_require_guard() {
    let args = vec![Arg { key: s("name"), value: ArgValue::Str(s("maintenance")) }];
    let g = if_paused(&args, op("rescue")).unwrap();
    let guard = g.guard.unwrap();
    assert_eq!(guard.label, s("maintenance"));
    assert_eq!(guard.polarity, Polarity::RequirePaused);
}

#[test]
fn wrapped_declaration_is_returned_untouched() {
    let wrapped = OpDecl { name: s("withdraw"), host_wrapped: true };
    let g = pause(&Vec::new(), wrapped).unwrap();
    assert!(g.guard.is_none());
    assert_eq!(g.op.name, s("withdraw"));
    assert!(g.op.host_wrapped);
}

#[test]
fn wrapped_declaration_skips_argument_parsing() {
    // Arguments that would be rejected are never looked at on a declaration
    // that an outer pass already wrapped.
    let bad = vec![Arg { key: s("label"), value: ArgValue::Str(s("x")) }];
    let wrapped = OpDecl { name: s("withdraw"), host_wrapped: true };
    let g = pause(&bad, wrapped).unwrap();
    assert!(g.guard.is_none());
}

#[test]
fn unguarded_operation_always_runs() {
    let (p, h) = host_with_paused(&["withdraw"]);
    let gop = GuardedOp { guard: None, op: op("withdraw") };
    assert!(run_guarded(&gop, &p, &h).is_ok());
}

#[test]
fn forbid_guard_aborts_on_paused_label() {
    let (p, h) = host_with_paused(&["withdraw"]);
    let withdraw = pause(&Vec::new(), op("withdraw")).unwrap();
    let err = run_guarded(&withdraw, &p, &h).unwrap_err();
    assert_eq!(err, PauseError::MethodPaused);
    assert_eq!(err.message(), s("Method is paused"));

    let deposit = pause(&Vec::new(), op("deposit")).unwrap();
    assert!(run_guarded(&deposit, &p, &h).is_ok());
}

#[test]
fn reserved_label_aborts_every_forbid_guard() {
    let (p, h) = host_with_paused(&["ALL"]);
    for name in ["withdraw", "deposit", "transfer"] {
        let g = pause(&Vec::new(), op(name)).unwrap();
        assert_eq!(run_guarded(&g, &p, &h).unwrap_err(), PauseError::MethodPaused);
    }
}

#[test]
fn require_guard_aborts_iff_not_paused() {
    let (p, h) = host_with_paused(&["maintenance"]);
    let ok = check_guard(&require_guard("maintenance", no_bypass()), &p, &h);
    assert!(ok.is_ok());
    let err = check_guard(&require_guard("other", no_bypass()), &p, &h).unwrap_err();
    assert_eq!(err, PauseError::MethodMustBePaused);
    assert_eq!(err.message(), s("Method must be paused"));
}

#[test]
fn self_bypass_lets_the_component_through() {
    let (p, mut h) = host_with_paused(&["withdraw"]);
    h.predecessor_account_id = s("alice.near");
    let except = ExceptSubArgs { owner: false, _self: true };
    assert!(check_guard(&forbid_guard("withdraw", except), &p, &h).is_ok());
    // The same caller without the bypass still aborts.
    assert_eq!(
        check_guard(&forbid_guard("withdraw", no_bypass()), &p, &h).unwrap_err(),
        PauseError::MethodPaused
    );
}

#[test]
fn owner_bypass_lets_the_owner_through() {
    let (p, mut h) = host_with_paused(&["withdraw"]);
    h.predecessor_account_id = s("owner.near");
    let except = ExceptSubArgs { owner: true, _self: false };
    assert!(check_guard(&forbid_guard("withdraw", except), &p, &h).is_ok());
    assert_eq!(
        check_guard(&forbid_guard("withdraw", no_bypass()), &p, &h).unwrap_err(),
        PauseError::MethodPaused
    );
}

#[test]
fn bypass_does_not_apply_to_other_callers() {
    let (p, h) = host_with_paused(&["withdraw"]);
    let except = ExceptSubArgs { owner: true, _self: true };
    assert_eq!(
        check_guard(&forbid_guard("withdraw", except), &p, &h).unwrap_err(),
        PauseError::MethodPaused
    );
}

#[test]
fn require_guard_bypasses_apply_too() {
    let (p, mut h) = host_with_paused(&[]);
    h.predecessor_account_id = s("owner.near");
    let except = ExceptSubArgs { owner: true, _self: false };
    assert!(check_guard(&require_guard("maintenance", except), &p, &h).is_ok());
}

#[test]
fn corrupt_registry_aborts_the_guard() {
    let (p, mut h) = host_with_paused(&[]);
    let key = p.pa_storage_key();
    h.storage.write(&key, vec![s("x"), s("x")]);
    let err = check_guard(&forbid_guard("withdraw", no_bypass()), &p, &h).unwrap_err();
    assert_eq!(err, PauseError::CorruptRegistry);
}
