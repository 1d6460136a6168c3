//! Guard injection and evaluation for pausable operations.
//!
//! An operation declaration is wrapped behind a guard of one of two
//! polarities: a forbid-while-paused guard aborts the call when the
//! operation's label is paused, a require-while-paused guard aborts when it
//! is not. Two independent, optional bypasses clear the check before it is
//! made: a self-call bypass (caller is the component itself) and an owner
//! bypass (caller is the recorded owner); the self-call condition is
//! evaluated first. When no abort happens the original body runs unchanged.
//!
//! A declaration that an outer marshalling pass of the host framework has
//! already wrapped is returned untouched, so the guard is never injected
//! twice; that detection is purely syntactic.

use vstd::prelude::*;

use crate::args::{
    Arg, ExceptSubArgs, IfPausedArgsV, ParseError, PauseArgsV, except_none, if_paused_args_of,
    parse_if_paused_args, parse_pause_args, pause_args_of,
};
use crate::host::Host;
use crate::registry::{
    PauseError, Pausable, all_label, owner_gate_open, registry_readable, spec_is_paused,
    stored_or_empty,
};

verus! {

/// Which pause state a guarded operation demands.
#[derive(Debug, Clone, Copy, PartialEq, Eq, Structural)]
pub enum Polarity {
    /// The operation aborts while its label is paused.
    ForbidPaused,
    /// The operation aborts unless its label is paused.
    RequirePaused,
}

/// The guard prefix injected in front of an operation's body.
#[derive(Debug)]
pub struct Guard {
    /// The label whose pause state is checked.
    pub label: String,
    /// Which callers bypass the check.
    pub except: ExceptSubArgs,
    pub polarity: Polarity,
}

/// Mathematical image of a [`Guard`].
pub struct GuardV {
    pub label: Seq<char>,
    pub except: ExceptSubArgs,
    pub polarity: Polarity,
}

impl View for Guard {
    type V = GuardV;

    open spec fn view(&self) -> GuardV {
        GuardV { label: self.label@, except: self.except, polarity: self.polarity }
    }
}

/// An operation declaration as the generators see it: its name, and the
/// syntactic mark left when an outer marshalling pass of the host framework
/// has already wrapped it.
#[derive(Debug)]
pub struct OpDecl {
    pub name: String,
    pub host_wrapped: bool,
}

/// A guarded operation: the original declaration, unchanged, behind an
/// optional guard prefix.
#[derive(Debug)]
pub struct GuardedOp {
    pub guard: Option<Guard>,
    pub op: OpDecl,
}

/// The idempotent-rewrite check: whether an outer marshalling pass has
/// already wrapped this declaration. Purely syntactic.
pub fn is_host_wrapped(op: &OpDecl) -> (r: bool)
    ensures
        r == op.host_wrapped,
{
    op.host_wrapped
}

/// Injects a forbid-while-paused guard in front of `item`, with options
/// parsed from `attrs`; the label defaults to the operation's own name. A
/// declaration already wrapped by an outer pass is returned untouched,
/// before its arguments are even looked at.
pub fn pause(attrs: &Vec<Arg>, item: OpDecl) -> (r: Result<GuardedOp, ParseError>)
    ensures
        match r {
            Ok(g) => g.op == item && (if item.host_wrapped {
                g.guard is None
            } else {
                pause_args_of(attrs.deep_view()) matches Ok(pa) && g.guard matches Some(gd)
                    && gd@.label == (match pa.name {
                    Option::Some(n) => n,
                    Option::None => item.name@,
                }) && gd@.except == pa.except && gd@.polarity == Polarity::ForbidPaused
            }),
            Err(e) => !item.host_wrapped && pause_args_of(attrs.deep_view()) == Err::<
                PauseArgsV,
                ParseError,
            >(e),
        },
{
    if is_host_wrapped(&item) {
        return Ok(GuardedOp { guard: None, op: item });
    }
    match parse_pause_args(attrs) {
        Ok(pa) => {
            let label = match pa.name {
                Some(n) => n,
                None => item.name.clone(),
            };
            Ok(
                GuardedOp {
                    guard: Some(
                        Guard { label, except: pa.except, polarity: Polarity::ForbidPaused },
                    ),
                    op: item,
                },
            )
        },
        Err(e) => Err(e),
    }
}

/// Injects a require-while-paused guard in front of `item`, with options
/// parsed from `attrs`; the label is required, there is no default. A
/// declaration already wrapped by an outer pass is returned untouched,
/// before its arguments are even looked at.
pub fn if_paused(attrs: &Vec<Arg>, item: OpDecl) -> (r: Result<GuardedOp, ParseError>)
    ensures
        match r {
            Ok(g) => g.op == item && (if item.host_wrapped {
                g.guard is None
            } else {
                if_paused_args_of(attrs.deep_view()) matches Ok(ia) && g.guard matches Some(gd)
                    && gd@.label == ia.name && gd@.except == ia.except && gd@.polarity
                    == Polarity::RequirePaused
            }),
            Err(e) => !item.host_wrapped && if_paused_args_of(attrs.deep_view()) == Err::<
                IfPausedArgsV,
                ParseError,
            >(e),
        },
{
    if is_host_wrapped(&item) {
        return Ok(GuardedOp { guard: None, op: item });
    }
    match parse_if_paused_args(attrs) {
        Ok(ia) => Ok(
            GuardedOp {
                guard: Some(
                    Guard {
                        label: ia.name,
                        except: ia.except,
                        polarity: Polarity::RequirePaused,
                    },
                ),
                op: item,
            },
        ),
        Err(e) => Err(e),
    }
}

/// The caller is the component itself.
pub open spec fn self_call(h: Host) -> bool {
    h.predecessor_account_id@ == h.current_account_id@
}

/// Some configured bypass applies to this caller.
pub open spec fn guard_bypassed(g: Guard, h: Host) -> bool {
    (g.except._self && self_call(h)) || (g.except.owner && owner_gate_open(h))
}

/// What the pause check itself decides, once no bypass applies: corrupt
/// registries abort, a forbidden paused label aborts, a required unpaused
/// label aborts, anything else falls through to the original body.
pub open spec fn enforcement_verdict(
    polarity: Polarity,
    st: Map<Seq<u8>, Seq<Seq<char>>>,
    k: Seq<u8>,
    label: Seq<char>,
) -> Result<(), PauseError> {
    if !registry_readable(st, k) {
        Err(PauseError::CorruptRegistry)
    } else if polarity is ForbidPaused && spec_is_paused(st, k, label) {
        Err(PauseError::MethodPaused)
    } else if polarity is RequirePaused && !spec_is_paused(st, k, label) {
        Err(PauseError::MethodMustBePaused)
    } else {
        Ok(())
    }
}

/// What a guarded call decides: bypass, or the pause check.
pub open spec fn guard_verdict(g: Guard, k: Seq<u8>, h: Host) -> Result<(), PauseError> {
    if guard_bypassed(g, h) {
        Ok(())
    } else {
        enforcement_verdict(g.polarity, h.storage@, k, g.label@)
    }
}

/// Evaluates a guard against the capability's registry: the self-call
/// bypass is checked first, then the owner bypass; when neither clears the
/// check, the label's pause state is held against the guard's polarity.
pub fn check_guard(g: &Guard, capability: &Pausable, host: &Host) -> (r: Result<(), PauseError>)
    requires
        host.wf(),
    ensures
        r == guard_verdict(*g, capability@, *host),
{
    let mut check_paused = true;
    if g.except._self {
        if host.predecessor_account_id == host.current_account_id {
            check_paused = false;
        }
    }
    if g.except.owner {
        let caller_is_owner = match &host.owner {
            Some(o) => *o == host.predecessor_account_id,
            None => false,
        };
        if caller_is_owner {
            check_paused = false;
        }
    }
    if check_paused {
        match capability.pa_is_paused(host, g.label.clone()) {
            Err(e) => Err(e),
            Ok(paused) => match g.polarity {
                Polarity::ForbidPaused => if paused {
                    Err(PauseError::MethodPaused)
                } else {
                    Ok(())
                },
                Polarity::RequirePaused => if !paused {
                    Err(PauseError::MethodMustBePaused)
                } else {
                    Ok(())
                },
            },
        }
    } else {
        Ok(())
    }
}

/// Runs a guarded operation's prefix: `Ok` means the original body executes
/// unchanged; an unguarded declaration always falls through.
pub fn run_guarded(gop: &GuardedOp, capability: &Pausable, host: &Host) -> (r: Result<
    (),
    PauseError,
>)
    requires
        host.wf(),
    ensures
        r == (match gop.guard {
            Option::Some(g) => guard_verdict(g, capability@, *host),
            Option::None => Ok::<(), PauseError>(()),
        }),
{
    match &gop.guard {
        Some(g) => check_guard(g, capability, host),
        None => Ok(()),
    }
}

/// Law (guard polarity): with no bypass configured and a readable registry,
/// a forbid-while-paused guard aborts with the fixed pause failure exactly
/// when its label is paused, and a require-while-paused guard aborts with
/// the fixed must-be-paused failure exactly when its label is not paused.
pub proof fn lemma_guard_polarity(g: Guard, k: Seq<u8>, h: Host)
    requires
        g.except == except_none(),
        registry_readable(h.storage@, k),
    ensures
        g.polarity is ForbidPaused ==> (guard_verdict(g, k, h) == Err::<(), PauseError>(
            PauseError::MethodPaused,
        ) <==> spec_is_paused(h.storage@, k, g.label@)),
        g.polarity is ForbidPaused ==> (guard_verdict(g, k, h) == Ok::<(), PauseError>(()) <==>
            !spec_is_paused(h.storage@, k, g.label@)),
        g.polarity is RequirePaused ==> (guard_verdict(g, k, h) == Err::<(), PauseError>(
            PauseError::MethodMustBePaused,
        ) <==> !spec_is_paused(h.storage@, k, g.label@)),
        g.polarity is RequirePaused ==> (guard_verdict(g, k, h) == Ok::<(), PauseError>(()) <==>
            spec_is_paused(h.storage@, k, g.label@)),
{
}

/// Law (self-call bypass): with the self bypass configured, a call where
/// the caller is the component itself falls through to the original body,
/// whatever the pause state holds.
pub proof fn lemma_self_bypass(g: Guard, k: Seq<u8>, h: Host)
    requires
        g.except._self,
        self_call(h),
    ensures
        guard_verdict(g, k, h) == Ok::<(), PauseError>(()),
{
}

/// Law (owner bypass): with the owner bypass configured, a call from the
/// recorded owner falls through to the original body, whatever the pause
/// state holds.
pub proof fn lemma_owner_bypass(g: Guard, k: Seq<u8>, h: Host)
    requires
        g.except.owner,
        owner_gate_open(h),
    ensures
        guard_verdict(g, k, h) == Ok::<(), PauseError>(()),
{
}

/// Law (no bypass): with neither bypass configured, the verdict is the bare
/// pause check — the caller's identity plays no part.
pub proof fn lemma_no_bypass_enforces(g: Guard, k: Seq<u8>, h: Host)
    requires
        !g.except.owner,
        !g.except._self,
    ensures
        guard_verdict(g, k, h) == enforcement_verdict(g.polarity, h.storage@, k, g.label@),
{
}

/// Law (reserved label): when the registry holds `"ALL"`, every
/// forbid-while-paused operation to which no bypass applies aborts with the
/// fixed pause failure, whatever its own label.
pub proof fn lemma_reserved_label_pauses_all(g: Guard, k: Seq<u8>, h: Host)
    requires
        g.polarity is ForbidPaused,
        !guard_bypassed(g, h),
        registry_readable(h.storage@, k),
        stored_or_empty(h.storage@, k).contains(all_label()),
    ensures
        guard_verdict(g, k, h) == Err::<(), PauseError>(PauseError::MethodPaused),
{
}

} // verus!
