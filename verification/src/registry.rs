//! The pause registry: a persisted set of string labels.
//!
//! A component equipped with the pause capability keeps, under one
//! configurable storage key, the set of labels that are currently paused.
//! An absent key means nothing is paused; the reserved label `"ALL"` pauses
//! every labeled operation. The registry is never stored empty: removing
//! the last label deletes the storage entry, so an emptied registry is
//! indistinguishable from a never-written one.
//!
//! The two mutators are gated by the ownership capability: a caller other
//! than the recorded owner aborts without touching storage. Reads never
//! mutate. A stored value that is not a well-formed label set (a duplicate
//! label) is data corruption and aborts the call.

use vstd::prelude::*;
use vstd::string::StrSliceExecFns;
use vstd::string::StringExecFns;
use vstd::utf8::encode_utf8;

use crate::args::{Arg, ParseError, PauseOptions, PauseOptionsV, pause_options_of};
use crate::host::{Event, Host};

verus! {

/// The reserved label that pauses every labeled operation.
pub open spec fn all_label() -> Seq<char> {
    "ALL"@
}

/// The storage key used when none is configured.
pub open spec fn default_storage_key() -> Seq<char> {
    "__PAUSE__"@
}

/// The label list stored under `k`, or the empty list when `k` was never
/// written.
pub open spec fn stored_or_empty(st: Map<Seq<u8>, Seq<Seq<char>>>, k: Seq<u8>) -> Seq<Seq<char>> {
    if st.dom().contains(k) {
        st[k]
    } else {
        Seq::empty()
    }
}

/// A stored registry deserializes iff it is a well-formed set: no label
/// twice. An absent entry is readable (nothing is paused).
pub open spec fn registry_readable(st: Map<Seq<u8>, Seq<Seq<char>>>, k: Seq<u8>) -> bool {
    st.dom().contains(k) ==> st[k].no_duplicates()
}

/// The membership rule: a label is paused iff the registry holds it or
/// holds the reserved label `"ALL"`.
pub open spec fn spec_is_paused(
    st: Map<Seq<u8>, Seq<Seq<char>>>,
    k: Seq<u8>,
    label: Seq<char>,
) -> bool {
    stored_or_empty(st, k).contains(label) || stored_or_empty(st, k).contains(all_label())
}

/// The label list after pausing `l`: unchanged when already present,
/// appended otherwise.
pub open spec fn pause_stored(v: Seq<Seq<char>>, l: Seq<char>) -> Seq<Seq<char>> {
    if v.contains(l) {
        v
    } else {
        v.push(l)
    }
}

/// The label list after unpausing `l`: every occurrence removed.
pub open spec fn unpause_stored(v: Seq<Seq<char>>, l: Seq<char>) -> Seq<Seq<char>> {
    v.filter(|x: Seq<char>| x != l)
}

/// Storage after a successful pause of `l` under key `k`.
pub open spec fn spec_pause(st: Map<Seq<u8>, Seq<Seq<char>>>, k: Seq<u8>, l: Seq<char>) -> Map<
    Seq<u8>,
    Seq<Seq<char>>,
> {
    st.insert(k, pause_stored(stored_or_empty(st, k), l))
}

/// Storage after a successful unpause of `l` under key `k`: the entry is
/// deleted when the registry becomes empty.
pub open spec fn spec_unpause(st: Map<Seq<u8>, Seq<Seq<char>>>, k: Seq<u8>, l: Seq<char>) -> Map<
    Seq<u8>,
    Seq<Seq<char>>,
> {
    let v = unpause_stored(stored_or_empty(st, k), l);
    if v.len() == 0 {
        st.remove(k)
    } else {
        st.insert(k, v)
    }
}

/// The ownership gate is open iff the caller is the recorded owner.
pub open spec fn owner_gate_open(h: Host) -> bool {
    match h.owner {
        Option::Some(o) => o@ == h.predecessor_account_id@,
        Option::None => false,
    }
}

/// Why a registry operation or a guarded call aborted.
#[derive(Debug, Clone, Copy, PartialEq, Eq, Structural)]
pub enum PauseError {
    /// A mutator was called by someone other than the recorded owner.
    NotOwner,
    /// The stored registry is not a well-formed label set.
    CorruptRegistry,
    /// A forbid-while-paused operation was called while its label is paused.
    MethodPaused,
    /// A require-while-paused operation was called while its label is not
    /// paused.
    MethodMustBePaused,
}

impl PauseError {
    /// The fixed abort text of this failure.
    pub open spec fn spec_message(&self) -> Seq<char> {
        match self {
            PauseError::NotOwner => "Method must be called by owner"@,
            PauseError::CorruptRegistry => "Invalid format for paused keys"@,
            PauseError::MethodPaused => "Method is paused"@,
            PauseError::MethodMustBePaused => "Method must be paused"@,
        }
    }

    /// Returns the fixed abort text of this failure.
    pub fn message(&self) -> (r: String)
        ensures
            r@ == self.spec_message(),
    {
        match self {
            PauseError::NotOwner => String::from_str("Method must be called by owner"),
            PauseError::CorruptRegistry => String::from_str("Invalid format for paused keys"),
            PauseError::MethodPaused => String::from_str("Method is paused"),
            PauseError::MethodMustBePaused => String::from_str("Method must be paused"),
        }
    }
}

/// The key under which the registry of the given options lives.
pub open spec fn chosen_key(o: PauseOptionsV) -> Seq<char> {
    match o.paused_storage_key {
        Option::Some(k) => k,
        Option::None => default_storage_key(),
    }
}

/// The pause capability of one component: its configured storage key,
/// with the query and mutator operations of the registry kept there.
pub struct Pausable {
    storage_key: Vec<u8>,
}

impl View for Pausable {
    type V = Seq<u8>;

    /// The byte key under which this capability persists its registry.
    closed spec fn view(&self) -> Seq<u8> {
        self.storage_key@
    }
}

/// Turns a string into its byte encoding.
fn key_bytes(s: &String) -> (r: Vec<u8>)
    ensures
        r@ == encode_utf8(s@),
{
    s.as_str().as_bytes_vec()
}

/// Equips a component with the pause capability, given the declaration's
/// annotation arguments: parses them and fixes the storage key.
pub fn derive_pausable(args: &Vec<Arg>) -> (r: Result<Pausable, ParseError>)
    ensures
        match r {
            Ok(p) => pause_options_of(args.deep_view()) matches Ok(o) && p@ == encode_utf8(
                chosen_key(o),
            ),
            Err(e) => pause_options_of(args.deep_view()) == Err::<PauseOptionsV, ParseError>(e),
        },
{
    match crate::args::parse_pause_options(args) {
        Ok(opts) => Ok(Pausable::new(&opts)),
        Err(e) => Err(e),
    }
}

impl Pausable {
    /// The capability for the given parsed options.
    pub fn new(opts: &PauseOptions) -> (p: Pausable)
        ensures
            p@ == encode_utf8(chosen_key(opts@)),
    {
        let key = match &opts.paused_storage_key {
            Some(k) => key_bytes(k),
            None => {
                let d: String = "__PAUSE__".to_owned();
                key_bytes(&d)
            },
        };
        Pausable { storage_key: key }
    }

    /// The configured storage key of the registry.
    pub fn pa_storage_key(&self) -> (r: Vec<u8>)
        ensures
            r@ == self@,
    {
        let r = self.storage_key.clone();
        proof {
            assert(r@ =~= self.storage_key@);
        }
        r
    }

    /// Reads the whole registry: `None` when never written, the stored
    /// label set otherwise; aborts on a malformed stored value.
    pub fn pa_all_paused(&self, host: &Host) -> (r: Result<Option<Vec<String>>, PauseError>)
        requires
            host.wf(),
        ensures
            match r {
                Ok(v) => match v {
                    Option::Some(labels) => host.storage@.dom().contains(self@)
                        && labels.deep_view() == host.storage@[self@]
                        && labels.deep_view().no_duplicates(),
                    Option::None => !host.storage@.dom().contains(self@),
                },
                Err(e) => e == PauseError::CorruptRegistry && !registry_readable(
                    host.storage@,
                    self@,
                ),
            },
    {
        match host.storage.read(&self.storage_key) {
            None => Ok(None),
            Some(labels) => {
                if labels_have_duplicates(&labels) {
                    Err(PauseError::CorruptRegistry)
                } else {
                    Ok(Some(labels))
                }
            },
        }
    }

    /// Whether the operation labeled `key` is paused: true iff the registry
    /// holds `key` or holds `"ALL"`; aborts on a malformed stored value.
    pub fn pa_is_paused(&self, host: &Host, key: String) -> (r: Result<bool, PauseError>)
        requires
            host.wf(),
        ensures
            match r {
                Ok(b) => registry_readable(host.storage@, self@) && b == spec_is_paused(
                    host.storage@,
                    self@,
                    key@,
                ),
                Err(e) => e == PauseError::CorruptRegistry && !registry_readable(
                    host.storage@,
                    self@,
                ),
            },
    {
        match self.pa_all_paused(host) {
            Err(e) => Err(e),
            Ok(None) => Ok(false),
            Ok(Some(labels)) => {
                let all: String = "ALL".to_owned();
                let r = labels_contain(&labels, &key) || labels_contain(&labels, &all);
                Ok(r)
            },
        }
    }

    /// Pauses the feature labeled `key`: owner-gated; loads the registry
    /// (empty when never written), inserts the label, emits a pause event,
    /// and persists the result. Aborts without mutating anything when the
    /// caller is not the owner or the stored registry is malformed.
    pub fn pa_pause_feature(&self, host: &mut Host, key: String) -> (r: Result<(), PauseError>)
        requires
            old(host).wf(),
        ensures
            final(host).wf(),
            final(host).predecessor_account_id == old(host).predecessor_account_id,
            final(host).current_account_id == old(host).current_account_id,
            final(host).owner == old(host).owner,
            match r {
                Ok(u) => owner_gate_open(*old(host)) && registry_readable(
                    old(host).storage@,
                    self@,
                ) && final(host).storage@ == spec_pause(old(host).storage@, self@, key@)
                    && final(host).events@ == old(host).events@.push(
                    Event::Pause { by: old(host).predecessor_account_id, key },
                ),
                Err(e) => *final(host) == *old(host) && ((e == PauseError::NotOwner
                    && !owner_gate_open(*old(host))) || (e == PauseError::CorruptRegistry
                    && owner_gate_open(*old(host)) && !registry_readable(
                    old(host).storage@,
                    self@,
                ))),
            },
    {
        if !owner_gate(host) {
            return Err(PauseError::NotOwner);
        }
        let mut labels: Vec<String> = match host.storage.read(&self.storage_key) {
            Some(v) => {
                if labels_have_duplicates(&v) {
                    return Err(PauseError::CorruptRegistry);
                }
                v
            },
            None => Vec::new(),
        };
        if !labels_contain(&labels, &key) {
            labels.push(key.clone());
            proof {
                assert(labels.deep_view() =~= pause_stored(
                    stored_or_empty(old(host).storage@, self@),
                    key@,
                ));
            }
        } else {
            proof {
                assert(labels.deep_view() =~= pause_stored(
                    stored_or_empty(old(host).storage@, self@),
                    key@,
                ));
            }
        }
        let ev = Event::Pause { by: host.predecessor_account_id.clone(), key: key.clone() };
        host.events.push(ev);
        host.storage.write(&self.storage_key, labels);
        Ok(())
    }

    /// Unpauses the feature labeled `key`: owner-gated; loads the registry,
    /// removes the label, emits an unpause event, and persists the result —
    /// or deletes the storage entry when the registry becomes empty. Aborts
    /// without mutating anything when the caller is not the owner or the
    /// stored registry is malformed.
    pub fn pa_unpause_feature(&self, host: &mut Host, key: String) -> (r: Result<(), PauseError>)
        requires
            old(host).wf(),
        ensures
            final(host).wf(),
            final(host).predecessor_account_id == old(host).predecessor_account_id,
            final(host).current_account_id == old(host).current_account_id,
            final(host).owner == old(host).owner,
            match r {
                Ok(u) => owner_gate_open(*old(host)) && registry_readable(
                    old(host).storage@,
                    self@,
                ) && final(host).storage@ == spec_unpause(old(host).storage@, self@, key@)
                    && final(host).events@ == old(host).events@.push(
                    Event::Unpause { by: old(host).predecessor_account_id, key },
                ),
                Err(e) => *final(host) == *old(host) && ((e == PauseError::NotOwner
                    && !owner_gate_open(*old(host))) || (e == PauseError::CorruptRegistry
                    && owner_gate_open(*old(host)) && !registry_readable(
                    old(host).storage@,
                    self@,
                ))),
            },
    {
        if !owner_gate(host) {
            return Err(PauseError::NotOwner);
        }
        let labels: Vec<String> = match host.storage.read(&self.storage_key) {
            Some(v) => {
                if labels_have_duplicates(&v) {
                    return Err(PauseError::CorruptRegistry);
                }
                v
            },
            None => Vec::new(),
        };
        proof {
            assert(labels.deep_view() =~= stored_or_empty(old(host).storage@, self@));
        }
        let remaining = remove_label(&labels, &key);
        let ev = Event::Unpause { by: host.predecessor_account_id.clone(), key: key.clone() };
        host.events.push(ev);
        if remaining.len() == 0 {
            host.storage.remove(&self.storage_key);
        } else {
            host.storage.write(&self.storage_key, remaining);
        }
        Ok(())
    }
}

/// Law (membership rule): for any stored label set and any label, the label
/// is paused iff it is in the set or the reserved label `"ALL"` is.
pub proof fn lemma_membership_rule(st: Map<Seq<u8>, Seq<Seq<char>>>, k: Seq<u8>, label: Seq<char>)
    ensures
        spec_is_paused(st, k, label) <==> (stored_or_empty(st, k).to_set().contains(label)
            || stored_or_empty(st, k).to_set().contains(all_label())),
{
}

/// Law (round trip): pausing a label leaves a registry that holds it — so
/// reading the registry back shows it and the label is paused — and
/// unpausing it immediately after leaves a registry without it.
pub proof fn lemma_pause_unpause_round_trip(
    st: Map<Seq<u8>, Seq<Seq<char>>>,
    k: Seq<u8>,
    l: Seq<char>,
)
    ensures
        spec_pause(st, k, l).dom().contains(k),
        stored_or_empty(spec_pause(st, k, l), k).contains(l),
        spec_is_paused(spec_pause(st, k, l), k, l),
        !stored_or_empty(spec_unpause(spec_pause(st, k, l), k, l), k).contains(l),
{
    let v = stored_or_empty(st, k);
    let paused = pause_stored(v, l);
    if !v.contains(l) {
        assert(paused[v.len() as int] == l);
        assert(paused.contains(l));
    }
    let remaining = unpause_stored(paused, l);
    assert(!remaining.contains(l)) by {
        if remaining.contains(l) {
            let i = choose|i: int| 0 <= i < remaining.len() && remaining[i] == l;
            paused.lemma_filter_pred(|x: Seq<char>| x != l, i);
        }
    }
    if remaining.len() != 0 {
        assert(stored_or_empty(spec_unpause(spec_pause(st, k, l), k, l), k) == remaining);
    }
}

proof fn lemma_filter_out_all(v: Seq<Seq<char>>, l: Seq<char>)
    requires
        forall|i: int| 0 <= i < v.len() ==> v[i] == l,
    ensures
        unpause_stored(v, l).len() == 0,
    decreases v.len(),
{
    reveal(Seq::filter);
    if v.len() > 0 {
        assert(v[v.len() - 1] == l);
        lemma_filter_out_all(v.drop_last(), l);
    }
}

/// Law (emptying idempotence): unpausing a label from a registry that holds
/// nothing else deletes the storage entry, leaving the same storage as if
/// the registry had never been written.
pub proof fn lemma_unpause_last_label(st: Map<Seq<u8>, Seq<Seq<char>>>, k: Seq<u8>, l: Seq<char>)
    requires
        forall|x: Seq<char>| stored_or_empty(st, k).contains(x) ==> x == l,
    ensures
        spec_unpause(st, k, l) == st.remove(k),
        !spec_unpause(st, k, l).dom().contains(k),
        stored_or_empty(spec_unpause(st, k, l), k) == Seq::<Seq<char>>::empty(),
{
    let v = stored_or_empty(st, k);
    assert forall|i: int| 0 <= i < v.len() implies v[i] == l by {
        assert(v.contains(v[i]));
    }
    lemma_filter_out_all(v, l);
}

/// Whether the ownership gate lets this caller through.
fn owner_gate(host: &Host) -> (r: bool)
    ensures
        r == owner_gate_open(*host),
{
    match &host.owner {
        Some(o) => *o == host.predecessor_account_id,
        None => false,
    }
}

/// Whether the label list holds `needle`.
fn labels_contain(v: &Vec<String>, needle: &String) -> (r: bool)
    ensures
        r == v.deep_view().contains(needle@),
{
    let n = v.len();
    let mut i: usize = 0;
    while i < n
        invariant
            n == v@.len(),
            i <= n,
            forall|j: int| 0 <= j < i ==> v@[j]@ != needle@,
        decreases n - i,
    {
        if v[i] == *needle {
            proof {
                assert(v.deep_view()[i as int] == needle@);
            }
            return true;
        }
        i = i + 1;
    }
    proof {
        assert(!v.deep_view().contains(needle@)) by {
            if v.deep_view().contains(needle@) {
                let j = choose|j: int|
                    0 <= j < v.deep_view().len() && v.deep_view()[j] == needle@;
                assert(v@[j]@ == needle@);
            }
        }
    }
    false
}

/// Whether the label list holds some label twice.
fn labels_have_duplicates(v: &Vec<String>) -> (r: bool)
    ensures
        r == !v.deep_view().no_duplicates(),
{
    let n = v.len();
    let mut i: usize = 0;
    while i < n
        invariant
            n == v@.len(),
            i <= n,
            forall|p: int, q: int| 0 <= p < q < i ==> v@[p]@ != v@[q]@,
        decreases n - i,
    {
        let mut j: usize = 0;
        while j < i
            invariant
                i < n,
                n == v@.len(),
                j <= i,
                forall|q: int| 0 <= q < j ==> v@[q]@ != v@[i as int]@,
            decreases i - j,
        {
            if v[j] == v[i] {
                proof {
                    assert(v.deep_view()[j as int] == v.deep_view()[i as int]);
                    assert(!v.deep_view().no_duplicates());
                }
                return true;
            }
            j = j + 1;
        }
        i = i + 1;
    }
    proof {
        assert(v.deep_view().no_duplicates()) by {
            assert forall|p: int, q: int|
                0 <= p < v.deep_view().len() && 0 <= q < v.deep_view().len() && p != q
                implies v.deep_view()[p] != v.deep_view()[q] by {
                if p < q {
                    assert(v@[p]@ != v@[q]@);
                } else {
                    assert(v@[q]@ != v@[p]@);
                }
            }
        }
    }
    false
}

/// A copy of the label list with every occurrence of `needle` removed.
fn remove_label(v: &Vec<String>, needle: &String) -> (r: Vec<String>)
    ensures
        r.deep_view() == unpause_stored(v.deep_view(), needle@),
{
    let n = v.len();
    let mut out: Vec<String> = Vec::new();
    let mut i: usize = 0;
    proof {
        reveal(Seq::filter);
        assert(v.deep_view().take(0) =~= Seq::<Seq<char>>::empty());
    }
    while i < n
        invariant
            n == v@.len(),
            i <= n,
            out.deep_view() == v.deep_view().take(i as int).filter(
                |x: Seq<char>| x != needle@,
            ),
        decreases n - i,
    {
        let ghost dv = v.deep_view();
        proof {
            reveal(Seq::filter);
            assert(dv.take(i as int + 1).drop_last() =~= dv.take(i as int));
            assert(dv.take(i as int + 1).last() == dv[i as int]);
        }
        if !(v[i] == *needle) {
            out.push(v[i].clone());
            proof {
                assert(out.deep_view() =~= dv.take(i as int + 1).filter(
                    |x: Seq<char>| x != needle@,
                ));
            }
        } else {
            proof {
                assert(out.deep_view() =~= dv.take(i as int + 1).filter(
                    |x: Seq<char>| x != needle@,
                ));
            }
        }
        i = i + 1;
    }
    proof {
        assert(v.deep_view().take(n as int) =~= v.deep_view());
    }
    out
}

} // verus!
