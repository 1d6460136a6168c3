//! Parser for annotation argument lists.
//!
//! An annotation's arguments are a flat list of `key = value` pairs or bare
//! flags. Three grammars are parsed here:
//!
//! * pause capability declaration: `paused_storage_key = "<key>"` (optional);
//! * forbid-while-paused guard: `name = "<label>"` (optional) and
//!   `except(owner, self)` (optional, each flag optional);
//! * require-while-paused guard: the same, but `name` is required.
//!
//! Unknown keys, repeated keys and ill-typed values are rejected; parsing is
//! a build-time step, so every rejection is a hard generation failure.

use vstd::prelude::*;
use vstd::string::StringExecFns;

verus! {

/// One argument inside a nested `except(...)` list: a bare flag (`owner`)
/// or an explicit `owner = <bool>`.
pub struct SubArg {
    pub key: String,
    pub value: Option<bool>,
}

/// The value side of a top-level argument.
pub enum ArgValue {
    /// `key = "<string>"`
    Str(String),
    /// `key(<nested flags>)`
    List(Vec<SubArg>),
}

/// One top-level `key = value` annotation argument.
pub struct Arg {
    pub key: String,
    pub value: ArgValue,
}

/// Mathematical image of a [`SubArg`].
pub struct SubArgV {
    pub key: Seq<char>,
    pub value: Option<bool>,
}

/// Mathematical image of an [`ArgValue`].
pub enum ArgValueV {
    Str(Seq<char>),
    List(Seq<SubArgV>),
}

/// Mathematical image of an [`Arg`].
pub struct ArgV {
    pub key: Seq<char>,
    pub value: ArgValueV,
}

impl View for SubArg {
    type V = SubArgV;

    open spec fn view(&self) -> SubArgV {
        SubArgV { key: self.key@, value: self.value }
    }
}

impl DeepView for SubArg {
    type V = SubArgV;

    open spec fn deep_view(&self) -> SubArgV {
        self@
    }
}

impl View for ArgValue {
    type V = ArgValueV;

    open spec fn view(&self) -> ArgValueV {
        match self {
            ArgValue::Str(s) => ArgValueV::Str(s@),
            ArgValue::List(items) => ArgValueV::List(items.deep_view()),
        }
    }
}

impl DeepView for ArgValue {
    type V = ArgValueV;

    open spec fn deep_view(&self) -> ArgValueV {
        self@
    }
}

impl View for Arg {
    type V = ArgV;

    open spec fn view(&self) -> ArgV {
        ArgV { key: self.key@, value: self.value@ }
    }
}

impl DeepView for Arg {
    type V = ArgV;

    open spec fn deep_view(&self) -> ArgV {
        self@
    }
}

/// Why an argument list was rejected.
#[derive(Debug, Clone, Copy, PartialEq, Eq, Structural)]
pub enum ParseError {
    /// A key that the grammar does not know.
    UnknownKey,
    /// The same key given twice.
    DuplicateKey,
    /// A value of the wrong shape for its key.
    WrongType,
    /// The required `name` key is missing.
    MissingName,
}

impl ParseError {
    /// The fixed diagnostic text of this failure.
    pub open spec fn spec_message(&self) -> Seq<char> {
        match self {
            ParseError::UnknownKey => "unknown argument key"@,
            ParseError::DuplicateKey => "argument key given twice"@,
            ParseError::WrongType => "argument value has the wrong shape"@,
            ParseError::MissingName => "a name for the guarded label is required"@,
        }
    }

    /// Returns the fixed diagnostic text of this failure.
    pub fn message(&self) -> (r: String)
        ensures
            r@ == self.spec_message(),
    {
        match self {
            ParseError::UnknownKey => String::from_str("unknown argument key"),
            ParseError::DuplicateKey => String::from_str("argument key given twice"),
            ParseError::WrongType => String::from_str("argument value has the wrong shape"),
            ParseError::MissingName => String::from_str(
                "a name for the guarded label is required",
            ),
        }
    }
}

/// Which callers may bypass a pause guard.
#[derive(Debug, Clone, Copy, PartialEq, Eq, Structural)]
pub struct ExceptSubArgs {
    /// Skip the check when the caller is the recorded owner.
    pub owner: bool,
    /// Skip the check when the caller is the component itself.
    pub _self: bool,
}

/// Both bypasses off: pause state is always enforced.
pub open spec fn except_none() -> ExceptSubArgs {
    ExceptSubArgs { owner: false, _self: false }
}

/// Parsed options of a forbid-while-paused guard.
#[derive(Debug)]
pub struct PauseArgs {
    /// The guarded label; the operation's own name when absent.
    pub name: Option<String>,
    pub except: ExceptSubArgs,
}

/// Parsed options of a require-while-paused guard.
#[derive(Debug)]
pub struct IfPausedArgs {
    /// The guarded label; required, there is no sensible default.
    pub name: String,
    pub except: ExceptSubArgs,
}

/// Parsed options of the pause capability declaration itself.
#[derive(Debug)]
pub struct PauseOptions {
    /// Storage key override; the default key when absent.
    pub paused_storage_key: Option<String>,
}

/// Mathematical image of [`PauseArgs`].
pub struct PauseArgsV {
    pub name: Option<Seq<char>>,
    pub except: ExceptSubArgs,
}

/// Mathematical image of [`IfPausedArgs`].
pub struct IfPausedArgsV {
    pub name: Seq<char>,
    pub except: ExceptSubArgs,
}

/// Mathematical image of [`PauseOptions`].
pub struct PauseOptionsV {
    pub paused_storage_key: Option<Seq<char>>,
}

/// The view of an optional string.
pub open spec fn opt_str_view(o: Option<String>) -> Option<Seq<char>> {
    match o {
        Option::Some(s) => Option::Some(s@),
        Option::None => Option::None,
    }
}

impl View for PauseArgs {
    type V = PauseArgsV;

    open spec fn view(&self) -> PauseArgsV {
        PauseArgsV { name: opt_str_view(self.name), except: self.except }
    }
}

impl View for IfPausedArgs {
    type V = IfPausedArgsV;

    open spec fn view(&self) -> IfPausedArgsV {
        IfPausedArgsV { name: self.name@, except: self.except }
    }
}

impl View for PauseOptions {
    type V = PauseOptionsV;

    open spec fn view(&self) -> PauseOptionsV {
        PauseOptionsV { paused_storage_key: opt_str_view(self.paused_storage_key) }
    }
}

/// A bare flag means `true`; an explicit value speaks for itself.
pub open spec fn flag_value(v: Option<bool>) -> bool {
    match v {
        Option::Some(b) => b,
        Option::None => true,
    }
}

/// Accumulator while folding an `except(...)` list; `None` = not seen yet.
pub struct ExceptAcc {
    pub owner: Option<bool>,
    pub _self: Option<bool>,
}

/// One step per item, left to right: `owner` and `self` set their flag,
/// anything else is rejected; a repeated flag is rejected.
pub open spec fn except_fold(items: Seq<SubArgV>, acc: ExceptAcc) -> Result<
    ExceptAcc,
    ParseError,
>
    decreases items.len(),
{
    if items.len() == 0 {
        Ok(acc)
    } else {
        let it = items[0];
        let rest = items.drop_first();
        if it.key == "owner"@ {
            if acc.owner is Some {
                Err(ParseError::DuplicateKey)
            } else {
                except_fold(rest, ExceptAcc { owner: Some(flag_value(it.value)), _self: acc._self })
            }
        } else if it.key == "self"@ {
            if acc._self is Some {
                Err(ParseError::DuplicateKey)
            } else {
                except_fold(rest, ExceptAcc { owner: acc.owner, _self: Some(flag_value(it.value)) })
            }
        } else {
            Err(ParseError::UnknownKey)
        }
    }
}

/// What an `except(...)` list parses to: absent flags default to `false`.
pub open spec fn except_args_of(items: Seq<SubArgV>) -> Result<ExceptSubArgs, ParseError> {
    match except_fold(items, ExceptAcc { owner: None, _self: None }) {
        Ok(acc) => Ok(
            ExceptSubArgs {
                owner: match acc.owner {
                    Option::Some(b) => b,
                    Option::None => false,
                },
                _self: match acc._self {
                    Option::Some(b) => b,
                    Option::None => false,
                },
            },
        ),
        Err(e) => Err(e),
    }
}

/// Accumulator while folding a guard argument list; `None` = not seen yet.
pub struct GuardAcc {
    pub name: Option<Seq<char>>,
    pub except: Option<ExceptSubArgs>,
}

/// One step per argument, left to right: `name` takes a string, `except`
/// takes a nested list, anything else is rejected; repeats are rejected.
pub open spec fn guard_fold(args: Seq<ArgV>, acc: GuardAcc) -> Result<GuardAcc, ParseError>
    decreases args.len(),
{
    if args.len() == 0 {
        Ok(acc)
    } else {
        let a = args[0];
        let rest = args.drop_first();
        if a.key == "name"@ {
            match a.value {
                ArgValueV::Str(s) => if acc.name is Some {
                    Err(ParseError::DuplicateKey)
                } else {
                    guard_fold(rest, GuardAcc { name: Some(s), except: acc.except })
                },
                _ => Err(ParseError::WrongType),
            }
        } else if a.key == "except"@ {
            match a.value {
                ArgValueV::List(items) => if acc.except is Some {
                    Err(ParseError::DuplicateKey)
                } else {
                    match except_args_of(items) {
                        Ok(e) => guard_fold(rest, GuardAcc { name: acc.name, except: Some(e) }),
                        Err(er) => Err(er),
                    }
                },
                _ => Err(ParseError::WrongType),
            }
        } else {
            Err(ParseError::UnknownKey)
        }
    }
}

/// What a forbid-while-paused argument list parses to.
pub open spec fn pause_args_of(args: Seq<ArgV>) -> Result<PauseArgsV, ParseError> {
    match guard_fold(args, GuardAcc { name: None, except: None }) {
        Ok(acc) => Ok(
            PauseArgsV {
                name: acc.name,
                except: match acc.except {
                    Option::Some(e) => e,
                    Option::None => except_none(),
                },
            },
        ),
        Err(e) => Err(e),
    }
}

/// What a require-while-paused argument list parses to: the same grammar,
/// but a missing `name` is rejected.
pub open spec fn if_paused_args_of(args: Seq<ArgV>) -> Result<IfPausedArgsV, ParseError> {
    match pause_args_of(args) {
        Ok(pa) => match pa.name {
            Option::Some(n) => Ok(IfPausedArgsV { name: n, except: pa.except }),
            Option::None => Err(ParseError::MissingName),
        },
        Err(e) => Err(e),
    }
}

/// Accumulator while folding a capability declaration argument list.
pub struct OptionsAcc {
    pub paused_storage_key: Option<Seq<char>>,
}

/// One step per argument: only `paused_storage_key = "<key>"` is known.
pub open spec fn options_fold(args: Seq<ArgV>, acc: OptionsAcc) -> Result<OptionsAcc, ParseError>
    decreases args.len(),
{
    if args.len() == 0 {
        Ok(acc)
    } else {
        let a = args[0];
        let rest = args.drop_first();
        if a.key == "paused_storage_key"@ {
            match a.value {
                ArgValueV::Str(s) => if acc.paused_storage_key is Some {
                    Err(ParseError::DuplicateKey)
                } else {
                    options_fold(rest, OptionsAcc { paused_storage_key: Some(s) })
                },
                _ => Err(ParseError::WrongType),
            }
        } else {
            Err(ParseError::UnknownKey)
        }
    }
}

/// What a pause capability declaration argument list parses to.
pub open spec fn pause_options_of(args: Seq<ArgV>) -> Result<PauseOptionsV, ParseError> {
    match options_fold(args, OptionsAcc { paused_storage_key: None }) {
        Ok(acc) => Ok(PauseOptionsV { paused_storage_key: acc.paused_storage_key }),
        Err(e) => Err(e),
    }
}

/// Compares a string against a literal key.
pub(crate) fn key_is(a: &String, lit: &str) -> (r: bool)
    ensures
        r == (a@ == lit@),
{
    let s: String = lit.to_owned();
    *a == s
}

/// Parses a nested `except(...)` list into its typed record.
pub fn parse_except_sub_args(items: &Vec<SubArg>) -> (r: Result<ExceptSubArgs, ParseError>)
    ensures
        match r {
            Ok(e) => except_args_of(items.deep_view()) == Ok::<ExceptSubArgs, ParseError>(e),
            Err(er) => except_args_of(items.deep_view()) == Err::<ExceptSubArgs, ParseError>(er),
        },
{
    let ghost full = items.deep_view();
    let mut owner: Option<bool> = None;
    let mut zelf: Option<bool> = None;
    let n = items.len();
    let mut i: usize = 0;
    proof {
        assert(full.skip(0) =~= full);
    }
    while i < n
        invariant
            n == items@.len(),
            full == items.deep_view(),
            i <= n,
            except_fold(full.skip(i as int), ExceptAcc { owner, _self: zelf }) == except_fold(
                full,
                ExceptAcc { owner: None, _self: None },
            ),
        decreases n - i,
    {
        proof {
            assert(full.skip(i as int)[0] == items@[i as int].deep_view());
            assert(full.skip(i as int).drop_first() =~= full.skip(i as int + 1));
        }
        let it = &items[i];
        let v: bool = match it.value {
            Some(b) => b,
            None => true,
        };
        if key_is(&it.key, "owner") {
            if owner.is_some() {
                return Err(ParseError::DuplicateKey);
            }
            owner = Some(v);
        } else if key_is(&it.key, "self") {
            if zelf.is_some() {
                return Err(ParseError::DuplicateKey);
            }
            zelf = Some(v);
        } else {
            return Err(ParseError::UnknownKey);
        }
        i = i + 1;
    }
    let e = ExceptSubArgs {
        owner: match owner {
            Some(b) => b,
            None => false,
        },
        _self: match zelf {
            Some(b) => b,
            None => false,
        },
    };
    Ok(e)
}

/// Parses a forbid-while-paused guard's arguments into its typed record.
pub fn parse_pause_args(args: &Vec<Arg>) -> (r: Result<PauseArgs, ParseError>)
    ensures
        match r {
            Ok(pa) => pause_args_of(args.deep_view()) == Ok::<PauseArgsV, ParseError>(pa@),
            Err(e) => pause_args_of(args.deep_view()) == Err::<PauseArgsV, ParseError>(e),
        },
{
    let ghost full = args.deep_view();
    let mut name: Option<String> = None;
    let mut except: Option<ExceptSubArgs> = None;
    let n = args.len();
    let mut i: usize = 0;
    proof {
        assert(full.skip(0) =~= full);
    }
    while i < n
        invariant
            n == args@.len(),
            full == args.deep_view(),
            i <= n,
            guard_fold(full.skip(i as int), GuardAcc { name: opt_str_view(name), except })
                == guard_fold(full, GuardAcc { name: None, except: None }),
        decreases n - i,
    {
        proof {
            assert(full.skip(i as int)[0] == args@[i as int].deep_view());
            assert(full.skip(i as int).drop_first() =~= full.skip(i as int + 1));
        }
        let a = &args[i];
        if key_is(&a.key, "name") {
            match &a.value {
                ArgValue::Str(s) => {
                    if name.is_some() {
                        return Err(ParseError::DuplicateKey);
                    }
                    name = Some(s.clone());
                },
                _ => {
                    return Err(ParseError::WrongType);
                },
            }
        } else if key_is(&a.key, "except") {
            match &a.value {
                ArgValue::List(items) => {
                    if except.is_some() {
                        return Err(ParseError::DuplicateKey);
                    }
                    match parse_except_sub_args(items) {
                        Ok(e) => {
                            except = Some(e);
                        },
                        Err(er) => {
                            return Err(er);
                        },
                    }
                },
                _ => {
                    return Err(ParseError::WrongType);
                },
            }
        } else {
            return Err(ParseError::UnknownKey);
        }
        i = i + 1;
    }
    let e = match except {
        Some(e) => e,
        None => ExceptSubArgs { owner: false, _self: false },
    };
    Ok(PauseArgs { name, except: e })
}

/// Parses a require-while-paused guard's arguments into its typed record;
/// the grammar is the forbid one, with `name` required.
pub fn parse_if_paused_args(args: &Vec<Arg>) -> (r: Result<IfPausedArgs, ParseError>)
    ensures
        match r {
            Ok(ia) => if_paused_args_of(args.deep_view()) == Ok::<IfPausedArgsV, ParseError>(ia@),
            Err(e) => if_paused_args_of(args.deep_view()) == Err::<IfPausedArgsV, ParseError>(e),
        },
{
    match parse_pause_args(args) {
        Ok(pa) => match pa.name {
            Some(n) => Ok(IfPausedArgs { name: n, except: pa.except }),
            None => Err(ParseError::MissingName),
        },
        Err(e) => Err(e),
    }
}

/// Parses a pause capability declaration's arguments into its typed record.
pub fn parse_pause_options(args: &Vec<Arg>) -> (r: Result<PauseOptions, ParseError>)
    ensures
        match r {
            Ok(o) => pause_options_of(args.deep_view()) == Ok::<PauseOptionsV, ParseError>(o@),
            Err(e) => pause_options_of(args.deep_view()) == Err::<PauseOptionsV, ParseError>(e),
        },
{
    let ghost full = args.deep_view();
    let mut key: Option<String> = None;
    let n = args.len();
    let mut i: usize = 0;
    proof {
        assert(full.skip(0) =~= full);
    }
    while i < n
        invariant
            n == args@.len(),
            full == args.deep_view(),
            i <= n,
            options_fold(full.skip(i as int), OptionsAcc { paused_storage_key: opt_str_view(key) })
                == options_fold(full, OptionsAcc { paused_storage_key: None }),
        decreases n - i,
    {
        proof {
            assert(full.skip(i as int)[0] == args@[i as int].deep_view());
            assert(full.skip(i as int).drop_first() =~= full.skip(i as int + 1));
        }
        let a = &args[i];
        if key_is(&a.key, "paused_storage_key") {
            match &a.value {
                ArgValue::Str(s) => {
                    if key.is_some() {
                        return Err(ParseError::DuplicateKey);
                    }
                    key = Some(s.clone());
                },
                _ => {
                    return Err(ParseError::WrongType);
                },
            }
        } else {
            return Err(ParseError::UnknownKey);
        }
        i = i + 1;
    }
    Ok(PauseOptions { paused_storage_key: key })
}

} // verus!
