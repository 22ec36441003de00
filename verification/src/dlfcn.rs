//! `dlfcn.h` (`dlopen()` and friends): which handles are valid, and the
//! order in which `dlsym()` tries the requested symbol and its stubs.
//!
//! Resolving a name to an address is the dynamic linker's work; `dlsym()` is
//! therefore a small state machine: [`dlsym_begin`] names the first lookup,
//! and [`dlsym_step`] takes each lookup's outcome and names the next lookup
//! or the final address.

use vstd::prelude::*;
use vstd::string::*;

use crate::keyboard::dlsym_fallback;
use crate::keyboard::kb_stub_for;
use crate::keyboard::stub_name;
use crate::text::chars_of;
use crate::text::contains;
use crate::text::has_prefix;
use crate::text::has_substring;

verus! {

/// The pseudo-handle `RTLD_DEFAULT` (the guest pointer `-2`).
pub const RTLD_DEFAULT: u32 = 0xffff_fffe;

/// The guest NULL pointer.
pub const NULL: u32 = 0;

/// A dynamic library the emulator provides: its install path and the other
/// paths it may be opened by.
pub struct Dylib {
    pub path: String,
    pub aliases: Vec<String>,
}

/// `path` is the path of `library` or one of its aliases.
pub open spec fn names_library(library: Dylib, path: Seq<char>) -> bool {
    library.path@ == path || exists|j: int|
        0 <= j < library.aliases@.len() && #[trigger] library.aliases@[j]@ == path
}

/// `path` names one of `libraries`, by its path or by one of its aliases.
pub open spec fn known_library(libraries: Seq<Dylib>, path: Seq<char>) -> bool {
    exists|i: int| 0 <= i < libraries.len() && #[trigger] names_library(libraries[i], path)
}

/// A handle `dlsym()` and `dlclose()` accept: `RTLD_DEFAULT`, or a handle
/// whose guest string names a known library.
pub open spec fn valid_handle(handle: u32, handle_path: Option<Seq<char>>, libraries: Seq<Dylib>) -> bool {
    handle == RTLD_DEFAULT || (handle_path matches Some(p) && known_library(libraries, p))
}

/// Whether `wanted` is the path of `library` or one of its aliases.
fn names_dylib(library: &Dylib, wanted: &String) -> (r: bool)
    ensures
        r == names_library(*library, wanted@),
{
    if library.path == *wanted {
        return true;
    }
    let mut j: usize = 0;
    while j < library.aliases.len()
        invariant
            j <= library.aliases@.len(),
            forall|l: int| 0 <= l < j ==> #[trigger] library.aliases@[l]@ != wanted@,
        decreases library.aliases.len() - j,
    {
        if library.aliases[j] == *wanted {
            assert(library.aliases@[j as int]@ == wanted@);
            return true;
        }
        j = j + 1;
    }
    false
}

/// Whether `path` names one of `libraries`.
pub fn is_known_library(path: &str, libraries: &[Dylib]) -> (r: bool)
    ensures
        r == known_library(libraries@, path@),
{
    let wanted = String::from_str(path);
    let mut i: usize = 0;
    while i < libraries.len()
        invariant
            wanted@ == path@,
            i <= libraries@.len(),
            forall|k: int| 0 <= k < i ==> !#[trigger] names_library(libraries@[k], path@),
        decreases libraries.len() - i,
    {
        if names_dylib(&libraries[i], &wanted) {
            return true;
        }
        i = i + 1;
    }
    false
}

/// Whether `handle` is one that `dlsym()` and `dlclose()` accept;
/// `handle_path` is the guest string at `handle` (`None` for
/// `RTLD_DEFAULT`, whose string is never read).
pub fn is_valid_handle(handle: u32, handle_path: Option<&str>, libraries: &[Dylib]) -> (r: bool)
    ensures
        r == valid_handle(handle, match handle_path { Some(p) => Some(p@), None => None }, libraries@),
{
    if handle == RTLD_DEFAULT {
        return true;
    }
    match handle_path {
        Some(p) => is_known_library(p, libraries),
        None => false,
    }
}

/// `dlopen()`: a NULL path gives `RTLD_DEFAULT`; any other path must name a
/// known library, and the path pointer itself serves as the handle.
pub fn dlopen(path: u32, path_text: Option<&str>, libraries: &[Dylib], _mode: i32) -> (r: u32)
    requires
        path == NULL || (path_text matches Some(p) && known_library(libraries@, p@)),
    ensures
        r == (if path == NULL { RTLD_DEFAULT } else { path }),
{
    if path == NULL {
        return RTLD_DEFAULT;
    }
    path
}

/// The no-op function handed out for optional native hooks.
pub fn dlsym_noop() {
}

/// `dlclose()` on a valid handle: always succeeds (0).
pub fn dlclose(handle: u32, handle_path: Option<&str>, libraries: &[Dylib]) -> (r: i32)
    requires
        valid_handle(handle, match handle_path { Some(p) => Some(p@), None => None }, libraries@),
    ensures
        r == 0,
{
    0
}

/// Optional native hooks that games call without checking for NULL: they
/// get the no-op stub.
pub open spec fn uses_noop_stub(symbol: Seq<char>) -> bool {
    symbol == "_appLaunchedShowRatingDialogIfNeededNative"@ || has_substring(
        symbol,
        "ShowRatingDialog"@,
    )
}

/// Whether a missing `symbol` (with its leading `_`) gets the no-op stub.
pub fn dlsym_should_use_noop_stub(symbol: &str) -> (r: bool)
    ensures
        r == uses_noop_stub(symbol@),
{
    let sym = chars_of(symbol);
    let exact = chars_of("_appLaunchedShowRatingDialogIfNeededNative");
    let same = sym.len() == exact.len() && crate::text::starts_with(sym.as_slice(), exact.as_slice());
    proof {
        if sym@.len() == exact@.len() {
            assert(sym@.subrange(0, exact@.len() as int) =~= sym@);
        }
        assert(same == (sym@ == exact@));
    }
    same || contains(sym.as_slice(), chars_of("ShowRatingDialog").as_slice())
}

/// The lookup a `dlsym()` step is waiting on.
#[derive(Clone, Copy, PartialEq, Eq, Debug, Structural)]
pub enum DlsymStage {
    /// The requested symbol itself.
    Symbol,
    /// The `_KB*` stub the symbol falls back to.
    KbStub,
    /// The no-op stub `_dlsym_noop`.
    NoopStub,
}

/// What `dlsym()` does next: look a name up (then call [`dlsym_step`] with
/// the outcome), or return an address (NULL when nothing was found).
#[derive(Debug)]
pub enum DlsymStep {
    Lookup(DlsymStage, String),
    Done(u32),
}

/// The abstract form of a [`DlsymStep`].
pub enum DlsymPlan {
    Lookup(DlsymStage, Seq<char>),
    Done(u32),
}

impl View for DlsymStep {
    type V = DlsymPlan;

    open spec fn view(&self) -> DlsymPlan {
        match self {
            DlsymStep::Lookup(stage, name) => DlsymPlan::Lookup(*stage, name@),
            DlsymStep::Done(addr) => DlsymPlan::Done(*addr),
        }
    }
}

/// The order of the stages.
pub open spec fn stage_rank(stage: DlsymStage) -> int {
    match stage {
        DlsymStage::Symbol => 0,
        DlsymStage::KbStub => 1,
        DlsymStage::NoopStub => 2,
    }
}

/// After the KB stub (or the symbol, when no KB stub applies) was not
/// found: the no-op stub for optional hooks, NULL otherwise.
pub open spec fn noop_or_null(symbol: Seq<char>) -> DlsymPlan {
    if uses_noop_stub(symbol) {
        DlsymPlan::Lookup(DlsymStage::NoopStub, "_dlsym_noop"@)
    } else {
        DlsymPlan::Done(NULL)
    }
}

/// The step after a lookup at `stage` for `symbol` (with its leading `_`)
/// came back with `found`.
pub open spec fn dlsym_plan(symbol: Seq<char>, stage: DlsymStage, found: Option<u32>) -> DlsymPlan {
    match found {
        Some(addr) => DlsymPlan::Done(addr),
        None => match stage {
            DlsymStage::Symbol => match kb_stub_for(symbol) {
                Some(stub) => DlsymPlan::Lookup(DlsymStage::KbStub, stub_name(stub)),
                None => noop_or_null(symbol),
            },
            DlsymStage::KbStub => noop_or_null(symbol),
            DlsymStage::NoopStub => DlsymPlan::Done(NULL),
        },
    }
}

/// Each lookup that `dlsym()` asks for after a failed one is at a later
/// stage, so a call makes at most three lookups.
pub proof fn lemma_dlsym_stages_advance(symbol: Seq<char>, stage: DlsymStage, found: Option<u32>)
    ensures
        dlsym_plan(symbol, stage, found) matches DlsymPlan::Lookup(next, _) ==> stage_rank(next)
            > stage_rank(stage),
{
}

/// `dlsym()` answers with the address a lookup found, or with NULL after a
/// failed one.
pub proof fn lemma_dlsym_answer(symbol: Seq<char>, stage: DlsymStage, found: Option<u32>)
    ensures
        found matches Some(addr) ==> dlsym_plan(symbol, stage, found) == DlsymPlan::Done(addr),
        dlsym_plan(symbol, stage, found) matches DlsymPlan::Done(addr) ==> (found matches Some(a)
            && a == addr) || (found is None && addr == NULL),
{
}

/// A missing symbol that is neither a `_KB*` helper nor an optional hook
/// gets NULL, as POSIX requires.
pub proof fn lemma_dlsym_missing_is_null(symbol: Seq<char>)
    requires
        !has_prefix(symbol, "_KB"@),
        !uses_noop_stub(symbol),
    ensures
        dlsym_plan(symbol, DlsymStage::Symbol, None) == DlsymPlan::Done(NULL),
{
}

/// A missing optional hook (not a `_KB*` helper) is next looked up as the
/// no-op stub, so games that call it without checking for NULL survive.
pub proof fn lemma_dlsym_hook_gets_noop(symbol: Seq<char>)
    requires
        !has_prefix(symbol, "_KB"@),
        uses_noop_stub(symbol),
    ensures
        dlsym_plan(symbol, DlsymStage::Symbol, None) == DlsymPlan::Lookup(
            DlsymStage::NoopStub,
            "_dlsym_noop"@,
        ),
{
}

/// After the keyboard stub was not found, optional hooks get the no-op
/// stub lookup and everything else NULL; after the no-op stub was not
/// found, the answer is NULL.
pub proof fn lemma_dlsym_after_stub_fails(symbol: Seq<char>)
    ensures
        uses_noop_stub(symbol) ==> dlsym_plan(symbol, DlsymStage::KbStub, None)
            == DlsymPlan::Lookup(DlsymStage::NoopStub, "_dlsym_noop"@),
        !uses_noop_stub(symbol) ==> dlsym_plan(symbol, DlsymStage::KbStub, None)
            == DlsymPlan::Done(NULL),
        dlsym_plan(symbol, DlsymStage::NoopStub, None) == DlsymPlan::Done(NULL),
{
}

/// The optional hooks are exactly the names containing "ShowRatingDialog"
/// (the one hook named in full contains it too).
pub proof fn lemma_noop_hooks_are_rating_dialogs(symbol: Seq<char>)
    ensures
        uses_noop_stub(symbol) <==> has_substring(symbol, "ShowRatingDialog"@),
{
    reveal_strlit("_appLaunchedShowRatingDialogIfNeededNative");
    reveal_strlit("ShowRatingDialog");
    if symbol == "_appLaunchedShowRatingDialogIfNeededNative"@ {
        assert(symbol.subrange(12, 28) =~= "ShowRatingDialog"@);
        assert(crate::text::occurs_at(symbol, "ShowRatingDialog"@, 12));
    }
}

/// Every library is known by its own path and by each of its aliases, and
/// only by those.
pub proof fn lemma_known_library_names(libraries: Seq<Dylib>, path: Seq<char>)
    ensures
        forall|i: int| 0 <= i < libraries.len() ==> known_library(libraries, #[trigger] libraries[i].path@),
        forall|i: int, j: int|
            0 <= i < libraries.len() && 0 <= j < libraries[i].aliases@.len() ==> known_library(
                libraries,
                #[trigger] libraries[i].aliases@[j]@,
            ),
        known_library(libraries, path) ==> exists|i: int|
            0 <= i < libraries.len() && (#[trigger] libraries[i].path@ == path || exists|j: int|
                0 <= j < libraries[i].aliases@.len() && #[trigger] libraries[i].aliases@[j]@ == path),
{
    assert forall|i: int| 0 <= i < libraries.len() implies known_library(libraries, #[trigger] libraries[i].path@) by {
        assert(names_library(libraries[i], libraries[i].path@));
    }
    assert forall|i: int, j: int|
        0 <= i < libraries.len() && 0 <= j < libraries[i].aliases@.len() implies known_library(
            libraries,
            #[trigger] libraries[i].aliases@[j]@,
        ) by {
        assert(names_library(libraries[i], libraries[i].aliases@[j]@));
    }
}

/// A missing `_KB*` helper is next looked up as its keyboard stub.
pub proof fn lemma_dlsym_kb_fallback(symbol: Seq<char>)
    requires
        has_prefix(symbol, "_KB"@),
    ensures
        dlsym_plan(symbol, DlsymStage::Symbol, None) == DlsymPlan::Lookup(
            DlsymStage::KbStub,
            stub_name(kb_stub_for(symbol).unwrap()),
        ),
{
}

/// The name `dlsym()` looks up for `symbol`: the guest passes names without
/// their leading `_`.
pub fn dlsym_symbol_name(symbol: &str) -> (r: String)
    ensures
        r@ == seq!['_'] + symbol@,
{
    let mut name = String::from_str("_");
    proof {
        reveal_strlit("_");
    }
    name.append(symbol);
    name
}

/// The first step of `dlsym()` on a valid handle: look the symbol up.
pub fn dlsym_begin(handle: u32, handle_path: Option<&str>, libraries: &[Dylib], symbol: &str) -> (r: DlsymStep)
    requires
        valid_handle(handle, match handle_path { Some(p) => Some(p@), None => None }, libraries@),
    ensures
        r@ == DlsymPlan::Lookup(DlsymStage::Symbol, seq!['_'] + symbol@),
{
    DlsymStep::Lookup(DlsymStage::Symbol, dlsym_symbol_name(symbol))
}

/// The next step of `dlsym()` for `symbol` (with its leading `_`), after
/// the lookup at `stage` came back with `found` (the address, Thumb bit
/// included, or `None`).
pub fn dlsym_step(symbol: &str, stage: DlsymStage, found: Option<u32>) -> (r: DlsymStep)
    ensures
        r@ == dlsym_plan(symbol@, stage, found),
{
    if let Some(addr) = found {
        return DlsymStep::Done(addr);
    }
    if let DlsymStage::Symbol = stage {
        if let Some(stub) = dlsym_fallback(symbol) {
            return DlsymStep::Lookup(DlsymStage::KbStub, String::from_str(stub.name()));
        }
    }
    match stage {
        DlsymStage::NoopStub => DlsymStep::Done(NULL),
        _ => {
            if dlsym_should_use_noop_stub(symbol) {
                DlsymStep::Lookup(DlsymStage::NoopStub, String::from_str("_dlsym_noop"))
            } else {
                DlsymStep::Done(NULL)
            }
        },
    }
}

} // verus!
