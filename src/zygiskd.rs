//! The daemon's decisions: which ABI and modules it serves, the process
//! flags it answers, the status it reports to the watchdog, and the state of
//! each module's companion.

use vstd::prelude::*;
use crate::constants::{
    daemon_set_error_info, daemon_set_error_info_spec, daemon_set_info, daemon_set_info_spec,
    PROCESS_GRANTED_ROOT, PROCESS_IS_MANAGER, PROCESS_ON_DENYLIST, PROCESS_ROOT_IS_APATCH,
    PROCESS_ROOT_IS_KSU, PROCESS_ROOT_IS_MAGISK,
};
use crate::root_impl::RootImpl;
use crate::text::{
    ascii_bytes, contains, copy_range, decimal, decimal_int, extend, find, lit, matches_at, push_decimal, push_int,
};
use crate::wire::{decode_usize, encode_info, info_frame, le_value};

verus! {

/// The system ABI is neither ARM nor x86.
#[derive(Debug, Clone, Copy, PartialEq, Eq, Structural)]
pub struct UnsupportedArch;

pub open spec fn arch_spec(system_arch: Seq<u8>, is64: bool) -> Option<Seq<char>> {
    if contains(system_arch, lit("arm"@)) {
        Some(
            if is64 {
                "arm64-v8a"@
            } else {
                "armeabi-v7a"@
            },
        )
    } else if contains(system_arch, lit("x86"@)) {
        Some(
            if is64 {
                "x86_64"@
            } else {
                "x86"@
            },
        )
    } else {
        None
    }
}

/// The module library subdirectory for this daemon's bitness, from the
/// value of `ro.product.cpu.abi`.
pub fn get_arch(system_arch: &[u8], is64: bool) -> (r: Result<&'static str, UnsupportedArch>)
    ensures
        match r {
            Ok(a) => arch_spec(system_arch@, is64) == Some(a@),
            Err(_) => arch_spec(system_arch@, is64) is None,
        },
{
    proof {
        reveal_strlit("arm");
        reveal_strlit("x86");
    }
    if find(system_arch, ascii_bytes("arm")) {
        Ok(
            if is64 {
                "arm64-v8a"
            } else {
                "armeabi-v7a"
            },
        )
    } else if find(system_arch, ascii_bytes("x86")) {
        Ok(
            if is64 {
                "x86_64"
            } else {
                "x86"
            },
        )
    } else {
        Err(UnsupportedArch)
    }
}

/// Where a module keeps its library for `arch`, relative to its directory.
pub open spec fn library_path_spec(arch: Seq<u8>) -> Seq<u8> {
    lit("zygisk/"@) + arch + lit(".so"@)
}

pub fn library_path(arch: &[u8]) -> (r: Vec<u8>)
    ensures
        r@ == library_path_spec(arch@),
{
    proof {
        reveal_strlit("zygisk/");
        reveal_strlit(".so");
    }
    let mut r: Vec<u8> = Vec::new();
    extend(&mut r, ascii_bytes("zygisk/"));
    extend(&mut r, arch);
    extend(&mut r, ascii_bytes(".so"));
    r
}

/// What the module directory scan found for one module.
#[derive(Debug, Clone, Copy, PartialEq, Eq, Structural)]
pub struct ModuleCandidate {
    /// `zygisk/<abi>.so` exists.
    pub has_library: bool,
    /// The `disable` sentinel exists.
    pub disabled: bool,
}

pub open spec fn loadable(c: ModuleCandidate) -> bool {
    c.has_library && !c.disabled
}

/// The indices of the loadable candidates, in scan order.
pub open spec fn selected(cs: Seq<ModuleCandidate>) -> Seq<usize>
    decreases cs.len(),
{
    if cs.len() == 0 {
        Seq::empty()
    } else if loadable(cs.last()) {
        selected(cs.drop_last()).push((cs.len() - 1) as usize)
    } else {
        selected(cs.drop_last())
    }
}

/// Picks the modules to load: those with a library for this ABI that are
/// not disabled.
pub fn select_modules(cs: &Vec<ModuleCandidate>) -> (r: Vec<usize>)
    ensures
        r@ == selected(cs@),
{
    let mut r: Vec<usize> = Vec::new();
    let mut i: usize = 0;
    while i < cs.len()
        invariant
            i <= cs@.len(),
            r@ == selected(cs@.subrange(0, i as int)),
        decreases cs@.len() - i,
    {
        assert(cs@.subrange(0, i + 1).drop_last() =~= cs@.subrange(0, i as int));
        if cs[i].has_library && !cs[i].disabled {
            r.push(i);
        }
        i = i + 1;
    }
    assert(cs@.subrange(0, cs@.len() as int) =~= cs@);
    r
}

/// The flag that names the backend.
pub open spec fn root_bit(imp: RootImpl) -> u32 {
    match imp {
        RootImpl::KernelSU => PROCESS_ROOT_IS_KSU,
        RootImpl::Magisk => PROCESS_ROOT_IS_MAGISK,
        RootImpl::Apatch => PROCESS_ROOT_IS_APATCH,
        _ => 0,
    }
}

/// The manager flag stands alone; otherwise grant and deny-list flags as
/// the backend answered; then the backend's own flag.
pub open spec fn flags_spec(imp: RootImpl, is_manager: bool, granted: bool, umount: bool) -> u32 {
    (if is_manager {
        PROCESS_IS_MANAGER
    } else {
        (if granted {
            PROCESS_GRANTED_ROOT
        } else {
            0u32
        }) | (if umount {
            PROCESS_ON_DENYLIST
        } else {
            0u32
        })
    }) | root_bit(imp)
}

/// The answer to `GetProcessFlags`.
pub fn process_flags(imp: &RootImpl, is_manager: bool, granted: bool, umount: bool) -> (r: u32)
    requires
        imp.is_supported(),
    ensures
        r == flags_spec(*imp, is_manager, granted, umount),
        is_manager ==> r & PROCESS_IS_MANAGER != 0 && r & (PROCESS_GRANTED_ROOT
            | PROCESS_ON_DENYLIST) == 0,
{
    let rb: u32 = match imp {
        RootImpl::KernelSU => PROCESS_ROOT_IS_KSU,
        RootImpl::Magisk => PROCESS_ROOT_IS_MAGISK,
        RootImpl::Apatch => PROCESS_ROOT_IS_APATCH,
        _ => 0,
    };
    let base: u32 = if is_manager {
        PROCESS_IS_MANAGER
    } else {
        (if granted {
            PROCESS_GRANTED_ROOT
        } else {
            0u32
        }) | (if umount {
            PROCESS_ON_DENYLIST
        } else {
            0u32
        })
    };
    let r = base | rb;
    proof {
        if is_manager {
            assert(rb == 0 || rb == 0x20000000u32 || rb == 0x40000000u32 || rb == 0x8000000u32);
            assert((0x10000000u32 | rb) & 0x10000000u32 != 0 && (0x10000000u32 | rb) & (1u32 | 2u32)
                == 0) by (bit_vector)
                requires
                    rb == 0 || rb == 0x20000000u32 || rb == 0x40000000u32 || rb == 0x8000000u32,
            ;
        }
    }
    r
}

pub open spec fn names_view(names: Seq<Vec<u8>>) -> Seq<Seq<u8>> {
    names.map_values(|n: Vec<u8>| n@)
}

/// The names separated by commas.
pub open spec fn join(names: Seq<Seq<u8>>) -> Seq<u8>
    decreases names.len(),
{
    if names.len() == 0 {
        Seq::empty()
    } else if names.len() == 1 {
        names[0]
    } else {
        join(names.drop_last()) + lit(","@) + names.last()
    }
}

/// The status text: the backend and the loaded modules when the backend is
/// supported, the offending tag otherwise.
pub open spec fn info_text_spec(imp: RootImpl, names: Seq<Seq<u8>>) -> Seq<u8> {
    if imp.is_supported() {
        lit("Root: "@) + lit(imp.name_spec()) + lit(",module("@) + decimal(names.len()) + lit("): "@)
            + join(names)
    } else {
        lit("Invalid root implementation: "@) + lit(imp.name_spec())
    }
}

pub fn info_text(imp: &RootImpl, names: &Vec<Vec<u8>>) -> (r: Vec<u8>)
    ensures
        r@ == info_text_spec(*imp, names_view(names@)),
{
    proof {
        reveal_strlit("Root: ");
        reveal_strlit(",module(");
        reveal_strlit("): ");
        reveal_strlit(",");
        reveal_strlit("Invalid root implementation: ");
    }
    let mut r: Vec<u8> = Vec::new();
    if !imp.supported() {
        extend(&mut r, ascii_bytes("Invalid root implementation: "));
        let name = imp.name_bytes();
        extend(&mut r, name.as_slice());
        return r;
    }
    extend(&mut r, ascii_bytes("Root: "));
    let name = imp.name_bytes();
    extend(&mut r, name.as_slice());
    extend(&mut r, ascii_bytes(",module("));
    push_decimal(&mut r, names.len() as u64);
    extend(&mut r, ascii_bytes("): "));
    let ghost pre = r@;
    let ghost all = names_view(names@);
    let mut i: usize = 0;
    while i < names.len()
        invariant
            i <= names@.len(),
            all == names_view(names@),
            lit(","@) == seq![44u8],
            r@ == pre + join(all.subrange(0, i as int)),
        decreases names@.len() - i,
    {
        let ghost before = r@;
        assert(all.subrange(0, i + 1).drop_last() =~= all.subrange(0, i as int));
        if i > 0 {
            r.push(44);
        }
        extend(&mut r, names[i].as_slice());
        proof {
            if i == 0 {
                assert(all.subrange(0, 1) =~= seq![names@[0]@]);
            }
            assert(r@ =~= pre + join(all.subrange(0, i + 1)));
        }
        i = i + 1;
    }
    assert(all.subrange(0, names@.len() as int) =~= all);
    r
}

/// The datagram the daemon sends the watchdog once its modules are loaded;
/// `None` only when the text would not fit the frame's length field.
pub fn daemon_info(imp: &RootImpl, names: &Vec<Vec<u8>>, is64: bool) -> (r: Option<Vec<u8>>)
    ensures
        ({
            let text = info_text_spec(*imp, names_view(names@));
            let tag = if imp.is_supported() {
                daemon_set_info_spec(is64)
            } else {
                daemon_set_error_info_spec(is64)
            };
            match r {
                Some(m) => text.len() < u32::MAX && m@ == info_frame(tag, text),
                None => text.len() >= u32::MAX,
            }
        }),
{
    let text = info_text(imp, names);
    if text.len() >= 0xffff_ffff {
        return None;
    }
    let tag = if imp.supported() {
        daemon_set_info(is64)
    } else {
        daemon_set_error_info(is64)
    };
    Some(encode_info(tag, text.as_slice()))
}

/// Where a module's companion stands.
pub enum Companion<S> {
    /// Never spawned, or its process is gone.
    Unspawned,
    /// Running, reached through this control stream.
    Live(S),
    /// The module has no companion entry; never spawned again.
    Declined,
}

/// One module's companion, consulted under that module's lock.
pub struct CompanionSlot<S> {
    pub state: Companion<S>,
}

/// A slot's state without its stream.
#[derive(Debug, Clone, Copy, PartialEq, Eq, Structural)]
pub enum SlotKind {
    Unspawned,
    Live,
    Declined,
}

/// The slot after a liveness probe: a dead companion is forgotten.
pub open spec fn probe_step(k: SlotKind, alive: bool) -> SlotKind {
    if k is Live && !alive {
        SlotKind::Unspawned
    } else {
        k
    }
}

/// An unspawned slot after a spawn attempt: `Some(true)` is a ready
/// companion, `Some(false)` a module without an entry, `None` a failure.
pub open spec fn spawn_step(outcome: Option<bool>) -> SlotKind {
    match outcome {
        Some(true) => SlotKind::Live,
        Some(false) => SlotKind::Declined,
        None => SlotKind::Unspawned,
    }
}

/// One companion request: probe, then spawn if the slot is unspawned.
/// Returns the new state and whether a spawn was attempted.
pub open spec fn request_step(k: SlotKind, alive: bool, outcome: Option<bool>) -> (SlotKind, bool) {
    let p = probe_step(k, alive);
    if p is Unspawned {
        (spawn_step(outcome), true)
    } else {
        (p, false)
    }
}

/// Spawns attempted by `n` requests in a row on a companion that, once
/// spawned, stays up, with every spawn succeeding.
pub open spec fn spawns_while_up(k: SlotKind, n: nat) -> nat
    decreases n,
{
    if n == 0 {
        0
    } else {
        let (next, spawned) = request_step(k, k is Live, Some(true));
        (if spawned {
            1nat
        } else {
            0nat
        }) + spawns_while_up(next, (n - 1) as nat)
    }
}

/// The slot after `n` such requests.
pub open spec fn state_while_up(k: SlotKind, n: nat) -> SlotKind
    decreases n,
{
    if n == 0 {
        k
    } else {
        state_while_up(request_step(k, k is Live, Some(true)).0, (n - 1) as nat)
    }
}

/// Requests on a fresh slot, taken one at a time under the slot's lock,
/// spawn exactly one companion as long as it stays up: the first request
/// spawns it, and after each of them, the first included, the slot is live,
/// so every request has its client fd handed to that one companion.
pub proof fn lemma_one_spawn_per_slot(n: nat)
    requires
        n >= 1,
    ensures
        spawns_while_up(SlotKind::Unspawned, n) == 1,
        forall|i: nat| 1 <= i <= n ==> #[trigger] state_while_up(SlotKind::Unspawned, i)
            == SlotKind::Live,
{
    lemma_live_spawns_none((n - 1) as nat);
    assert forall|i: nat| 1 <= i <= n implies #[trigger] state_while_up(SlotKind::Unspawned, i)
        == SlotKind::Live by {
        lemma_live_stays_live((i - 1) as nat);
    }
}

proof fn lemma_live_stays_live(n: nat)
    ensures
        state_while_up(SlotKind::Live, n) == SlotKind::Live,
    decreases n,
{
    if n > 0 {
        lemma_live_stays_live((n - 1) as nat);
    }
}

proof fn lemma_live_spawns_none(n: nat)
    ensures
        spawns_while_up(SlotKind::Live, n) == 0,
    decreases n,
{
    if n > 0 {
        lemma_live_spawns_none((n - 1) as nat);
    }
}

pub open spec fn kind_of<S>(c: Companion<S>) -> SlotKind {
    match c {
        Companion::Unspawned => SlotKind::Unspawned,
        Companion::Live(_) => SlotKind::Live,
        Companion::Declined => SlotKind::Declined,
    }
}

pub open spec fn outcome_kind<S>(outcome: Option<Option<S>>) -> Option<bool> {
    match outcome {
        Some(Some(_)) => Some(true),
        Some(None) => Some(false),
        None => None,
    }
}

impl<S> CompanionSlot<S> {
    pub fn new() -> (r: Self)
        ensures
            r.state is Unspawned,
    {
        CompanionSlot { state: Companion::Unspawned }
    }

    /// The control stream of a live companion, to probe or to hand an fd to.
    pub fn live(&self) -> (r: Option<&S>)
        ensures
            r is Some <==> self.state is Live,
            r is Some ==> *r->0 == self.state->Live_0,
    {
        match &self.state {
            Companion::Live(s) => Some(s),
            _ => None,
        }
    }

    /// Takes the result of probing a live companion: a dead one is dropped
    /// so that this request spawns a new one.
    pub fn on_probe(&mut self, alive: bool)
        ensures
            kind_of(final(self).state) == probe_step(kind_of(old(self).state), alive),
            old(self).state is Live && !alive ==> final(self).state is Unspawned,
            !(old(self).state is Live && !alive) ==> *final(self) == *old(self),
    {
        if !alive {
            if let Companion::Live(_) = &self.state {
                self.state = Companion::Unspawned;
            }
        }
    }

    /// A request spawns only when no companion is live and the module has
    /// not declined.
    pub fn needs_spawn(&self) -> (r: bool)
        ensures
            r == self.state is Unspawned,
    {
        match &self.state {
            Companion::Unspawned => true,
            _ => false,
        }
    }

    /// Takes the result of a spawn: `Some(Some(s))` is a ready companion,
    /// `Some(None)` a module without an entry, `None` a failed spawn, which
    /// leaves the slot to the next request.
    pub fn on_spawn(&mut self, outcome: Option<Option<S>>)
        requires
            old(self).state is Unspawned,
        ensures
            kind_of(final(self).state) == spawn_step(outcome_kind(outcome)),
            match outcome {
                Some(Some(s)) => final(self).state == Companion::Live(s),
                Some(None) => final(self).state is Declined,
                None => final(self).state is Unspawned,
            },
    {
        match outcome {
            Some(Some(s)) => {
                self.state = Companion::Live(s);
            },
            Some(None) => {
                self.state = Companion::Declined;
            },
            None => {},
        }
    }

    /// After a Zygote restart, every app starts with a fresh companion.
    pub fn reset(&mut self)
        ensures
            final(self).state is Unspawned,
    {
        self.state = Companion::Unspawned;
    }
}

/// The byte a spawned companion answers: 1 is ready, 0 declined.
#[derive(Debug, Clone, Copy, PartialEq, Eq, Structural)]
pub struct InvalidReply;

pub fn companion_reply(b: u8) -> (r: Result<bool, InvalidReply>)
    ensures
        b == 1 ==> r == Ok::<bool, InvalidReply>(true),
        b == 0 ==> r == Ok::<bool, InvalidReply>(false),
        b > 1 ==> r is Err,
{
    match b {
        0 => Ok(false),
        1 => Ok(true),
        _ => Err(InvalidReply),
    }
}

/// The last component of a path.
pub open spec fn base_name(s: Seq<u8>) -> Seq<u8>
    decreases s.len(),
{
    if s.len() == 0 {
        s
    } else if s.last() == 47 {
        Seq::empty()
    } else {
        base_name(s.drop_last()).push(s.last())
    }
}

pub fn nice_name(process: &[u8]) -> (r: Vec<u8>)
    ensures
        r@ == base_name(process@),
{
    let mut r: Vec<u8> = Vec::new();
    let mut i: usize = 0;
    while i < process.len()
        invariant
            i <= process@.len(),
            r@ == base_name(process@.subrange(0, i as int)),
        decreases process@.len() - i,
    {
        assert(process@.subrange(0, i + 1).drop_last() =~= process@.subrange(0, i as int));
        if process[i] == 47 {
            r = Vec::new();
            assert(r@ =~= Seq::<u8>::empty());
        } else {
            r.push(process[i]);
        }
        i = i + 1;
    }
    assert(process@.subrange(0, process@.len() as int) =~= process@);
    r
}

/// The argument vector a companion is started with: its name, shown as
/// `<daemon>-<module>`, the `companion` subcommand, and the inherited
/// control fd.
pub open spec fn companion_argv_spec(process: Seq<u8>, module: Seq<u8>, fd: i32) -> Seq<Seq<u8>> {
    seq![base_name(process) + lit("-"@) + module, lit("companion"@), decimal_int(fd as int)]
}

pub fn companion_argv(process: &[u8], module: &[u8], fd: i32) -> (r: Vec<Vec<u8>>)
    ensures
        names_view(r@) == companion_argv_spec(process@, module@, fd),
{
    proof {
        reveal_strlit("-");
        reveal_strlit("companion");
    }
    let mut arg0 = nice_name(process);
    extend(&mut arg0, ascii_bytes("-"));
    extend(&mut arg0, module);
    let mut sub: Vec<u8> = Vec::new();
    extend(&mut sub, ascii_bytes("companion"));
    let mut fd_arg: Vec<u8> = Vec::new();
    push_int(&mut fd_arg, fd as i64);
    let mut r: Vec<Vec<u8>> = Vec::new();
    r.push(arg0);
    r.push(sub);
    r.push(fd_arg);
    assert(names_view(r@) =~= companion_argv_spec(process@, module@, fd));
    r
}

/// The module a request names by index, read from its `usize` bytes;
/// `None` when no such module is loaded.
pub fn module_index(raw: &[u8], count: usize) -> (r: Option<usize>)
    requires
        raw@.len() == vstd::layout::size_of::<usize>(),
    ensures
        match r {
            Some(i) => i as nat == le_value(raw@) && i < count,
            None => le_value(raw@) >= count,
        },
{
    let i = decode_usize(raw);
    if i < count {
        Some(i)
    } else {
        None
    }
}

/// The first NUL-terminated argument of a command line.
pub open spec fn first_arg(cmdline: Seq<u8>) -> Seq<u8>
    decreases cmdline.len(),
{
    if cmdline.len() == 0 || cmdline[0] == 0 {
        Seq::empty()
    } else {
        seq![cmdline[0]] + first_arg(cmdline.drop_first())
    }
}

proof fn lemma_first_arg(s: Seq<u8>, k: int)
    requires
        0 <= k <= s.len(),
        k == s.len() || s[k] == 0,
        forall|j: int| 0 <= j < k ==> s[j] != 0,
    ensures
        first_arg(s) == s.subrange(0, k),
    decreases k,
{
    if k > 0 {
        lemma_first_arg(s.drop_first(), k - 1);
        assert(s.subrange(0, k) =~= seq![s[0]] + s.drop_first().subrange(0, k - 1));
    } else {
        assert(s.subrange(0, k) =~= Seq::<u8>::empty());
    }
}

/// The daemon runs only under the watchdog: the last path component of its
/// parent's program name (the first argument of `/proc/<ppid>/cmdline`) must
/// be `zygiskwd`.
pub open spec fn parent_ok_spec(cmdline: Seq<u8>) -> bool {
    base_name(first_arg(cmdline)) == lit("zygiskwd"@)
}

pub fn check_parent(cmdline: &[u8]) -> (r: bool)
    ensures
        r == parent_ok_spec(cmdline@),
{
    proof {
        reveal_strlit("zygiskwd");
    }
    let mut k: usize = 0;
    while k < cmdline.len() && cmdline[k] != 0
        invariant
            k <= cmdline@.len(),
            forall|j: int| 0 <= j < k ==> cmdline@[j] != 0,
        decreases cmdline@.len() - k,
    {
        k = k + 1;
    }
    proof {
        lemma_first_arg(cmdline@, k as int);
    }
    let program = copy_range(cmdline, 0, k);
    let name = nice_name(program.as_slice());
    let want = ascii_bytes("zygiskwd");
    if name.len() != want.len() {
        return false;
    }
    let r = matches_at(name.as_slice(), want, 0);
    proof {
        if r {
            assert(name@.subrange(0, name@.len() as int) =~= name@);
        } else {
            assert(name@.subrange(0, want@.len() as int) =~= name@);
        }
    }
    r
}

} // verus!
