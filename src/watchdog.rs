//! The watchdog's decisions: who may run it, how module.prop is split and
//! rewritten with a status hint, and when dying daemons are respawned or the
//! watchdog gives up.

use vstd::prelude::*;
use vstd::utf8::encode_utf8;
use crate::root_impl::{resolve, Probe, RootImpl};
use crate::text::{ascii_bytes, extend, lit, matches_at, starts_with};

verus! {

/// Why the watchdog refuses to start.
#[derive(Debug, Clone, Copy, PartialEq, Eq, Structural)]
pub enum PermissionError {
    UidNotRoot,
    GidNotRoot,
    WrongContext,
}

/// `s` without its trailing NUL bytes.
pub open spec fn trim_nul_end(s: Seq<u8>) -> Seq<u8>
    decreases s.len(),
{
    if s.len() > 0 && s.last() == 0 {
        trim_nul_end(s.drop_last())
    } else {
        s
    }
}

/// The SELinux contexts a root shell or Magisk gives the watchdog.
pub open spec fn context_allowed(context: Seq<u8>) -> bool {
    let c = trim_nul_end(context);
    c == lit("u:r:su:s0"@) || c == lit("u:r:magisk:s0"@)
}

pub open spec fn permission_spec(uid: u32, gid: u32, context: Seq<u8>) -> Result<(), PermissionError> {
    if uid != 0 {
        Err(PermissionError::UidNotRoot)
    } else if gid != 0 {
        Err(PermissionError::GidNotRoot)
    } else if !context_allowed(context) {
        Err(PermissionError::WrongContext)
    } else {
        Ok(())
    }
}

fn same(a: &[u8], b: &[u8], n: usize) -> (r: bool)
    requires
        n <= a@.len(),
    ensures
        r == (a@.subrange(0, n as int) == b@),
{
    if n != b.len() {
        return false;
    }
    let r = matches_at(a, b, 0);
    proof {
        if r {
            assert(a@.subrange(0, n as int) =~= b@);
        }
    }
    r
}

/// Checks the caller's uid, gid and SELinux context (the contents of
/// `/proc/self/attr/current`).
pub fn check_permission(uid: u32, gid: u32, context: &[u8]) -> (r: Result<(), PermissionError>)
    ensures
        r == permission_spec(uid, gid, context@),
{
    if uid != 0 {
        return Err(PermissionError::UidNotRoot);
    }
    if gid != 0 {
        return Err(PermissionError::GidNotRoot);
    }
    let mut n: usize = context.len();
    assert(context@.subrange(0, n as int) =~= context@);
    while n > 0 && context[n - 1] == 0
        invariant
            n <= context@.len(),
            trim_nul_end(context@) == trim_nul_end(context@.subrange(0, n as int)),
        decreases n,
    {
        assert(context@.subrange(0, n as int).drop_last() =~= context@.subrange(0, n - 1));
        n = n - 1;
    }
    proof {
        reveal_strlit("u:r:su:s0");
        reveal_strlit("u:r:magisk:s0");
    }
    if same(context, ascii_bytes("u:r:su:s0"), n) || same(context, ascii_bytes("u:r:magisk:s0"), n) {
        Ok(())
    } else {
        Err(PermissionError::WrongContext)
    }
}

/// module.prop split at its `description=` key: everything up to and
/// including the key, and the original description text after it.
pub struct PropSections {
    pub head: Vec<u8>,
    pub description: Vec<u8>,
}

pub open spec fn description_key() -> Seq<u8> {
    lit("description="@)
}

/// The two sections after reading `lines` in order, and whether the
/// description key has been met. A `description=` line puts the key at the
/// end of the head and the rest of the line, with a newline, into the
/// description;
/// every other line goes, with a newline, to the head before the key and to
/// the description after it.
pub open spec fn sections_of(lines: Seq<Seq<u8>>) -> (Seq<u8>, Seq<u8>, bool)
    decreases lines.len(),
{
    if lines.len() == 0 {
        (Seq::empty(), Seq::empty(), false)
    } else {
        let (head, desc, seen) = sections_of(lines.drop_last());
        let line = lines.last();
        if starts_with(line, description_key()) {
            (
                head + description_key(),
                desc + line.subrange(12, line.len() as int) + seq![10u8],
                true,
            )
        } else if seen {
            (head, desc + line + seq![10u8], true)
        } else {
            (head + line + seq![10u8], desc, false)
        }
    }
}

pub open spec fn lines_view(lines: Seq<Vec<u8>>) -> Seq<Seq<u8>> {
    lines.map_values(|l: Vec<u8>| l@)
}

/// Splits the lines of module.prop at the `description=` key.
pub fn parse_prop_sections(lines: &Vec<Vec<u8>>) -> (r: PropSections)
    ensures
        (r.head@, r.description@) == ({
            let s = sections_of(lines_view(lines@));
            (s.0, s.1)
        }),
{
    proof {
        reveal_strlit("description=");
    }
    let key = ascii_bytes("description=");
    let mut head: Vec<u8> = Vec::new();
    let mut desc: Vec<u8> = Vec::new();
    let mut seen = false;
    let mut i: usize = 0;
    while i < lines.len()
        invariant
            i <= lines@.len(),
            key@ == description_key(),
            key@.len() == 12,
            (head@, desc@, seen) == sections_of(lines_view(lines@.subrange(0, i as int))),
        decreases lines@.len() - i,
    {
        let line = lines[i].as_slice();
        let ghost prefix = lines_view(lines@.subrange(0, i + 1));
        assert(prefix.drop_last() =~= lines_view(lines@.subrange(0, i as int)));
        assert(prefix.last() == line@);
        if matches_at(line, key, 0) {
            extend(&mut head, key);
            let k: usize = 12;
            let mut j: usize = k;
            let ghost d0 = desc@;
            assert(line@.len() >= 12);
            while j < line.len()
                invariant
                    k == 12,
                    k <= j <= line@.len(),
                    desc@ == d0 + line@.subrange(k as int, j as int),
                decreases line@.len() - j,
            {
                desc.push(line[j]);
                j = j + 1;
                assert(desc@ =~= d0 + line@.subrange(k as int, j as int));
            }
            desc.push(10);
            seen = true;
        } else if seen {
            extend(&mut desc, line);
            desc.push(10);
        } else {
            extend(&mut head, line);
            head.push(10);
        }
        i = i + 1;
    }
    assert(lines@.subrange(0, lines@.len() as int) =~= lines@);
    PropSections { head, description: desc }
}

/// The file that `lines` make, each followed by a newline.
pub open spec fn joined(lines: Seq<Seq<u8>>) -> Seq<u8>
    decreases lines.len(),
{
    if lines.len() == 0 {
        Seq::empty()
    } else {
        joined(lines.drop_last()) + lines.last() + seq![10u8]
    }
}

proof fn lemma_seen(lines: Seq<Seq<u8>>)
    ensures
        sections_of(lines).2 <==> exists|i: int|
            0 <= i < lines.len() && starts_with(#[trigger] lines[i], description_key()),
        !sections_of(lines).2 ==> sections_of(lines).1.len() == 0,
    decreases lines.len(),
{
    if lines.len() > 0 {
        let init = lines.drop_last();
        lemma_seen(init);
        if sections_of(init).2 {
            let i = choose|i: int| 0 <= i < init.len() && starts_with(#[trigger] init[i], description_key());
            assert(lines[i] == init[i]);
        }
        if exists|i: int| 0 <= i < lines.len() && starts_with(#[trigger] lines[i], description_key()) {
            let i = choose|i: int| 0 <= i < lines.len() && starts_with(#[trigger] lines[i], description_key());
            if i < lines.len() - 1 {
                assert(init[i] == lines[i]);
            }
        }
    }
}

/// With at most one `description=` line, the head followed by the
/// description is the file itself: the split only marks where the
/// description starts.
pub proof fn lemma_sections_rebuild_file(lines: Seq<Seq<u8>>)
    requires
        forall|i: int, j: int|
            0 <= i < lines.len() && 0 <= j < lines.len() && starts_with(#[trigger] lines[i], description_key())
                && starts_with(#[trigger] lines[j], description_key()) ==> i == j,
    ensures
        sections_of(lines).0 + sections_of(lines).1 == joined(lines),
    decreases lines.len(),
{
    reveal_strlit("description=");
    if lines.len() > 0 {
        let init = lines.drop_last();
        let line = lines.last();
        assert forall|i: int, j: int|
            0 <= i < init.len() && 0 <= j < init.len() && starts_with(#[trigger] init[i], description_key())
                && starts_with(#[trigger] init[j], description_key()) implies i == j by {
            assert(lines[i] == init[i] && lines[j] == init[j]);
        }
        lemma_sections_rebuild_file(init);
        lemma_seen(init);
        let (h, d, seen) = sections_of(init);
        if starts_with(line, description_key()) {
            if seen {
                let i = choose|i: int| 0 <= i < init.len() && starts_with(#[trigger] init[i], description_key());
                assert(lines[i] == init[i]);
                assert(lines[lines.len() - 1] == line);
            }
            assert(line =~= description_key() + line.subrange(12, line.len() as int));
            assert(h + description_key() + (d + line.subrange(12, line.len() as int) + seq![10u8])
                =~= joined(init) + line + seq![10u8]);
        } else if seen {
            assert(h + (d + line + seq![10u8]) =~= joined(init) + line + seq![10u8]);
        } else {
            assert(d =~= Seq::<u8>::empty());
            assert(h + line + seq![10u8] + d =~= joined(init) + line + seq![10u8]);
        }
    }
}

/// The hint shown in module.prop.
#[derive(Debug, Clone, Copy, PartialEq, Eq, Structural)]
pub enum Status {
    Loaded,
    Crashed,
    RootImplNone,
    RootImplTooOld,
    RootImplAbnormal,
    RootImplMultiple,
}

impl Status {
    pub open spec fn text_spec(self) -> Seq<char> {
        match self {
            Status::Loaded => "😋 Zygisksu is loaded"@,
            Status::Crashed => "❌ Zygiskd has crashed"@,
            Status::RootImplNone => "❌ Unknown root implementation"@,
            Status::RootImplTooOld => "❌ Root implementation version too old"@,
            Status::RootImplAbnormal => "❌ Abnormal root implementation version"@,
            Status::RootImplMultiple => "❌ Multiple root implementations installed"@,
        }
    }

    /// The hint's UTF-8 bytes.
    pub open spec fn hint_bytes(self) -> Seq<u8> {
        encode_utf8(self.text_spec())
    }

    /// The hint exactly as the management app matches it.
    pub fn text(&self) -> (r: &'static str)
        ensures
            r@ == self.text_spec(),
    {
        match self {
            Status::Loaded => "😋 Zygisksu is loaded",
            Status::Crashed => "❌ Zygiskd has crashed",
            Status::RootImplNone => "❌ Unknown root implementation",
            Status::RootImplTooOld => "❌ Root implementation version too old",
            Status::RootImplAbnormal => "❌ Abnormal root implementation version",
            Status::RootImplMultiple => "❌ Multiple root implementations installed",
        }
    }
}

/// The hint for a backend tag: a supported backend is loaded, every other
/// tag names its reason.
pub open spec fn status_for(imp: RootImpl) -> Status {
    match imp {
        RootImpl::NoRoot => Status::RootImplNone,
        RootImpl::TooOld => Status::RootImplTooOld,
        RootImpl::Abnormal => Status::RootImplAbnormal,
        RootImpl::Multiple => Status::RootImplMultiple,
        _ => Status::Loaded,
    }
}

/// The whole overlay file for a hint: the head, the hint in brackets, then
/// the original description.
pub open spec fn prop_content_spec(head: Seq<u8>, description: Seq<u8>, hint: Seq<u8>) -> Seq<u8> {
    head + lit("["@) + hint + lit("] "@) + description
}

/// Renders the overlay for `status`; the file is always rewritten whole.
pub fn prop_content(sections: &PropSections, status: Status) -> (r: Vec<u8>)
    ensures
        r@ == prop_content_spec(
            sections.head@,
            sections.description@,
            status.hint_bytes(),
        ),
{
    proof {
        reveal_strlit("[");
        reveal_strlit("] ");
    }
    let mut r: Vec<u8> = Vec::new();
    extend(&mut r, sections.head.as_slice());
    extend(&mut r, ascii_bytes("["));
    extend(&mut r, status.text().as_bytes());
    extend(&mut r, ascii_bytes("] "));
    extend(&mut r, sections.description.as_slice());
    r
}

/// The overlay to write once the backend is known, and whether there is
/// anything to supervise.
pub fn check_and_set_hint(imp: &RootImpl, sections: &PropSections) -> (r: (Vec<u8>, bool))
    ensures
        r.0@ == prop_content_spec(
            sections.head@,
            sections.description@,
            status_for(*imp).hint_bytes(),
        ),
        r.1 == imp.is_supported(),
{
    let status = match imp {
        RootImpl::NoRoot => Status::RootImplNone,
        RootImpl::TooOld => Status::RootImplTooOld,
        RootImpl::Abnormal => Status::RootImplAbnormal,
        RootImpl::Multiple => Status::RootImplMultiple,
        _ => Status::Loaded,
    };
    (prop_content(sections, status), imp.supported())
}

/// Lives the watchdog starts with, and gets back after a quiet spell.
pub const MAX_RESTART_COUNT: u32 = 5;

/// A restart this long after the previous one restores every life.
pub const RESTART_WINDOW_MS: u64 = 30000;

/// What woke the supervise loop.
#[derive(Debug, Clone, Copy, PartialEq, Eq, Structural)]
pub enum Wake {
    /// A daemon process exited.
    DaemonDied,
    /// Zygote stopped on its own, not through a restart we asked for.
    ZygoteRestarted,
}

/// What the supervise loop does next.
#[derive(Debug, Clone, Copy, PartialEq, Eq, Structural)]
pub enum Decision {
    /// Too many deaths too close together: report the crash and exit.
    GiveUp,
    /// Spawn the daemons again, asking for a Zygote restart first when
    /// Zygote did not restart by itself.
    Respawn { restart_zygote: bool },
}

/// The watchdog's restart bookkeeping.
#[derive(Debug, Clone, Copy, PartialEq, Eq, Structural)]
pub struct Supervisor {
    /// Deaths still allowed before giving up.
    pub lives: u32,
    /// When the daemons were last (re)started, in milliseconds of a
    /// monotonic clock.
    pub last_restart_ms: u64,
    /// The Zygote property serial read just before the restart we asked
    /// for last; a stop with this serial is our own.
    pub restart_serial: u32,
}

impl Supervisor {
    pub open spec fn wf(self) -> bool {
        1 <= self.lives <= MAX_RESTART_COUNT
    }
}

/// The lives left after a wake at `now`.
pub open spec fn lives_after(s: Supervisor, now: u64) -> int {
    if now >= s.last_restart_ms && now - s.last_restart_ms >= RESTART_WINDOW_MS {
        MAX_RESTART_COUNT as int
    } else {
        s.lives - 1
    }
}

/// One wake at `now`: `None` when the watchdog gives up.
pub open spec fn step(s: Supervisor, now: u64) -> Option<Supervisor> {
    if lives_after(s, now) <= 0 {
        None
    } else {
        Some(Supervisor { lives: lives_after(s, now) as u32, last_restart_ms: now, ..s })
    }
}

/// Wakes at each of `times` in turn: `None` once the watchdog gave up.
pub open spec fn run(s: Supervisor, times: Seq<u64>) -> Option<Supervisor>
    decreases times.len(),
{
    if times.len() == 0 {
        Some(s)
    } else {
        match step(s, times[0]) {
            None => None,
            Some(t) => run(t, times.drop_first()),
        }
    }
}

impl Supervisor {
    /// The state at the first spawn, at `now_ms`.
    pub fn new(now_ms: u64) -> (r: Supervisor)
        ensures
            r.wf(),
            r.lives == MAX_RESTART_COUNT,
            r.last_restart_ms == now_ms,
            r.restart_serial == 0,
    {
        Supervisor { lives: MAX_RESTART_COUNT, last_restart_ms: now_ms, restart_serial: 0 }
    }

    /// Decides what follows a wake at `now_ms`.
    pub fn on_wake(&mut self, wake: Wake, now_ms: u64) -> (r: Decision)
        requires
            old(self).wf(),
        ensures
            match step(*old(self), now_ms) {
                None => r == Decision::GiveUp,
                Some(t) => r == (Decision::Respawn { restart_zygote: wake == Wake::DaemonDied })
                    && *final(self) == t && final(self).wf(),
            },
    {
        let lives = if now_ms >= self.last_restart_ms && now_ms - self.last_restart_ms
            >= RESTART_WINDOW_MS {
            MAX_RESTART_COUNT
        } else {
            self.lives - 1
        };
        if lives == 0 {
            return Decision::GiveUp;
        }
        self.lives = lives;
        self.last_restart_ms = now_ms;
        Decision::Respawn { restart_zygote: wake == Wake::DaemonDied }
    }

    /// Remembers the serial of the restart we are about to ask for.
    pub fn record_restart(&mut self, serial: u32)
        ensures
            *final(self) == (Supervisor { restart_serial: serial, ..*old(self) }),
    {
        self.restart_serial = serial;
    }

    /// A Zygote stop is unexpected unless its serial is that of the restart
    /// we asked for.
    pub fn is_unexpected_restart(&self, serial: u32) -> (r: bool)
        ensures
            r == (serial != self.restart_serial),
    {
        serial != self.restart_serial
    }
}

/// Zygote has stopped when its service state leaves `running`.
pub fn zygote_stopped(last_state: &[u8], new_state: &[u8]) -> (r: bool)
    ensures
        r == (last_state@ == lit("running"@) && new_state@ != lit("running"@)),
{
    proof {
        reveal_strlit("running");
    }
    let running = ascii_bytes("running");
    let was = last_state.len() == running.len() && matches_at(last_state, running, 0);
    let now = new_state.len() == running.len() && matches_at(new_state, running, 0);
    proof {
        if last_state@.len() == running@.len() {
            assert(last_state@.subrange(0, running@.len() as int) =~= last_state@);
        }
        if new_state@.len() == running@.len() {
            assert(new_state@.subrange(0, running@.len() as int) =~= new_state@);
        }
    }
    was && !now
}

/// Wakes closer together than the restart window use up one life each: a
/// supervisor with `s.lives` lives gives up by the `s.lives`-th such wake.
pub proof fn lemma_quick_deaths_give_up(s: Supervisor, times: Seq<u64>)
    requires
        s.wf(),
        times.len() >= s.lives,
        s.last_restart_ms <= times[0],
        times[0] - s.last_restart_ms < RESTART_WINDOW_MS,
        forall|i: int|
            0 <= i < times.len() - 1 ==> #[trigger] times[i] <= times[i + 1] && times[i + 1]
                - times[i] < RESTART_WINDOW_MS,
    ensures
        run(s, times) is None,
    decreases s.lives,
{
    if s.lives > 1 {
        let t = step(s, times[0])->0;
        let rest = times.drop_first();
        assert forall|i: int| 0 <= i < rest.len() - 1 implies #[trigger] rest[i] <= rest[i + 1]
            && rest[i + 1] - rest[i] < RESTART_WINDOW_MS by {
            assert(rest[i] == times[i + 1] && rest[i + 1] == times[i + 2]);
        }
        assert(rest[0] == times[1]);
        lemma_quick_deaths_give_up(t, rest);
    }
}

/// Wakes at least a restart window apart never use up a life: the
/// supervisor keeps all its lives however many such wakes come.
pub proof fn lemma_spaced_deaths_never_give_up(s: Supervisor, times: Seq<u64>)
    requires
        s.wf(),
        times.len() > 0 ==> times[0] >= s.last_restart_ms && times[0] - s.last_restart_ms
            >= RESTART_WINDOW_MS,
        forall|i: int|
            0 <= i < times.len() - 1 ==> times[i + 1] >= #[trigger] times[i] && times[i + 1]
                - times[i] >= RESTART_WINDOW_MS,
    ensures
        run(s, times) is Some,
        times.len() > 0 ==> run(s, times)->0.lives == MAX_RESTART_COUNT,
    decreases times.len(),
{
    if times.len() > 0 {
        let t = step(s, times[0])->0;
        let rest = times.drop_first();
        assert forall|i: int| 0 <= i < rest.len() - 1 implies rest[i + 1] >= #[trigger] rest[i]
            && rest[i + 1] - rest[i] >= RESTART_WINDOW_MS by {
            assert(rest[i] == times[i + 1] && rest[i + 1] == times[i + 2]);
        }
        if rest.len() > 0 {
            assert(rest[0] == times[1]);
        }
        lemma_spaced_deaths_never_give_up(t, rest);
    }
}

/// With two backends installed and supported, the tag is `Multiple`
/// whatever the other two probes say: the watchdog shows the
/// multiple-installations hint and supervises nothing.
pub proof fn lemma_multi_install_exits(k: Probe, m: Probe, a: Probe, p: Probe)
    requires
        (k is Supported && m is Supported) || (k is Supported && a is Supported) || (k is Supported
            && p is Supported) || (m is Supported && a is Supported) || (m is Supported
            && p is Supported) || (a is Supported && p is Supported),
    ensures
        resolve(k, m, a, p) == RootImpl::Multiple,
        !resolve(k, m, a, p).is_supported(),
        status_for(resolve(k, m, a, p)) == Status::RootImplMultiple,
{
}

} // verus!
