//! Daemon state, its control operations and reconciliation-pass planning.

use vstd::prelude::*;
use vstd::string::*;
use crate::config::{Config, ConfigV, InhibitMode, InhibitTarget, LoadConfigError, targets_join};
use crate::player::{self, PlaybackStatus, Player, PlayerV};
use crate::text;

verus! {

/// What the control surface's `status` operation reports.
#[derive(Clone, Copy, Debug, PartialEq, Eq, Structural)]
pub struct DaemonStatus {
    pub partymode: bool,
}

/// One inhibition grant to request from the OS lock provider, and the record
/// kept of it while the grant is held.
pub struct LockRequest {
    /// The player the grant is for, with the namespace prefix stripped.
    pub player: String,
    /// The power-management actions the grant suppresses.
    pub targets: Vec<InhibitTarget>,
    /// How the actions are suppressed.
    pub mode: InhibitMode,
    /// The targets joined with `:`, as the provider call expects them.
    pub what: String,
    /// The requester handed to the provider call.
    pub who: String,
    /// The reason string naming the player.
    pub why: String,
}

/// The mathematical value of a [`LockRequest`].
pub struct LockRequestV {
    pub player: Seq<char>,
    pub targets: Seq<InhibitTarget>,
    pub mode: InhibitMode,
    pub what: Seq<char>,
    pub who: Seq<char>,
    pub why: Seq<char>,
}

impl View for LockRequest {
    type V = LockRequestV;

    open spec fn view(&self) -> LockRequestV {
        LockRequestV {
            player: self.player@,
            targets: self.targets@,
            mode: self.mode,
            what: self.what@,
            who: self.who@,
            why: self.why@,
        }
    }
}

impl DeepView for LockRequest {
    type V = LockRequestV;

    open spec fn deep_view(&self) -> LockRequestV {
        self.view()
    }
}

/// The request owed to a playing player under its resolved rule: the stripped
/// name, the resolved targets and mode (`Block` when no mode is set anywhere),
/// the joined target words, and a reason naming the player.
pub open spec fn request_for(c: ConfigV, raw_name: Seq<char>) -> LockRequestV {
    let key = text::spec_strip_prefix(raw_name, player::mpris_prefix());
    let rule = c.resolved(raw_name);
    LockRequestV {
        player: key,
        targets: rule.targets,
        mode: match rule.mode {
            Some(m) => m,
            None => InhibitMode::Block,
        },
        what: targets_join(rule.targets),
        who: "partymode"@,
        why: key + " is playing media"@,
    }
}

/// The central policy decision: a lock is wanted for a player iff it is
/// playing, its resolved rule inhibits something, and either the rule applies
/// always or the global enabled flag is on.
pub open spec fn wants_lock(c: ConfigV, enabled: bool, p: PlayerV) -> bool {
    &&& p.status == PlaybackStatus::Playing
    &&& c.resolved(p.name).targets.len() > 0
    &&& (c.resolved(p.name).always || enabled)
}

/// The requests of one reconciliation pass: one per snapshot entry that wants
/// a lock, in snapshot order.
pub open spec fn plan(c: ConfigV, enabled: bool, players: Seq<PlayerV>) -> Seq<LockRequestV>
    decreases players.len(),
{
    if players.len() == 0 {
        Seq::empty()
    } else {
        let rest = plan(c, enabled, players.drop_last());
        if wants_lock(c, enabled, players.last()) {
            rest.push(request_for(c, players.last().name))
        } else {
            rest
        }
    }
}

/// Builds the request owed to one playing player under its resolved rule.
fn request_for_player(config: &Config, raw_name: &str) -> (r: LockRequest)
    requires
        config@.resolved(raw_name@).targets.len() > 0,
    ensures
        r@ == request_for(config@, raw_name@),
{
    let rule = config.resolve(raw_name);
    let key = text::strip_prefix(raw_name, player::mpris_prefix_str());
    let what = match rule.targets_str() {
        Some(s) => s,
        None => String::new(),
    };
    let mode = match rule.mode {
        Some(m) => m,
        None => InhibitMode::Block,
    };
    let mut why = key.to_owned();
    why.append(" is playing media");
    let who = String::from_str("partymode");
    LockRequest { player: key.to_owned(), targets: rule.targets, mode, what, who, why }
}

/// Plans one reconciliation pass over a snapshot: resolves a rule per playing
/// player and returns the inhibition requests owed, in snapshot order.
pub fn plan_pass(config: &Config, enabled: bool, players: &Vec<Player>) -> (r: Vec<LockRequest>)
    ensures
        r.deep_view() == plan(config@, enabled, players.deep_view()),
{
    let mut out: Vec<LockRequest> = Vec::new();
    let mut i: usize = 0;
    proof {
        assert(players.deep_view().take(0) =~= Seq::<PlayerV>::empty());
        assert(out.deep_view() =~= Seq::<LockRequestV>::empty());
    }
    while i < players.len()
        invariant
            0 <= i <= players@.len(),
            players.deep_view().len() == players@.len(),
            out.deep_view() == plan(config@, enabled, players.deep_view().take(i as int)),
        decreases players@.len() - i,
    {
        let ghost prev = out.deep_view();
        let ghost pv = players.deep_view()[i as int];
        let p = &players[i];
        proof {
            assert(pv == p@);
        }
        match p.status() {
            PlaybackStatus::Playing => {
                let rule = config.resolve(p.name());
                if rule.targets.len() > 0 {
                    if rule.always || enabled {
                        let req = request_for_player(config, p.name());
                        out.push(req);
                        proof {
                            assert(out.deep_view() =~= prev.push(req@));
                        }
                    }
                }
            },
            _ => {},
        }
        proof {
            let taken = players.deep_view().take(i + 1 as int);
            assert(taken.drop_last() =~= players.deep_view().take(i as int));
            assert(taken.last() == pv);
        }
        i += 1;
    }
    proof {
        assert(players.deep_view().take(players@.len() as int) =~= players.deep_view());
    }
    out
}

/// The mutable, concurrently shared record of the daemon: current
/// configuration, the global enabled flag ("party mode"), and the inhibition
/// grants held by the reconciliation loop.
pub struct DaemonState {
    pub config: Config,
    pub enabled: bool,
    pub held_locks: Vec<LockRequest>,
}

/// The mathematical value of a [`DaemonState`].
pub struct DaemonStateV {
    pub config: ConfigV,
    pub enabled: bool,
    pub held_locks: Seq<LockRequestV>,
}

impl View for DaemonState {
    type V = DaemonStateV;

    open spec fn view(&self) -> DaemonStateV {
        DaemonStateV {
            config: self.config@,
            enabled: self.enabled,
            held_locks: self.held_locks.deep_view(),
        }
    }
}

impl DaemonStateV {
    /// This state with the enabled flag set to `e`.
    pub open spec fn with_enabled(self, e: bool) -> DaemonStateV {
        DaemonStateV { config: self.config, enabled: e, held_locks: self.held_locks }
    }

    /// What `toggle` does: the enabled flag inverted, nothing else touched.
    pub open spec fn toggled(self) -> DaemonStateV {
        self.with_enabled(!self.enabled)
    }

    /// What `status` reports: the enabled flag, read without mutation.
    pub open spec fn spec_status(self) -> DaemonStatus {
        DaemonStatus { partymode: self.enabled }
    }
}

impl DaemonState {
    /// The state at startup: the loaded configuration, the enabled flag at
    /// its configured default, and no locks held yet.
    pub fn new(config: Config) -> (s: DaemonState)
        ensures
            s@.config == config@,
            s@.enabled == config@.default_enabled,
            s@.held_locks == Seq::<LockRequestV>::empty(),
    {
        let enabled = config.default_enabled;
        let s = DaemonState { config, enabled, held_locks: Vec::new() };
        proof {
            assert(s@.held_locks =~= Seq::<LockRequestV>::empty());
        }
        s
    }

    /// Writes the enabled flag.
    pub fn set(&mut self, enabled: bool)
        ensures
            final(self)@ == old(self)@.with_enabled(enabled),
    {
        self.enabled = enabled;
    }

    /// Inverts the enabled flag.
    pub fn toggle(&mut self)
        ensures
            final(self)@ == old(self)@.toggled(),
    {
        self.enabled = !self.enabled;
    }

    /// Reports the enabled flag; a pure read.
    pub fn status(&self) -> (r: DaemonStatus)
        ensures
            r == self@.spec_status(),
    {
        DaemonStatus { partymode: self.enabled }
    }

    /// Replaces the whole configuration when a reload produced one, and keeps
    /// the previous configuration otherwise, handing the failure back to be
    /// logged. The enabled flag and the held locks are untouched either way.
    pub fn apply_reload(&mut self, loaded: Result<Config, LoadConfigError>) -> (r: Option<
        LoadConfigError,
    >)
        ensures
            loaded matches Ok(c) ==> {
                &&& final(self)@.config == c@
                &&& final(self)@.enabled == old(self)@.enabled
                &&& final(self)@.held_locks == old(self)@.held_locks
                &&& r is None
            },
            loaded matches Err(e) ==> {
                &&& final(self)@ == old(self)@
                &&& r matches Some(back) && back@ == e@
            },
    {
        match loaded {
            Ok(c) => {
                self.config = c;
                None
            },
            Err(e) => Some(e),
        }
    }

    /// Replaces the held locks wholesale with the set built by one pass;
    /// every previously held grant not in the new set is thereby released.
    pub fn commit_pass(&mut self, new_locks: Vec<LockRequest>)
        ensures
            final(self)@.held_locks == new_locks.deep_view(),
            final(self)@.config == old(self)@.config,
            final(self)@.enabled == old(self)@.enabled,
    {
        self.held_locks = new_locks;
    }
}

/// The resolved rule depends on the stripped player name alone: two raw names
/// that strip to the same key resolve to the same rule.
pub proof fn lemma_resolved_by_key(c: ConfigV, a: Seq<char>, b: Seq<char>)
    requires
        text::spec_strip_prefix(a, player::mpris_prefix()) == text::spec_strip_prefix(
            b,
            player::mpris_prefix(),
        ),
    ensures
        c.resolved(a) == c.resolved(b),
{
}

/// While the enabled flag is off, a playing player whose resolved rule is not
/// marked `always` gets no lock requested: no request of the pass names it.
pub proof fn lemma_disabled_non_always_no_lock(
    c: ConfigV,
    players: Seq<PlayerV>,
    raw_name: Seq<char>,
)
    requires
        !c.resolved(raw_name).always,
    ensures
        forall|j: int|
            0 <= j < plan(c, false, players).len() ==> #[trigger] plan(c, false, players)[j].player
                != text::spec_strip_prefix(raw_name, player::mpris_prefix()),
    decreases players.len(),
{
    if players.len() > 0 {
        lemma_disabled_non_always_no_lock(c, players.drop_last(), raw_name);
        let last = players.last();
        if wants_lock(c, false, last) {
            // A lock is wanted while the flag is off only under an `always`
            // rule; a player stripping to the same key resolves the same way.
            if text::spec_strip_prefix(last.name, player::mpris_prefix())
                == text::spec_strip_prefix(raw_name, player::mpris_prefix()) {
                lemma_resolved_by_key(c, last.name, raw_name);
                assert(false);
            }
        }
    }
}

/// While the enabled flag is off, a playing player whose resolved rule is
/// marked `always` and inhibits something still gets its lock requested.
pub proof fn lemma_always_rule_requests_lock(c: ConfigV, players: Seq<PlayerV>, i: int)
    requires
        0 <= i < players.len(),
        players[i].status == PlaybackStatus::Playing,
        c.resolved(players[i].name).always,
        c.resolved(players[i].name).targets.len() > 0,
    ensures
        exists|j: int|
            0 <= j < plan(c, false, players).len() && #[trigger] plan(c, false, players)[j]
                == request_for(c, players[i].name),
    decreases players.len(),
{
    let full = plan(c, false, players);
    let rest = plan(c, false, players.drop_last());
    if i == players.len() - 1 {
        assert(wants_lock(c, false, players.last()));
        assert(full[rest.len() as int] == request_for(c, players[i].name));
    } else {
        assert(players.drop_last()[i] == players[i]);
        lemma_always_rule_requests_lock(c, players.drop_last(), i);
        let j = choose|j: int|
            0 <= j < rest.len() && #[trigger] rest[j] == request_for(c, players[i].name);
        assert(full[j] == request_for(c, players[i].name));
    }
}

/// Two toggles in immediate succession return the state to its original
/// value: the enabled flag round-trips and nothing else is touched.
pub proof fn lemma_toggle_round_trip(s: DaemonStateV)
    ensures
        s.toggled().toggled() == s,
{
}

/// `status` right after `set(e)` reports exactly `e`.
pub proof fn lemma_status_reports_set(s: DaemonStateV, e: bool)
    ensures
        s.with_enabled(e).spec_status().partymode == e,
{
}

} // verus!
