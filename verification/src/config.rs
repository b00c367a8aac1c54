//! The configuration model and the rule resolver.

use vstd::prelude::*;
use vstd::string::*;
use crate::player;
use crate::text;

verus! {

/// Inhibit mode of a rule, as understood by the OS inhibition service.
#[derive(Clone, Copy, Debug, PartialEq, Eq, Structural)]
pub enum InhibitMode {
    Block,
    Delay,
    BlockWeak,
}

impl InhibitMode {
    /// The wire word of the mode.
    pub open spec fn label(self) -> Seq<char> {
        match self {
            InhibitMode::Block => "block"@,
            InhibitMode::Delay => "delay"@,
            InhibitMode::BlockWeak => "block_weak"@,
        }
    }

    /// The wire word of the mode, as handed to the inhibition service.
    pub fn to_string(&self) -> (r: String)
        ensures
            r@ == self.label(),
    {
        match self {
            InhibitMode::Block => String::from_str("block"),
            InhibitMode::Delay => String::from_str("delay"),
            InhibitMode::BlockWeak => String::from_str("block_weak"),
        }
    }
}

/// One power-management action a rule can suppress.
#[derive(Clone, Copy, Debug, PartialEq, Eq, Structural)]
pub enum InhibitTarget {
    Idle,
    Sleep,
    Shutdown,
}

impl InhibitTarget {
    /// The wire word of the target.
    pub open spec fn label(self) -> Seq<char> {
        match self {
            InhibitTarget::Idle => "idle"@,
            InhibitTarget::Sleep => "sleep"@,
            InhibitTarget::Shutdown => "shutdown"@,
        }
    }

    /// The wire word of the target.
    pub fn label_str(&self) -> (r: &'static str)
        ensures
            r@ == self.label(),
    {
        match self {
            InhibitTarget::Idle => "idle",
            InhibitTarget::Sleep => "sleep",
            InhibitTarget::Shutdown => "shutdown",
        }
    }
}

/// The default of a rule's `always` field when the source leaves it out.
pub fn always() -> (r: bool)
    ensures
        r == true,
{
    true
}

/// Inhibit behaviour applied to one or all players.
pub struct Rule {
    /// Apply regardless of whether the global enabled flag is on.
    pub always: bool,
    /// Inhibit mode to use; a resolved rule falls back to the default rule's.
    pub mode: Option<InhibitMode>,
    /// What to inhibit; an empty sequence means "inhibit nothing".
    pub targets: Vec<InhibitTarget>,
}

/// The mathematical value of a [`Rule`].
pub struct RuleV {
    pub always: bool,
    pub mode: Option<InhibitMode>,
    pub targets: Seq<InhibitTarget>,
}

impl View for Rule {
    type V = RuleV;

    open spec fn view(&self) -> RuleV {
        RuleV { always: self.always, mode: self.mode, targets: self.targets@ }
    }
}

impl RuleV {
    /// Field-by-field merge of an override with the default rule: `always`
    /// comes from the override unconditionally, `mode` falls back to the
    /// default when unset, `targets` falls back when empty.
    pub open spec fn merged_with(self, defaults: RuleV) -> RuleV {
        RuleV {
            always: self.always,
            mode: if self.mode is Some {
                self.mode
            } else {
                defaults.mode
            },
            targets: if self.targets.len() == 0 {
                defaults.targets
            } else {
                self.targets
            },
        }
    }
}

/// The targets' wire words joined with `:`.
pub open spec fn targets_join(targets: Seq<InhibitTarget>) -> Seq<char> {
    text::spec_join(targets.map(|i: int, t: InhibitTarget| t.label()), ":"@)
}

impl Clone for Rule {
    fn clone(&self) -> (r: Rule)
        ensures
            r@ == self@,
    {
        Rule { always: self.always, mode: self.mode, targets: copy_targets(&self.targets) }
    }
}

/// A fresh vector holding the same targets.
fn copy_targets(targets: &Vec<InhibitTarget>) -> (r: Vec<InhibitTarget>)
    ensures
        r@ == targets@,
{
    let mut out: Vec<InhibitTarget> = Vec::new();
    let mut i: usize = 0;
    while i < targets.len()
        invariant
            0 <= i <= targets@.len(),
            out@ == targets@.take(i as int),
        decreases targets@.len() - i,
    {
        out.push(targets[i]);
        proof {
            assert(out@ =~= targets@.take(i + 1 as int));
        }
        i += 1;
    }
    proof {
        assert(targets@.take(targets@.len() as int) =~= targets@);
    }
    out
}

impl Rule {
    /// The targets joined with `:` as the inhibition service expects them,
    /// or `None` when the rule inhibits nothing.
    pub fn targets_str(&self) -> (r: Option<String>)
        ensures
            self@.targets.len() == 0 <==> r is None,
            r matches Some(s) ==> s@ == targets_join(self@.targets),
    {
        if self.targets.len() == 0 {
            return None;
        }
        let mut parts: Vec<&str> = Vec::new();
        let mut i: usize = 0;
        while i < self.targets.len()
            invariant
                0 <= i <= self.targets@.len(),
                parts@.len() == i,
                forall|j: int| 0 <= j < i ==> parts@[j]@ == self.targets@[j].label(),
            decreases self.targets@.len() - i,
        {
            parts.push(self.targets[i].label_str());
            i += 1;
        }
        let joined = text::join_with(&parts, ":");
        proof {
            assert(parts@.map(|k: int, p: &str| p@) =~= self.targets@.map(
                |k: int, t: InhibitTarget| t.label(),
            ));
        }
        Some(joined)
    }

    /// Merges this override with the default rule, field by field.
    pub fn with_defaults(&self, defaults: &Rule) -> (r: Rule)
        ensures
            r@ == self@.merged_with(defaults@),
    {
        Rule {
            always: self.always,
            mode: match self.mode {
                Some(m) => Some(m),
                None => defaults.mode,
            },
            targets: if self.targets.len() == 0 {
                copy_targets(&defaults.targets)
            } else {
                copy_targets(&self.targets)
            },
        }
    }
}

/// The daemon's configuration: global defaults plus per-player overrides.
/// Loaded once at start and replaced wholesale on reload, never partially
/// mutated.
pub struct Config {
    pub default_enabled: bool,
    /// Milliseconds between reconciliation passes.
    pub poll_interval: u64,
    /// The rule applied to players without an override.
    pub default_rule: Rule,
    /// Per-player overrides, keyed by the stripped player name.
    /// Keys are unique and case-sensitive; insertion order is irrelevant.
    pub rules: Vec<(String, Rule)>,
}

/// The mathematical value of a [`Config`].
pub struct ConfigV {
    pub default_enabled: bool,
    pub poll_interval: u64,
    pub default_rule: RuleV,
    pub rules: Seq<(Seq<char>, RuleV)>,
}

impl View for Config {
    type V = ConfigV;

    open spec fn view(&self) -> ConfigV {
        ConfigV {
            default_enabled: self.default_enabled,
            poll_interval: self.poll_interval,
            default_rule: self.default_rule@,
            rules: self.rules@.map(|i: int, kv: (String, Rule)| (kv.0@, kv.1@)),
        }
    }
}

/// The first rule stored under the key, scanning from the front.
pub open spec fn lookup_rule_in(rules: Seq<(Seq<char>, RuleV)>, key: Seq<char>) -> Option<RuleV>
    decreases rules.len(),
{
    if rules.len() == 0 {
        None
    } else if rules[0].0 == key {
        Some(rules[0].1)
    } else {
        lookup_rule_in(rules.skip(1), key)
    }
}

impl ConfigV {
    /// Rule keys are unique, so the resolved rule does not depend on the
    /// order the overrides stand in.
    pub open spec fn wf(self) -> bool {
        forall|i: int, j: int|
            0 <= i < j < self.rules.len() ==> self.rules[i].0 != self.rules[j].0
    }

    /// The effective rule for a raw player name: the well-known namespace
    /// prefix is stripped, then the override under that key is merged with
    /// the default rule; a player without an override gets the default rule
    /// unmodified.
    pub open spec fn resolved(self, raw_name: Seq<char>) -> RuleV {
        let key = text::spec_strip_prefix(raw_name, player::mpris_prefix());
        match lookup_rule_in(self.rules, key) {
            Some(r) => r.merged_with(self.default_rule),
            None => self.default_rule,
        }
    }
}

impl Config {
    /// Resolves the effective rule for a raw player name. Deterministic and
    /// side-effect-free; it reads only this configuration value.
    pub fn resolve(&self, raw_name: &str) -> (r: Rule)
        ensures
            r@ == self@.resolved(raw_name@),
    {
        let key = text::strip_prefix(raw_name, player::mpris_prefix_str());
        let key_string = key.to_owned();
        let ghost keyv = key@;
        proof {
            assert(self@.rules.skip(0) =~= self@.rules);
        }
        let mut i: usize = 0;
        while i < self.rules.len()
            invariant
                0 <= i <= self.rules@.len(),
                keyv == text::spec_strip_prefix(raw_name@, player::mpris_prefix()),
                key_string@ == keyv,
                lookup_rule_in(self@.rules, keyv) == lookup_rule_in(
                    self@.rules.skip(i as int),
                    keyv,
                ),
            decreases self.rules@.len() - i,
        {
            let entry = &self.rules[i];
            proof {
                assert(self@.rules.skip(i as int)[0] == self@.rules[i as int]);
            }
            if entry.0.eq(&key_string) {
                return entry.1.with_defaults(&self.default_rule);
            }
            proof {
                assert(self@.rules.skip(i as int).skip(1) =~= self@.rules.skip(i + 1 as int));
            }
            i += 1;
        }
        proof {
            assert(self@.rules.skip(self.rules@.len() as int) =~= Seq::<(
                Seq<char>,
                RuleV,
            )>::empty());
        }
        self.default_rule.clone()
    }
}

impl Default for Config {
    /// The built-in configuration: enabled, a five-second poll interval,
    /// and a default rule that blocks idling while a player plays.
    fn default() -> (c: Config)
        ensures
            c@.default_enabled == true,
            c@.poll_interval == 5000,
            c@.default_rule.always == false,
            c@.default_rule.mode == Some(InhibitMode::Block),
            c@.default_rule.targets == seq![InhibitTarget::Idle],
            c@.rules.len() == 0,
    {
        let c = Config {
            default_enabled: true,
            poll_interval: 5000,
            default_rule: Rule {
                always: false,
                mode: Some(InhibitMode::Block),
                targets: vec![InhibitTarget::Idle],
            },
            rules: Vec::new(),
        };
        proof {
            assert(c@.default_rule.targets =~= seq![InhibitTarget::Idle]);
            assert(c@.rules =~= Seq::<(Seq<char>, RuleV)>::empty());
        }
        c
    }
}

/// A key that stands under no override is not found.
proof fn lemma_lookup_absent(rules: Seq<(Seq<char>, RuleV)>, key: Seq<char>)
    requires
        forall|i: int| 0 <= i < rules.len() ==> rules[i].0 != key,
    ensures
        lookup_rule_in(rules, key) is None,
    decreases rules.len(),
{
    if rules.len() > 0 {
        assert(forall|i: int| 0 <= i < rules.skip(1).len() ==> rules.skip(1)[i] == rules[i + 1]);
        lemma_lookup_absent(rules.skip(1), key);
    }
}

/// With unique keys, the lookup finds exactly the override stored under the
/// key, wherever it stands.
proof fn lemma_lookup_finds_key(rules: Seq<(Seq<char>, RuleV)>, key: Seq<char>, i: int)
    requires
        0 <= i < rules.len(),
        rules[i].0 == key,
        forall|a: int, b: int| 0 <= a < b < rules.len() ==> rules[a].0 != rules[b].0,
    ensures
        lookup_rule_in(rules, key) == Some(rules[i].1),
    decreases rules.len(),
{
    if i > 0 {
        assert(rules[0].0 != key);
        assert(forall|j: int| 0 <= j < rules.skip(1).len() ==> rules.skip(1)[j] == rules[j + 1]);
        lemma_lookup_finds_key(rules.skip(1), key, i - 1);
    }
}

/// A player not present in the overrides resolves to the default rule,
/// unmodified.
pub proof fn lemma_absent_player_gets_default(c: ConfigV, raw_name: Seq<char>)
    requires
        forall|i: int|
            0 <= i < c.rules.len() ==> (#[trigger] c.rules[i]).0 != text::spec_strip_prefix(
                raw_name,
                player::mpris_prefix(),
            ),
    ensures
        c.resolved(raw_name) == c.default_rule,
{
    lemma_lookup_absent(c.rules, text::spec_strip_prefix(raw_name, player::mpris_prefix()));
}

/// A player present in the overrides resolves field by field: `always` comes
/// from the override unconditionally, `mode` falls back to the default rule's
/// only when the override sets none, and `targets` falls back only when the
/// override's sequence is empty.
pub proof fn lemma_present_player_merges(c: ConfigV, raw_name: Seq<char>, i: int)
    requires
        c.wf(),
        0 <= i < c.rules.len(),
        c.rules[i].0 == text::spec_strip_prefix(raw_name, player::mpris_prefix()),
    ensures
        c.resolved(raw_name).always == c.rules[i].1.always,
        c.resolved(raw_name).mode == (if c.rules[i].1.mode is Some {
            c.rules[i].1.mode
        } else {
            c.default_rule.mode
        }),
        c.resolved(raw_name).targets == (if c.rules[i].1.targets.len() == 0 {
            c.default_rule.targets
        } else {
            c.rules[i].1.targets
        }),
{
    lemma_lookup_finds_key(c.rules, text::spec_strip_prefix(raw_name, player::mpris_prefix()), i);
}

/// Why a configuration source could not be turned into a [`Config`].
#[derive(Debug)]
pub enum LoadConfigError {
    /// The config file failed to parse.
    Parse(String),
    /// The config file could not be read.
    IO(String),
}

/// The mathematical value of a [`LoadConfigError`].
pub enum LoadConfigErrorV {
    Parse(Seq<char>),
    IO(Seq<char>),
}

impl View for LoadConfigError {
    type V = LoadConfigErrorV;

    open spec fn view(&self) -> LoadConfigErrorV {
        match self {
            LoadConfigError::Parse(s) => LoadConfigErrorV::Parse(s@),
            LoadConfigError::IO(s) => LoadConfigErrorV::IO(s@),
        }
    }
}

impl LoadConfigError {
    /// The human-readable description of the failure.
    pub open spec fn spec_message(self) -> Seq<char> {
        match self {
            LoadConfigError::Parse(s) => "Error while reading config: "@ + s@,
            LoadConfigError::IO(s) => "Could not open config file: "@ + s@,
        }
    }

    /// Renders the failure for a log line.
    pub fn message(&self) -> (r: String)
        ensures
            r@ == self.spec_message(),
    {
        match self {
            LoadConfigError::Parse(s) => {
                let mut m = String::from_str("Error while reading config: ");
                m.append(s.as_str());
                m
            },
            LoadConfigError::IO(s) => {
                let mut m = String::from_str("Could not open config file: ");
                m.append(s.as_str());
                m
            },
        }
    }
}

} // verus!
