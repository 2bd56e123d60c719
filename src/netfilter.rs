use vstd::prelude::*;
use crate::config::{wan_names, Config};
use crate::text::{joined, joined3, owned, views};

verus! {

/// A packet-filter table.
#[derive(Debug, Clone, Copy, PartialEq, Eq, Structural)]
pub enum Table {
    Filter,
    Nat,
}

impl Table {
    /// The table's name as the filter tool takes it.
    pub fn name(&self) -> (r: &'static str)
        ensures
            r@ == table_name(*self),
    {
        match self {
            Table::Filter => "filter",
            Table::Nat => "nat",
        }
    }
}

/// The name of a table.
pub open spec fn table_name(t: Table) -> Seq<char> {
    match t {
        Table::Filter => "filter"@,
        Table::Nat => "nat"@,
    }
}

/// Kind of route a policy-routing rule selects, as `ip rule` reports it.
#[derive(Debug, Clone, Copy, PartialEq, Eq, Structural)]
pub enum RouteType {
    All,
    Unicast,
    Unreachable,
    Blackhole,
    Prohibit,
    Local,
    Broadcast,
    Throw,
    Nat,
    Anycast,
    Multicast,
}

impl Default for RouteType {
    fn default() -> (r: Self)
        ensures
            r == RouteType::All,
    {
        RouteType::All
    }
}

/// One policy-routing rule, as `ip -j rule` reports it.
#[derive(Debug, Clone)]
pub struct IPRule {
    pub priority: usize,
    pub src: RouteType,
    pub table: String,
}

impl Default for IPRule {
    fn default() -> (r: Self)
        ensures
            r.priority == 0,
            r.src == RouteType::All,
            r.table@.len() == 0,
    {
        IPRule { priority: 0, src: RouteType::All, table: String::new() }
    }
}

/// A default policy to set on a built-in chain.
#[derive(Debug)]
pub struct PolicySetting {
    pub table: Table,
    pub chain: String,
    pub policy: String,
}

/// One chain of this daemon: created if absent, emptied, filled with `rules` in order, and
/// jumped to from `system_chain` by a rule added only when not already there.
#[derive(Debug)]
pub struct ChainSetup {
    pub table: Table,
    pub system_chain: String,
    pub chain: String,
    pub rules: Vec<String>,
}

/// Everything the firewall setup does, in order: the policies, then the chains.
#[derive(Debug)]
pub struct FirewallPlan {
    pub policies: Vec<PolicySetting>,
    pub chains: Vec<ChainSetup>,
}

/// What the logic reads of a chain setup.
pub struct ChainSetupView {
    pub table: Table,
    pub system_chain: Seq<char>,
    pub chain: Seq<char>,
    pub rules: Seq<Seq<char>>,
}

/// What the logic reads of a plan.
pub struct PlanView {
    pub policies: Seq<(Table, Seq<char>, Seq<char>)>,
    pub chains: Seq<ChainSetupView>,
}

impl View for ChainSetup {
    type V = ChainSetupView;

    open spec fn view(&self) -> ChainSetupView {
        ChainSetupView {
            table: self.table,
            system_chain: self.system_chain@,
            chain: self.chain@,
            rules: views(self.rules@),
        }
    }
}

impl View for FirewallPlan {
    type V = PlanView;

    open spec fn view(&self) -> PlanView {
        PlanView {
            policies: self.policies@.map_values(|p: PolicySetting| (p.table, p.chain@, p.policy@)),
            chains: self.chains@.map_values(|c: ChainSetup| c@),
        }
    }
}

/// The rule that accepts traffic coming in on an interface.
pub open spec fn accept_in(iface: Seq<char>) -> Seq<char> {
    "-i "@ + iface + " -j ACCEPT"@
}

/// The rule that accepts traffic going out on an interface.
pub open spec fn accept_out(iface: Seq<char>) -> Seq<char> {
    "-o "@ + iface + " -j ACCEPT"@
}

/// The rule that rewrites the source of traffic leaving by an interface.
pub open spec fn masquerade(iface: Seq<char>) -> Seq<char> {
    "-o "@ + iface + " -j MASQUERADE"@
}

/// The rule that jumps to a chain.
pub open spec fn jump(chain: Seq<char>) -> Seq<char> {
    "-j "@ + chain
}

/// One rule per interface, each the interface between `prefix` and `suffix`.
pub open spec fn rules_for(ifaces: Seq<Seq<char>>, prefix: Seq<char>, suffix: Seq<char>) -> Seq<Seq<char>>
    decreases ifaces.len(),
{
    if ifaces.len() == 0 {
        Seq::empty()
    } else {
        rules_for(ifaces.drop_last(), prefix, suffix).push(prefix + ifaces.last() + suffix)
    }
}

/// The internal interfaces: LAN, WLAN and tunnel, each when enabled.
pub open spec fn internal_interfaces(cfg: Config) -> Seq<Seq<char>> {
    (if cfg.network.lan.enabled { seq![cfg.network.lan.interface@] } else { Seq::empty() })
        + (if cfg.network.wlan.enabled { seq![cfg.network.wlan.interface@] } else { Seq::empty() })
        + (if cfg.wireguard.enabled { seq![cfg.wireguard.interface@] } else { Seq::empty() })
}

/// The rules that every input chain starts with.
pub open spec fn global_input_rules() -> Seq<Seq<char>> {
    seq!["-i lo -j ACCEPT"@, "-d 127.0.0.0/8 -j REJECT"@, "-m state --state ESTABLISHED,RELATED -j ACCEPT"@]
}

/// Contents of the input chain.
pub open spec fn input_rules(cfg: Config) -> Seq<Seq<char>> {
    global_input_rules() + rules_for(internal_interfaces(cfg), "-i "@, " -j ACCEPT"@)
}

/// Contents of the forward chain: each internal interface accepted both ways.
pub open spec fn forward_rules_of(ifaces: Seq<Seq<char>>) -> Seq<Seq<char>>
    decreases ifaces.len(),
{
    if ifaces.len() == 0 {
        Seq::empty()
    } else {
        forward_rules_of(ifaces.drop_last()) + seq![accept_in(ifaces.last()), accept_out(ifaces.last())]
    }
}

/// Contents of the post-routing chain: each uplink, then the tunnel when enabled.
pub open spec fn postrouting_rules(cfg: Config) -> Seq<Seq<char>> {
    rules_for(wan_names(cfg.network.wans@), "-o "@, " -j MASQUERADE"@) + (if cfg.wireguard.enabled {
        seq![masquerade(cfg.wireguard.interface@)]
    } else {
        Seq::empty()
    })
}

/// The chain setups of a configuration: three in the filter table, four in the NAT table.
pub open spec fn chain_setups(cfg: Config) -> Seq<ChainSetupView> {
    seq![
        ChainSetupView { table: Table::Filter, system_chain: "INPUT"@, chain: "vagabond-input"@, rules: input_rules(cfg) },
        ChainSetupView { table: Table::Filter, system_chain: "FORWARD"@, chain: "vagabond-forward"@, rules: forward_rules_of(internal_interfaces(cfg)) },
        ChainSetupView { table: Table::Filter, system_chain: "OUTPUT"@, chain: "vagabond-output"@, rules: Seq::empty() },
        ChainSetupView { table: Table::Nat, system_chain: "PREROUTING"@, chain: "vagabond-prerouting"@, rules: Seq::empty() },
        ChainSetupView { table: Table::Nat, system_chain: "INPUT"@, chain: "vagabond-input"@, rules: Seq::empty() },
        ChainSetupView { table: Table::Nat, system_chain: "OUTPUT"@, chain: "vagabond-output"@, rules: Seq::empty() },
        ChainSetupView { table: Table::Nat, system_chain: "POSTROUTING"@, chain: "vagabond-postrouting"@, rules: postrouting_rules(cfg) },
    ]
}

/// The default policies: drop what comes in, let out and forward the rest.
pub open spec fn default_policies() -> Seq<(Table, Seq<char>, Seq<char>)> {
    seq![
        (Table::Filter, "INPUT"@, "DROP"@),
        (Table::Filter, "OUTPUT"@, "ACCEPT"@),
        (Table::Filter, "FORWARD"@, "ACCEPT"@),
    ]
}

/// The plan of a configuration.
pub open spec fn plan_of(cfg: Config) -> PlanView {
    PlanView { policies: default_policies(), chains: chain_setups(cfg) }
}

fn rule_for(prefix: &str, iface: &String, suffix: &str) -> (r: String)
    ensures
        r@ == prefix@ + iface@ + suffix@,
{
    joined3(prefix, iface.as_str(), suffix)
}

fn internal_interface_list(cfg: &Config) -> (r: Vec<String>)
    ensures
        views(r@) == internal_interfaces(*cfg),
{
    let mut r: Vec<String> = Vec::new();
    if cfg.network.lan.enabled {
        r.push(cfg.network.lan.interface.clone());
    }
    if cfg.network.wlan.enabled {
        r.push(cfg.network.wlan.interface.clone());
    }
    if cfg.wireguard.enabled {
        r.push(cfg.wireguard.interface.clone());
    }
    assert(views(r@) =~= internal_interfaces(*cfg));
    r
}

/// Contents of the input chain.
pub fn input_chain_rules(cfg: &Config) -> (r: Vec<String>)
    ensures
        views(r@) == input_rules(*cfg),
{
    let ifaces = internal_interface_list(cfg);
    let mut r: Vec<String> = Vec::new();
    assert(views(r@) =~= Seq::<Seq<char>>::empty());
    r.push(owned("-i lo -j ACCEPT"));
    r.push(owned("-d 127.0.0.0/8 -j REJECT"));
    r.push(owned("-m state --state ESTABLISHED,RELATED -j ACCEPT"));
    let ghost iv = views(ifaces@);
    let mut i: usize = 0;
    while i < ifaces.len()
        invariant
            i <= ifaces.len(),
            iv == views(ifaces@),
            views(r@) == global_input_rules() + rules_for(iv.subrange(0, i as int), "-i "@, " -j ACCEPT"@),
        decreases ifaces.len() - i,
    {
        assert(iv.subrange(0, i + 1).drop_last() =~= iv.subrange(0, i as int));
        let ghost before = views(r@);
        r.push(rule_for("-i ", &ifaces[i], " -j ACCEPT"));
        assert(views(r@) =~= before.push("-i "@ + iv[i as int] + " -j ACCEPT"@));
        assert(global_input_rules() + rules_for(iv.subrange(0, i + 1), "-i "@, " -j ACCEPT"@) =~= (
        global_input_rules() + rules_for(iv.subrange(0, i as int), "-i "@, " -j ACCEPT"@)).push(
            "-i "@ + iv[i as int] + " -j ACCEPT"@,
        ));
        i = i + 1;
    }
    assert(iv.subrange(0, ifaces.len() as int) =~= iv);
    r
}

/// Contents of the forward chain.
pub fn forward_chain_rules(cfg: &Config) -> (r: Vec<String>)
    ensures
        views(r@) == forward_rules_of(internal_interfaces(*cfg)),
{
    let ifaces = internal_interface_list(cfg);
    let ghost iv = views(ifaces@);
    let mut r: Vec<String> = Vec::new();
    let mut i: usize = 0;
    while i < ifaces.len()
        invariant
            i <= ifaces.len(),
            iv == views(ifaces@),
            views(r@) == forward_rules_of(iv.subrange(0, i as int)),
        decreases ifaces.len() - i,
    {
        assert(iv.subrange(0, i + 1).drop_last() =~= iv.subrange(0, i as int));
        r.push(rule_for("-i ", &ifaces[i], " -j ACCEPT"));
        r.push(rule_for("-o ", &ifaces[i], " -j ACCEPT"));
        assert(views(r@) =~= forward_rules_of(iv.subrange(0, i + 1)));
        i = i + 1;
    }
    assert(iv.subrange(0, ifaces.len() as int) =~= iv);
    r
}

/// Contents of the post-routing chain.
pub fn postrouting_chain_rules(cfg: &Config) -> (r: Vec<String>)
    ensures
        views(r@) == postrouting_rules(*cfg),
{
    let wans = cfg.network.wan_interfaces();
    let ghost wv = views(wans@);
    let mut r: Vec<String> = Vec::new();
    let mut i: usize = 0;
    while i < wans.len()
        invariant
            i <= wans.len(),
            wv == views(wans@),
            wv == wan_names(cfg.network.wans@),
            views(r@) == rules_for(wv.subrange(0, i as int), "-o "@, " -j MASQUERADE"@),
        decreases wans.len() - i,
    {
        assert(wv.subrange(0, i + 1).drop_last() =~= wv.subrange(0, i as int));
        r.push(rule_for("-o ", &wans[i], " -j MASQUERADE"));
        assert(views(r@) =~= rules_for(wv.subrange(0, i + 1), "-o "@, " -j MASQUERADE"@));
        i = i + 1;
    }
    assert(wv.subrange(0, wans.len() as int) =~= wv);
    if cfg.wireguard.enabled {
        r.push(rule_for("-o ", &cfg.wireguard.interface, " -j MASQUERADE"));
    }
    assert(views(r@) =~= postrouting_rules(*cfg));
    r
}

fn chain_setup(table: Table, system_chain: &str, chain: &str, rules: Vec<String>) -> (r: ChainSetup)
    ensures
        r@ == (ChainSetupView { table, system_chain: system_chain@, chain: chain@, rules: views(rules@) }),
        rules@.len() == 0 ==> r@.rules == Seq::<Seq<char>>::empty(),
{
    assert(rules@.len() == 0 ==> views(rules@) =~= Seq::<Seq<char>>::empty());
    ChainSetup { table, system_chain: owned(system_chain), chain: owned(chain), rules }
}

fn policy_setting(chain: &str, policy: &str) -> (r: PolicySetting)
    ensures
        r.table == Table::Filter,
        r.chain@ == chain@,
        r.policy@ == policy@,
{
    PolicySetting { table: Table::Filter, chain: owned(chain), policy: owned(policy) }
}

/// The firewall plan of a configuration.
pub fn firewall_plan(cfg: &Config) -> (r: FirewallPlan)
    ensures
        r@ == plan_of(*cfg),
{
    let mut policies: Vec<PolicySetting> = Vec::new();
    policies.push(policy_setting("INPUT", "DROP"));
    policies.push(policy_setting("OUTPUT", "ACCEPT"));
    policies.push(policy_setting("FORWARD", "ACCEPT"));
    let mut chains: Vec<ChainSetup> = Vec::new();
    chains.push(chain_setup(Table::Filter, "INPUT", "vagabond-input", input_chain_rules(cfg)));
    chains.push(chain_setup(Table::Filter, "FORWARD", "vagabond-forward", forward_chain_rules(cfg)));
    chains.push(chain_setup(Table::Filter, "OUTPUT", "vagabond-output", Vec::new()));
    chains.push(chain_setup(Table::Nat, "PREROUTING", "vagabond-prerouting", Vec::new()));
    chains.push(chain_setup(Table::Nat, "INPUT", "vagabond-input", Vec::new()));
    chains.push(chain_setup(Table::Nat, "OUTPUT", "vagabond-output", Vec::new()));
    chains.push(chain_setup(Table::Nat, "POSTROUTING", "vagabond-postrouting", postrouting_chain_rules(cfg)));
    let r = FirewallPlan { policies, chains };
    assert(r@.policies =~= default_policies());
    assert(r@.chains =~= chain_setups(*cfg));
    r
}

/// The jump rule for a chain.
pub fn jump_rule(chain: &String) -> (r: String)
    ensures
        r@ == jump(chain@),
{
    joined("-j ", chain.as_str())
}

/// The rules of a packet filter: each chain's rules by table and name, and the default
/// policy of each built-in chain.
pub struct RuleState {
    pub chains: Map<(Table, Seq<char>), Seq<Seq<char>>>,
    pub policies: Map<(Table, Seq<char>), Seq<char>>,
}

/// A chain with a rule added at its end, unless the rule is already there.
pub open spec fn append_unique(c: Seq<Seq<char>>, r: Seq<char>) -> Seq<Seq<char>> {
    if c.contains(r) {
        c
    } else {
        c.push(r)
    }
}

/// The rules after one chain setup: the chain holds exactly its rules, and the system chain
/// jumps to it.
pub open spec fn apply_chain(s: RuleState, cs: ChainSetupView) -> RuleState {
    let c1 = s.chains.insert((cs.table, cs.chain), cs.rules);
    RuleState {
        chains: c1.insert(
            (cs.table, cs.system_chain),
            append_unique(c1[(cs.table, cs.system_chain)], jump(cs.chain)),
        ),
        policies: s.policies,
    }
}

/// The rules after a list of chain setups, in order.
pub open spec fn apply_chains(s: RuleState, l: Seq<ChainSetupView>) -> RuleState
    decreases l.len(),
{
    if l.len() == 0 {
        s
    } else {
        apply_chain(apply_chains(s, l.drop_last()), l.last())
    }
}

/// The rules after setting a list of policies, in order.
pub open spec fn apply_policies(s: RuleState, p: Seq<(Table, Seq<char>, Seq<char>)>) -> RuleState
    decreases p.len(),
{
    if p.len() == 0 {
        s
    } else {
        let q = apply_policies(s, p.drop_last());
        let (t, c, v) = p.last();
        RuleState { chains: q.chains, policies: q.policies.insert((t, c), v) }
    }
}

/// The rules after carrying out a plan.
pub open spec fn apply_plan(s: RuleState, p: PlanView) -> RuleState {
    apply_chains(apply_policies(s, p.policies), p.chains)
}

/// The built-in chains that the plan jumps from exist.
pub open spec fn has_system_chains(s: RuleState, l: Seq<ChainSetupView>) -> bool {
    forall|i: int| 0 <= i < l.len() ==> s.chains.contains_key((#[trigger] l[i].table, l[i].system_chain))
}

/// No chain of the plan is set up twice, and none is also a chain jumped from.
pub open spec fn setups_disjoint(l: Seq<ChainSetupView>) -> bool {
    &&& forall|i: int, j: int| 0 <= i < j < l.len() ==> (#[trigger] l[i].table, l[i].chain) != (#[trigger] l[j].table, l[j].chain)
    &&& forall|i: int, j: int| 0 <= i < l.len() && 0 <= j < l.len() ==> (#[trigger] l[i].table, l[i].chain) != (#[trigger] l[j].table, l[j].system_chain)
}

/// Each chain of the plan holds its rules and is jumped to.
pub open spec fn setups_hold(s: RuleState, l: Seq<ChainSetupView>) -> bool {
    forall|i: int| 0 <= i < l.len() ==> {
        &&& s.chains.contains_key((#[trigger] l[i].table, l[i].chain))
        &&& s.chains[(l[i].table, l[i].chain)] == l[i].rules
        &&& s.chains.contains_key((l[i].table, l[i].system_chain))
        &&& s.chains[(l[i].table, l[i].system_chain)].contains(jump(l[i].chain))
    }
}

proof fn lemma_chains_keep_policies_and_keys(s: RuleState, l: Seq<ChainSetupView>)
    ensures
        apply_chains(s, l).policies == s.policies,
        forall|k: (Table, Seq<char>)| s.chains.contains_key(k) ==> #[trigger] apply_chains(s, l).chains.contains_key(k),
    decreases l.len(),
{
    if l.len() > 0 {
        lemma_chains_keep_policies_and_keys(s, l.drop_last());
    }
}

proof fn lemma_chains_establish(s: RuleState, l: Seq<ChainSetupView>)
    requires
        has_system_chains(s, l),
        setups_disjoint(l),
    ensures
        setups_hold(apply_chains(s, l), l),
    decreases l.len(),
{
    if l.len() > 0 {
        let l0 = l.drop_last();
        assert(has_system_chains(s, l0)) by {
            assert forall|i: int| 0 <= i < l0.len() implies s.chains.contains_key((#[trigger] l0[i].table, l0[i].system_chain)) by {
                assert(l0[i] == l[i]);
            }
        }
        assert(setups_disjoint(l0)) by {
            assert forall|i: int, j: int| 0 <= i < j < l0.len() implies (#[trigger] l0[i].table, l0[i].chain) != (#[trigger] l0[j].table, l0[j].chain) by {
                assert(l0[i] == l[i] && l0[j] == l[j]);
            }
            assert forall|i: int, j: int| 0 <= i < l0.len() && 0 <= j < l0.len() implies (#[trigger] l0[i].table, l0[i].chain) != (#[trigger] l0[j].table, l0[j].system_chain) by {
                assert(l0[i] == l[i] && l0[j] == l[j]);
            }
        }
        lemma_chains_establish(s, l0);
        lemma_chains_keep_policies_and_keys(s, l0);
        let m = apply_chains(s, l0);
        let last = l.last();
        let n = l.len() - 1;
        assert(m.chains.contains_key((last.table, last.system_chain))) by {
            assert(s.chains.contains_key((l[n].table, l[n].system_chain)));
        }
        let r = apply_chains(s, l);
        assert forall|i: int| 0 <= i < l.len() implies {
            &&& r.chains.contains_key((#[trigger] l[i].table, l[i].chain))
            &&& r.chains[(l[i].table, l[i].chain)] == l[i].rules
            &&& r.chains.contains_key((l[i].table, l[i].system_chain))
            &&& r.chains[(l[i].table, l[i].system_chain)].contains(jump(l[i].chain))
        } by {
            if i < n {
                assert(l0[i] == l[i]);
                assert((l[i].table, l[i].chain) != (l[n].table, l[n].chain));
                assert((l[i].table, l[i].chain) != (l[n].table, l[n].system_chain));
                assert((l[n].table, l[n].chain) != (l[i].table, l[i].system_chain));
                let sk = (l[i].table, l[i].system_chain);
                if sk == (l[n].table, l[n].system_chain) {
                    let old_c = m.chains[sk];
                    assert(old_c.contains(jump(l[i].chain)));
                    let new_c = append_unique(old_c, jump(l[n].chain));
                    if !old_c.contains(jump(l[n].chain)) {
                        let w = choose|w: int| 0 <= w < old_c.len() && old_c[w] == jump(l[i].chain);
                        assert(new_c[w] == jump(l[i].chain));
                    }
                }
            } else {
                assert((l[n].table, l[n].chain) != (l[n].table, l[n].system_chain));
                let c = append_unique(m.chains[(last.table, last.system_chain)], jump(last.chain));
                if !m.chains[(last.table, last.system_chain)].contains(jump(last.chain)) {
                    assert(c[c.len() - 1] == jump(last.chain));
                }
            }
        }
    }
}

proof fn lemma_chains_fixpoint(s: RuleState, l: Seq<ChainSetupView>)
    requires
        setups_hold(s, l),
    ensures
        apply_chains(s, l) == s,
    decreases l.len(),
{
    if l.len() > 0 {
        let l0 = l.drop_last();
        assert(setups_hold(s, l0)) by {
            assert forall|i: int| 0 <= i < l0.len() implies {
                &&& s.chains.contains_key((#[trigger] l0[i].table, l0[i].chain))
                &&& s.chains[(l0[i].table, l0[i].chain)] == l0[i].rules
                &&& s.chains.contains_key((l0[i].table, l0[i].system_chain))
                &&& s.chains[(l0[i].table, l0[i].system_chain)].contains(jump(l0[i].chain))
            } by {
                assert(l0[i] == l[i]);
            }
        }
        lemma_chains_fixpoint(s, l0);
        let last = l.last();
        assert(s.chains.contains_key((l[l.len() - 1].table, l[l.len() - 1].chain)));
        let c1 = s.chains.insert((last.table, last.chain), last.rules);
        assert(c1 =~= s.chains);
        let r = apply_chain(s, last);
        assert(r.chains =~= s.chains);
    }
}

proof fn lemma_default_policies_effect(s: RuleState)
    ensures
        apply_policies(s, default_policies()) == (RuleState {
            chains: s.chains,
            policies: s.policies.insert((Table::Filter, "INPUT"@), "DROP"@).insert(
                (Table::Filter, "OUTPUT"@),
                "ACCEPT"@,
            ).insert((Table::Filter, "FORWARD"@), "ACCEPT"@),
        }),
{
    let p = default_policies();
    let two = p.drop_last();
    let one = two.drop_last();
    let none = one.drop_last();
    assert(none =~= Seq::<(Table, Seq<char>, Seq<char>)>::empty());
    assert(apply_policies(s, none) == s);
    assert(one.last() == (Table::Filter, "INPUT"@, "DROP"@));
    assert(two.last() == (Table::Filter, "OUTPUT"@, "ACCEPT"@));
    assert(p.last() == (Table::Filter, "FORWARD"@, "ACCEPT"@));
    let after_one = apply_policies(s, one);
    assert(after_one.chains == s.chains && after_one.policies == s.policies.insert((Table::Filter, "INPUT"@), "DROP"@));
    let after_two = apply_policies(s, two);
    assert(after_two.chains == s.chains && after_two.policies == after_one.policies.insert((Table::Filter, "OUTPUT"@), "ACCEPT"@));
    let after_all = apply_policies(s, p);
    assert(after_all.chains == s.chains && after_all.policies == after_two.policies.insert((Table::Filter, "FORWARD"@), "ACCEPT"@));
}

proof fn lemma_default_policies_fixpoint(s: RuleState)
    ensures
        apply_policies(apply_policies(s, default_policies()), default_policies()) == apply_policies(s, default_policies()),
        apply_policies(s, default_policies()).chains == s.chains,
{
    lemma_default_policies_effect(s);
    let a = apply_policies(s, default_policies());
    lemma_default_policies_effect(a);
    reveal_strlit("INPUT");
    reveal_strlit("OUTPUT");
    reveal_strlit("FORWARD");
    assert("INPUT"@.len() != "OUTPUT"@.len() && "OUTPUT"@.len() != "FORWARD"@.len() && "INPUT"@.len() != "FORWARD"@.len());
    let b = apply_policies(a, default_policies());
    assert(b.policies =~= a.policies);
}

/// Setting the default policies where they already hold changes nothing.
proof fn lemma_policies_hold(s: RuleState, t: RuleState)
    requires
        t.policies == apply_policies(s, default_policies()).policies,
    ensures
        apply_policies(t, default_policies()) == t,
{
    lemma_default_policies_effect(s);
    lemma_default_policies_effect(t);
    reveal_strlit("INPUT");
    reveal_strlit("OUTPUT");
    reveal_strlit("FORWARD");
    assert("INPUT"@.len() != "OUTPUT"@.len() && "OUTPUT"@.len() != "FORWARD"@.len() && "INPUT"@.len() != "FORWARD"@.len());
    assert(apply_policies(t, default_policies()).policies =~= t.policies);
}

/// The names of the plan's chains differ from each other and from the built-in ones.
proof fn lemma_plan_disjoint(cfg: Config)
    ensures
        setups_disjoint(chain_setups(cfg)),
{
    reveal_strlit("INPUT");
    reveal_strlit("OUTPUT");
    reveal_strlit("FORWARD");
    reveal_strlit("PREROUTING");
    reveal_strlit("POSTROUTING");
    reveal_strlit("vagabond-input");
    reveal_strlit("vagabond-output");
    reveal_strlit("vagabond-forward");
    reveal_strlit("vagabond-prerouting");
    reveal_strlit("vagabond-postrouting");
    let l = chain_setups(cfg);
    assert forall|i: int, j: int| 0 <= i < j < l.len() implies (#[trigger] l[i].table, l[i].chain) != (#[trigger] l[j].table, l[j].chain) by {
        assert(l[i].table != l[j].table || l[i].chain.len() != l[j].chain.len());
    }
    assert forall|i: int, j: int| 0 <= i < l.len() && 0 <= j < l.len() implies (#[trigger] l[i].table, l[i].chain) != (#[trigger] l[j].table, l[j].system_chain) by {
        assert(l[i].chain.len() != l[j].system_chain.len());
    }
}

/// Setting up the firewall twice leaves the same rules as setting it up once: no jump is
/// added to a built-in chain twice, and every chain of this daemon is rebuilt alike.
pub proof fn lemma_firewall_idempotent(cfg: Config, s: RuleState)
    requires
        has_system_chains(s, chain_setups(cfg)),
    ensures
        apply_plan(apply_plan(s, plan_of(cfg)), plan_of(cfg)) == apply_plan(s, plan_of(cfg)),
{
    let l = chain_setups(cfg);
    let p = default_policies();
    let a = apply_policies(s, p);
    lemma_default_policies_fixpoint(s);
    assert(has_system_chains(a, l));
    lemma_plan_disjoint(cfg);
    lemma_chains_establish(a, l);
    let once = apply_chains(a, l);
    lemma_chains_keep_policies_and_keys(a, l);
    let a2 = apply_policies(once, p);
    lemma_policies_hold(s, once);
    assert(a2 == once);
    lemma_chains_fixpoint(once, l);
}

/// After the firewall setup, each chain of this daemon holds exactly the rules the plan
/// gives it.
pub proof fn lemma_firewall_chains(cfg: Config, s: RuleState)
    requires
        has_system_chains(s, chain_setups(cfg)),
    ensures
        setups_hold(apply_plan(s, plan_of(cfg)), chain_setups(cfg)),
{
    let l = chain_setups(cfg);
    lemma_default_policies_fixpoint(s);
    lemma_plan_disjoint(cfg);
    lemma_chains_establish(apply_policies(s, default_policies()), l);
}

/// How many times a rule occurs in a chain.
pub open spec fn count_of(c: Seq<Seq<char>>, x: Seq<char>) -> nat
    decreases c.len(),
{
    if c.len() == 0 {
        0
    } else {
        count_of(c.drop_last(), x) + if c.last() == x { 1nat } else { 0nat }
    }
}

proof fn lemma_count_concat(a: Seq<Seq<char>>, b: Seq<Seq<char>>, x: Seq<char>)
    ensures
        count_of(a + b, x) == count_of(a, x) + count_of(b, x),
    decreases b.len(),
{
    if b.len() == 0 {
        assert(a + b =~= a);
    } else {
        assert((a + b).drop_last() =~= a + b.drop_last());
        lemma_count_concat(a, b.drop_last(), x);
    }
}

proof fn lemma_wrap_injective(p: Seq<char>, a: Seq<char>, b: Seq<char>, sfx: Seq<char>)
    requires
        p + a + sfx == p + b + sfx,
    ensures
        a == b,
{
    let whole = p + a + sfx;
    assert(whole.len() == p.len() + a.len() + sfx.len());
    assert((p + b + sfx).len() == p.len() + b.len() + sfx.len());
    assert(a.len() == b.len());
    assert forall|k: int| 0 <= k < a.len() implies a[k] == b[k] by {
        assert(whole[p.len() + k] == a[k]);
        assert((p + b + sfx)[p.len() + k] == b[k]);
    }
    assert(a =~= b);
}

proof fn lemma_count_rules_for(ifs: Seq<Seq<char>>, p: Seq<char>, sfx: Seq<char>, x: Seq<char>)
    ensures
        count_of(rules_for(ifs, p, sfx), p + x + sfx) == count_of(ifs, x),
        rules_for(ifs, p, sfx).len() == ifs.len(),
    decreases ifs.len(),
{
    if ifs.len() > 0 {
        lemma_count_rules_for(ifs.drop_last(), p, sfx, x);
        assert(rules_for(ifs, p, sfx).drop_last() == rules_for(ifs.drop_last(), p, sfx));
        if p + ifs.last() + sfx == p + x + sfx {
            lemma_wrap_injective(p, ifs.last(), x, sfx);
        }
    }
}

/// With the LAN enabled, the input chain accepts traffic from the LAN interface by exactly
/// one rule, after one setup and after a second one, provided no other internal interface,
/// nor the loopback, has its name. The built-in chains exist in every kernel table; the
/// filter tool fails without them.
pub proof fn lemma_lan_accepted_once(cfg: Config, s: RuleState)
    requires
        has_system_chains(s, chain_setups(cfg)),
        cfg.network.lan.enabled,
        cfg.network.lan.interface@ != "lo"@,
        cfg.network.wlan.enabled ==> cfg.network.wlan.interface@ != cfg.network.lan.interface@,
        cfg.wireguard.enabled ==> cfg.wireguard.interface@ != cfg.network.lan.interface@,
    ensures
        count_of(
            apply_plan(s, plan_of(cfg)).chains[(Table::Filter, "vagabond-input"@)],
            accept_in(cfg.network.lan.interface@),
        ) == 1,
        count_of(
            apply_plan(apply_plan(s, plan_of(cfg)), plan_of(cfg)).chains[(Table::Filter, "vagabond-input"@)],
            accept_in(cfg.network.lan.interface@),
        ) == 1,
{
    lemma_firewall_idempotent(cfg, s);
    lemma_firewall_chains(cfg, s);
    let l = chain_setups(cfg);
    assert(l[0].table == Table::Filter && l[0].chain == "vagabond-input"@);
    let lan = cfg.network.lan.interface@;
    let x = accept_in(lan);
    let g = global_input_rules();
    let ifs = internal_interfaces(cfg);
    lemma_count_concat(g, rules_for(ifs, "-i "@, " -j ACCEPT"@), x);
    lemma_count_rules_for(ifs, "-i "@, " -j ACCEPT"@, lan);
    // None of the three leading rules is the LAN's rule.
    reveal_strlit("-i ");
    reveal_strlit(" -j ACCEPT");
    reveal_strlit("-i lo -j ACCEPT");
    reveal_strlit("lo");
    reveal_strlit("-d 127.0.0.0/8 -j REJECT");
    reveal_strlit("-m state --state ESTABLISHED,RELATED -j ACCEPT");
    assert("-i lo -j ACCEPT"@ =~= "-i "@ + "lo"@ + " -j ACCEPT"@);
    if x == "-i lo -j ACCEPT"@ {
        lemma_wrap_injective("-i "@, lan, "lo"@, " -j ACCEPT"@);
    }
    assert(x[1] == 'i');
    assert(x != "-d 127.0.0.0/8 -j REJECT"@) by {
        assert("-d 127.0.0.0/8 -j REJECT"@[1] == 'd');
    }
    assert(x != "-m state --state ESTABLISHED,RELATED -j ACCEPT"@) by {
        assert("-m state --state ESTABLISHED,RELATED -j ACCEPT"@[1] == 'm');
    }
    let g2 = g.drop_last();
    let g1 = g2.drop_last();
    assert(g1.drop_last() =~= Seq::<Seq<char>>::empty());
    assert(g1.len() == 1 && g1.last() == "-i lo -j ACCEPT"@);
    assert(x != "-i lo -j ACCEPT"@);
    assert(count_of(g1.drop_last(), x) == 0);
    assert(count_of(g1, x) == 0);
    assert(count_of(g2, x) == 0);
    assert(count_of(g, x) == 0);
    // The LAN's name occurs once among the internal interfaces.
    let a: Seq<Seq<char>> = seq![lan];
    let w: Seq<Seq<char>> = if cfg.network.wlan.enabled { seq![cfg.network.wlan.interface@] } else { Seq::empty() };
    let t: Seq<Seq<char>> = if cfg.wireguard.enabled { seq![cfg.wireguard.interface@] } else { Seq::empty() };
    assert(ifs == a + w + t);
    lemma_count_concat(a + w, t, lan);
    lemma_count_concat(a, w, lan);
    assert(a.drop_last() =~= Seq::<Seq<char>>::empty());
    if cfg.network.wlan.enabled {
        assert(w.drop_last() =~= Seq::<Seq<char>>::empty());
    }
    if cfg.wireguard.enabled {
        assert(t.drop_last() =~= Seq::<Seq<char>>::empty());
    }
    assert(count_of(ifs, lan) == 1);
}

proof fn lemma_wan_names_len(w: Seq<crate::config::NetworkWan>)
    ensures
        wan_names(w).len() == w.len(),
    decreases w.len(),
{
    if w.len() > 0 {
        lemma_wan_names_len(w.drop_last());
    }
}

/// After the firewall setup, the post-routing chain holds one masquerade rule per uplink,
/// in order, and one more for the tunnel when it is enabled, and nothing else.
pub proof fn lemma_masquerade_per_uplink(cfg: Config, s: RuleState)
    requires
        has_system_chains(s, chain_setups(cfg)),
    ensures
        ({
            let c = apply_plan(s, plan_of(cfg)).chains[(Table::Nat, "vagabond-postrouting"@)];
            &&& c.len() == cfg.network.wans@.len() + (if cfg.wireguard.enabled { 1int } else { 0int })
            &&& forall|i: int| 0 <= i < cfg.network.wans@.len() ==> #[trigger] c[i] == masquerade(cfg.network.wans@[i].name_spec())
            &&& cfg.wireguard.enabled ==> c[c.len() - 1] == masquerade(cfg.wireguard.interface@)
        }),
{
    lemma_firewall_chains(cfg, s);
    let l = chain_setups(cfg);
    assert(l[6].table == Table::Nat && l[6].chain == "vagabond-postrouting"@);
    let names = wan_names(cfg.network.wans@);
    lemma_wan_names_len(cfg.network.wans@);
    lemma_count_rules_for(names, "-o "@, " -j MASQUERADE"@, Seq::empty());
    lemma_rules_for_index(names, "-o "@, " -j MASQUERADE"@);
    lemma_wan_names_index(cfg.network.wans@);
}

proof fn lemma_rules_for_index(ifs: Seq<Seq<char>>, p: Seq<char>, sfx: Seq<char>)
    ensures
        rules_for(ifs, p, sfx).len() == ifs.len(),
        forall|i: int| 0 <= i < ifs.len() ==> #[trigger] rules_for(ifs, p, sfx)[i] == p + ifs[i] + sfx,
    decreases ifs.len(),
{
    if ifs.len() > 0 {
        lemma_rules_for_index(ifs.drop_last(), p, sfx);
        assert forall|i: int| 0 <= i < ifs.len() implies #[trigger] rules_for(ifs, p, sfx)[i] == p + ifs[i] + sfx by {
            if i < ifs.len() - 1 {
                assert(ifs.drop_last()[i] == ifs[i]);
            }
        }
    }
}

proof fn lemma_wan_names_index(w: Seq<crate::config::NetworkWan>)
    ensures
        forall|i: int| 0 <= i < w.len() ==> #[trigger] wan_names(w)[i] == w[i].name_spec(),
    decreases w.len(),
{
    if w.len() > 0 {
        lemma_wan_names_index(w.drop_last());
        lemma_wan_names_len(w.drop_last());
        assert forall|i: int| 0 <= i < w.len() implies #[trigger] wan_names(w)[i] == w[i].name_spec() by {
            if i < w.len() - 1 {
                assert(w.drop_last()[i] == w[i]);
            }
        }
    }
}

/// A rule that names an interface: accepting from it, accepting to it, or masquerading
/// behind it.
pub open spec fn names_interface(r: Seq<char>, iface: Seq<char>) -> bool {
    r == accept_in(iface) || r == accept_out(iface) || r == masquerade(iface)
}

/// A rule is either one of the fixed input rules or names an interface that the daemon
/// manages or the enabled tunnel.
pub open spec fn rule_names_visible(r: Seq<char>, cfg: Config) -> bool {
    global_input_rules().contains(r) || exists|i: Seq<char>| #[trigger] cfg.visible_spec().contains(i) && names_interface(r, i)
}

proof fn lemma_forward_rules_index(ifs: Seq<Seq<char>>)
    ensures
        forward_rules_of(ifs).len() == 2 * ifs.len(),
        forall|j: int| 0 <= j < 2 * ifs.len() ==> #[trigger] forward_rules_of(ifs)[j] == (if j % 2 == 0 {
            accept_in(ifs[j / 2])
        } else {
            accept_out(ifs[j / 2])
        }),
    decreases ifs.len(),
{
    if ifs.len() > 0 {
        let f0 = forward_rules_of(ifs.drop_last());
        lemma_forward_rules_index(ifs.drop_last());
        assert forall|j: int| 0 <= j < 2 * ifs.len() implies #[trigger] forward_rules_of(ifs)[j] == (if j % 2 == 0 {
            accept_in(ifs[j / 2])
        } else {
            accept_out(ifs[j / 2])
        }) by {
            if j < 2 * (ifs.len() - 1) {
                assert(forward_rules_of(ifs)[j] == f0[j]);
                assert(ifs.drop_last()[j / 2] == ifs[j / 2]);
            }
        }
    }
}

proof fn lemma_internal_visible(cfg: Config)
    ensures
        forall|k: int| 0 <= k < internal_interfaces(cfg).len() ==> cfg.visible_spec().contains(#[trigger] internal_interfaces(cfg)[k]),
{
    let w = wan_names(cfg.network.wans@);
    lemma_wan_names_len(cfg.network.wans@);
    let v = cfg.visible_spec();
    let lan = cfg.network.lan.interface@;
    let wlan = cfg.network.wlan.interface@;
    let wg = cfg.wireguard.interface@;
    let nl: int = if cfg.network.lan.enabled { 1 } else { 0 };
    let nw: int = if cfg.network.wlan.enabled { 1 } else { 0 };
    if cfg.network.lan.enabled {
        assert(v[w.len() as int] == lan);
    }
    if cfg.network.wlan.enabled {
        assert(v[w.len() + nl] == wlan);
    }
    if cfg.wireguard.enabled {
        assert(v[w.len() + nl + nw] == wg);
    }
    let ifs = internal_interfaces(cfg);
    assert forall|k: int| 0 <= k < ifs.len() implies v.contains(#[trigger] ifs[k]) by {
        if k == 0 && cfg.network.lan.enabled {
            assert(ifs[k] == lan);
        } else if k == nl && cfg.network.wlan.enabled {
            assert(ifs[k] == wlan);
        } else {
            assert(cfg.wireguard.enabled && k == nl + nw);
            assert(ifs[k] == wg);
        }
    }
}

/// Every rule that the firewall setup writes is one of the fixed input rules or names an
/// interface that the daemon manages (an uplink, the LAN or WLAN when enabled) or the
/// tunnel when enabled.
pub proof fn lemma_rules_name_visible_interfaces(cfg: Config)
    ensures
        forall|k: int, j: int|
            0 <= k < chain_setups(cfg).len() && 0 <= j < chain_setups(cfg)[k].rules.len() ==> rule_names_visible(
                #[trigger] chain_setups(cfg)[k].rules[j],
                cfg,
            ),
{
    let l = chain_setups(cfg);
    let ifs = internal_interfaces(cfg);
    let v = cfg.visible_spec();
    let w = wan_names(cfg.network.wans@);
    lemma_internal_visible(cfg);
    lemma_forward_rules_index(ifs);
    lemma_rules_for_index(ifs, "-i "@, " -j ACCEPT"@);
    lemma_rules_for_index(w, "-o "@, " -j MASQUERADE"@);
    lemma_wan_names_len(cfg.network.wans@);
    assert forall|k: int, j: int| 0 <= k < l.len() && 0 <= j < l[k].rules.len() implies rule_names_visible(
        #[trigger] l[k].rules[j],
        cfg,
    ) by {
        let r = l[k].rules[j];
        let g = global_input_rules();
        if k == 0 {
            if j < 3 {
                assert(r == g[j]);
            } else {
                let x = ifs[j - 3];
                assert(r == accept_in(x));
                assert(v.contains(x));
            }
        } else if k == 1 {
            let x = ifs[j / 2];
            assert(v.contains(x));
            assert(names_interface(r, x));
        } else if k == 6 {
            if j < w.len() {
                let x = w[j];
                assert(r == masquerade(x));
                assert(v[j] == x);
                assert(v.contains(x));
            } else {
                let x = cfg.wireguard.interface@;
                assert(r == masquerade(x));
                assert(v[v.len() - 1] == x);
                assert(v.contains(x));
            }
        }
    }
}

} // verus!
