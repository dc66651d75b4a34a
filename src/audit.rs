use vstd::prelude::*;
use vstd::string::StringExecFns;

use crate::address::{address_parses, address_string, is_id_key, parse_address, ID_PROTOCOL};
use crate::amount::{decimal_text, TokenAmount};
use crate::manifest::{find_latest, latest_map, pairs_view, ActorKind, Manifest};

verus! {

/// One entry of the state tree.
#[derive(Clone, Debug)]
pub struct Actor {
    /// Bytes of the content hash of the actor kind's code.
    pub code: Vec<u8>,
    /// Bytes of the content hash of the actor's state.
    pub head: Vec<u8>,
    pub call_seq_num: u64,
    pub balance: TokenAmount,
}

/// What an `Actor` stands for in contracts.
pub struct ActorModel {
    pub code: Seq<u8>,
    pub head: Seq<u8>,
    pub call_seq_num: u64,
    pub balance: int,
}

impl View for Actor {
    type V = ActorModel;

    open spec fn view(&self) -> ActorModel {
        ActorModel {
            code: self.code@,
            head: self.head@,
            call_seq_num: self.call_seq_num,
            balance: self.balance@,
        }
    }
}

/// What the checker of an actor's kind made of its state.
#[derive(Debug)]
pub enum StateCheck<S> {
    /// The state blob at the actor's head is not in the store.
    Missing,
    /// The checker's summary of the state and its findings.
    Checked { summary: S, messages: Vec<String> },
}

/// What a `StateCheck` stands for in contracts.
pub enum CheckModel<S> {
    Missing,
    Checked { summary: S, messages: Seq<Seq<char>> },
}

/// A sequence of strings as character sequences.
pub open spec fn texts_view(v: Seq<String>) -> Seq<Seq<char>> {
    v.map_values(|s: String| s@)
}

impl<S> View for StateCheck<S> {
    type V = CheckModel<S>;

    open spec fn view(&self) -> CheckModel<S> {
        match self {
            StateCheck::Missing => CheckModel::Missing,
            StateCheck::Checked { summary, messages } => CheckModel::Checked {
                summary: *summary,
                messages: texts_view(messages@),
            },
        }
    }
}

/// Summaries gathered per kind: one for a singleton kind, one per address
/// for miners, and a list in traversal order for the other kinds.
#[derive(Debug)]
pub struct StateSummaries<S> {
    pub init: Option<S>,
    pub cron: Option<S>,
    pub accounts: Vec<S>,
    pub power: Option<S>,
    /// Pairs of address key and summary; a later pair for the same key
    /// replaces an earlier one.
    pub miners: Vec<(Vec<u8>, S)>,
    pub market: Option<S>,
    pub paych: Vec<S>,
    pub multisig: Vec<S>,
    pub reward: Option<S>,
    pub verifreg: Option<S>,
}

/// What `StateSummaries` stand for in contracts.
pub struct SummariesModel<S> {
    pub init: Option<S>,
    pub cron: Option<S>,
    pub accounts: Seq<S>,
    pub power: Option<S>,
    pub miners: Seq<(Seq<u8>, S)>,
    pub market: Option<S>,
    pub paych: Seq<S>,
    pub multisig: Seq<S>,
    pub reward: Option<S>,
    pub verifreg: Option<S>,
}

impl<S> View for StateSummaries<S> {
    type V = SummariesModel<S>;

    open spec fn view(&self) -> SummariesModel<S> {
        SummariesModel {
            init: self.init,
            cron: self.cron,
            accounts: self.accounts@,
            power: self.power,
            miners: pairs_view(self.miners@),
            market: self.market,
            paych: self.paych@,
            multisig: self.multisig@,
            reward: self.reward,
            verifreg: self.verifreg,
        }
    }
}

/// The report of an audit, and the state of one under way.
#[derive(Debug)]
pub struct Report<S> {
    /// Diagnostics in the order they were produced.
    pub diagnostics: Vec<String>,
    pub summaries: StateSummaries<S>,
    /// Sum of the balances of the actors visited.
    pub total_balance: TokenAmount,
}

/// What a `Report` stands for in contracts.
pub struct ReportModel<S> {
    pub diagnostics: Seq<Seq<char>>,
    pub summaries: SummariesModel<S>,
    pub total_balance: int,
}

impl<S> View for Report<S> {
    type V = ReportModel<S>;

    open spec fn view(&self) -> ReportModel<S> {
        ReportModel {
            diagnostics: texts_view(self.diagnostics@),
            summaries: self.summaries@,
            total_balance: self.total_balance@,
        }
    }
}

/// A structural fault of the tree: the audit stops at the first one.
#[derive(Clone, Debug, PartialEq, Eq)]
pub enum AuditError {
    /// A key that does not decode to an address.
    MalformedAddress { key: Vec<u8> },
    /// An actor whose code identity is not in the manifest.
    UnknownCode { address: Vec<u8>, code: Vec<u8> },
    /// An actor of a kind with state whose state blob is absent.
    MissingState { address: Vec<u8>, kind: ActorKind },
}

/// What an `AuditError` stands for in contracts.
pub enum AuditFault {
    MalformedAddress { key: Seq<u8> },
    UnknownCode { address: Seq<u8>, code: Seq<u8> },
    MissingState { address: Seq<u8>, kind: ActorKind },
}

impl View for AuditError {
    type V = AuditFault;

    open spec fn view(&self) -> AuditFault {
        match self {
            AuditError::MalformedAddress { key } => AuditFault::MalformedAddress { key: key@ },
            AuditError::UnknownCode { address, code } => AuditFault::UnknownCode {
                address: address@,
                code: code@,
            },
            AuditError::MissingState { address, kind } => AuditFault::MissingState {
                address: address@,
                kind: *kind,
            },
        }
    }
}

/// The outcome of an audit as it stands in contracts.
pub open spec fn result_view<S>(r: Result<Report<S>, AuditError>) -> Result<ReportModel<S>, AuditFault> {
    match r {
        Ok(rep) => Ok(rep@),
        Err(e) => Err(e@),
    }
}

/// The scope name under which a kind's checker findings are reported.
pub open spec fn kind_label(k: ActorKind) -> Seq<char> {
    match k {
        ActorKind::System => "system: "@,
        ActorKind::Init => "init: "@,
        ActorKind::Cron => "cron: "@,
        ActorKind::Account => "account: "@,
        ActorKind::Power => "power: "@,
        ActorKind::Miner => "miner: "@,
        ActorKind::Market => "market: "@,
        ActorKind::PaymentChannel => "paych: "@,
        ActorKind::Multisig => "multisig: "@,
        ActorKind::Reward => "reward: "@,
        ActorKind::VerifiedRegistry => "verifreg: "@,
    }
}

/// The scope of an entry's messages: its address text and a space.
pub open spec fn entry_scope(text: Seq<char>) -> Seq<char> {
    text + " "@
}

/// The finding for an address of another protocol than ID.
pub open spec fn protocol_message(text: Seq<char>) -> Seq<char> {
    entry_scope(text) + "unexpected address protocol in state tree root: "@ + text
}

/// The finding for a second actor of a singleton kind.
pub open spec fn duplicate_message(text: Seq<char>, k: ActorKind) -> Seq<char> {
    entry_scope(text) + kind_label(k) + "more than one actor of this kind"@
}

/// The finding for a total of balances other than the expected one.
pub open spec fn mismatch_message(total: int, expected: int) -> Seq<char> {
    "total balance "@ + decimal_text(total) + " does not match expected total balance "@
        + decimal_text(expected)
}

/// Every message of `ms` under the prefix `p`.
pub open spec fn prefixed(p: Seq<char>, ms: Seq<Seq<char>>) -> Seq<Seq<char>> {
    Seq::new(ms.len(), |i: int| p + ms[i])
}

/// Whether the slot of singleton kind `k` is already taken.
pub open spec fn holds_singleton<S>(sm: SummariesModel<S>, k: ActorKind) -> bool {
    match k {
        ActorKind::Init => sm.init is Some,
        ActorKind::Cron => sm.cron is Some,
        ActorKind::Power => sm.power is Some,
        ActorKind::Market => sm.market is Some,
        ActorKind::Reward => sm.reward is Some,
        ActorKind::VerifiedRegistry => sm.verifreg is Some,
        _ => false,
    }
}

/// The summaries once `s`, the summary of the actor at `key` of kind `k`,
/// is stored by the rule of its kind.
pub open spec fn store_summary<S>(sm: SummariesModel<S>, k: ActorKind, key: Seq<u8>, s: S) -> SummariesModel<S> {
    match k {
        ActorKind::System => sm,
        ActorKind::Init => SummariesModel { init: Some(s), ..sm },
        ActorKind::Cron => SummariesModel { cron: Some(s), ..sm },
        ActorKind::Account => SummariesModel { accounts: sm.accounts.push(s), ..sm },
        ActorKind::Power => SummariesModel { power: Some(s), ..sm },
        ActorKind::Miner => SummariesModel { miners: sm.miners.push((key, s)), ..sm },
        ActorKind::Market => SummariesModel { market: Some(s), ..sm },
        ActorKind::PaymentChannel => SummariesModel { paych: sm.paych.push(s), ..sm },
        ActorKind::Multisig => SummariesModel { multisig: sm.multisig.push(s), ..sm },
        ActorKind::Reward => SummariesModel { reward: Some(s), ..sm },
        ActorKind::VerifiedRegistry => SummariesModel { verifreg: Some(s), ..sm },
    }
}

/// The diagnostics that the address check adds for an entry.
pub open spec fn protocol_findings(key: Seq<u8>, text: Seq<char>) -> Seq<Seq<char>> {
    if is_id_key(key) {
        Seq::empty()
    } else {
        seq![protocol_message(text)]
    }
}

/// The diagnostics that a checked actor of kind `k` adds.
pub open spec fn kind_findings<S>(st: ReportModel<S>, text: Seq<char>, k: ActorKind, ms: Seq<Seq<char>>) -> Seq<Seq<char>> {
    prefixed(entry_scope(text) + kind_label(k), ms) + if holds_singleton(st.summaries, k) {
        seq![duplicate_message(text, k)]
    } else {
        Seq::empty()
    }
}

/// One entry of the traversal: the address key `key`, rendered as `text`,
/// holds `a`; `c` is what the checker of its kind reported.
pub open spec fn visit_spec<S>(
    st: ReportModel<S>,
    m: Map<Seq<u8>, ActorKind>,
    key: Seq<u8>,
    text: Seq<char>,
    a: ActorModel,
    c: CheckModel<S>,
) -> Result<ReportModel<S>, AuditFault> {
    if !address_parses(key) {
        Err(AuditFault::MalformedAddress { key })
    } else if !m.contains_key(a.code) {
        Err(AuditFault::UnknownCode { address: key, code: a.code })
    } else {
        let k = m[a.code];
        let d = st.diagnostics + protocol_findings(key, text);
        let total = st.total_balance + a.balance;
        if k is System {
            Ok(ReportModel { diagnostics: d, summaries: st.summaries, total_balance: total })
        } else {
            match c {
                CheckModel::Missing => Err(AuditFault::MissingState { address: key, kind: k }),
                CheckModel::Checked { summary, messages } => Ok(ReportModel {
                    diagnostics: d + kind_findings(st, text, k, messages),
                    summaries: store_summary(st.summaries, k, key, summary),
                    total_balance: total,
                }),
            }
        }
    }
}

/// No summary of any kind.
pub open spec fn empty_summaries<S>() -> SummariesModel<S> {
    SummariesModel {
        init: None,
        cron: None,
        accounts: Seq::empty(),
        power: None,
        miners: Seq::empty(),
        market: None,
        paych: Seq::empty(),
        multisig: Seq::empty(),
        reward: None,
        verifreg: None,
    }
}

/// The state of an audit before its first entry.
pub open spec fn empty_report<S>() -> ReportModel<S> {
    ReportModel { diagnostics: Seq::empty(), summaries: empty_summaries(), total_balance: 0 }
}

/// The traversal of the first `n` entries.
pub open spec fn run<S>(
    m: Map<Seq<u8>, ActorKind>,
    entries: Seq<(Seq<u8>, ActorModel)>,
    texts: Seq<Seq<char>>,
    checks: Seq<CheckModel<S>>,
    n: nat,
) -> Result<ReportModel<S>, AuditFault>
    decreases n,
{
    if n == 0 {
        Ok(empty_report())
    } else {
        match run(m, entries, texts, checks, (n - 1) as nat) {
            Err(e) => Err(e),
            Ok(st) => visit_spec(
                st,
                m,
                entries[n - 1].0,
                texts[n - 1],
                entries[n - 1].1,
                checks[n - 1],
            ),
        }
    }
}

/// The cross-actor pass: the total of all balances against the expected one.
pub open spec fn reconcile_spec<S>(st: ReportModel<S>, expected: int) -> ReportModel<S> {
    if st.total_balance == expected {
        st
    } else {
        ReportModel {
            diagnostics: st.diagnostics.push(mismatch_message(st.total_balance, expected)),
            ..st
        }
    }
}

/// A whole audit: the traversal of every entry, then the cross-actor pass.
pub open spec fn audit_spec<S>(
    m: Map<Seq<u8>, ActorKind>,
    entries: Seq<(Seq<u8>, ActorModel)>,
    texts: Seq<Seq<char>>,
    checks: Seq<CheckModel<S>>,
    expected: int,
) -> Result<ReportModel<S>, AuditFault> {
    match run(m, entries, texts, checks, entries.len()) {
        Err(e) => Err(e),
        Ok(st) => Ok(reconcile_spec(st, expected)),
    }
}

/// A copy of a byte string.
pub fn copy_bytes(v: &Vec<u8>) -> (r: Vec<u8>)
    ensures
        r@ == v@,
{
    let r = v.clone();
    assert(r@ =~= v@);
    r
}

fn kind_label_str(k: ActorKind) -> (r: &'static str)
    ensures
        r@ == kind_label(k),
{
    match k {
        ActorKind::System => "system: ",
        ActorKind::Init => "init: ",
        ActorKind::Cron => "cron: ",
        ActorKind::Account => "account: ",
        ActorKind::Power => "power: ",
        ActorKind::Miner => "miner: ",
        ActorKind::Market => "market: ",
        ActorKind::PaymentChannel => "paych: ",
        ActorKind::Multisig => "multisig: ",
        ActorKind::Reward => "reward: ",
        ActorKind::VerifiedRegistry => "verifreg: ",
    }
}

proof fn lemma_texts_push(v: Seq<String>, s: String)
    ensures
        texts_view(v.push(s)) == texts_view(v).push(s@),
{
    assert(texts_view(v.push(s)) =~= texts_view(v).push(s@));
}

/// Appends every message of `ms` under the prefix `p`.
fn push_prefixed(out: &mut Vec<String>, p: &String, ms: &Vec<String>)
    ensures
        texts_view(final(out)@) == texts_view(old(out)@) + prefixed(p@, texts_view(ms@)),
{
    let ghost start = texts_view(out@);
    let ghost all = texts_view(ms@);
    let mut i: usize = 0;
    while i < ms.len()
        invariant
            0 <= i <= ms.len(),
            all == texts_view(ms@),
            texts_view(out@) == start + prefixed(p@, all.take(i as int)),
        decreases ms.len() - i,
    {
        let m = p.clone().concat(ms[i].as_str());
        proof {
            lemma_texts_push(out@, m);
            assert(prefixed(p@, all.take(i as int)).push(m@) =~= prefixed(p@, all.take(i + 1)));
        }
        out.push(m);
        i = i + 1;
    }
    assert(all.take(i as int) =~= all);
}

impl<S> StateSummaries<S> {
    /// No summary of any kind.
    pub fn new() -> (r: StateSummaries<S>)
        ensures
            r@ == empty_summaries::<S>(),
    {
        let r = StateSummaries {
            init: None,
            cron: None,
            accounts: Vec::new(),
            power: None,
            miners: Vec::new(),
            market: None,
            paych: Vec::new(),
            multisig: Vec::new(),
            reward: None,
            verifreg: None,
        };
        assert(r@.miners =~= Seq::empty());
        r
    }

    /// The summary of the miner at `key`: the last one stored for it.
    pub fn miner(&self, key: &Vec<u8>) -> (r: Option<&S>)
        ensures
            r == (if latest_map(self@.miners).contains_key(key@) {
                Some(&latest_map(self@.miners)[key@])
            } else {
                None
            }),
    {
        match find_latest(&self.miners, key) {
            Some(i) => Some(&self.miners[i].1),
            None => None,
        }
    }

    /// Stores the summary of the actor at `key`, of kind `k`, by the rule of
    /// its kind; says whether a singleton kind already had one.
    fn store(&mut self, k: ActorKind, key: &Vec<u8>, summary: S) -> (held: bool)
        ensures
            held == holds_singleton(old(self)@, k),
            final(self)@ == store_summary(old(self)@, k, key@, summary),
    {
        match k {
            ActorKind::System => false,
            ActorKind::Init => {
                let held = self.init.is_some();
                self.init = Some(summary);
                held
            },
            ActorKind::Cron => {
                let held = self.cron.is_some();
                self.cron = Some(summary);
                held
            },
            ActorKind::Account => {
                self.accounts.push(summary);
                false
            },
            ActorKind::Power => {
                let held = self.power.is_some();
                self.power = Some(summary);
                held
            },
            ActorKind::Miner => {
                let ghost before = old(self)@.miners;
                self.miners.push((copy_bytes(key), summary));
                assert(self@.miners =~= before.push((key@, summary)));
                false
            },
            ActorKind::Market => {
                let held = self.market.is_some();
                self.market = Some(summary);
                held
            },
            ActorKind::PaymentChannel => {
                self.paych.push(summary);
                false
            },
            ActorKind::Multisig => {
                self.multisig.push(summary);
                false
            },
            ActorKind::Reward => {
                let held = self.reward.is_some();
                self.reward = Some(summary);
                held
            },
            ActorKind::VerifiedRegistry => {
                let held = self.verifreg.is_some();
                self.verifreg = Some(summary);
                held
            },
        }
    }
}

impl<S> Report<S> {
    /// The state of an audit before any entry: no diagnostics, no
    /// summaries, a zero total.
    pub fn new() -> (r: Report<S>)
        ensures
            r@ == empty_report::<S>(),
    {
        let r = Report {
            diagnostics: Vec::new(),
            summaries: StateSummaries::new(),
            total_balance: TokenAmount::zero(),
        };
        assert(r@.diagnostics =~= Seq::empty());
        r
    }

    /// Visits one entry of the tree: `key` holds `actor`, `key_text` is the
    /// text of its address, and `check` is what the checker of the actor's
    /// kind reported (not read for the system actor).
    pub fn visit(
        &mut self,
        manifest: &Manifest,
        key: &Vec<u8>,
        key_text: &String,
        actor: &Actor,
        check: StateCheck<S>,
    ) -> (r: Result<(), AuditError>)
        ensures
            match visit_spec(old(self)@, manifest.view(), key@, key_text@, actor@, check@) {
                Ok(st) => r is Ok && final(self)@ == st,
                Err(e) => r matches Err(x) && x@ == e,
            },
    {
        if parse_address(key).is_err() {
            return Err(AuditError::MalformedAddress { key: copy_bytes(key) });
        }
        let kind = match manifest.lookup(&actor.code) {
            None => {
                return Err(AuditError::UnknownCode {
                    address: copy_bytes(key),
                    code: copy_bytes(&actor.code),
                });
            },
            Some(k) => k,
        };
        let ghost st = self@;
        let scope = key_text.clone().concat(" ");
        if key[0] != ID_PROTOCOL {
            let m = scope.clone().concat("unexpected address protocol in state tree root: ").concat(
                key_text.as_str(),
            );
            proof {
                lemma_texts_push(self.diagnostics@, m);
            }
            self.diagnostics.push(m);
        }
        assert(self@.diagnostics =~= st.diagnostics + protocol_findings(key@, key_text@));
        self.total_balance = self.total_balance.add(&actor.balance);
        if matches!(kind, ActorKind::System) {
            return Ok(());
        }
        match check {
            StateCheck::Missing => Err(AuditError::MissingState { address: copy_bytes(key), kind }),
            StateCheck::Checked { summary, messages } => {
                let ghost d = self@.diagnostics;
                let p = scope.concat(kind_label_str(kind));
                push_prefixed(&mut self.diagnostics, &p, &messages);
                let held = self.summaries.store(kind, key, summary);
                if held {
                    let m = p.concat("more than one actor of this kind");
                    proof {
                        lemma_texts_push(self.diagnostics@, m);
                    }
                    self.diagnostics.push(m);
                }
                assert(self@.diagnostics =~= d + kind_findings(st, key_text@, kind, texts_view(messages@)));
                Ok(())
            },
        }
    }

    /// The cross-actor pass: reports a mismatch between the total of the
    /// balances visited and `expected`.
    pub fn reconcile(&mut self, expected: &TokenAmount)
        ensures
            final(self)@ == reconcile_spec(old(self)@, expected@),
    {
        if !self.total_balance.same_value(expected) {
            let m = "total balance ".to_owned().concat(self.total_balance.to_decimal().as_str()).concat(
                " does not match expected total balance ",
            ).concat(expected.to_decimal().as_str());
            proof {
                lemma_texts_push(self.diagnostics@, m);
            }
            self.diagnostics.push(m);
        }
    }
}

/// A snapshot of the state tree: address keys and their actors, in the
/// order that the underlying map is walked.
#[derive(Clone, Debug)]
pub struct Tree {
    pub entries: Vec<(Vec<u8>, Actor)>,
}

impl View for Tree {
    type V = Seq<(Seq<u8>, ActorModel)>;

    open spec fn view(&self) -> Seq<(Seq<u8>, ActorModel)> {
        self.entries@.map_values(|e: (Vec<u8>, Actor)| (e.0@, e.1@))
    }
}

/// Checker results as they stand in contracts.
pub open spec fn checks_view<S>(v: Seq<StateCheck<S>>) -> Seq<CheckModel<S>> {
    v.map_values(|c: StateCheck<S>| c@)
}

/// Once the traversal has stopped at a fault, it stays stopped there.
pub proof fn lemma_run_fault_stays<S>(
    m: Map<Seq<u8>, ActorKind>,
    entries: Seq<(Seq<u8>, ActorModel)>,
    texts: Seq<Seq<char>>,
    checks: Seq<CheckModel<S>>,
    i: nat,
    n: nat,
)
    requires
        i <= n,
        run(m, entries, texts, checks, i) is Err,
    ensures
        run(m, entries, texts, checks, n) == run(m, entries, texts, checks, i),
    decreases n,
{
    if n > i {
        lemma_run_fault_stays(m, entries, texts, checks, i, (n - 1) as nat);
    }
}

impl Tree {
    /// Decodes the key of every entry, in traversal order, and gives the
    /// text of each address; stops at the first key that does not decode.
    pub fn for_each(&self) -> (r: Result<Vec<String>, AuditError>)
        ensures
            match r {
                Ok(texts) => texts.len() == self@.len() && forall|i: int|
                    0 <= i < self@.len() ==> #[trigger] address_parses(self@[i].0),
                Err(e) => exists|i: int|
                    0 <= i < self@.len() && !address_parses(self@[i].0) && (forall|j: int|
                        0 <= j < i ==> address_parses(#[trigger] self@[j].0))
                        && e@ == AuditFault::MalformedAddress { key: self@[i].0 },
            },
    {
        let mut texts: Vec<String> = Vec::new();
        let mut i: usize = 0;
        while i < self.entries.len()
            invariant
                0 <= i <= self.entries.len(),
                texts.len() == i,
                forall|j: int| 0 <= j < i ==> address_parses(#[trigger] self@[j].0),
            decreases self.entries.len() - i,
        {
            let key = &self.entries[i].0;
            if parse_address(key).is_err() {
                let e = AuditError::MalformedAddress { key: copy_bytes(key) };
                assert(e@ == AuditFault::MalformedAddress { key: self@[i as int].0 });
                return Err(e);
            }
            texts.push(address_string(key));
            i = i + 1;
        }
        Ok(texts)
    }
}

/// Audits `tree`: `texts` holds the text of each entry's address, and
/// `checks` what the checker of each entry's kind reported.
pub fn audit_tree<S>(
    manifest: &Manifest,
    tree: &Tree,
    texts: &Vec<String>,
    expected_balance_total: &TokenAmount,
    checks: Vec<StateCheck<S>>,
) -> (r: Result<Report<S>, AuditError>)
    requires
        texts.len() == tree@.len(),
        checks.len() == tree@.len(),
    ensures
        result_view(r) == audit_spec(
            manifest.view(),
            tree@,
            texts_view(texts@),
            checks_view(checks@),
            expected_balance_total@,
        ),
{
    let ghost m = manifest.view();
    let ghost t = tree@;
    let ghost tx = texts_view(texts@);
    let ghost cs = checks_view(checks@);
    let n = tree.entries.len();
    let mut report: Report<S> = Report::new();
    let mut rest = checks;
    let mut i: usize = 0;
    while i < n
        invariant
            n == tree.entries.len(),
            m == manifest.view(),
            t == tree@,
            tx == texts_view(texts@),
            texts.len() == n,
            cs.len() == n,
            cs == checks_view(checks@),
            0 <= i <= n,
            rest.len() == n - i,
            forall|j: int| 0 <= j < rest.len() ==> (#[trigger] rest@[j])@ == cs[i + j],
            run(m, t, tx, cs, i as nat) == Ok::<ReportModel<S>, AuditFault>(report@),
        decreases n - i,
    {
        let ghost before = report@;
        let c = rest.remove(0);
        proof {
            assert(run(m, t, tx, cs, (i + 1) as nat) == visit_spec(
                before,
                m,
                t[i as int].0,
                tx[i as int],
                t[i as int].1,
                cs[i as int],
            ));
        }
        let res = report.visit(manifest, &tree.entries[i].0, &texts[i], &tree.entries[i].1, c);
        match res {
            Err(e) => {
                proof {
                    lemma_run_fault_stays(m, t, tx, cs, (i + 1) as nat, n as nat);
                }
                return Err(e);
            },
            Ok(()) => {},
        }
        i = i + 1;
    }
    report.reconcile(expected_balance_total);
    Ok(report)
}

/// Audits `tree` against `manifest` and the expected total of all balances;
/// `checks` holds what the checker of each entry's kind reported. The
/// addresses are rendered as text by fvm_shared.
pub fn check_state_invariants<S>(
    manifest: &Manifest,
    tree: &Tree,
    expected_balance_total: &TokenAmount,
    checks: Vec<StateCheck<S>>,
) -> (r: Result<Report<S>, AuditError>)
    requires
        checks.len() == tree@.len(),
    ensures
        exists|texts: Seq<Seq<char>>|
            texts.len() == tree@.len() && result_view(r) == #[trigger] audit_spec(
                manifest.view(),
                tree@,
                texts,
                checks_view(checks@),
                expected_balance_total@,
            ),
{
    let ghost cs = checks_view(checks@);
    let mut texts: Vec<String> = Vec::new();
    let mut i: usize = 0;
    while i < tree.entries.len()
        invariant
            0 <= i <= tree.entries.len(),
            texts.len() == i,
        decreases tree.entries.len() - i,
    {
        let key = &tree.entries[i].0;
        if parse_address(key).is_ok() {
            texts.push(address_string(key));
        } else {
            texts.push(String::new());
        }
        i = i + 1;
    }
    let r = audit_tree(manifest, tree, &texts, expected_balance_total, checks);
    assert(result_view(r) == audit_spec(
        manifest.view(),
        tree@,
        texts_view(texts@),
        cs,
        expected_balance_total@,
    ));
    r
}

} // verus!
