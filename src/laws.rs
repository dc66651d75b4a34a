use vstd::prelude::*;

use crate::address::{address_parses, is_id_key};
use crate::audit::{
    audit_spec, entry_scope, kind_findings, lemma_run_fault_stays, mismatch_message, run, visit_spec,
    ActorModel, AuditFault, CheckModel, ReportModel,
};
use crate::manifest::ActorKind;

verus! {

/// An entry that the traversal passes: its key decodes, its code is in the
/// manifest, and, unless it is the system actor, its state was found.
pub open spec fn entry_sound<S>(
    m: Map<Seq<u8>, ActorKind>,
    e: (Seq<u8>, ActorModel),
    c: CheckModel<S>,
) -> bool {
    &&& address_parses(e.0)
    &&& m.contains_key(e.1.code)
    &&& (!(m[e.1.code] is System) ==> c is Checked)
}

/// Sum of the balances of the first `n` entries.
pub open spec fn balance_sum(entries: Seq<(Seq<u8>, ActorModel)>, n: nat) -> int
    decreases n,
{
    if n == 0 || n > entries.len() {
        0
    } else {
        balance_sum(entries, (n - 1) as nat) + entries[n - 1].1.balance
    }
}

/// A sound entry is visited without a fault, whatever came before.
pub proof fn lemma_sound_entry_passes<S>(
    st: ReportModel<S>,
    m: Map<Seq<u8>, ActorKind>,
    key: Seq<u8>,
    text: Seq<char>,
    a: ActorModel,
    c: CheckModel<S>,
)
    requires
        entry_sound(m, (key, a), c),
    ensures
        visit_spec(st, m, key, text, a, c) is Ok,
        visit_spec(st, m, key, text, a, c)->Ok_0.total_balance == st.total_balance + a.balance,
{
}

/// When every entry of the first `n` is sound, their traversal has no fault
/// and its total is the sum of their balances.
pub proof fn lemma_sound_prefix<S>(
    m: Map<Seq<u8>, ActorKind>,
    entries: Seq<(Seq<u8>, ActorModel)>,
    texts: Seq<Seq<char>>,
    checks: Seq<CheckModel<S>>,
    n: nat,
)
    requires
        n <= entries.len(),
        texts.len() == entries.len(),
        checks.len() == entries.len(),
        forall|i: int| 0 <= i < n ==> entry_sound(m, #[trigger] entries[i], checks[i]),
    ensures
        run(m, entries, texts, checks, n) is Ok,
        run(m, entries, texts, checks, n)->Ok_0.total_balance == balance_sum(entries, n),
    decreases n,
{
    if n > 0 {
        lemma_sound_prefix(m, entries, texts, checks, (n - 1) as nat);
        let st = run(m, entries, texts, checks, (n - 1) as nat)->Ok_0;
        let e = entries[n - 1];
        assert(entry_sound(m, e, checks[n - 1]));
        lemma_sound_entry_passes(st, m, e.0, texts[n - 1], e.1, checks[n - 1]);
    }
}

/// An audit of a tree whose keys all decode, whose codes are all in the
/// manifest and whose states were all found completes with a report,
/// whatever the diagnostics.
pub proof fn lemma_sound_tree_completes<S>(
    m: Map<Seq<u8>, ActorKind>,
    entries: Seq<(Seq<u8>, ActorModel)>,
    texts: Seq<Seq<char>>,
    checks: Seq<CheckModel<S>>,
    expected: int,
)
    requires
        texts.len() == entries.len(),
        checks.len() == entries.len(),
        forall|i: int| 0 <= i < entries.len() ==> entry_sound(m, #[trigger] entries[i], checks[i]),
    ensures
        audit_spec(m, entries, texts, checks, expected) is Ok,
{
    lemma_sound_prefix(m, entries, texts, checks, entries.len());
}

/// An audit of a tree in which one entry, whose key decodes, has a code
/// that the manifest lacks, and every other entry is sound, fails with the
/// fault that names that entry's address and code, and gives no report.
pub proof fn lemma_unknown_code_aborts<S>(
    m: Map<Seq<u8>, ActorKind>,
    entries: Seq<(Seq<u8>, ActorModel)>,
    texts: Seq<Seq<char>>,
    checks: Seq<CheckModel<S>>,
    expected: int,
    i: int,
)
    requires
        texts.len() == entries.len(),
        checks.len() == entries.len(),
        0 <= i < entries.len(),
        address_parses(entries[i].0),
        !m.contains_key(entries[i].1.code),
        forall|j: int|
            0 <= j < entries.len() && j != i ==> entry_sound(m, #[trigger] entries[j], checks[j]),
    ensures
        audit_spec(m, entries, texts, checks, expected) == Err::<ReportModel<S>, AuditFault>(
            AuditFault::UnknownCode { address: entries[i].0, code: entries[i].1.code },
        ),
{
    lemma_sound_prefix(m, entries, texts, checks, i as nat);
    lemma_run_fault_stays(m, entries, texts, checks, (i + 1) as nat, entries.len());
}

/// Two audits of the same tree, with the same manifest, address texts,
/// checker results and expected total, give the same outcome: the same
/// diagnostics in the same order, the same summaries, the same total.
pub proof fn lemma_audit_deterministic<S>(
    m1: Map<Seq<u8>, ActorKind>,
    entries1: Seq<(Seq<u8>, ActorModel)>,
    texts1: Seq<Seq<char>>,
    checks1: Seq<CheckModel<S>>,
    expected1: int,
    m2: Map<Seq<u8>, ActorKind>,
    entries2: Seq<(Seq<u8>, ActorModel)>,
    texts2: Seq<Seq<char>>,
    checks2: Seq<CheckModel<S>>,
    expected2: int,
)
    requires
        m1 == m2,
        entries1 == entries2,
        texts1 == texts2,
        checks1 == checks2,
        expected1 == expected2,
    ensures
        audit_spec(m1, entries1, texts1, checks1, expected1) == audit_spec(
            m2,
            entries2,
            texts2,
            checks2,
            expected2,
        ),
{
}

/// For a sound tree whose balances sum to `T`: with `T` expected, the
/// cross-actor pass adds no diagnostic; with `T + 1` expected, it adds
/// exactly one, the mismatch of `T` against `T + 1`.
pub proof fn lemma_balance_conservation<S>(
    m: Map<Seq<u8>, ActorKind>,
    entries: Seq<(Seq<u8>, ActorModel)>,
    texts: Seq<Seq<char>>,
    checks: Seq<CheckModel<S>>,
)
    requires
        texts.len() == entries.len(),
        checks.len() == entries.len(),
        forall|i: int| 0 <= i < entries.len() ==> entry_sound(m, #[trigger] entries[i], checks[i]),
    ensures
        ({
            let t = balance_sum(entries, entries.len());
            let st = run(m, entries, texts, checks, entries.len())->Ok_0;
            &&& audit_spec(m, entries, texts, checks, t) == Ok::<ReportModel<S>, AuditFault>(st)
            &&& audit_spec(m, entries, texts, checks, t + 1) == Ok::<ReportModel<S>, AuditFault>(
                ReportModel {
                    diagnostics: st.diagnostics.push(mismatch_message(t, t + 1)),
                    ..st
                },
            )
        }),
{
    lemma_sound_prefix(m, entries, texts, checks, entries.len());
}

/// An entry keyed by an address of another protocol than ID gets exactly
/// one diagnostic from the address check, naming the address, ahead of
/// what its kind's checker reported, and the traversal goes on; one keyed
/// by an ID address gets none.
pub proof fn lemma_address_protocol_flagged<S>(
    st: ReportModel<S>,
    m: Map<Seq<u8>, ActorKind>,
    key: Seq<u8>,
    text: Seq<char>,
    a: ActorModel,
    c: CheckModel<S>,
)
    requires
        entry_sound(m, (key, a), c),
    ensures
        visit_spec(st, m, key, text, a, c) is Ok,
        ({
            let k = m[a.code];
            let own = if k is System {
                Seq::empty()
            } else {
                kind_findings(st, text, k, c->Checked_messages)
            };
            let flag = if is_id_key(key) {
                Seq::empty()
            } else {
                seq![entry_scope(text) + "unexpected address protocol in state tree root: "@ + text]
            };
            visit_spec(st, m, key, text, a, c)->Ok_0.diagnostics == st.diagnostics + flag + own
        }),
{
}

} // verus!
