use state_check::{
    audit_tree, check_state_invariants, Actor, ActorKind, AuditError, Manifest, Report, StateCheck,
    TokenAmount, Tree,
};

const SYSTEM_CODE: u8 = 10;
const ACCOUNT_CODE: u8 = 11;
const INIT_CODE: u8 = 12;
const MINER_CODE: u8 = 13;

fn manifest() -> Manifest {
    let mut m = Manifest::new();
    m.insert(vec![SYSTEM_CODE], ActorKind::System);
    m.insert(vec![ACCOUNT_CODE], ActorKind::Account);
    m.insert(vec![INIT_CODE], ActorKind::Init);
    m.insert(vec![MINER_CODE], ActorKind::Miner);
    m
}

fn actor(code: u8, balance: u64) -> Actor {
    Actor {
        code: vec![code],
        head: vec![1, 2, 3],
        call_seq_num: 0,
        balance: TokenAmount::from_atto(balance),
    }
}

fn id_key(id: u8) -> Vec<u8> {
    vec![0, id]
}

fn secp_key() -> Vec<u8> {
    let mut k = vec![1u8];
    k.extend_from_slice(&[7u8; 20]);
    k
}

fn checked(summary: &str, messages: &[&str]) -> StateCheck<String> {
    StateCheck::Checked {
        summary: summary.to_string(),
        messages: messages.iter().map(|m| m.to_string()).collect(),
    }
}

fn three_actor_tree() -> Tree {
    Tree {
        entries: vec![
            (id_key(1), actor(SYSTEM_CODE, 0)),
            (id_key(2), actor(ACCOUNT_CODE, 5)),
            (id_key(3), actor(ACCOUNT_CODE, 3)),
        ],
    }
}

fn three_actor_checks() -> Vec<StateCheck<String>> {
    vec![StateCheck::Missing, checked("acct2", &[]), checked("acct3", &[])]
}

fn audit(tree: &Tree, checks: Vec<StateCheck<String>>, expected: u64) -> Result<Report<String>, AuditError> {
    check_state_invariants(&manifest(), tree, &TokenAmount::from_atto(expected), checks)
}

#[test]
fn balanced_tree_with_two_accounts() {
    let report = audit(&three_actor_tree(), three_actor_checks(), 8).unwrap();
    assert!(report.diagnostics.is_empty());
    assert_eq!(report.summaries.accounts, vec!["acct2".to_string(), "acct3".to_string()]);
    assert_eq!(report.total_balance.to_decimal(), "8");
    assert!(report.summaries.init.is_none());
    assert!(report.summaries.miners.is_empty());
}

#[test]
fn unbalanced_tree_reports_one_mismatch() {
    let report = audit(&three_actor_tree(), three_actor_checks(), 9).unwrap();
    assert_eq!(
        report.diagnostics,
        vec!["total balance 8 does not match expected total balance 9".to_string()]
    );
    assert_eq!(report.summaries.accounts, vec!["acct2".to_string(), "acct3".to_string()]);
}

#[test]
fn conservation_with_exact_and_off_by_one_expectation() {
    let tree = Tree {
        entries: vec![
            (id_key(4), actor(ACCOUNT_CODE, u64::MAX)),
            (id_key(5), actor(ACCOUNT_CODE, u64::MAX)),
            (id_key(6), actor(ACCOUNT_CODE, 2)),
        ],
    };
    let checks = || vec![checked("a", &[]), checked("b", &[]), checked("c", &[])];
    let total = TokenAmount::from_atto(u64::MAX)
        .add(&TokenAmount::from_atto(u64::MAX))
        .add(&TokenAmount::from_atto(2));
    assert_eq!(total.to_decimal(), "36893488147419103232");
    let exact = check_state_invariants(&manifest(), &tree, &total, checks()).unwrap();
    assert!(exact.diagnostics.is_empty());
    let plus_one = total.add(&TokenAmount::from_atto(1));
    let off = check_state_invariants(&manifest(), &tree, &plus_one, checks()).unwrap();
    assert_eq!(
        off.diagnostics,
        vec![
            "total balance 36893488147419103232 does not match expected total balance 36893488147419103233"
                .to_string()
        ]
    );
}

#[test]
fn unknown_code_is_fatal_and_names_address_and_code() {
    let tree = Tree {
        entries: vec![
            (id_key(1), actor(SYSTEM_CODE, 0)),
            (id_key(2), actor(99, 5)),
            (id_key(3), actor(ACCOUNT_CODE, 3)),
        ],
    };
    let err = audit(&tree, three_actor_checks(), 8).unwrap_err();
    assert_eq!(err, AuditError::UnknownCode { address: id_key(2), code: vec![99] });
}

#[test]
fn malformed_key_is_fatal() {
    let tree = Tree {
        entries: vec![(id_key(1), actor(SYSTEM_CODE, 0)), (vec![9, 9], actor(ACCOUNT_CODE, 5))],
    };
    let err = audit(&tree, vec![StateCheck::Missing, checked("a", &[])], 5).unwrap_err();
    assert_eq!(err, AuditError::MalformedAddress { key: vec![9, 9] });
}

#[test]
fn missing_state_is_fatal() {
    let tree = Tree { entries: vec![(id_key(2), actor(ACCOUNT_CODE, 5))] };
    let err = audit(&tree, vec![StateCheck::Missing], 5).unwrap_err();
    assert_eq!(err, AuditError::MissingState { address: id_key(2), kind: ActorKind::Account });
}

#[test]
fn earliest_fault_wins() {
    let tree = Tree {
        entries: vec![(id_key(2), actor(77, 5)), (vec![], actor(ACCOUNT_CODE, 1))],
    };
    let err = audit(&tree, vec![checked("a", &[]), checked("b", &[])], 6).unwrap_err();
    assert_eq!(err, AuditError::UnknownCode { address: id_key(2), code: vec![77] });
}

#[test]
fn non_id_address_is_flagged_once_and_audit_goes_on() {
    let tree = Tree {
        entries: vec![(secp_key(), actor(ACCOUNT_CODE, 4)), (id_key(3), actor(ACCOUNT_CODE, 1))],
    };
    let texts = tree.for_each().unwrap();
    let report = audit(&tree, vec![checked("a", &[]), checked("b", &[])], 5).unwrap();
    assert_eq!(report.diagnostics.len(), 1);
    let msg = &report.diagnostics[0];
    assert!(msg.contains("unexpected address protocol in state tree root"));
    assert!(msg.contains(&texts[0]));
    assert_eq!(
        *msg,
        format!("{} unexpected address protocol in state tree root: {}", texts[0], texts[0])
    );
    assert_eq!(report.summaries.accounts.len(), 2);
}

#[test]
fn checker_messages_are_scoped_by_address_and_kind() {
    let tree = Tree { entries: vec![(id_key(2), actor(ACCOUNT_CODE, 5))] };
    let texts = tree.for_each().unwrap();
    let report = audit(&tree, vec![checked("a", &["bad nonce", "bad key"])], 5).unwrap();
    assert_eq!(
        report.diagnostics,
        vec![
            format!("{} account: bad nonce", texts[0]),
            format!("{} account: bad key", texts[0]),
        ]
    );
}

#[test]
fn second_singleton_is_flagged_and_replaces_the_first() {
    let tree = Tree {
        entries: vec![(id_key(1), actor(INIT_CODE, 0)), (id_key(2), actor(INIT_CODE, 0))],
    };
    let texts = tree.for_each().unwrap();
    let report = audit(&tree, vec![checked("first", &[]), checked("second", &[])], 0).unwrap();
    assert_eq!(report.summaries.init, Some("second".to_string()));
    assert_eq!(
        report.diagnostics,
        vec![format!("{} init: more than one actor of this kind", texts[1])]
    );
}

#[test]
fn miner_summaries_are_kept_by_address() {
    let tree = Tree {
        entries: vec![(id_key(5), actor(MINER_CODE, 1)), (id_key(6), actor(MINER_CODE, 2))],
    };
    let report = audit(&tree, vec![checked("m5", &[]), checked("m6", &[])], 3).unwrap();
    assert_eq!(
        report.summaries.miners,
        vec![(id_key(5), "m5".to_string()), (id_key(6), "m6".to_string())]
    );
    assert_eq!(report.summaries.miner(&id_key(5)), Some(&"m5".to_string()));
    assert_eq!(report.summaries.miner(&id_key(6)), Some(&"m6".to_string()));
    assert_eq!(report.summaries.miner(&id_key(7)), None);
}

#[test]
fn repeated_miner_key_keeps_the_last_summary() {
    let tree = Tree {
        entries: vec![(id_key(5), actor(MINER_CODE, 1)), (id_key(5), actor(MINER_CODE, 2))],
    };
    let report = audit(&tree, vec![checked("old", &[]), checked("new", &[])], 3).unwrap();
    assert_eq!(report.summaries.miner(&id_key(5)), Some(&"new".to_string()));
    assert!(report.diagnostics.is_empty());
}

#[test]
fn audit_is_repeatable_on_the_same_snapshot() {
    let tree = Tree {
        entries: vec![(secp_key(), actor(ACCOUNT_CODE, 4)), (id_key(3), actor(ACCOUNT_CODE, 1))],
    };
    let checks = || vec![checked("a", &["x"]), checked("b", &[])];
    let r1 = audit(&tree, checks(), 7).unwrap();
    let r2 = audit(&tree, checks(), 7).unwrap();
    assert_eq!(r1.diagnostics, r2.diagnostics);
    assert_eq!(r1.summaries.accounts, r2.summaries.accounts);
    assert_eq!(r1.total_balance.to_decimal(), r2.total_balance.to_decimal());
}

#[test]
fn empty_tree_with_zero_expected_is_clean() {
    let tree = Tree { entries: vec![] };
    let report = audit(&tree, vec![], 0).unwrap();
    assert!(report.diagnostics.is_empty());
    assert_eq!(report.total_balance.to_decimal(), "0");
}

#[test]
fn audit_tree_uses_the_given_address_texts() {
    let tree = three_actor_tree();
    let texts = vec!["A".to_string(), "B".to_string(), "C".to_string()];
    let mut checks = three_actor_checks();
    checks[2] = checked("acct3", &["low"]);
    let report =
        audit_tree(&manifest(), &tree, &texts, &TokenAmount::from_atto(8), checks).unwrap();
    assert_eq!(report.diagnostics, vec!["C account: low".to_string()]);
}
