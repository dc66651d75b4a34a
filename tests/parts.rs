use state_check::{bytes_equal, ActorKind, AuditError, Manifest, TokenAmount, Tree};

#[test]
fn manifest_lookup_and_replacement() {
    let mut m = Manifest::new();
    assert_eq!(m.lookup(&vec![1]), None);
    m.insert(vec![1], ActorKind::Miner);
    m.insert(vec![2], ActorKind::Market);
    assert_eq!(m.lookup(&vec![1]), Some(ActorKind::Miner));
    assert_eq!(m.lookup(&vec![2]), Some(ActorKind::Market));
    m.insert(vec![1], ActorKind::Reward);
    assert_eq!(m.lookup(&vec![1]), Some(ActorKind::Reward));
    assert_eq!(m.lookup(&vec![3]), None);
}

#[test]
fn amounts_add_beyond_machine_words() {
    let a = TokenAmount::from_atto(u64::MAX);
    let sum = a.add(&a);
    assert_eq!(sum.to_decimal(), "36893488147419103230");
    assert!(sum.same_value(&TokenAmount { negative: false, digits: vec![u32::MAX - 1, u32::MAX, 1] }));
    assert!(!sum.same_value(&a));
}

#[test]
fn negative_amounts_add_and_print() {
    let neg = TokenAmount { negative: true, digits: vec![7] };
    assert_eq!(neg.to_decimal(), "-7");
    let sum = neg.add(&TokenAmount::from_atto(5));
    assert_eq!(sum.to_decimal(), "-2");
    assert!(TokenAmount::zero().same_value(&TokenAmount { negative: true, digits: vec![] }));
}

#[test]
fn from_atto_splits_into_digits() {
    let a = TokenAmount::from_atto(0x1_0000_0005);
    assert_eq!(a.to_decimal(), "4294967301");
    assert_eq!(a.digits, vec![5, 1]);
}

#[test]
fn for_each_decodes_every_key() {
    let actor = state_check::Actor {
        code: vec![1],
        head: vec![2],
        call_seq_num: 3,
        balance: TokenAmount::zero(),
    };
    let tree = Tree { entries: vec![(vec![0, 102], actor.clone()), (vec![0, 7], actor.clone())] };
    let texts = tree.for_each().unwrap();
    assert_eq!(texts.len(), 2);
    assert!(texts[0].ends_with("0102"));
    assert!(texts[1].ends_with("07"));
    let bad = Tree { entries: vec![(vec![0, 1], actor.clone()), (vec![5], actor)] };
    assert_eq!(bad.for_each().unwrap_err(), AuditError::MalformedAddress { key: vec![5] });
}

#[test]
fn byte_strings_compare_by_content() {
    assert!(bytes_equal(&vec![1, 2, 3], &vec![1, 2, 3]));
    assert!(!bytes_equal(&vec![1, 2, 3], &vec![1, 2]));
    assert!(!bytes_equal(&vec![1, 2, 3], &vec![1, 2, 4]));
    assert!(bytes_equal(&vec![], &vec![]));
}
