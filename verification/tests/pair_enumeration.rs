use liaisons::models::{Argument, SummarizedInfo};
use liaisons::subcommands::pairs::{enumerate_pairs, same_id};

fn arg(id: Option<u32>) -> Argument {
    let info = SummarizedInfo { title: String::new(), summary: String::new() };
    match id {
        Some(id) => Argument::with_id(id, info, String::new()),
        None => Argument::new(info, String::new()),
    }
}

fn args(ids: &[u32]) -> Vec<Argument> {
    ids.iter().map(|id| arg(Some(*id))).collect()
}

#[test]
fn different_arguments_are_paired_both_ways() {
    assert_eq!(enumerate_pairs(&args(&[10, 20])), vec![(0, 1), (1, 0)]);
    assert_eq!(
        enumerate_pairs(&args(&[10, 20, 30])),
        vec![(0, 1), (0, 2), (1, 0), (1, 2), (2, 0), (2, 1)]
    );
}

#[test]
fn n_arguments_have_n_squared_minus_n_pairs() {
    for n in 0..8u32 {
        let ids: Vec<u32> = (0..n).collect();
        let pairs = enumerate_pairs(&args(&ids));
        assert_eq!(pairs.len() as u32, n * n - n);
        for i in 0..n as usize {
            for j in 0..n as usize {
                assert_eq!(pairs.contains(&(i, j)), i != j);
            }
        }
    }
}

#[test]
fn fewer_than_two_arguments_have_no_pair() {
    assert!(enumerate_pairs(&args(&[])).is_empty());
    assert!(enumerate_pairs(&args(&[1])).is_empty());
}

#[test]
fn equal_identifiers_are_not_paired() {
    assert!(enumerate_pairs(&args(&[1, 1])).is_empty());
    assert_eq!(enumerate_pairs(&args(&[1, 2, 1])), vec![(0, 1), (1, 0), (1, 2), (2, 1)]);
    assert!(enumerate_pairs(&vec![arg(None), arg(None)]).is_empty());
    assert_eq!(enumerate_pairs(&vec![arg(None), arg(Some(0))]), vec![(0, 1), (1, 0)]);
}

#[test]
fn identifiers_are_compared_as_they_stand() {
    assert!(same_id(&arg(Some(1)), &arg(Some(1))));
    assert!(!same_id(&arg(Some(1)), &arg(Some(2))));
    assert!(same_id(&arg(None), &arg(None)));
    assert!(!same_id(&arg(None), &arg(Some(0))));
    assert!(!same_id(&arg(Some(0)), &arg(None)));
}
