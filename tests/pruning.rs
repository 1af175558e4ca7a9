use libafl_bolts::rands::StdRand;
use libafl_centralized::pruning::{CorpusError, CorpusPruning, EntryStatus, RestartStage};

#[test]
fn plan_disables_draws_above_retention() {
    let p = CorpusPruning::new(5);
    assert_eq!(p.plan_from_draws(&vec![0, 5, 6, 99]), vec![false, false, true, true]);
    assert_eq!(CorpusPruning::default().retain_percent(), 5);
}

#[test]
fn full_retention_keeps_everything() {
    let p = CorpusPruning::new(100);
    let mut rand = StdRand::with_seed(1);
    let mut corpus = vec![EntryStatus::Active; 100];
    assert_eq!(p.perform(&mut rand, &mut corpus), Ok(()));
    assert_eq!(corpus, vec![EntryStatus::Active; 100]);
}

#[test]
fn zero_retention_disables_almost_everything() {
    let p = CorpusPruning::new(0);
    let mut rand = StdRand::with_seed(7);
    let mut corpus = vec![EntryStatus::Active; 100];
    assert_eq!(p.perform(&mut rand, &mut corpus), Ok(()));
    assert_eq!(corpus.len(), 100);
    let disabled = corpus.iter().filter(|s| **s == EntryStatus::Disabled).count();
    assert!(disabled >= 90);
}

#[test]
fn apply_plan_moves_marked_entries() {
    let mut corpus = vec![EntryStatus::Active, EntryStatus::Active, EntryStatus::Disabled];
    assert_eq!(CorpusPruning::apply_plan(&vec![true, false, false], &mut corpus), Ok(()));
    assert_eq!(corpus, vec![EntryStatus::Disabled, EntryStatus::Active, EntryStatus::Disabled]);
}

#[test]
fn apply_plan_stops_at_disabled_entry() {
    let mut corpus = vec![EntryStatus::Active, EntryStatus::Disabled, EntryStatus::Active];
    assert_eq!(
        CorpusPruning::apply_plan(&vec![true, true, true], &mut corpus),
        Err(CorpusError::NotActive(1))
    );
    assert_eq!(corpus, vec![EntryStatus::Disabled, EntryStatus::Disabled, EntryStatus::Active]);
}

#[test]
fn stages_always_allow_restart() {
    assert!(RestartStage::new().should_restart());
    assert!(CorpusPruning::default().should_restart());
}
