use sharad_ratatui::dice::{dice_roll, parse_edge, reroll_with, summarize_roll, EdgeAction};

fn hits_of(dice: &[u8]) -> u8 {
    dice.iter().filter(|d| **d >= 5).count().min(255) as u8
}

fn ones_of(dice: &[u8]) -> usize {
    dice.iter().filter(|d| **d == 1).count()
}

#[test]
fn rerolling_replaces_each_failure_in_order() {
    let mut results = vec![1, 5, 3];
    let mut hits = 1;
    let mut ones = 1;
    reroll_with(&mut results, &mut hits, &mut ones, &vec![6, 2]);
    assert_eq!(results, vec![6, 5, 2]);
    assert_eq!(hits, 2);
    assert_eq!(ones, 0);
}

#[test]
fn rerolling_keeps_hits_and_counts_new_ones() {
    let mut results = vec![2, 6, 4];
    let mut hits = 1;
    let mut ones = 0;
    reroll_with(&mut results, &mut hits, &mut ones, &vec![1, 5]);
    assert_eq!(results, vec![1, 6, 5]);
    assert_eq!(hits, 2);
    assert_eq!(ones, 1);
    // With no failure there is nothing to reroll.
    let mut all_hits = vec![5, 6];
    let mut hits = 2;
    let mut ones = 0;
    reroll_with(&mut all_hits, &mut hits, &mut ones, &Vec::new());
    assert_eq!(all_hits, vec![5, 6]);
    assert_eq!(hits, 2);
}

#[test]
fn a_summary_caps_hits_and_reads_glitches() {
    // Three hits capped at a limit of 2; two ones out of a pool of 3 is a glitch.
    let r = summarize_roll(3, Some(2), Some(1), 3, 2, vec![5, 6, 5, 1, 1]);
    assert_eq!(r.hits, 2);
    assert!(r.glitch);
    assert!(!r.critical_glitch);
    assert!(r.critical_success);
    // No hit with a glitch is a critical glitch.
    let r = summarize_roll(2, None, Some(2), 0, 2, vec![1, 1]);
    assert_eq!(r.hits, 0);
    assert!(r.glitch && r.critical_glitch);
    assert!(!r.critical_success);
}

#[test]
fn pushing_the_limit_lifts_it() {
    for _ in 0..200 {
        let held = dice_roll(12, Some(0), None, None);
        assert_eq!(held.hits, 0);
        let pushed = dice_roll(12, Some(0), None, Some(EdgeAction::PushTheLimit));
        assert_eq!(pushed.hits, hits_of(&pushed.dice_results));
        assert!(pushed.dice_results.len() >= 12);
    }
    // Over many rolls of twelve dice, some pushed roll beats a limit of 1.
    let beaten = (0..200).any(|_| dice_roll(12, Some(1), None, Some(EdgeAction::PushTheLimit)).hits > 1);
    assert!(beaten);
}

#[test]
fn rolls_report_their_dice() {
    for _ in 0..200 {
        let r = dice_roll(6, None, Some(2), Some(EdgeAction::RerollFailures));
        assert!(r.dice_results.iter().all(|d| (1..=6).contains(d)));
        assert!(r.dice_results.len() >= 6);
        assert_eq!(r.hits, hits_of(&r.dice_results));
        assert_eq!(r.glitch, ones_of(&r.dice_results) > 3);
        assert_eq!(r.critical_success, r.hits >= 4);
        let extra = dice_roll(2, Some(3), None, Some(EdgeAction::AddExtraDice(3)));
        assert!(extra.dice_results.len() >= 5);
        assert_eq!(extra.hits, hits_of(&extra.dice_results).min(3));
        // Every chain ends on a die that is not a 6.
        assert_ne!(extra.dice_results.last(), Some(&6));
    }
}

#[test]
fn edge_actions_are_read_by_name() {
    assert_eq!(parse_edge(&None, Some(2)), Ok(None));
    assert_eq!(parse_edge(&Some("RerollFailures".to_string()), None), Ok(Some(EdgeAction::RerollFailures)));
    assert_eq!(parse_edge(&Some("AddExtraDice".to_string()), Some(2)), Ok(Some(EdgeAction::AddExtraDice(2))));
    assert_eq!(parse_edge(&Some("AddExtraDice".to_string()), None), Ok(None));
    assert_eq!(parse_edge(&Some("PushTheLimit".to_string()), None), Ok(Some(EdgeAction::PushTheLimit)));
    assert_eq!(parse_edge(&Some("Luck".to_string()), None), Err(()));
}
