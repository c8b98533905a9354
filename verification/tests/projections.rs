use orb_treasury::projection::{CircleTally, ProjectionPlan, SnipeTally};
use orb_treasury::report::{
    analysis_report, circle_lines, duplicate_report, pity_notice, pity_report, pity_word, report_row,
    snipe_line,
};

#[test]
fn plan_of_a_stored_profile() {
    let p = ProjectionPlan::new(57, 11);
    assert_eq!(p.snipe_orbs, 55);
    assert_eq!(p.circle_orbs, 40);
    assert_eq!(p.pulls_per_block, 1);
    assert!(p.reports_ten_copies);
    let p = ProjectionPlan::new(50, 10);
    assert_eq!(p.snipe_orbs, 50);
    assert_eq!(p.circle_orbs, 40);
    assert_eq!(p.pulls_per_block, 1);
    assert!(!p.reports_ten_copies);
}

#[test]
fn snipe_tally_walks_every_orb() {
    let mut t = SnipeTally::new(57, 3);
    assert_eq!(t.orbs_left(), 55);
    let mut rows = Vec::new();
    while t.can_snipe() {
        let index = t.summoned() + 1;
        let row = t.advance(index == 2, index % 4 == 0);
        rows.push(row);
        t.close_row();
    }
    assert_eq!(t.orbs_left(), 0);
    assert_eq!(t.summoned(), 11);
    assert_eq!(t.duplicates(), 1);
    assert_eq!(t.pity_breakers(), 2);
    for (k, row) in rows.iter().enumerate() {
        let index = k as u32 + 1;
        assert_eq!(row.index, index);
        assert_eq!(row.orbs_before, 55 - 5 * k as u32);
        assert_eq!(row.orbs_after, row.orbs_before - 5);
        assert_eq!(row.tenth, 1 + (index - 1) / 3);
        assert_eq!(row.within_first_block, index <= 3);
        assert_eq!(row.rate_rises, index % 5 == 0);
    }
    assert_eq!(rows[3].pity_breakers, 1);
    assert_eq!(rows[7].pity_breakers, 2);
}

#[test]
fn snipe_tally_with_too_few_orbs_makes_no_pull() {
    let t = SnipeTally::new(4, 0);
    assert!(!t.can_snipe());
    assert_eq!(t.summoned(), 0);
}

#[test]
fn circle_tally_walks_every_orb() {
    let mut t = CircleTally::new(57);
    assert_eq!(t.orbs_left(), 40);
    let first = t.advance(true);
    assert_eq!(first.orbs_before, 40);
    assert_eq!(first.first_pull, 1);
    assert!(first.chance_compounds);
    let second = t.advance(false);
    assert_eq!(second.orbs_before, 20);
    assert_eq!(second.first_pull, 6);
    assert!(!t.can_circle());
    assert_eq!(t.duplicates(), 1);
}

#[test]
fn snipe_line_matches_the_screen() {
    assert_eq!(
        snipe_line(55, 1),
        format!("{0:>4} - 5 = {1:>4} | + 1 character summoned (current: {2:>4})", 55, 50, 1)
    );
    assert_eq!(snipe_line(12345, 20000), "12345 - 5 = 12340 | + 1 character summoned (current: 20000)");
}

#[test]
fn circle_lines_spend_twenty_orbs() {
    let lines = circle_lines(40, 6);
    assert_eq!(lines.len(), 5);
    assert_eq!(lines[0], "40 - 5 = 35 | + 1 character summoned (current: 6)");
    assert_eq!(lines[1], "35 - 4 = 31 | + 1 character summoned (current: 7)");
    assert_eq!(lines[2], "31 - 4 = 27 | + 1 character summoned (current: 8)");
    assert_eq!(lines[3], "27 - 4 = 23 | + 1 character summoned (current: 9)");
    assert_eq!(lines[4], "23 - 3 = 20 | + 1 character summoned (current: 10)");
}

#[test]
fn report_rows_and_whole_report() {
    let a = report_row(1, "4.1666665", 1, 0);
    assert_eq!(a, "\n1,4.1666665,1,0");
    let b = report_row(12, "5", 3, 2);
    assert_eq!(b, "\n12,5,3,2");
    let report = analysis_report(&vec![a, b]);
    assert_eq!(
        report,
        "Character summoned, % chance for favored character, Tenth of the total summon, Pity Breaker Count\n1,4.1666665,1,0\n12,5,3,2"
    );
    assert_eq!(
        analysis_report(&Vec::new()),
        "Character summoned, % chance for favored character, Tenth of the total summon, Pity Breaker Count"
    );
}

#[test]
fn pity_words_and_notices() {
    assert_eq!(pity_word(0), "Character");
    assert_eq!(pity_word(1), "Character");
    assert_eq!(pity_word(2), "Characters");
    assert_eq!(pity_notice(1), "Practically assured pity character\n1 pity Character so far!");
    assert_eq!(pity_notice(3), "Practically assured pity character\n3 pity Characters so far!");
}

#[test]
fn pity_reports() {
    assert_eq!(
        pity_report(0),
        "\nPity report:\nYou might get pity characters, but you are not assured of getting any."
    );
    assert_eq!(pity_report(1), "\nPity report:\nYou can expect around 1 pity character, but probably more.");
    assert_eq!(pity_report(4), "\nPity report:\nYou can expect around  4 pity characters, but probably more.");
    assert_eq!(
        pity_report(1234),
        "\nPity report:\nYou can expect around1234 pity characters, but probably more."
    );
}

#[test]
fn duplicate_reports() {
    assert_eq!(duplicate_report(0, "42.5"), "42.5 % chances to get at least one desired character.");
    assert_eq!(
        duplicate_report(1, "10"),
        "High likelihood of getting at least 1 desired character. There is 10 % chance to get an additional character beyond that count."
    );
    assert_eq!(
        duplicate_report(3, "7.25"),
        "High likelihood of obtaining at least 3 desired units. 7.25 % chance to get an additional character beyond that count."
    );
}
