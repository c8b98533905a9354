use orb_treasury::profile::OrbProfile;
use orb_treasury::text::{decimal_text, framed_number, right_align};

#[test]
fn potentials_of_fifty_seven_orbs() {
    let p = OrbProfile::from_treasury(57);
    assert_eq!(p.orb_treasury, Some(57));
    assert_eq!(p.maximum_hero_pull_potential, Some(10));
    assert_eq!(p.optimal_hero_pull_potential, Some(11));
}

#[test]
fn potentials_below_one_circle() {
    let p = OrbProfile::from_treasury(19);
    assert_eq!(p.maximum_hero_pull_potential, Some(0));
    assert_eq!(p.optimal_hero_pull_potential, Some(3));
    let p = OrbProfile::from_treasury(4);
    assert_eq!(p.maximum_hero_pull_potential, Some(0));
    assert_eq!(p.optimal_hero_pull_potential, Some(0));
}

#[test]
fn potentials_of_exact_circles() {
    let p = OrbProfile::from_treasury(100);
    assert_eq!(p.maximum_hero_pull_potential, Some(25));
    assert_eq!(p.optimal_hero_pull_potential, Some(20));
}

#[test]
fn potentials_of_the_largest_treasury() {
    let p = OrbProfile::from_treasury(u32::MAX);
    assert_eq!(p.maximum_hero_pull_potential, Some(u32::MAX / 20 * 5));
    assert_eq!(p.optimal_hero_pull_potential, Some(u32::MAX / 5));
}

#[test]
fn potentials_spend_the_treasury() {
    for orbs in 0..500u32 {
        let p = OrbProfile::from_treasury(orbs);
        let snipes = p.optimal_hero_pull_potential.unwrap();
        let circle_heroes = p.maximum_hero_pull_potential.unwrap();
        assert!(snipes * 5 <= orbs && orbs < snipes * 5 + 5);
        assert!(circle_heroes * 4 <= orbs && orbs < circle_heroes * 4 + 20);
        assert_eq!(circle_heroes % 5, 0);
    }
}

#[test]
fn decimal_text_matches_display() {
    for n in [0u32, 7, 9, 10, 42, 305, 1000, 65536, 4294967295] {
        assert_eq!(decimal_text(n), n.to_string());
    }
}

#[test]
fn decimal_text_reads_back() {
    for n in [0u32, 1, 99, 100, 123456789] {
        let s = decimal_text(n);
        assert_eq!(s.parse::<u32>().unwrap(), n);
        assert!(s == "0" || !s.starts_with('0'));
    }
}

#[test]
fn right_align_pads_short_text() {
    assert_eq!(right_align("55", 4), "  55");
    assert_eq!(right_align("12345", 4), "12345");
    assert_eq!(right_align("", 3), "   ");
    assert_eq!(right_align("7", 3), format!("{:>3}", 7));
}

#[test]
fn framed_number_joins_its_parts() {
    assert_eq!(framed_number("a ", 12, " b"), "a 12 b");
}
