use orb_treasury::book::{names_in_order, TreasuryBook};
use orb_treasury::messages::{
    created_message, listed_full_circle_line, listed_orbs_line, listed_snipe_line, projection_end_line,
    projection_start_line, your_full_circle_line, your_orbs_line, your_snipe_line,
};
use orb_treasury::profile::OrbProfile;
use orb_treasury::settings::{database_file_suffix, projection_named, treasury_key, Projection, SummonSettings};

#[test]
fn book_reads_back_what_was_filed() {
    let mut book = TreasuryBook::new();
    assert_eq!(book.get(&"Treasury".to_string()), None);
    let p = OrbProfile::from_treasury(120);
    book.insert("Treasury".to_string(), p);
    assert_eq!(book.get(&"Treasury".to_string()), Some(p));
    assert_eq!(book.get(&"treasury".to_string()), None);
    let q = OrbProfile::from_treasury(7);
    book.insert("Treasury".to_string(), q);
    assert_eq!(book.get(&"Treasury".to_string()), Some(q));
    assert_eq!(book.entries().len(), 1);
}

#[test]
fn book_lists_in_name_order() {
    let mut book = TreasuryBook::new();
    for (name, orbs) in [("b", 1u32), ("a", 2), ("ab", 3), ("B", 4), ("", 5), ("a", 6)] {
        book.insert(name.to_string(), OrbProfile::from_treasury(orbs));
    }
    let names: Vec<&str> = book.entries().iter().map(|e| e.name.as_str()).collect();
    assert_eq!(names, vec!["", "B", "a", "ab", "b"]);
    let orbs: Vec<u32> = book.entries().iter().map(|e| e.profile.orb_treasury.unwrap()).collect();
    assert_eq!(orbs, vec![5, 4, 6, 3, 1]);
}

#[test]
fn names_in_order_is_string_order() {
    let names = ["", "a", "ab", "b", "B", "é", "z", "zz", "Ωmega"];
    for a in names {
        for b in names {
            assert_eq!(names_in_order(a, b), a < b, "{} {}", a, b);
        }
    }
}

#[test]
fn settings_take_their_defaults() {
    let s = SummonSettings::resolve(None, None, None, None);
    assert_eq!(s.original_rate, 8);
    assert_eq!(s.banner_character_total, 12);
    assert_eq!(s.actual_focus_characters, 1);
    assert_eq!(s.projection, "Optimal");
    let s = SummonSettings::resolve(Some(3), Some(4), Some(2), Some("Maximal".to_string()));
    assert_eq!(s.original_rate, 3);
    assert_eq!(s.banner_character_total, 4);
    assert_eq!(s.actual_focus_characters, 2);
    assert_eq!(s.projection, "Maximal");
}

#[test]
fn projections_by_name() {
    assert_eq!(projection_named(&"Optimal".to_string()), Some(Projection::Optimal));
    assert_eq!(projection_named(&"Maximal".to_string()), Some(Projection::Maximal));
    assert_eq!(projection_named(&"optimal".to_string()), None);
    assert_eq!(projection_named(&String::new()), None);
}

#[test]
fn keys_and_database_files() {
    assert_eq!(treasury_key(None), "Treasury");
    assert_eq!(treasury_key(Some("Spring".to_string())), "Spring");
    assert_eq!(database_file_suffix(&None, ".toml"), "\\Orb_Treasury.toml");
    assert_eq!(database_file_suffix(&None, ".csv"), "\\Orb_Treasury.csv");
    assert_eq!(database_file_suffix(&Some("mine".to_string()), ".toml"), "\\mine.toml");
}

#[test]
fn treasury_messages() {
    assert_eq!(created_message("Treasury", 120), "Created a treasury named Treasury which contains 120 orbs.");
    assert_eq!(your_orbs_line(57), "Your treasury contains 57 orbs");
    assert_eq!(your_full_circle_line(10), "You can pull 10 heroes, presuming you pull full circles");
    assert_eq!(your_snipe_line(11), "Presuming you snipe, you can pull 11 heroes");
    assert_eq!(listed_orbs_line(57), "This treasury contains 57 orbs");
    assert_eq!(listed_full_circle_line(10), "It has enough orbs to pull 10 heroes, if pulling full circles");
    assert_eq!(listed_snipe_line(11), "Presuming you snipe, it has enough orbs for 11 heroes");
    assert_eq!(projection_start_line(11), "Beginning summoning projections with 11 attempts");
    assert_eq!(
        projection_end_line(11),
        "\n... end of summoning projections. The projection presumed 11 pulls."
    );
}
