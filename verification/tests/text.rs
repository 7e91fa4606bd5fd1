use postlice::geo_data::{find_province, names_of_provinces, District, Province};
use postlice::text::{chars_of, contains, decimal_string, matching_names};

fn strings(items: &[&str]) -> Vec<String> {
    items.iter().map(|s| s.to_string()).collect()
}

#[test]
fn characters_come_out_in_order() {
    assert_eq!(chars_of(""), Vec::<char>::new());
    assert_eq!(chars_of("abc"), vec!['a', 'b', 'c']);
    assert_eq!(chars_of("ภูเก็ต"), "ภูเก็ต".chars().collect::<Vec<char>>());
}

#[test]
fn contains_finds_a_run_of_characters() {
    assert!(contains("", ""));
    assert!(contains("abc", ""));
    assert!(!contains("", "a"));
    assert!(contains("abc", "abc"));
    assert!(contains("abc", "a"));
    assert!(contains("abc", "bc"));
    assert!(contains("abc", "c"));
    assert!(!contains("abc", "ac"));
    assert!(!contains("abc", "abcd"));
    assert!(!contains("abc", "B"));
    assert!(contains("aab", "ab"));
    assert!(contains("ภูเก็ต", "เก็"));
    assert!(!contains("ภูเก็ต", "กเ"));
    assert!(contains("เมืองภูเก็ต", "ภูเก็ต"));
}

#[test]
fn contains_agrees_with_the_standard_library() {
    let texts = ["", "a", "ab", "ba", "aab", "abab", "ภูเก็ต", "เมืองภูเก็ต", "ก", "็", " "];
    for hay in texts {
        for needle in texts {
            assert_eq!(contains(hay, needle), hay.contains(needle), "{:?} in {:?}", needle, hay);
        }
    }
}

#[test]
fn numbers_are_written_in_decimal() {
    assert_eq!(decimal_string(0), "0");
    assert_eq!(decimal_string(7), "7");
    assert_eq!(decimal_string(10), "10");
    assert_eq!(decimal_string(83000), "83000");
    assert_eq!(decimal_string(10200), "10200");
    assert_eq!(decimal_string(4294967295), "4294967295");
    for n in [1u32, 9, 11, 99, 100, 101, 1234567890, 50160] {
        assert_eq!(decimal_string(n), n.to_string());
    }
}

#[test]
fn matching_names_keep_their_order() {
    let names = strings(&["beta", "alpha", "gamma", "alpha", "delta"]);
    assert_eq!(matching_names(&names, ""), names);
    assert_eq!(matching_names(&names, "al"), strings(&["alpha", "alpha"]));
    assert_eq!(matching_names(&names, "ta"), strings(&["beta", "delta"]));
    assert_eq!(matching_names(&names, "mm"), strings(&["gamma"]));
    assert_eq!(matching_names(&names, "z"), Vec::<String>::new());
    assert_eq!(matching_names(&Vec::new(), ""), Vec::<String>::new());
}

#[test]
fn provinces_are_found_by_exact_name() {
    let catalog = vec![
        Province { name: "ก".to_string(), districts: Vec::new() },
        Province {
            name: "ข".to_string(),
            districts: vec![District {
                name: "ค".to_string(),
                postal_code: 1,
                sub_districts: Vec::new(),
            }],
        },
        Province { name: "ข".to_string(), districts: Vec::new() },
    ];
    assert_eq!(names_of_provinces(&catalog), strings(&["ก", "ข", "ข"]));
    assert_eq!(find_province(&catalog, "ก"), Some(0));
    assert_eq!(find_province(&catalog, "ข"), Some(1));
    assert_eq!(find_province(&catalog, "ค"), None);
    assert_eq!(find_province(&catalog, ""), None);
    assert_eq!(find_province(&Vec::new(), "ก"), None);
    assert_eq!(catalog[1].district_names(), strings(&["ค"]));
    assert_eq!(catalog[1].find_district("ค"), Some(0));
    assert_eq!(catalog[1].find_district("ก"), None);
    assert_eq!(catalog[0].find_district("ค"), None);
}

#[test]
fn empty_records_hold_nothing() {
    let district = District::default();
    assert_eq!(district.name, "");
    assert_eq!(district.postal_code, 0);
    assert!(district.sub_districts.is_empty());
    let copy = District {
        name: "ค".to_string(),
        postal_code: 83000,
        sub_districts: strings(&["ก", "ข"]),
    };
    assert_eq!(copy.clone(), copy);
}
