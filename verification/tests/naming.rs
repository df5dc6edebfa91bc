use bench_hash_2023::naming::is_free_of;
use bench_hash_2023::naming::map_name;
use bench_hash_2023::naming::name_fn;
use bench_hash_2023::naming::Case;
use bench_hash_2023::scenario::Scenario;
use std::collections::HashSet;

fn map_case(frontend: &str, key_type: &str, value_type: &str) -> Case {
    Case::ForMap {
        frontend: frontend.to_string(),
        key_type: key_type.to_string(),
        value_type: value_type.to_string(),
    }
}

fn set_case(algorithm: &str, element_type: &str) -> Case {
    Case::ForSet { algorithm: algorithm.to_string(), element_type: element_type.to_string() }
}

fn declared_cases() -> Vec<Case> {
    let map_types = [
        ("RawStr", "RawStr"),
        ("RawStr", "String"),
        ("RawStr", "usize"),
        ("usize", "usize"),
        ("usize", "RawStr"),
        ("usize", "String"),
        ("i32", "i32"),
        ("i32", "usize"),
        ("i32", "RawStr"),
        ("String", "String"),
        ("String", "RawStr"),
        ("MyKeyValue", "MyKeyValue"),
        ("MyKeyValue", "RawStr"),
        ("StaticAb", "StaticAb"),
        ("StaticAb", "RawStr"),
        ("StaticAbReprC", "StaticAbReprC"),
    ];
    let set_types = [
        "RawStr", "String", "usize", "i32", "MyKeyValue", "StaticAb", "StaticAbReprC",
        "StaticAbSized", "Bts2", "Bts4", "Bts8", "Bts32", "Bts64", "Bts128", "Bts256",
    ];
    let frontends = ["std", "seahash", "ahash"];
    let algorithms = [
        "std::collections::hash_map::RandomState",
        "seahash::SeaHasher",
        "hashbrown::DefaultHashBuilder",
        "ahash::RandomState",
        "fnv::FnvBuildHasher",
        "rustc_hash::FxHasher",
    ];
    let mut cases = Vec::new();
    for (key_type, value_type) in map_types {
        for frontend in frontends {
            cases.push(map_case(frontend, key_type, value_type));
        }
    }
    for element_type in set_types {
        for algorithm in algorithms {
            cases.push(set_case(algorithm, element_type));
        }
    }
    cases
}

#[test]
fn map_labels() {
    assert_eq!(Scenario::InsertAbsent.map_label(), "insert_noexist");
    assert_eq!(Scenario::InsertPresent.map_label(), "insert_exist");
    assert_eq!(Scenario::LookupAbsent.map_label(), "get_noexist");
    assert_eq!(Scenario::LookupPresent.map_label(), "get_exist");
    assert_eq!(Scenario::RemoveAbsent.map_label(), "remove_noexist");
    assert_eq!(Scenario::RemovePresent.map_label(), "remove_exists");
}

#[test]
fn set_labels() {
    assert_eq!(Scenario::InsertAbsent.set_label(), "insert[!exists]");
    assert_eq!(Scenario::InsertPresent.set_label(), "insert[exists]");
    assert_eq!(Scenario::LookupAbsent.set_label(), "get[!exists]");
    assert_eq!(Scenario::LookupPresent.set_label(), "get[exists]");
    assert_eq!(Scenario::RemoveAbsent.set_label(), "remove[!exists]");
    assert_eq!(Scenario::RemovePresent.set_label(), "remove[exists]");
}

#[test]
fn the_name_of_a_map_benchmark() {
    assert_eq!(map_name("std", "insert_noexist", "RawStr", "RawStr"), "std_insert_noexist_RawStr_RawStr");
    assert_eq!(map_name("seahash", "get_exist", "i32", "usize"), "seahash_get_exist_i32_usize");
    assert_eq!(map_name("", "", "", ""), "___");
}

#[test]
fn the_name_of_a_set_benchmark() {
    assert_eq!(
        name_fn("seahash::SeaHasher", "get[!exists]", "String"),
        "HashSet<String,seahash::SeaHasher>::get[!exists]"
    );
    assert_eq!(
        name_fn("std::collections::hash_map::RandomState", "insert[exists]", "Bts256"),
        "HashSet<Bts256,std::collections::hash_map::RandomState>::insert[exists]"
    );
    assert_eq!(name_fn("", "", ""), "HashSet<,>::");
}

#[test]
fn a_case_names_its_scenarios() {
    let map = map_case("ahash", "String", "String");
    assert_eq!(map.name(Scenario::RemovePresent), "ahash_remove_exists_String_String");
    assert_eq!(map.name(Scenario::LookupAbsent), "ahash_get_noexist_String_String");
    let set = set_case("rustc_hash::FxHasher", "i32");
    assert_eq!(set.name(Scenario::RemovePresent), "HashSet<i32,rustc_hash::FxHasher>::remove[exists]");
    assert_eq!(set.name(Scenario::InsertAbsent), "HashSet<i32,rustc_hash::FxHasher>::insert[!exists]");
}

#[test]
fn no_two_declared_benchmarks_share_a_name() {
    let cases = declared_cases();
    assert_eq!(cases.len(), 16 * 3 + 15 * 6);
    let mut names = HashSet::new();
    for case in &cases {
        for scenario in Scenario::all() {
            assert!(names.insert(case.name(scenario)));
        }
    }
    assert_eq!(names.len(), (16 * 3 + 15 * 6) * 6);
}

#[test]
fn the_six_names_of_a_case_differ() {
    let case = map_case("std", "String", "String");
    let names: HashSet<String> = Scenario::all().into_iter().map(|scenario| case.name(scenario)).collect();
    assert_eq!(names.len(), 6);
}

#[test]
fn an_underscore_in_a_key_type_can_make_two_names_collide() {
    let first = map_case("std", "a", "b_c");
    let second = map_case("std", "a_b", "c");
    assert_eq!(first.name(Scenario::InsertAbsent), second.name(Scenario::InsertAbsent));
}

#[test]
fn every_declared_case_is_well_formed() {
    for case in declared_cases() {
        assert!(case.is_well_formed());
    }
}

#[test]
fn a_separator_in_the_wrong_part_is_found() {
    assert!(!map_case("rustc_hash", "i32", "i32").is_well_formed());
    assert!(!map_case("HashSet<", "i32", "i32").is_well_formed());
    assert!(!map_case("std", "a_b", "c").is_well_formed());
    assert!(map_case("std", "a", "b_c").is_well_formed());
    assert!(map_case("", "", "").is_well_formed());
    assert!(!set_case("fnv::FnvBuildHasher", "(i32,i32)").is_well_formed());
    assert!(!set_case("BuildHasherDefault<FxHasher>", "i32").is_well_formed());
    assert!(set_case("rustc_hash::FxHasher", "Vec<u8>").is_well_formed());
}

#[test]
fn a_text_is_searched_to_its_end() {
    assert!(is_free_of("", '_'));
    assert!(is_free_of("RawStr", '_'));
    assert!(!is_free_of("_RawStr", '_'));
    assert!(!is_free_of("Raw_Str", '_'));
    assert!(!is_free_of("RawStr_", '_'));
    assert!(is_free_of("clé", 'e'));
    assert!(!is_free_of("clé", 'é'));
}
