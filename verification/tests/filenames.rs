use mikanbako::filename::{
    filename_from_millis, gen_filename, last_nonempty_segment, resolve_filename,
};

fn segments_of(address: &str) -> Option<Vec<String>> {
    let url = reqwest::Url::parse(address).unwrap();
    url.path_segments().map(|segments| segments.map(String::from).collect())
}

fn segments(list: &[&str]) -> Option<Vec<String>> {
    Some(list.iter().map(|s| s.to_string()).collect())
}

fn is_numeric(name: &str) -> bool {
    !name.is_empty() && name.chars().all(|c| c.is_ascii_digit())
}

#[test]
fn filename_is_the_last_path_segment() {
    assert_eq!(resolve_filename(&segments(&["a", "b", "report.pdf"])), Ok("report.pdf".to_string()));
    assert_eq!(
        resolve_filename(&segments_of("https://example.com/a/b/report.pdf")),
        Ok("report.pdf".to_string())
    );
}

#[test]
fn filename_is_percent_decoded() {
    assert_eq!(resolve_filename(&segments(&["na%C3%AFve.txt"])), Ok("naïve.txt".to_string()));
    assert_eq!(
        resolve_filename(&segments_of("https://example.com/na%C3%AFve.txt")),
        Ok("naïve.txt".to_string())
    );
}

#[test]
fn percent_escapes_that_are_no_utf8_are_replaced() {
    assert_eq!(resolve_filename(&segments(&["a%FFb"])), Ok("a\u{fffd}b".to_string()));
}

#[test]
fn percent_sign_without_two_digits_stays() {
    assert_eq!(resolve_filename(&segments(&["100%"])), Ok("100%".to_string()));
    assert_eq!(resolve_filename(&segments(&["a%2"])), Ok("a%2".to_string()));
    assert_eq!(resolve_filename(&segments(&["a%zzb%20c"])), Ok("a%zzb c".to_string()));
}

#[test]
fn empty_segments_at_the_end_are_passed_over() {
    assert_eq!(resolve_filename(&segments(&["files", "x.bin", ""])), Ok("x.bin".to_string()));
    assert_eq!(
        resolve_filename(&segments_of("https://example.com/files/x.bin/")),
        Ok("x.bin".to_string())
    );
    assert_eq!(resolve_filename(&segments(&["x.bin", "", ""])), Ok("x.bin".to_string()));
}

#[test]
fn address_without_path_gets_a_numeric_name() {
    let name = resolve_filename(&segments_of("https://example.com")).unwrap();
    assert!(is_numeric(&name), "{:?}", name);
    let name = resolve_filename(&segments(&[""])).unwrap();
    assert!(is_numeric(&name), "{:?}", name);
    let name = resolve_filename(&segments(&[])).unwrap();
    assert!(is_numeric(&name), "{:?}", name);
    let name = resolve_filename(&None).unwrap();
    assert!(is_numeric(&name), "{:?}", name);
}

#[test]
fn names_from_different_instants_differ() {
    assert_eq!(filename_from_millis(1700000000000), "1700000000000");
    assert_eq!(filename_from_millis(1700000000001), "1700000000001");
    assert_ne!(filename_from_millis(1700000000000), filename_from_millis(1700000000001));
    assert_eq!(filename_from_millis(0), "0");
    let mut seen: Vec<String> = Vec::new();
    for millis in 995..1005u128 {
        let name = filename_from_millis(millis);
        assert!(!seen.contains(&name));
        seen.push(name);
    }
}

#[test]
fn generated_name_is_the_time_of_the_clock() {
    let before = std::time::SystemTime::now()
        .duration_since(std::time::UNIX_EPOCH)
        .unwrap()
        .as_millis();
    let name = gen_filename().unwrap();
    let after = std::time::SystemTime::now()
        .duration_since(std::time::UNIX_EPOCH)
        .unwrap()
        .as_millis();
    assert!(is_numeric(&name));
    let millis: u128 = name.parse().unwrap();
    assert!(before <= millis && millis <= after);
}

#[test]
fn last_nonempty_segment_is_found() {
    let list: Vec<String> = vec!["a".to_string(), "".to_string(), "b".to_string(), "".to_string()];
    assert_eq!(last_nonempty_segment(&list), Some(2));
    let list: Vec<String> = vec!["".to_string(), "".to_string()];
    assert_eq!(last_nonempty_segment(&list), None);
    let list: Vec<String> = Vec::new();
    assert_eq!(last_nonempty_segment(&list), None);
    let list: Vec<String> = vec!["only".to_string()];
    assert_eq!(last_nonempty_segment(&list), Some(0));
}
