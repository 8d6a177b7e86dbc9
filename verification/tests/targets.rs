use mikanbako::arguments::ConfigError;
use mikanbako::targets::{create_download_list_from_file, create_sequential_download_list};

#[test]
fn template_expands_over_the_range() {
    let urls = create_sequential_download_list("http://host/{}.jpg", 1, 3);
    assert_eq!(
        urls,
        Ok(vec![
            "http://host/1.jpg".to_string(),
            "http://host/2.jpg".to_string(),
            "http://host/3.jpg".to_string(),
        ])
    );
}

#[test]
fn start_above_end_is_refused() {
    assert_eq!(
        create_sequential_download_list("http://host/{}.jpg", 5, 2),
        Err(ConfigError::StartAfterEnd)
    );
}

#[test]
fn range_of_one_number_gives_one_address() {
    assert_eq!(
        create_sequential_download_list("http://host/{}", 7, 7),
        Ok(vec!["http://host/7".to_string()])
    );
}

#[test]
fn every_placeholder_is_replaced() {
    assert_eq!(
        create_sequential_download_list("{}/a/{}/b{}", 9, 10),
        Ok(vec!["9/a/9/b9".to_string(), "10/a/10/b10".to_string()])
    );
}

#[test]
fn template_without_placeholder_repeats() {
    assert_eq!(
        create_sequential_download_list("http://host/x", 1, 2),
        Ok(vec!["http://host/x".to_string(), "http://host/x".to_string()])
    );
}

#[test]
fn braces_that_are_no_placeholder_stay() {
    assert_eq!(
        create_sequential_download_list("{{}}{ }}{", 4, 4),
        Ok(vec!["{4}{ }}{".to_string()])
    );
}

#[test]
fn negative_numbers_keep_their_sign() {
    assert_eq!(
        create_sequential_download_list("n{}", -2, 1),
        Ok(vec!["n-2".to_string(), "n-1".to_string(), "n0".to_string(), "n1".to_string()])
    );
}

#[test]
fn range_may_end_at_the_largest_number() {
    assert_eq!(
        create_sequential_download_list("{}", i64::MAX - 1, i64::MAX),
        Ok(vec!["9223372036854775806".to_string(), "9223372036854775807".to_string()])
    );
}

#[test]
fn expansion_agrees_with_replace() {
    let template = "http://例.jp/{}/{{}}/{}{";
    let urls = create_sequential_download_list(template, -1, 12).unwrap();
    assert_eq!(urls.len(), 14);
    for (k, url) in urls.iter().enumerate() {
        let number = (k as i64 - 1).to_string();
        assert_eq!(url, &template.replace("{}", &number));
    }
}

#[test]
fn list_skips_blank_lines_and_strips_line_ends() {
    assert_eq!(
        create_download_list_from_file("A\r\n\nB\n"),
        vec!["A".to_string(), "B".to_string()]
    );
}

#[test]
fn empty_list_gives_no_address() {
    assert_eq!(create_download_list_from_file(""), Vec::<String>::new());
    assert_eq!(create_download_list_from_file("\n\r\n\n"), Vec::<String>::new());
}

#[test]
fn last_line_needs_no_line_feed() {
    assert_eq!(
        create_download_list_from_file("http://a/1\nhttp://a/2"),
        vec!["http://a/1".to_string(), "http://a/2".to_string()]
    );
    assert_eq!(create_download_list_from_file("x\r"), vec!["x".to_string()]);
}

#[test]
fn only_the_end_of_a_line_is_stripped() {
    assert_eq!(
        create_download_list_from_file("a\rb\r\r\n c \n"),
        vec!["a\rb".to_string(), " c ".to_string()]
    );
}

#[test]
fn list_keeps_order_and_duplicates() {
    assert_eq!(
        create_download_list_from_file("u2\nu1\nu2\n"),
        vec!["u2".to_string(), "u1".to_string(), "u2".to_string()]
    );
}
