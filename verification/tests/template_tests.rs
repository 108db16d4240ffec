use minipress::template_helpers::app_name;

#[test]
fn app_name_is_the_configured_one_or_the_default() {
    assert_eq!(app_name(None), "MiniPress");
    assert_eq!(app_name(Some("My Blog".to_string())), "My Blog");
    assert_eq!(app_name(Some("".to_string())), "");
}
