use pacman_bintrans::logging::log_filter;

#[test]
fn verbosity_sets_the_filter() {
    assert_eq!(log_filter(0, false), None);
    assert_eq!(log_filter(0, true).as_deref(), Some("warn"));
    assert_eq!(log_filter(3, true).as_deref(), Some("warn"));
    assert_eq!(log_filter(1, false).as_deref(), Some("info"));
    assert_eq!(log_filter(2, false).as_deref(), Some("info,pacman_bintrans=debug"));
    assert_eq!(log_filter(3, false).as_deref(), Some("debug"));
    assert_eq!(log_filter(255, false).as_deref(), Some("debug"));
}
