use newsterm::age::{age_of, Age};
use newsterm::app::App;

#[test]
fn ages_use_the_largest_unit_that_fits() {
    assert_eq!(age_of(0), Age::Seconds(0));
    assert_eq!(age_of(59), Age::Seconds(59));
    assert_eq!(age_of(-30), Age::Seconds(-30));
    assert_eq!(age_of(60), Age::Minutes(1));
    assert_eq!(age_of(3599), Age::Minutes(59));
    assert_eq!(age_of(3600), Age::Hours(1));
    assert_eq!(age_of(86399), Age::Hours(23));
    assert_eq!(age_of(86400), Age::Days(1));
    assert_eq!(age_of(6 * 86400 + 5), Age::Days(6));
    assert_eq!(age_of(7 * 86400), Age::Weeks(1));
    assert_eq!(age_of(29 * 86400), Age::Weeks(4));
    assert_eq!(age_of(30 * 86400), Age::Months(1));
    assert_eq!(age_of(364 * 86400), Age::Months(12));
    assert_eq!(age_of(365 * 86400), Age::Years(1));
    assert_eq!(age_of(i64::MAX), Age::Years(i64::MAX / 86400 / 365));
}

#[test]
fn tick_changes_nothing() {
    let mut app = App::new();
    app.selected_article_index = 0;
    app.tick();
    assert!(app.running);
    assert!(app.articles.is_empty());
    assert_eq!(app.selected_article_index, 0);
}
