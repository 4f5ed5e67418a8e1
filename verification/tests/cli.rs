use supermarket_tracker::category::{department_filter, last_path_segment, Category};
use supermarket_tracker::config::{ApplicationConfig, ConfigError};
use supermarket_tracker::error::ApplicationError;
use supermarket_tracker::fetch::ProductRetrievalError;
use supermarket_tracker::position::find_position;
use supermarket_tracker::request::{decimal_string, page_query_params};
use supermarket_tracker::shell::{get_categories, GetCategoriesError, NavigationItem, ShellNav};
use supermarket_tracker::supermarket::{
    get_supermarket_type, Supermarket, SupermarketRetrievalError,
};

fn args(list: &[&str]) -> Vec<String> {
    list.iter().map(|s| s.to_string()).collect()
}

#[test]
fn supermarket_option_is_parsed() {
    let picked = get_supermarket_type(&args(&["--supermarket", "Countdown"])).unwrap();
    assert_eq!(picked, Supermarket::Countdown);
    let picked = get_supermarket_type(&args(&["--no-insert", "--supermarket", "NewWorld"])).unwrap();
    assert_eq!(picked, Supermarket::NewWorld);
}

#[test]
fn missing_supermarket_option_is_reported() {
    let err = get_supermarket_type(&args(&["--no-insert"])).unwrap_err();
    assert!(matches!(err, SupermarketRetrievalError::MissingSupermarket {}));
}

#[test]
fn trailing_supermarket_option_is_reported() {
    let err = get_supermarket_type(&args(&["--supermarket"])).unwrap_err();
    assert!(matches!(err, SupermarketRetrievalError::NotPassedSupermarket {}));
}

#[test]
fn unknown_supermarket_is_reported_with_its_name() {
    let err = get_supermarket_type(&args(&["--supermarket", "Corner Dairy"])).unwrap_err();
    match &err {
        SupermarketRetrievalError::ParseError { supermarket } => {
            assert_eq!(supermarket, "Corner Dairy");
        }
        other => panic!("unexpected error {other:?}"),
    }
    assert_eq!(err.message(), "Unknown supermarket variant 'Corner Dairy' passed");
}

#[test]
fn allowed_types_match_the_parser() {
    let allowed = Supermarket::get_allowed_types();
    assert_eq!(allowed, &["Countdown", "NewWorld"]);
    for name in allowed {
        assert!(Supermarket::try_from(name.to_string()).is_ok());
    }
}

#[test]
fn try_from_hands_back_the_rejected_string() {
    let rejected = Supermarket::try_from("corner dairy".to_string()).unwrap_err();
    assert_eq!(rejected.into_inner(), "corner dairy");
}

#[test]
fn application_config_reads_the_supermarket() {
    let config = ApplicationConfig::read_from_env(&args(&["--supermarket", "Countdown"])).unwrap();
    assert_eq!(config.supermarket, Supermarket::Countdown);
}

#[test]
fn application_config_rejects_a_bad_option() {
    let err = ApplicationConfig::read_from_env(&args(&["--supermarket", "nowhere"])).unwrap_err();
    match &err {
        ConfigError::InvalidOption { option } => assert_eq!(option, "--supermarket"),
        other => panic!("unexpected error {other:?}"),
    }
    assert_eq!(err.message(), "Invalid option '--supermarket'");
}

#[test]
fn config_error_messages_name_the_variable() {
    let err = ConfigError::LoadVariable { variable: "DATABASE_USER".to_string() };
    assert_eq!(err.message(), "Failed to load environment variable 'DATABASE_USER'");
}

#[test]
fn last_path_segment_takes_what_follows_the_last_slash() {
    assert_eq!(last_path_segment("specials/fruit-veg"), "fruit-veg");
    assert_eq!(last_path_segment("fruit-veg"), "fruit-veg");
    assert_eq!(last_path_segment("a/b/c"), "c");
    assert_eq!(last_path_segment("a/b/"), "");
    assert_eq!(last_path_segment(""), "");
}

#[test]
fn department_filter_frames_the_last_segment() {
    let category = Category { name: "Fruit & Veg".to_string(), url: "specials/fruit-veg".to_string() };
    assert_eq!(department_filter(&category), "Department;;fruit-veg;false");
}

#[test]
fn categories_come_from_the_browse_menu() {
    let shell = vec![
        ShellNav { name: "Specials".to_string(), navigation_items: None },
        ShellNav {
            name: "Browse".to_string(),
            navigation_items: Some(vec![
                NavigationItem {
                    items: vec![Category { name: "Fruit & Veg".to_string(), url: "specials/fruit-veg".to_string() }],
                },
                NavigationItem {
                    items: vec![Category { name: "Pantry".to_string(), url: "specials/pantry".to_string() }],
                },
            ]),
        },
    ];
    let categories = get_categories(&shell).unwrap();
    assert_eq!(categories.len(), 2);
    assert_eq!(categories[0].name, "Fruit & Veg");
    assert_eq!(categories[1].name, "Pantry");
}

#[test]
fn shell_without_browse_menu_fails_to_decode() {
    let shell = vec![ShellNav { name: "Specials".to_string(), navigation_items: None }];
    let err = get_categories(&shell).unwrap_err();
    assert!(matches!(err, GetCategoriesError::DecodeError));
}

#[test]
fn browse_menu_without_items_fails_to_decode() {
    let shell = vec![ShellNav { name: "Browse".to_string(), navigation_items: None }];
    let err = get_categories(&shell).unwrap_err();
    assert!(matches!(err, GetCategoriesError::DecodeError));
}

#[test]
fn error_messages_read_as_before() {
    assert_eq!(ApplicationError::Config.message(), "Failed to load configuration");
    assert_eq!(ApplicationError::HttpError.message(), "An error occurred while performing an HTTP request");
    assert_eq!(ApplicationError::SaveStore.message(), "Failed to save the store to the database");
    assert_eq!(ProductRetrievalError::Join.message(), "Failed to join all products after querying");
    assert_eq!(GetCategoriesError::HttpError.message(), "Failed to perform an HTTP request.");
}

#[test]
fn decimal_strings_read_as_expected() {
    assert_eq!(decimal_string(0), "0");
    assert_eq!(decimal_string(7), "7");
    assert_eq!(decimal_string(120), "120");
    assert_eq!(decimal_string(130), "130");
    assert_eq!(decimal_string(u64::MAX), u64::MAX.to_string());
}

#[test]
fn page_query_carries_size_target_page_and_filter() {
    let category = Category { name: "Fruit & Veg".to_string(), url: "specials/fruit-veg".to_string() };
    let params = page_query_params(2, &category);
    let pairs: Vec<(&str, &str)> = params.iter().map(|(k, v)| (k.as_str(), v.as_str())).collect();
    assert_eq!(
        pairs,
        vec![
            ("size", "120"),
            ("target", "browse"),
            ("page", "2"),
            ("dasFilter", "Department;;fruit-veg;false"),
        ]
    );
}

#[test]
fn find_position_reports_the_first_occurrence() {
    let column = args(&["a", "b", "a"]);
    assert_eq!(find_position(&column, &"a".to_string()), Some(0));
    assert_eq!(find_position(&column, &"b".to_string()), Some(1));
    assert_eq!(find_position(&column, &"c".to_string()), None);
}
