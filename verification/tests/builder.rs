use arcgis::error::ArcError;
use arcgis::oauth2::AuthReq;

#[test]
fn build_with_all_fields_succeeds() {
    let auth = AuthReq::new()
        .client_id("cid")
        .client_secret("sec")
        .auth_url("https://x/authorize")
        .token_url("https://x/token")
        .redirect_url("https://cb")
        .build();
    match auth {
        Ok(config) => {
            assert_eq!(config.client_id, "cid");
            assert_eq!(config.client_secret, "sec");
            assert_eq!(config.auth_url, "https://x/authorize");
            assert_eq!(config.token_url, "https://x/token");
            assert_eq!(config.redirect_url, "https://cb");
        }
        Err(_) => panic!("all five fields were provided"),
    }
}

#[test]
fn build_with_no_fields_lists_every_name() {
    let auth = AuthReq::new().build();
    match auth {
        Ok(_) => panic!("no field was provided"),
        Err(ArcError::UserBuildError { value }) => {
            assert_eq!(
                value,
                vec![
                    "client_id".to_string(),
                    "client_secret".to_string(),
                    "auth_url".to_string(),
                    "token_url".to_string(),
                    "redirect_url".to_string(),
                ]
            );
        }
        Err(_) => panic!("expected the validation error"),
    }
}

#[test]
fn build_lists_exactly_the_missing_names() {
    let auth = AuthReq::new()
        .client_id("cid")
        .token_url("https://x/token")
        .build();
    match auth {
        Ok(_) => panic!("three fields are missing"),
        Err(ArcError::UserBuildError { value }) => {
            assert_eq!(
                value,
                vec![
                    "client_secret".to_string(),
                    "auth_url".to_string(),
                    "redirect_url".to_string(),
                ]
            );
        }
        Err(_) => panic!("expected the validation error"),
    }
}

#[test]
fn build_missing_single_field() {
    let auth = AuthReq::new()
        .client_id("cid")
        .client_secret("sec")
        .auth_url("https://x/authorize")
        .token_url("https://x/token")
        .build();
    match auth {
        Ok(_) => panic!("redirect_url is missing"),
        Err(ArcError::UserBuildError { value }) => {
            assert_eq!(value, vec!["redirect_url".to_string()]);
        }
        Err(_) => panic!("expected the validation error"),
    }
}

#[test]
fn empty_strings_count_as_provided() {
    let auth = AuthReq::new()
        .client_id("")
        .client_secret("")
        .auth_url("")
        .token_url("")
        .redirect_url("")
        .build();
    assert!(auth.is_ok());
}
