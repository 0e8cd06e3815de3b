use jenkins_api::{JenkinsBuilder, SetupError, User};

static JENKINS_URL: &str = "http://none:8080";

#[test]
fn create_builder() {
    let jenkins_client = JenkinsBuilder::new(JENKINS_URL);

    assert_eq!(jenkins_client.base_url(), JENKINS_URL);
    assert_eq!(*jenkins_client.user(), None);
    assert!(jenkins_client.csrf_enabled());
}

#[test]
fn create_builder_with_trailing_slash() {
    let jenkins_client = JenkinsBuilder::new(&format!("{}/", JENKINS_URL));

    assert_eq!(jenkins_client.base_url(), JENKINS_URL);
    assert_eq!(*jenkins_client.user(), None);
    assert!(jenkins_client.csrf_enabled());
}

#[test]
fn disable_csrf() {
    let jenkins_client = JenkinsBuilder::new(JENKINS_URL).disable_csrf();

    assert_eq!(jenkins_client.base_url(), JENKINS_URL);
    assert_eq!(*jenkins_client.user(), None);
    assert!(!jenkins_client.csrf_enabled());
}

#[test]
fn builder_defaults_to_depth_one() {
    assert_eq!(JenkinsBuilder::new(JENKINS_URL).depth(), 1);
    assert_eq!(JenkinsBuilder::new(JENKINS_URL).with_depth(3).depth(), 3);
}

#[test]
fn builder_drops_only_one_trailing_slash() {
    assert_eq!(JenkinsBuilder::new("http://none:8080//").base_url(), "http://none:8080/");
    assert_eq!(JenkinsBuilder::new("").base_url(), "");
}

#[test]
fn builder_with_user() {
    let b = JenkinsBuilder::new(JENKINS_URL).with_user("user", Some("password"));
    assert_eq!(
        *b.user(),
        Some(User {
            username: "user".to_string(),
            password: Some("password".to_string()),
        })
    );
    let b = JenkinsBuilder::new(JENKINS_URL).with_user("other", None);
    assert_eq!(
        *b.user(),
        Some(User {
            username: "other".to_string(),
            password: None,
        })
    );
}

#[test]
fn build_keeps_settings() {
    let jenkins = JenkinsBuilder::new(JENKINS_URL)
        .with_user("user", None)
        .disable_csrf()
        .with_depth(2)
        .build()
        .unwrap();
    assert_eq!(jenkins.base_url(), JENKINS_URL);
    assert!(!jenkins.csrf_enabled());
    assert_eq!(jenkins.depth(), 2);
    assert_eq!(jenkins.user().as_ref().unwrap().username, "user");
}

#[test]
fn build_rejects_relative_url() {
    match JenkinsBuilder::new("none").build() {
        Err(SetupError::InvalidUrl(url::ParseError::RelativeUrlWithoutBase)) => {}
        other => panic!("unexpected: {:?}", other),
    }
}

#[test]
fn build_rejects_url_that_cannot_be_a_base() {
    match JenkinsBuilder::new("mailto:someone@example.com").build() {
        Err(SetupError::InvalidUrl(url::ParseError::RelativeUrlWithoutBase)) => {}
        other => panic!("unexpected: {:?}", other),
    }
}

#[test]
fn build_rejects_url_without_host() {
    match JenkinsBuilder::new("unix:/run/server").build() {
        Err(SetupError::InvalidUrl(url::ParseError::EmptyHost)) => {}
        other => panic!("unexpected: {:?}", other),
    }
}

#[test]
fn endpoint_urls() {
    let jenkins = JenkinsBuilder::new(JENKINS_URL).build().unwrap();
    assert_eq!(jenkins.url_api_json("/job/a"), "http://none:8080/job/a/api/json");
    assert_eq!(jenkins.endpoint_url("/queue"), "http://none:8080/queue");
}
