use jenkins_api::client::{AdvancedQuery, TreeBuilder, TreeQueryParam};
use jenkins_api::text::{parse_i32, parse_u32};
use jenkins_api::{Action, BuildNumber, ExpectedType};

#[test]
fn query_projection() {
    let tree = TreeBuilder::object("builds")
        .with_subfield("url")
        .with_subfield("result")
        .with_subfield(TreeBuilder::object("actions").with_subfield("causes"))
        .build();
    assert_eq!(tree.to_string(), "builds[url,result,actions[causes]]");
}

#[test]
fn range_suffix() {
    let tree = TreeBuilder::object("builds").with_range(0..10).build();
    assert_eq!(tree.to_string(), "builds{0,10}");
}

#[test]
fn root_group_and_ranges() {
    let tree = TreeBuilder::new()
        .with_field("displayName")
        .with_field(
            TreeBuilder::object("lastBuild")
                .with_subfield("number")
                .with_subfield("duration")
                .with_range(2..5),
        )
        .build();
    assert_eq!(tree.to_string(), "displayName,lastBuild[number,duration]{2,5}");
    assert_eq!(TreeBuilder::new().build().to_string(), "");
    assert_eq!(TreeBuilder::default().with_range(1..3).build().to_string(), "{1,3}");
    assert_eq!(
        TreeBuilder::new().with_field("a").with_range(0..1).build().to_string(),
        "a{0,1}"
    );
    let leaf = TreeBuilder::object("jobs").build();
    assert_eq!(TreeBuilder::new().with_field(leaf).build().to_string(), "jobs");
}

#[test]
fn tree_into_query() {
    let q: Option<AdvancedQuery> = TreeBuilder::object("a").build().into();
    match q {
        Some(AdvancedQuery::Tree(t)) => assert_eq!(t.to_string(), "a"),
        _ => panic!("expected a tree query"),
    }
    let t: TreeQueryParam = TreeBuilder::object("b").into();
    assert_eq!(t.to_string(), "b");
}

#[test]
fn build_number_text() {
    assert_eq!(BuildNumber::LastBuild.to_string(), "lastBuild");
    assert_eq!(BuildNumber::LastSuccessfulBuild.to_string(), "lastSuccessfulBuild");
    assert_eq!(BuildNumber::LastStableBuild.to_string(), "lastStableBuild");
    assert_eq!(BuildNumber::LastCompletedBuild.to_string(), "lastCompletedBuild");
    assert_eq!(BuildNumber::LastFailedBuild.to_string(), "lastFailedBuild");
    assert_eq!(BuildNumber::LastUnsuccessfulBuild.to_string(), "lastUnsuccessfulBuild");
    assert_eq!(BuildNumber::Number(0).to_string(), "0");
    assert_eq!(BuildNumber::Number(4294967295).to_string(), "4294967295");
    assert_eq!(BuildNumber::UnknownAlias("lastGood".to_string()).to_string(), "lastGood");
}

#[test]
fn build_number_from_text() {
    assert_eq!(BuildNumber::from_text("lastBuild"), BuildNumber::LastBuild);
    assert_eq!(BuildNumber::from_text("lastFailedBuild"), BuildNumber::LastFailedBuild);
    assert_eq!(
        BuildNumber::from_text("lastUnsuccessfulBuild"),
        BuildNumber::LastUnsuccessfulBuild
    );
    assert_eq!(
        BuildNumber::from_text("12"),
        BuildNumber::UnknownAlias("12".to_string())
    );
    assert_eq!(BuildNumber::from(5u32), BuildNumber::Number(5));
}

#[test]
fn integers_as_text() {
    assert_eq!(parse_u32("0"), Some(0));
    assert_eq!(parse_u32("+12"), Some(12));
    assert_eq!(parse_u32("007"), Some(7));
    assert_eq!(parse_u32("4294967295"), Some(u32::MAX));
    assert_eq!(parse_u32("4294967296"), None);
    assert_eq!(parse_u32(""), None);
    assert_eq!(parse_u32("+"), None);
    assert_eq!(parse_u32("-1"), None);
    assert_eq!(parse_u32("1a"), None);
    assert_eq!(parse_i32("-2147483648"), Some(i32::MIN));
    assert_eq!(parse_i32("2147483647"), Some(i32::MAX));
    assert_eq!(parse_i32("2147483648"), None);
    assert_eq!(parse_i32("-"), None);
    assert_eq!(parse_i32("-0"), Some(0));
    assert_eq!(parse_i32("+5"), Some(5));
}

#[test]
fn kinds_and_actions_as_text() {
    assert_eq!(ExpectedType::Build.to_string(), "Build");
    assert_eq!(ExpectedType::Job.to_string(), "Job");
    assert_eq!(ExpectedType::QueueItem.to_string(), "QueueItem");
    assert_eq!(ExpectedType::View.to_string(), "View");
    assert_eq!(ExpectedType::ShortView.to_string(), "ShortView");
    assert_eq!(ExpectedType::MavenArtifactRecord.to_string(), "MavenArtifactRecord");
    assert_eq!(Action::GetField("name").to_string(), "get field 'name'");
    assert_eq!(
        Action::GetLinkedItem(ExpectedType::Job).to_string(),
        "get linked item 'Job'"
    );
}
