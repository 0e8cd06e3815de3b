use jenkins_api::client::{AdvancedQuery, TreeBuilder};
use jenkins_api::job::{BallColor, ShortJob};
use jenkins_api::links::{
    add_job_to_view_path, build_path, console_of_build_path, job_name_of, job_of_build_path,
    job_path, queue_item_path, remove_job_from_view_path, view_path,
};
use jenkins_api::server_error::{exception_from_groups, exception_in_body, ServerException};
use jenkins_api::view::{ListView, View, ViewName};
use jenkins_api::{BuildNumber, ExpectedType, InvalidUrl, Jenkins, JenkinsBuilder, Name, Path};

fn client() -> Jenkins {
    JenkinsBuilder::new("http://none:8080").build().unwrap()
}

fn invalid(url: &str, expected: ExpectedType) -> InvalidUrl {
    InvalidUrl {
        url: url.to_string(),
        expected,
    }
}

#[test]
fn build_links() {
    let j = client();
    let url = "http://none:8080/job/a/3/";
    assert_eq!(
        build_path(&j, url),
        Ok(Path::Build {
            job_name: Name::UrlEncodedName("a"),
            number: BuildNumber::Number(3),
            configuration: None
        })
    );
    let url = "http://none:8080/job/f/job/a/3/";
    assert_eq!(
        build_path(&j, url).map(|p| p.to_string()),
        Ok("/job/f/job/a/3".to_string())
    );
    let url = "http://none:8080/job/a/";
    assert_eq!(build_path(&j, url), Err(invalid(url, ExpectedType::Build)));
    let url = "http://none:8080/queue/item/x/";
    assert_eq!(build_path(&j, url), Err(invalid(url, ExpectedType::Build)));
}

#[test]
fn job_of_build_links() {
    let j = client();
    assert_eq!(
        job_of_build_path(&j, "/job/a/c/3/"),
        Ok(Path::Job {
            name: Name::UrlEncodedName("a"),
            configuration: Some(Name::UrlEncodedName("c"))
        })
    );
    assert_eq!(
        job_of_build_path(&j, "/job/f/job/a/3/").map(|p| p.to_string()),
        Ok("/job/f/job/a".to_string())
    );
    assert_eq!(
        job_of_build_path(&j, "/view/v/"),
        Err(invalid("/view/v/", ExpectedType::Build))
    );
}

#[test]
fn console_of_build_links() {
    let j = client();
    assert_eq!(
        console_of_build_path(&j, "/job/a/3/").map(|p| p.to_string()),
        Ok("/job/a/3/consoleText".to_string())
    );
    assert_eq!(
        console_of_build_path(&j, "/job/f/job/a/c/3/").map(|p| p.to_string()),
        Ok("/job/f/job/a/c/3/consoleText".to_string())
    );
    assert_eq!(
        console_of_build_path(&j, "/job/f/job/a/"),
        Err(invalid("/job/f/job/a/", ExpectedType::Build))
    );
}

#[test]
fn view_queue_and_job_links() {
    let j = client();
    assert_eq!(
        view_path(&j, "http://none:8080/view/All/"),
        Ok(Path::View {
            name: Name::UrlEncodedName("All")
        })
    );
    assert_eq!(
        view_path(&j, "/job/a/"),
        Err(invalid("/job/a/", ExpectedType::View))
    );
    assert_eq!(
        queue_item_path(&j, "/queue/item/5/"),
        Ok(Path::QueueItem { id: 5 })
    );
    assert_eq!(
        queue_item_path(&j, "/queue/"),
        Err(invalid("/queue/", ExpectedType::QueueItem))
    );
    assert_eq!(
        job_path(&j, "/job/a/c/"),
        Ok(Path::Job {
            name: Name::UrlEncodedName("a"),
            configuration: Some(Name::UrlEncodedName("c"))
        })
    );
    assert_eq!(
        job_path(&j, "/job/a/1/"),
        Err(invalid("/job/a/1/", ExpectedType::Job))
    );
    assert_eq!(job_name_of(&j, "/job/a/"), Ok(Name::UrlEncodedName("a")));
    assert_eq!(
        job_name_of(&j, "/job/a/c/"),
        Err(invalid("/job/a/c/", ExpectedType::Job))
    );
}

#[test]
fn list_view_job_membership() {
    let j = client();
    let view = ListView {
        description: None,
        name: "my view".to_string(),
        url: "http://none:8080/view/my%20view/".to_string(),
        jobs: vec![ShortJob {
            name: "a".to_string(),
            url: "http://none:8080/job/a/".to_string(),
            color: BallColor::Blue,
        }],
    };
    assert_eq!(view.name(), "my view");
    assert_eq!(ViewName::from("v").0, "v");
    assert_eq!(
        add_job_to_view_path(&j, &view.url, "new job").map(|p| p.to_string()),
        Ok("/view/my%20view/addJobToView?name=new%20job".to_string())
    );
    assert_eq!(
        remove_job_from_view_path(&j, &view.url, "a").map(|p| p.to_string()),
        Ok("/view/my%20view/removeJobFromView?name=a".to_string())
    );
    assert_eq!(
        add_job_to_view_path(&j, "/job/a/", "x"),
        Err(invalid("/job/a/", ExpectedType::View))
    );
}

#[test]
fn query_params() {
    let (k, v) = AdvancedQuery::Depth(2).query_param();
    assert_eq!((k.as_str(), v.as_str()), ("depth", "2"));
    let q = AdvancedQuery::Tree(TreeBuilder::object("jobs").with_subfield("name").build());
    let (k, v) = q.query_param();
    assert_eq!((k.as_str(), v.as_str()), ("tree", "jobs[name]"));
}

#[test]
fn server_exceptions() {
    assert_eq!(
        exception_in_body("hviqsuvnqsodjfsqjdgo java.lang.IllegalStateException: my error\nvzfjsd"),
        Some(ServerException::IllegalState {
            message: "my error".to_string()
        })
    );
    assert_eq!(
        exception_in_body("x java.lang.IllegalArgumentException: bad value\ny"),
        Some(ServerException::IllegalArgument {
            message: "bad value".to_string()
        })
    );
    assert_eq!(exception_in_body("x java.lang.NewException: my error\ny"), None);
    assert_eq!(exception_in_body("no exception here"), None);
    assert_eq!(
        exception_from_groups(Some(vec![
            "java.lang.IllegalStateException: m".to_string(),
            "IllegalStateException".to_string(),
            "m".to_string()
        ])),
        Some(ServerException::IllegalState {
            message: "m".to_string()
        })
    );
    assert_eq!(exception_from_groups(Some(vec!["x".to_string()])), None);
    assert_eq!(exception_from_groups(None), None);
}
