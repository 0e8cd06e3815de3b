use jenkins_api::client;
use jenkins_api::parse::parse_path;
use jenkins_api::{BuildNumber, ExpectedType, InvalidUrl, JenkinsBuilder, Name, Path};

static JENKINS_URL: &str = "http://none:8080";

fn n(s: &str) -> Name<'_> {
    Name::UrlEncodedName(s)
}

#[test]
fn can_parse_view_path() {
    let jenkins_client = JenkinsBuilder::new(JENKINS_URL).build().unwrap();

    let path = jenkins_client.url_to_path("/view/myview/");
    assert_eq!(
        path,
        Ok(Path::View {
            name: Name::UrlEncodedName("myview")
        })
    );
}

#[test]
fn can_parse_job_path() {
    let jenkins_client = JenkinsBuilder::new(JENKINS_URL).build().unwrap();

    let path = jenkins_client.url_to_path("/job/myjob/");
    assert_eq!(
        path,
        Ok(Path::Job {
            name: Name::UrlEncodedName("myjob"),
            configuration: None
        })
    );
}

#[test]
fn can_parse_job_with_config_path() {
    let jenkins_client = JenkinsBuilder::new(JENKINS_URL).build().unwrap();

    let path = jenkins_client.url_to_path("/job/myjob/config/");
    assert_eq!(
        path,
        Ok(Path::Job {
            name: Name::UrlEncodedName("myjob"),
            configuration: Some(Name::UrlEncodedName("config"))
        })
    );
}

#[test]
fn can_parse_build_path() {
    let jenkins_client = JenkinsBuilder::new(JENKINS_URL).build().unwrap();

    let path = jenkins_client.url_to_path("/job/myjob/1/");
    assert_eq!(
        path,
        Ok(Path::Build {
            job_name: Name::UrlEncodedName("myjob"),
            number: BuildNumber::Number(1),
            configuration: None
        })
    );
}

#[test]
fn can_parse_build_with_config_path() {
    let jenkins_client = JenkinsBuilder::new(JENKINS_URL).build().unwrap();

    let path = jenkins_client.url_to_path("/job/myjob/config/1/");
    assert_eq!(
        path,
        Ok(Path::Build {
            job_name: Name::UrlEncodedName("myjob"),
            number: BuildNumber::Number(1),
            configuration: Some(Name::UrlEncodedName("config"))
        })
    );
}

#[test]
fn can_parse_unknown_path() {
    let jenkins_client = JenkinsBuilder::new(JENKINS_URL).build().unwrap();

    let path = jenkins_client.url_to_path("/unknown/path/");
    assert_eq!(
        path,
        Ok(Path::Raw {
            path: "/unknown/path/"
        })
    );
}

#[test]
fn can_parse_job_path_with_jenkins_url() {
    let jenkins_client = JenkinsBuilder::new(JENKINS_URL).build().unwrap();

    let path_url = format!("{}/job/myjob/", JENKINS_URL);
    let path = jenkins_client.url_to_path(&path_url);
    assert_eq!(
        path,
        Ok(Path::Job {
            name: Name::UrlEncodedName("myjob"),
            configuration: None
        })
    );
}

#[test]
fn number_segment_is_a_build_otherwise_a_configuration() {
    assert_eq!(
        parse_path("/job/foo/42/"),
        Ok(Path::Build {
            job_name: Name::UrlEncodedName("foo"),
            number: BuildNumber::Number(42),
            configuration: None
        })
    );
    assert_eq!(
        parse_path("/job/foo/bar/"),
        Ok(Path::Job {
            name: Name::UrlEncodedName("foo"),
            configuration: Some(Name::UrlEncodedName("bar"))
        })
    );
    // too large for a build number: a configuration name
    assert_eq!(
        parse_path("/job/foo/4294967296/"),
        Ok(Path::Job {
            name: Name::UrlEncodedName("foo"),
            configuration: Some(Name::UrlEncodedName("4294967296"))
        })
    );
    assert_eq!(
        parse_path("/job/foo/+7/"),
        Ok(Path::Build {
            job_name: Name::UrlEncodedName("foo"),
            number: BuildNumber::Number(7),
            configuration: None
        })
    );
}

#[test]
fn folder_recursion() {
    let parsed = parse_path("/job/folder1/job/foo/3/").unwrap();
    assert_eq!(
        parsed,
        Path::InFolder {
            folder_name: Name::UrlEncodedName("folder1"),
            path: Box::new(Path::Build {
                job_name: Name::UrlEncodedName("foo"),
                number: BuildNumber::Number(3),
                configuration: None
            })
        }
    );
    assert_eq!(format!("{}/", parsed.to_string()), "/job/folder1/job/foo/3/");
}

#[test]
fn nested_folders() {
    assert_eq!(
        parse_path("/job/a/job/b/job/c/"),
        Ok(Path::InFolder {
            folder_name: Name::UrlEncodedName("a"),
            path: Box::new(Path::InFolder {
                folder_name: Name::UrlEncodedName("b"),
                path: Box::new(Path::Job {
                    name: Name::UrlEncodedName("c"),
                    configuration: None
                })
            })
        })
    );
    // a folder holding something unrecognised is unrecognised as a whole
    assert_eq!(
        parse_path("/job/a/job/b/c/d/e/"),
        Ok(Path::Raw {
            path: "/job/a/job/b/c/d/e/"
        })
    );
}

#[test]
fn maven_artifacts() {
    assert_eq!(
        parse_path("/job/foo/5/mavenArtifacts/"),
        Ok(Path::MavenArtifactRecord {
            job_name: Name::UrlEncodedName("foo"),
            number: BuildNumber::Number(5),
            configuration: None
        })
    );
    assert_eq!(
        parse_path("/job/foo/cfg/5/mavenArtifacts/"),
        Ok(Path::MavenArtifactRecord {
            job_name: Name::UrlEncodedName("foo"),
            number: BuildNumber::Number(5),
            configuration: Some(Name::UrlEncodedName("cfg"))
        })
    );
    assert_eq!(
        parse_path("/job/foo/x/mavenArtifacts/"),
        Err(ExpectedType::MavenArtifactRecord)
    );
    assert_eq!(
        parse_path("/job/foo/cfg/x/mavenArtifacts/"),
        Err(ExpectedType::MavenArtifactRecord)
    );
}

#[test]
fn malformed_numbers_are_errors() {
    assert_eq!(parse_path("/queue/item/abc/"), Err(ExpectedType::QueueItem));
    assert_eq!(parse_path("/job/foo/cfg/last/"), Err(ExpectedType::Build));
    let jenkins = JenkinsBuilder::new(JENKINS_URL).build().unwrap();
    assert_eq!(
        jenkins.url_to_path("http://none:8080/queue/item/x/"),
        Err(InvalidUrl {
            url: "http://none:8080/queue/item/x/".to_string(),
            expected: ExpectedType::QueueItem
        })
    );
}

#[test]
fn queue_items() {
    assert_eq!(parse_path("/queue/item/12/"), Ok(Path::QueueItem { id: 12 }));
    assert_eq!(parse_path("/queue/item/-3/"), Ok(Path::QueueItem { id: -3 }));
    assert_eq!(
        parse_path("/queue/item/-2147483648/"),
        Ok(Path::QueueItem { id: i32::MIN })
    );
    assert_eq!(parse_path("/queue/item/2147483648/"), Err(ExpectedType::QueueItem));
    assert_eq!(
        parse_path("/queue/other/12/"),
        Ok(Path::Raw {
            path: "/queue/other/12/"
        })
    );
}

#[test]
fn unknown_base_url_is_kept() {
    let jenkins = JenkinsBuilder::new(JENKINS_URL).build().unwrap();
    assert_eq!(
        jenkins.url_to_path("http://elsewhere:8080/job/myjob/"),
        Ok(Path::Raw {
            path: "http://elsewhere:8080/job/myjob/"
        })
    );
    assert_eq!(
        jenkins.url_to_path("/job/myjob/"),
        Ok(Path::Job {
            name: Name::UrlEncodedName("myjob"),
            configuration: None
        })
    );
}

#[test]
fn unrecognized_shape_falls_back_to_raw() {
    let parsed = parse_path("/unknown/path/").unwrap();
    assert_eq!(
        parsed,
        Path::Raw {
            path: "/unknown/path/"
        }
    );
    assert_eq!(parsed.to_string(), "/unknown/path/");
}

#[test]
fn trailing_slash_is_required() {
    assert_eq!(parse_path("/job/foo"), Ok(Path::Raw { path: "/job/foo" }));
    assert_eq!(
        parse_path("/job/foo/bar"),
        Ok(Path::Raw {
            path: "/job/foo/bar"
        })
    );
    assert_eq!(parse_path(""), Ok(Path::Raw { path: "" }));
    assert_eq!(parse_path("job/a/"), Ok(Path::Raw { path: "job/a/" }));
}

#[test]
fn render_every_variant() {
    assert_eq!(Path::Home.to_string(), "");
    assert_eq!(Path::View { name: n("v") }.to_string(), "/view/v");
    assert_eq!(
        Path::AddJobToView { job_name: n("j"), view_name: n("v") }.to_string(),
        "/view/v/addJobToView?name=j"
    );
    assert_eq!(
        Path::RemoveJobFromView { job_name: n("j"), view_name: n("v") }.to_string(),
        "/view/v/removeJobFromView?name=j"
    );
    assert_eq!(Path::Job { name: n("j"), configuration: None }.to_string(), "/job/j");
    assert_eq!(Path::Job { name: n("j"), configuration: Some(n("c")) }.to_string(), "/job/j/c");
    assert_eq!(Path::BuildJob { name: n("j") }.to_string(), "/job/j/build");
    assert_eq!(
        Path::BuildJobWithParameters { name: n("j") }.to_string(),
        "/job/j/buildWithParameters"
    );
    assert_eq!(Path::PollSCMJob { name: n("j") }.to_string(), "/job/j/polling");
    assert_eq!(Path::JobEnable { name: n("j") }.to_string(), "/job/j/enable");
    assert_eq!(Path::JobDisable { name: n("j") }.to_string(), "/job/j/disable");
    assert_eq!(
        Path::Build { job_name: n("j"), number: BuildNumber::Number(7), configuration: None }
            .to_string(),
        "/job/j/7"
    );
    assert_eq!(
        Path::Build { job_name: n("j"), number: BuildNumber::LastBuild, configuration: Some(n("c")) }
            .to_string(),
        "/job/j/c/lastBuild"
    );
    assert_eq!(
        Path::ConsoleText {
            job_name: n("j"),
            number: BuildNumber::Number(1),
            configuration: None,
            folder_name: None
        }
        .to_string(),
        "/job/j/1/consoleText"
    );
    assert_eq!(
        Path::ConsoleText {
            job_name: n("j"),
            number: BuildNumber::Number(1),
            configuration: Some(n("c")),
            folder_name: None
        }
        .to_string(),
        "/job/j/c/1/consoleText"
    );
    assert_eq!(
        Path::ConsoleText {
            job_name: n("j"),
            number: BuildNumber::Number(1),
            configuration: None,
            folder_name: Some(n("f"))
        }
        .to_string(),
        "/job/f/job/j/1/consoleText"
    );
    assert_eq!(
        Path::ConsoleText {
            job_name: n("j"),
            number: BuildNumber::Number(1),
            configuration: Some(n("c")),
            folder_name: Some(n("f"))
        }
        .to_string(),
        "/job/f/job/j/c/1/consoleText"
    );
    assert_eq!(
        Path::ConfigXML { job_name: n("j"), folder_name: None }.to_string(),
        "/job/j/config.xml"
    );
    assert_eq!(
        Path::ConfigXML { job_name: n("j"), folder_name: Some(n("f")) }.to_string(),
        "/job/f/job/j/config.xml"
    );
    assert_eq!(Path::Queue.to_string(), "/queue");
    assert_eq!(Path::QueueItem { id: -12 }.to_string(), "/queue/item/-12");
    assert_eq!(
        Path::MavenArtifactRecord {
            job_name: n("j"),
            number: BuildNumber::Number(4),
            configuration: None
        }
        .to_string(),
        "/job/j/4/mavenArtifacts"
    );
    assert_eq!(
        Path::MavenArtifactRecord {
            job_name: n("j"),
            number: BuildNumber::Number(4),
            configuration: Some(n("c"))
        }
        .to_string(),
        "/job/j/c/4/mavenArtifacts"
    );
    assert_eq!(Path::Computers.to_string(), "/computer/api/json");
    assert_eq!(Path::Computer { name: n("(master)") }.to_string(), "/computer/(master)/api/json");
    assert_eq!(Path::Raw { path: "/x?y" }.to_string(), "/x?y");
    assert_eq!(Path::CrumbIssuer.to_string(), "/crumbIssuer");
}

#[test]
fn plain_names_are_percent_encoded() {
    assert_eq!(Name::Name("my job/é~").to_string(), "my%20job%2F%C3%A9~");
    assert_eq!(Name::UrlEncodedName("my%20job").to_string(), "my%20job");
    assert_eq!(
        Path::Computer { name: Name::Name("(master)") }.to_string(),
        "/computer/%28master%29/api/json"
    );
    assert_eq!(
        Path::Job { name: Name::Name("a b"), configuration: None }.to_string(),
        "/job/a%20b"
    );
}

#[test]
fn public_path_converts_with_encoded_names() {
    let p: Path = client::Path::Build {
        job_name: "a%20b",
        number: BuildNumber::Number(2),
        configuration: Some("c"),
    }
    .into();
    assert_eq!(
        p,
        Path::Build {
            job_name: Name::UrlEncodedName("a%20b"),
            number: BuildNumber::Number(2),
            configuration: Some(Name::UrlEncodedName("c"))
        }
    );
    assert_eq!(p.to_string(), "/job/a%20b/c/2");
    let q: Path = client::Path::Computers.into();
    assert_eq!(q, Path::Computers);
}

#[test]
fn round_trip_with_trailing_slash() {
    let samples = vec![
        Path::View { name: n("v") },
        Path::Job { name: n("j"), configuration: None },
        Path::Job { name: n("j"), configuration: Some(n("c")) },
        Path::Build { job_name: n("j"), number: BuildNumber::Number(0), configuration: None },
        Path::Build { job_name: n("j"), number: BuildNumber::Number(u32::MAX), configuration: Some(n("c")) },
        Path::MavenArtifactRecord { job_name: n("j"), number: BuildNumber::Number(9), configuration: None },
        Path::MavenArtifactRecord { job_name: n("j"), number: BuildNumber::Number(9), configuration: Some(n("c")) },
        Path::QueueItem { id: i32::MIN },
        Path::InFolder {
            folder_name: n("f"),
            path: Box::new(Path::InFolder {
                folder_name: n("g"),
                path: Box::new(Path::Build { job_name: n("j"), number: BuildNumber::Number(3), configuration: Some(n("c")) }),
            }),
        },
    ];
    for p in samples {
        let text = format!("{}/", p.to_string());
        assert_eq!(parse_path(&text), Ok(p));
    }
}

#[test]
fn parse_render_parse_is_stable() {
    for text in [
        "/job/a/job/b/c/7/",
        "/view/All/",
        "/queue/item/-1/",
        "/job/x/+0042/",
        "/job/f/job/m/cfg/9/mavenArtifacts/",
    ] {
        let first = parse_path(text).unwrap();
        let rendered = format!("{}/", first.to_string());
        assert_eq!(parse_path(&rendered), Ok(first.clone()));
    }
}

#[test]
fn clone_keeps_the_path() {
    let p = Path::InFolder {
        folder_name: Name::Name("f"),
        path: Box::new(Path::ConsoleText {
            job_name: n("j"),
            number: BuildNumber::UnknownAlias("lastGood".to_string()),
            configuration: None,
            folder_name: None,
        }),
    };
    assert_eq!(p.clone(), p);
    assert_eq!(BuildNumber::from(7u8), BuildNumber::Number(7));
    assert_eq!(BuildNumber::from(700u16), BuildNumber::Number(700));
}
