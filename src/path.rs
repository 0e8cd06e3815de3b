//! The resource-path model: which server resource a URL addresses, and how
//! each kind of resource is written as a URL path.

use vstd::prelude::*;
use vstd::utf8::encode_utf8;

use crate::builds::{build_number_text, BuildNumber, BuildNumberView};
use crate::text::{push_signed_decimal, signed_decimal};

verus! {

/// Name of an object
#[derive(Debug, PartialEq, Clone, Copy)]
pub enum Name<'a> {
    /// Name of an object, to be percent-encoded in a URL
    Name(&'a str),
    /// URL encoded name of an object, written in a URL as it is
    UrlEncodedName(&'a str),
}

/// The value of a `Name`: its characters and whether they still need encoding.
pub enum NameView {
    Plain(Seq<char>),
    Encoded(Seq<char>),
}

impl<'a> View for Name<'a> {
    type V = NameView;

    open spec fn view(&self) -> NameView {
        match self {
            Name::Name(s) => NameView::Plain(s@),
            Name::UrlEncodedName(s) => NameView::Encoded(s@),
        }
    }
}

/// A byte that percent-encoding keeps: an ASCII letter or digit, `-`, `.`,
/// `_` or `~`.
pub open spec fn is_unreserved(b: u8) -> bool {
    (48 <= b <= 57) || (65 <= b <= 90) || (97 <= b <= 122) || b == 45 || b == 46 || b == 95
        || b == 126
}

/// Upper-case hexadecimal digit for `d < 16`.
pub open spec fn hex_digit(d: u8) -> char {
    if d < 10 {
        (d + 48) as u8 as char
    } else {
        (d + 55) as u8 as char
    }
}

/// Percent-encoding of bytes: a kept byte stands for itself, any other is
/// `%` and its two upper-case hexadecimal digits.
pub open spec fn percent_encoded(bytes: Seq<u8>) -> Seq<char>
    decreases bytes.len(),
{
    if bytes.len() == 0 {
        seq![]
    } else {
        let b = bytes[0];
        let head = if is_unreserved(b) {
            seq![b as char]
        } else {
            seq!['%', hex_digit(b / 16), hex_digit(b % 16)]
        };
        head + percent_encoded(bytes.drop_first())
    }
}

/// How a name is written in a URL.
pub open spec fn name_text(n: NameView) -> Seq<char> {
    match n {
        NameView::Plain(s) => percent_encoded(encode_utf8(s)),
        NameView::Encoded(s) => s,
    }
}

/// Relies on urlencoding::encode: percent-encodes every byte of the UTF-8
/// text except ASCII letters and digits and `-`, `.`, `_`, `~`.
#[verifier::external_body]
fn url_encode(s: &str) -> (r: String)
    ensures
        r@ == percent_encoded(encode_utf8(s@)),
{
    urlencoding::encode(s).into_owned()
}

impl<'a> Name<'a> {
    /// Appends how this name is written in a URL.
    pub fn push_to(&self, out: &mut String)
        ensures
            final(out)@ == old(out)@ + name_text(self@),
    {
        match self {
            Name::Name(s) => {
                let e = url_encode(s);
                out.append(e.as_str());
            },
            Name::UrlEncodedName(s) => out.append(s),
        }
    }

    /// How this name is written in a URL.
    pub fn to_string(&self) -> (r: String)
        ensures
            r@ == name_text(self@),
    {
        let mut out = String::new();
        self.push_to(&mut out);
        assert(out@ =~= name_text(self@));
        out
    }
}

/// Path to a resource of the server
#[allow(inconsistent_fields)]
#[derive(Debug, PartialEq)]
pub enum Path<'a> {
    Home,
    View { name: Name<'a> },
    AddJobToView { job_name: Name<'a>, view_name: Name<'a> },
    RemoveJobFromView { job_name: Name<'a>, view_name: Name<'a> },
    Job { name: Name<'a>, configuration: Option<Name<'a>> },
    BuildJob { name: Name<'a> },
    BuildJobWithParameters { name: Name<'a> },
    PollSCMJob { name: Name<'a> },
    JobEnable { name: Name<'a> },
    JobDisable { name: Name<'a> },
    Build { job_name: Name<'a>, number: BuildNumber, configuration: Option<Name<'a>> },
    ConsoleText {
        job_name: Name<'a>,
        number: BuildNumber,
        configuration: Option<Name<'a>>,
        folder_name: Option<Name<'a>>,
    },
    ConfigXML { job_name: Name<'a>, folder_name: Option<Name<'a>> },
    Queue,
    QueueItem { id: i32 },
    MavenArtifactRecord {
        job_name: Name<'a>,
        number: BuildNumber,
        configuration: Option<Name<'a>>,
    },
    InFolder { folder_name: Name<'a>, path: Box<Path<'a>> },
    Computers,
    Computer { name: Name<'a> },
    Raw { path: &'a str },
    CrumbIssuer,
}

/// The value of a `Path`, over the values of its names.
#[allow(inconsistent_fields)]
pub enum PathView {
    Home,
    View { name: NameView },
    AddJobToView { job_name: NameView, view_name: NameView },
    RemoveJobFromView { job_name: NameView, view_name: NameView },
    Job { name: NameView, configuration: Option<NameView> },
    BuildJob { name: NameView },
    BuildJobWithParameters { name: NameView },
    PollSCMJob { name: NameView },
    JobEnable { name: NameView },
    JobDisable { name: NameView },
    Build { job_name: NameView, number: BuildNumberView, configuration: Option<NameView> },
    ConsoleText {
        job_name: NameView,
        number: BuildNumberView,
        configuration: Option<NameView>,
        folder_name: Option<NameView>,
    },
    ConfigXML { job_name: NameView, folder_name: Option<NameView> },
    Queue,
    QueueItem { id: i32 },
    MavenArtifactRecord {
        job_name: NameView,
        number: BuildNumberView,
        configuration: Option<NameView>,
    },
    InFolder { folder_name: NameView, path: Box<PathView> },
    Computers,
    Computer { name: NameView },
    Raw { path: Seq<char> },
    CrumbIssuer,
}

pub open spec fn option_name_view(n: Option<Name>) -> Option<NameView> {
    match n {
        Some(n) => Some(n@),
        None => None,
    }
}

/// The value of a path.
pub open spec fn path_view(p: Path) -> PathView
    decreases p,
{
    match p {
        Path::Home => PathView::Home,
        Path::View { name } => PathView::View { name: name@ },
        Path::AddJobToView { job_name, view_name } => PathView::AddJobToView {
            job_name: job_name@,
            view_name: view_name@,
        },
        Path::RemoveJobFromView { job_name, view_name } => PathView::RemoveJobFromView {
            job_name: job_name@,
            view_name: view_name@,
        },
        Path::Job { name, configuration } => PathView::Job {
            name: name@,
            configuration: option_name_view(configuration),
        },
        Path::BuildJob { name } => PathView::BuildJob { name: name@ },
        Path::BuildJobWithParameters { name } => PathView::BuildJobWithParameters { name: name@ },
        Path::PollSCMJob { name } => PathView::PollSCMJob { name: name@ },
        Path::JobEnable { name } => PathView::JobEnable { name: name@ },
        Path::JobDisable { name } => PathView::JobDisable { name: name@ },
        Path::Build { job_name, number, configuration } => PathView::Build {
            job_name: job_name@,
            number: number@,
            configuration: option_name_view(configuration),
        },
        Path::ConsoleText { job_name, number, configuration, folder_name } =>
            PathView::ConsoleText {
            job_name: job_name@,
            number: number@,
            configuration: option_name_view(configuration),
            folder_name: option_name_view(folder_name),
        },
        Path::ConfigXML { job_name, folder_name } => PathView::ConfigXML {
            job_name: job_name@,
            folder_name: option_name_view(folder_name),
        },
        Path::Queue => PathView::Queue,
        Path::QueueItem { id } => PathView::QueueItem { id },
        Path::MavenArtifactRecord { job_name, number, configuration } =>
            PathView::MavenArtifactRecord {
            job_name: job_name@,
            number: number@,
            configuration: option_name_view(configuration),
        },
        Path::InFolder { folder_name, path } => PathView::InFolder {
            folder_name: folder_name@,
            path: Box::new(path_view(*path)),
        },
        Path::Computers => PathView::Computers,
        Path::Computer { name } => PathView::Computer { name: name@ },
        Path::Raw { path } => PathView::Raw { path: path@ },
        Path::CrumbIssuer => PathView::CrumbIssuer,
    }
}

impl<'a> View for Path<'a> {
    type V = PathView;

    open spec fn view(&self) -> PathView {
        path_view(*self)
    }
}

/// `/job/<folder>` when a folder is given, else nothing.
pub open spec fn folder_prefix(folder_name: Option<NameView>) -> Seq<char> {
    match folder_name {
        Some(f) => "/job/"@ + name_text(f),
        None => seq![],
    }
}

/// `/<configuration>` when a configuration is given, else nothing.
pub open spec fn configuration_part(configuration: Option<NameView>) -> Seq<char> {
    match configuration {
        Some(c) => "/"@ + name_text(c),
        None => seq![],
    }
}

/// `/job/<job>[/<configuration>]/<number>`: where a build lives.
pub open spec fn build_text(
    job_name: NameView,
    configuration: Option<NameView>,
    number: BuildNumberView,
) -> Seq<char> {
    "/job/"@ + name_text(job_name) + configuration_part(configuration) + "/"@ + build_number_text(
        number,
    )
}

/// The URL path of a resource, without a trailing slash; the home is empty.
pub open spec fn render(p: PathView) -> Seq<char>
    decreases p,
{
    match p {
        PathView::Home => seq![],
        PathView::View { name } => "/view/"@ + name_text(name),
        PathView::AddJobToView { job_name, view_name } => "/view/"@ + name_text(view_name)
            + "/addJobToView?name="@ + name_text(job_name),
        PathView::RemoveJobFromView { job_name, view_name } => "/view/"@ + name_text(view_name)
            + "/removeJobFromView?name="@ + name_text(job_name),
        PathView::Job { name, configuration } => "/job/"@ + name_text(name) + configuration_part(
            configuration,
        ),
        PathView::BuildJob { name } => "/job/"@ + name_text(name) + "/build"@,
        PathView::BuildJobWithParameters { name } => "/job/"@ + name_text(name)
            + "/buildWithParameters"@,
        PathView::PollSCMJob { name } => "/job/"@ + name_text(name) + "/polling"@,
        PathView::JobEnable { name } => "/job/"@ + name_text(name) + "/enable"@,
        PathView::JobDisable { name } => "/job/"@ + name_text(name) + "/disable"@,
        PathView::Build { job_name, number, configuration } => build_text(
            job_name,
            configuration,
            number,
        ),
        PathView::ConsoleText { job_name, number, configuration, folder_name } => folder_prefix(
            folder_name,
        ) + build_text(job_name, configuration, number) + "/consoleText"@,
        PathView::ConfigXML { job_name, folder_name } => folder_prefix(folder_name) + "/job/"@
            + name_text(job_name) + "/config.xml"@,
        PathView::Queue => "/queue"@,
        PathView::QueueItem { id } => "/queue/item/"@ + signed_decimal(id as int),
        PathView::MavenArtifactRecord { job_name, number, configuration } => build_text(
            job_name,
            configuration,
            number,
        ) + "/mavenArtifacts"@,
        PathView::InFolder { folder_name, path } => "/job/"@ + name_text(folder_name) + render(
            *path,
        ),
        PathView::Computers => "/computer/api/json"@,
        PathView::Computer { name } => "/computer/"@ + name_text(name) + "/api/json"@,
        PathView::Raw { path } => path,
        PathView::CrumbIssuer => "/crumbIssuer"@,
    }
}

/// Appends `/<configuration>` when a configuration is given.
fn push_configuration(out: &mut String, configuration: &Option<Name>)
    ensures
        final(out)@ == old(out)@ + configuration_part(option_name_view(*configuration)),
{
    match configuration {
        Some(c) => {
            out.append("/");
            c.push_to(out);
        },
        None => {},
    }
    assert(out@ =~= old(out)@ + configuration_part(option_name_view(*configuration)));
}

/// Appends `/job/<folder>` when a folder is given.
fn push_folder(out: &mut String, folder_name: &Option<Name>)
    ensures
        final(out)@ == old(out)@ + folder_prefix(option_name_view(*folder_name)),
{
    match folder_name {
        Some(f) => {
            out.append("/job/");
            f.push_to(out);
        },
        None => {},
    }
    assert(out@ =~= old(out)@ + folder_prefix(option_name_view(*folder_name)));
}

/// Appends where a build lives.
fn push_build(out: &mut String, job_name: &Name, configuration: &Option<Name>, number: &BuildNumber)
    ensures
        final(out)@ == old(out)@ + build_text(job_name@, option_name_view(*configuration), number@),
{
    out.append("/job/");
    job_name.push_to(out);
    push_configuration(out, configuration);
    out.append("/");
    number.push_to(out);
    assert(out@ =~= old(out)@ + build_text(job_name@, option_name_view(*configuration), number@));
}

/// Appends `prefix`, a name, and `suffix`.
fn push_named(out: &mut String, prefix: &str, name: &Name, suffix: &str)
    ensures
        final(out)@ == old(out)@ + (prefix@ + name_text(name@) + suffix@),
{
    out.append(prefix);
    name.push_to(out);
    out.append(suffix);
    assert(out@ =~= old(out)@ + (prefix@ + name_text(name@) + suffix@));
}

impl<'a> Clone for Path<'a> {
    fn clone(&self) -> (r: Self)
        ensures
            r == *self,
        decreases self,
    {
        match self {
            Path::Home => Path::Home,
            Path::View { name } => Path::View { name: *name },
            Path::AddJobToView { job_name, view_name } => Path::AddJobToView {
                job_name: *job_name,
                view_name: *view_name,
            },
            Path::RemoveJobFromView { job_name, view_name } => Path::RemoveJobFromView {
                job_name: *job_name,
                view_name: *view_name,
            },
            Path::Job { name, configuration } => Path::Job {
                name: *name,
                configuration: *configuration,
            },
            Path::BuildJob { name } => Path::BuildJob { name: *name },
            Path::BuildJobWithParameters { name } => Path::BuildJobWithParameters { name: *name },
            Path::PollSCMJob { name } => Path::PollSCMJob { name: *name },
            Path::JobEnable { name } => Path::JobEnable { name: *name },
            Path::JobDisable { name } => Path::JobDisable { name: *name },
            Path::Build { job_name, number, configuration } => Path::Build {
                job_name: *job_name,
                number: number.clone(),
                configuration: *configuration,
            },
            Path::ConsoleText { job_name, number, configuration, folder_name } =>
                Path::ConsoleText {
                job_name: *job_name,
                number: number.clone(),
                configuration: *configuration,
                folder_name: *folder_name,
            },
            Path::ConfigXML { job_name, folder_name } => Path::ConfigXML {
                job_name: *job_name,
                folder_name: *folder_name,
            },
            Path::Queue => Path::Queue,
            Path::QueueItem { id } => Path::QueueItem { id: *id },
            Path::MavenArtifactRecord { job_name, number, configuration } =>
                Path::MavenArtifactRecord {
                job_name: *job_name,
                number: number.clone(),
                configuration: *configuration,
            },
            Path::InFolder { folder_name, path } => {
                let inner: &Path<'a> = path;
                Path::InFolder { folder_name: *folder_name, path: Box::new(inner.clone()) }
            },
            Path::Computers => Path::Computers,
            Path::Computer { name } => Path::Computer { name: *name },
            Path::Raw { path } => Path::Raw { path: *path },
            Path::CrumbIssuer => Path::CrumbIssuer,
        }
    }
}

impl<'a> Path<'a> {
    /// Appends the URL path of this resource.
    pub fn push_to(&self, out: &mut String)
        ensures
            final(out)@ == old(out)@ + render(self@),
        decreases self,
    {
        let ghost before = out@;
        match self {
            Path::Home => {},
            Path::View { name } => push_named(out, "/view/", name, ""),
            Path::AddJobToView { job_name, view_name } => {
                push_named(out, "/view/", view_name, "/addJobToView?name=");
                job_name.push_to(out);
            },
            Path::RemoveJobFromView { job_name, view_name } => {
                push_named(out, "/view/", view_name, "/removeJobFromView?name=");
                job_name.push_to(out);
            },
            Path::Job { name, configuration } => {
                push_named(out, "/job/", name, "");
                push_configuration(out, configuration);
            },
            Path::BuildJob { name } => push_named(out, "/job/", name, "/build"),
            Path::BuildJobWithParameters { name } => push_named(
                out,
                "/job/",
                name,
                "/buildWithParameters",
            ),
            Path::PollSCMJob { name } => push_named(out, "/job/", name, "/polling"),
            Path::JobEnable { name } => push_named(out, "/job/", name, "/enable"),
            Path::JobDisable { name } => push_named(out, "/job/", name, "/disable"),
            Path::Build { job_name, number, configuration } => push_build(
                out,
                job_name,
                configuration,
                number,
            ),
            Path::ConsoleText { job_name, number, configuration, folder_name } => {
                push_folder(out, folder_name);
                push_build(out, job_name, configuration, number);
                out.append("/consoleText");
            },
            Path::ConfigXML { job_name, folder_name } => {
                push_folder(out, folder_name);
                push_named(out, "/job/", job_name, "/config.xml");
            },
            Path::Queue => out.append("/queue"),
            Path::QueueItem { id } => {
                out.append("/queue/item/");
                push_signed_decimal(out, *id);
            },
            Path::MavenArtifactRecord { job_name, number, configuration } => {
                push_build(out, job_name, configuration, number);
                out.append("/mavenArtifacts");
            },
            Path::InFolder { folder_name, path } => {
                push_named(out, "/job/", folder_name, "");
                path.push_to(out);
            },
            Path::Computers => out.append("/computer/api/json"),
            Path::Computer { name } => push_named(out, "/computer/", name, "/api/json"),
            Path::Raw { path } => out.append(path),
            Path::CrumbIssuer => out.append("/crumbIssuer"),
        }
        proof {
            reveal_strlit("");
        }
        assert(out@ =~= before + render(self@));
    }

    /// The URL path of this resource, without a trailing slash.
    pub fn to_string(&self) -> (r: String)
        ensures
            r@ == render(self@),
    {
        let mut out = String::new();
        self.push_to(&mut out);
        assert(out@ =~= render(self@));
        out
    }
}

} // verus!
