//! Reading a URL path back into the resource it addresses.
//!
//! A path is classified by the keyword of its first segment and by how many
//! slashes it holds; every recognised shape ends with a slash. Where a job is
//! followed by one more segment, that segment is a build number if it reads
//! as one, and a configuration name otherwise.

use vstd::prelude::*;

use crate::builds::{BuildNumber, BuildNumberView};
use crate::errors::ExpectedType;
use crate::path::{Name, NameView, Path, PathView};
use crate::text::{parse_i32, parse_i32_spec, parse_u32, parse_u32_spec, str_eq};

verus! {

/// Positions of the slashes of `s`, in increasing order.
pub open spec fn slashes(s: Seq<char>) -> Seq<int>
    decreases s.len(),
{
    if s.len() == 0 {
        seq![]
    } else if s.last() == '/' {
        slashes(s.drop_last()).push(s.len() - 1)
    } else {
        slashes(s.drop_last())
    }
}

/// The text between slash `i` and slash `i + 1`.
pub open spec fn segment(s: Seq<char>, i: int) -> Seq<char> {
    s.subrange(slashes(s)[i] + 1, slashes(s)[i + 1])
}

/// Begins and ends with a slash and holds at least three: the paths that
/// any rule can recognise.
pub open spec fn well_shaped(s: Seq<char>) -> bool {
    let sl = slashes(s);
    sl.len() >= 3 && sl[0] == 0 && sl[sl.len() - 1] == s.len() - 1
}

/// A segment read as a build number, or the error of a build-shaped path.
pub open spec fn number_or(seg: Seq<char>, kind: ExpectedType) -> Result<BuildNumberView, ExpectedType> {
    match parse_u32_spec(seg) {
        Some(n) => Ok(BuildNumberView::Number(n)),
        None => Err(kind),
    }
}

/// The resource that a server-relative path addresses. Unrecognised shapes
/// are `Raw`; a recognised shape whose number segment does not read as a
/// number is an error naming the kind of resource it had the shape of.
pub open spec fn parse_spec(s: Seq<char>) -> Result<PathView, ExpectedType>
    decreases s.len(),
    via parse_spec_decreases
{
    let raw = Ok(PathView::Raw { path: s });
    if !well_shaped(s) {
        raw
    } else {
        let k = slashes(s).len();
        let head = segment(s, 0);
        if head == "view"@ {
            if k == 3 {
                Ok(PathView::View { name: NameView::Encoded(segment(s, 1)) })
            } else {
                raw
            }
        } else if head == "queue"@ {
            if k == 4 && segment(s, 1) == "item"@ {
                match parse_i32_spec(segment(s, 2)) {
                    Some(id) => Ok(PathView::QueueItem { id }),
                    None => Err(ExpectedType::QueueItem),
                }
            } else {
                raw
            }
        } else if head == "job"@ {
            let job = NameView::Encoded(segment(s, 1));
            if k == 3 {
                Ok(PathView::Job { name: job, configuration: None })
            } else if k == 4 {
                match parse_u32_spec(segment(s, 2)) {
                    Some(n) => Ok(
                        PathView::Build {
                            job_name: job,
                            number: BuildNumberView::Number(n),
                            configuration: None,
                        },
                    ),
                    None => Ok(
                        PathView::Job {
                            name: job,
                            configuration: Some(NameView::Encoded(segment(s, 2))),
                        },
                    ),
                }
            } else if k == 5 && segment(s, 3) == "mavenArtifacts"@ {
                match number_or(segment(s, 2), ExpectedType::MavenArtifactRecord) {
                    Ok(number) => Ok(
                        PathView::MavenArtifactRecord { job_name: job, number, configuration: None },
                    ),
                    Err(e) => Err(e),
                }
            } else if segment(s, 2) == "job"@ {
                match parse_spec(s.subrange(slashes(s)[2], s.len() as int)) {
                    Ok(PathView::Raw { .. }) => raw,
                    Ok(inner) => Ok(PathView::InFolder { folder_name: job, path: Box::new(inner) }),
                    Err(e) => Err(e),
                }
            } else if k == 5 {
                match number_or(segment(s, 3), ExpectedType::Build) {
                    Ok(number) => Ok(
                        PathView::Build {
                            job_name: job,
                            number,
                            configuration: Some(NameView::Encoded(segment(s, 2))),
                        },
                    ),
                    Err(e) => Err(e),
                }
            } else if k == 6 && segment(s, 4) == "mavenArtifacts"@ {
                match number_or(segment(s, 3), ExpectedType::MavenArtifactRecord) {
                    Ok(number) => Ok(
                        PathView::MavenArtifactRecord {
                            job_name: job,
                            number,
                            configuration: Some(NameView::Encoded(segment(s, 2))),
                        },
                    ),
                    Err(e) => Err(e),
                }
            } else {
                raw
            }
        } else {
            raw
        }
    }
}

/// Slash positions lie inside the text, on slashes, in increasing order.
pub proof fn lemma_slashes(s: Seq<char>)
    ensures
        forall|i: int|
            0 <= i < slashes(s).len() ==> 0 <= #[trigger] slashes(s)[i] < s.len() && s[slashes(
                s,
            )[i]] == '/',
        forall|i: int, j: int|
            0 <= i < j < slashes(s).len() ==> #[trigger] slashes(s)[i] < #[trigger] slashes(s)[j],
    decreases s.len(),
{
    if s.len() > 0 {
        let t = s.drop_last();
        lemma_slashes(t);
        let sl = slashes(s);
        assert forall|i: int| 0 <= i < sl.len() implies 0 <= #[trigger] sl[i] < s.len() && s[sl[i]]
            == '/' by {
            if i < slashes(t).len() {
                assert(sl[i] == slashes(t)[i]);
                assert(t[slashes(t)[i]] == s[sl[i]]);
            }
        }
        assert forall|i: int, j: int| 0 <= i < j < sl.len() implies #[trigger] sl[i] < #[trigger] sl[j] by {
            assert(sl[i] == slashes(t)[i]);
            if j < slashes(t).len() {
                assert(sl[j] == slashes(t)[j]);
            }
        }
    }
}

#[via_fn]
proof fn parse_spec_decreases(s: Seq<char>) {
    lemma_slashes(s);
}

/// Positions of the slashes of `s`.
fn slash_positions(s: &str) -> (r: Vec<usize>)
    ensures
        r@.len() == slashes(s@).len(),
        forall|i: int| 0 <= i < r@.len() ==> r@[i] as int == slashes(s@)[i],
{
    let n = s.unicode_len();
    let mut v: Vec<usize> = Vec::new();
    let mut i: usize = 0;
    while i < n
        invariant
            n == s@.len(),
            i <= n,
            v@.len() == slashes(s@.take(i as int)).len(),
            forall|j: int| 0 <= j < v@.len() ==> v@[j] as int == slashes(s@.take(i as int))[j],
        decreases n - i,
    {
        assert(s@.take(i + 1).drop_last() =~= s@.take(i as int));
        if s.get_char(i) == '/' {
            v.push(i);
        }
        i = i + 1;
    }
    assert(s@.take(n as int) =~= s@);
    v
}

/// The value of a parse outcome.
pub open spec fn outcome_view(r: Result<Path, ExpectedType>) -> Result<PathView, ExpectedType> {
    match r {
        Ok(p) => Ok(p@),
        Err(e) => Err(e),
    }
}

/// The segment between slash `i` and slash `i + 1` of `s`.
fn segment_at<'a>(s: &'a str, sl: &Vec<usize>, i: usize) -> (r: &'a str)
    requires
        i + 1 < sl@.len(),
        sl@.len() == slashes(s@).len(),
        forall|j: int| 0 <= j < sl@.len() ==> sl@[j] as int == slashes(s@)[j],
    ensures
        r@ == segment(s@, i as int),
{
    proof {
        lemma_slashes(s@);
        assert(slashes(s@)[i as int] < slashes(s@)[i + 1]);
    }
    assert(sl@.len() == sl.len());
    let end = sl[i + 1];
    s.substring_char(sl[i] + 1, end)
}

/// Reads a server-relative path back into the resource it addresses.
pub fn parse_path<'a>(path: &'a str) -> (r: Result<Path<'a>, ExpectedType>)
    ensures
        outcome_view(r) == parse_spec(path@),
    decreases path@.len(),
{
    let sl = slash_positions(path);
    let k = sl.len();
    let n = path.unicode_len();
    proof {
        lemma_slashes(path@);
    }
    if k < 3 || sl[0] != 0 || sl[k - 1] != n - 1 {
        return Ok(Path::Raw { path });
    }
    assert(well_shaped(path@));
    let head = segment_at(path, &sl, 0);
    if str_eq(head, "view") {
        if k == 3 {
            Ok(Path::View { name: Name::UrlEncodedName(segment_at(path, &sl, 1)) })
        } else {
            Ok(Path::Raw { path })
        }
    } else if str_eq(head, "queue") {
        if k == 4 && str_eq(segment_at(path, &sl, 1), "item") {
            match parse_i32(segment_at(path, &sl, 2)) {
                Some(id) => Ok(Path::QueueItem { id }),
                None => Err(ExpectedType::QueueItem),
            }
        } else {
            Ok(Path::Raw { path })
        }
    } else if str_eq(head, "job") {
        let job = segment_at(path, &sl, 1);
        if k == 3 {
            Ok(Path::Job { name: Name::UrlEncodedName(job), configuration: None })
        } else if k == 4 {
            let last = segment_at(path, &sl, 2);
            match parse_u32(last) {
                Some(number) => Ok(
                    Path::Build {
                        job_name: Name::UrlEncodedName(job),
                        number: BuildNumber::Number(number),
                        configuration: None,
                    },
                ),
                None => Ok(
                    Path::Job {
                        name: Name::UrlEncodedName(job),
                        configuration: Some(Name::UrlEncodedName(last)),
                    },
                ),
            }
        } else if k == 5 && str_eq(segment_at(path, &sl, 3), "mavenArtifacts") {
            match parse_u32(segment_at(path, &sl, 2)) {
                Some(number) => Ok(
                    Path::MavenArtifactRecord {
                        job_name: Name::UrlEncodedName(job),
                        number: BuildNumber::Number(number),
                        configuration: None,
                    },
                ),
                None => Err(ExpectedType::MavenArtifactRecord),
            }
        } else if str_eq(segment_at(path, &sl, 2), "job") {
            let rest = path.substring_char(sl[2], n);
            match parse_path(rest) {
                Ok(Path::Raw { .. }) => Ok(Path::Raw { path }),
                Ok(inner) => Ok(
                    Path::InFolder { folder_name: Name::UrlEncodedName(job), path: Box::new(inner) },
                ),
                Err(e) => Err(e),
            }
        } else if k == 5 {
            let configuration = segment_at(path, &sl, 2);
            match parse_u32(segment_at(path, &sl, 3)) {
                Some(number) => Ok(
                    Path::Build {
                        job_name: Name::UrlEncodedName(job),
                        number: BuildNumber::Number(number),
                        configuration: Some(Name::UrlEncodedName(configuration)),
                    },
                ),
                None => Err(ExpectedType::Build),
            }
        } else if k == 6 && str_eq(segment_at(path, &sl, 4), "mavenArtifacts") {
            let configuration = segment_at(path, &sl, 2);
            match parse_u32(segment_at(path, &sl, 3)) {
                Some(number) => Ok(
                    Path::MavenArtifactRecord {
                        job_name: Name::UrlEncodedName(job),
                        number: BuildNumber::Number(number),
                        configuration: Some(Name::UrlEncodedName(configuration)),
                    },
                ),
                None => Err(ExpectedType::MavenArtifactRecord),
            }
        } else {
            Ok(Path::Raw { path })
        }
    } else {
        Ok(Path::Raw { path })
    }
}

} // verus!
