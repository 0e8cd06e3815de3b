//! How rendering and parsing fit together.
//!
//! Rendering writes no trailing slash, and every shape that parsing
//! recognises ends with one: the laws below read a rendered path with a
//! slash appended, as the server writes the URLs it returns.

use vstd::prelude::*;

use crate::builds::{build_number_text, BuildNumberView};
use crate::parse::{lemma_slashes, number_or, parse_spec, segment, slashes, well_shaped};
use crate::path::{name_text, render, NameView, PathView};
use crate::text::{
    all_digits, decimal, is_digit, lemma_decimal_digits, lemma_decimal_parses,
    lemma_signed_decimal_parses, parse_u32_spec, signed_decimal,
};

verus! {

/// No slash in `s`.
pub open spec fn has_no_slash(s: Seq<char>) -> bool {
    forall|i: int| 0 <= i < s.len() ==> s[i] != '/'
}

/// A name that can stand as one segment of a path: already encoded, and
/// without a slash.
pub open spec fn is_segment_name(n: NameView) -> bool {
    n matches NameView::Encoded(s) && has_no_slash(s)
}

/// A configuration of a build that parsing reads back as one: not the
/// keyword that opens a folder.
pub open spec fn is_build_configuration(c: Option<NameView>) -> bool {
    match c {
        Some(c) => is_segment_name(c) && name_text(c) != "job"@,
        None => true,
    }
}

/// A path that can follow a folder: one rooted at a job, where a job on its
/// own is not named like the maven-artifacts keyword.
pub open spec fn nests_in_folder(p: PathView) -> bool {
    match p {
        PathView::Job { name, configuration: None } => name_text(name) != "mavenArtifacts"@,
        PathView::Job { .. } => true,
        PathView::Build { .. } => true,
        PathView::MavenArtifactRecord { .. } => true,
        PathView::InFolder { .. } => true,
        _ => false,
    }
}

/// The paths that parsing reads back from their rendering: views, jobs,
/// numbered builds and maven artifacts, queue items, and folders of those,
/// with every name already encoded and free of slashes, a job's
/// configuration that does not read as a build number, and a build's
/// configuration that is not the folder keyword.
pub open spec fn round_trips(p: PathView) -> bool
    decreases p,
{
    match p {
        PathView::View { name } => is_segment_name(name),
        PathView::Job { name, configuration } => is_segment_name(name) && match configuration {
            Some(c) => is_segment_name(c) && parse_u32_spec(name_text(c)) is None,
            None => true,
        },
        PathView::Build { job_name, number, configuration } => is_segment_name(job_name)
            && number is Number && is_build_configuration(configuration),
        PathView::MavenArtifactRecord { job_name, number, configuration } => is_segment_name(
            job_name,
        ) && number is Number && is_build_configuration(configuration),
        PathView::QueueItem { .. } => true,
        PathView::InFolder { folder_name, path } => is_segment_name(folder_name)
            && nests_in_folder(*path) && round_trips(*path),
        _ => false,
    }
}

/// `x` followed by `rest`.
pub open spec fn cons(x: Seq<char>, rest: Seq<Seq<char>>) -> Seq<Seq<char>> {
    seq![x] + rest
}

/// `/s0/s1/.../sn/`: the segments, each after a slash, and a final slash.
pub open spec fn joined(segs: Seq<Seq<char>>) -> Seq<char>
    decreases segs.len(),
{
    if segs.len() == 0 {
        seq!['/']
    } else {
        seq!['/'] + segs[0] + joined(segs.drop_first())
    }
}

/// The segments of a path that round-trips.
pub open spec fn segments_of(p: PathView) -> Seq<Seq<char>>
    decreases p,
{
    match p {
        PathView::View { name } => cons("view"@, cons(name_text(name), seq![])),
        PathView::Job { name, configuration: None } => cons("job"@, cons(name_text(name), seq![])),
        PathView::Job { name, configuration: Some(c) } => cons(
            "job"@,
            cons(name_text(name), cons(name_text(c), seq![])),
        ),
        PathView::Build { job_name, number, configuration: None } => cons(
            "job"@,
            cons(name_text(job_name), cons(build_number_text(number), seq![])),
        ),
        PathView::Build { job_name, number, configuration: Some(c) } => cons(
            "job"@,
            cons(name_text(job_name), cons(name_text(c), cons(build_number_text(number), seq![]))),
        ),
        PathView::MavenArtifactRecord { job_name, number, configuration: None } => cons(
            "job"@,
            cons(
                name_text(job_name),
                cons(build_number_text(number), cons("mavenArtifacts"@, seq![])),
            ),
        ),
        PathView::MavenArtifactRecord { job_name, number, configuration: Some(c) } => cons(
            "job"@,
            cons(
                name_text(job_name),
                cons(
                    name_text(c),
                    cons(build_number_text(number), cons("mavenArtifacts"@, seq![])),
                ),
            ),
        ),
        PathView::QueueItem { id } => cons(
            "queue"@,
            cons("item"@, cons(signed_decimal(id as int), seq![])),
        ),
        PathView::InFolder { folder_name, path } => cons(
            "job"@,
            cons(name_text(folder_name), segments_of(*path)),
        ),
        _ => seq![],
    }
}

proof fn lemma_keywords()
    ensures
        "/"@ == seq!['/'],
        "/view/"@ == seq!['/'] + "view"@ + seq!['/'],
        "/job/"@ == seq!['/'] + "job"@ + seq!['/'],
        "/queue/item/"@ == seq!['/'] + "queue"@ + seq!['/'] + "item"@ + seq!['/'],
        "/mavenArtifacts"@ == seq!['/'] + "mavenArtifacts"@,
        has_no_slash("view"@),
        has_no_slash("job"@),
        has_no_slash("queue"@),
        has_no_slash("item"@),
        has_no_slash("mavenArtifacts"@),
        "view"@ != "job"@,
        "view"@ != "queue"@,
        "queue"@ != "job"@,
        "mavenArtifacts"@.len() > 0 && !is_digit("mavenArtifacts"@[0]),
{
    reveal_strlit("/");
    reveal_strlit("/view/");
    reveal_strlit("/job/");
    reveal_strlit("/queue/item/");
    reveal_strlit("/mavenArtifacts");
    reveal_strlit("view");
    reveal_strlit("job");
    reveal_strlit("queue");
    reveal_strlit("item");
    reveal_strlit("mavenArtifacts");
    assert("/"@ =~= seq!['/']);
    assert("/view/"@ =~= seq!['/'] + "view"@ + seq!['/']);
    assert("/job/"@ =~= seq!['/'] + "job"@ + seq!['/']);
    assert("/queue/item/"@ =~= seq!['/'] + "queue"@ + seq!['/'] + "item"@ + seq!['/']);
    assert("/mavenArtifacts"@ =~= seq!['/'] + "mavenArtifacts"@);
    assert("view"@.len() != "job"@.len());
    assert("view"@.len() != "queue"@.len());
    assert("queue"@.len() != "job"@.len());
}

/// Digits hold no slash.
proof fn lemma_digits_no_slash(s: Seq<char>)
    requires
        all_digits(s),
    ensures
        has_no_slash(s),
{
    assert forall|i: int| 0 <= i < s.len() implies s[i] != '/' by {
        assert(is_digit(s[i]));
    }
}

proof fn lemma_joined_cons(x: Seq<char>, rest: Seq<Seq<char>>)
    ensures
        joined(cons(x, rest)) == seq!['/'] + x + joined(rest),
{
    assert(cons(x, rest).drop_first() =~= rest);
    assert(cons(x, rest)[0] == x);
}

/// The slashes of a concatenation: those of the first part, then those of
/// the second moved by the first's length.
proof fn lemma_slashes_concat(a: Seq<char>, b: Seq<char>)
    ensures
        slashes(a + b) == slashes(a) + slashes(b).map_values(|x: int| x + a.len()),
    decreases b.len(),
{
    if b.len() == 0 {
        assert(a + b =~= a);
        assert(slashes(b).map_values(|x: int| x + a.len()) =~= seq![]);
        assert(slashes(a) + seq![] =~= slashes(a));
    } else {
        let bl = b.drop_last();
        lemma_slashes_concat(a, bl);
        assert((a + b).drop_last() =~= a + bl);
        assert((a + b).last() == b.last());
        if b.last() == '/' {
            assert(slashes(b).map_values(|x: int| x + a.len()) =~= slashes(bl).map_values(
                |x: int| x + a.len(),
            ).push(b.len() - 1 + a.len()));
        } else {
            assert(slashes(b).map_values(|x: int| x + a.len()) =~= slashes(bl).map_values(
                |x: int| x + a.len(),
            ));
        }
        assert(slashes(a + b) =~= slashes(a) + slashes(b).map_values(|x: int| x + a.len()));
    }
}

proof fn lemma_slashes_of_slash()
    ensures
        slashes(seq!['/']) == seq![0int],
{
    let e = seq!['/'].drop_last();
    assert(e =~= Seq::<char>::empty());
    assert(slashes(e) == Seq::<int>::empty());
    assert(slashes(seq!['/']) =~= seq![0int]);
}

proof fn lemma_no_slash_slashes(s: Seq<char>)
    requires
        has_no_slash(s),
    ensures
        slashes(s) == Seq::<int>::empty(),
{
    lemma_slashes(s);
    if slashes(s).len() > 0 {
        assert(s[slashes(s)[0]] == '/');
    }
    assert(slashes(s) =~= Seq::<int>::empty());
}

/// In `/s0/s1/.../sn/`, the segments between slashes are the `si`, and from
/// slash `i` on the text is the joining of the segments from `i` on.
proof fn lemma_joined(segs: Seq<Seq<char>>)
    requires
        forall|i: int| 0 <= i < segs.len() ==> has_no_slash(#[trigger] segs[i]),
    ensures
        slashes(joined(segs)).len() == segs.len() + 1,
        slashes(joined(segs))[0] == 0,
        slashes(joined(segs))[segs.len() as int] == joined(segs).len() - 1,
        forall|i: int| 0 <= i < segs.len() ==> #[trigger] segment(joined(segs), i) == segs[i],
        forall|i: int|
            0 <= i <= segs.len() ==> #[trigger] joined(segs).subrange(
                slashes(joined(segs))[i],
                joined(segs).len() as int,
            ) == joined(segs.skip(i)),
    decreases segs.len(),
{
    let s = joined(segs);
    if segs.len() == 0 {
        lemma_slashes_of_slash();
        assert(segs.skip(0) =~= segs);
    } else {
        let rest = segs.drop_first();
        assert forall|i: int| 0 <= i < rest.len() implies has_no_slash(#[trigger] rest[i]) by {
            assert(rest[i] == segs[i + 1]);
        }
        lemma_joined(rest);
        let r = joined(rest);
        let head = seq!['/'] + segs[0];
        let off = head.len() as int;
        assert(s == head + r);
        assert(has_no_slash(segs[0]));
        lemma_no_slash_slashes(segs[0]);
        lemma_slashes_concat(seq!['/'], segs[0]);
        lemma_slashes_of_slash();
        assert(slashes(head) =~= seq![0int]);
        lemma_slashes_concat(head, r);
        let slr = slashes(r);
        let sl = slashes(s);
        lemma_slashes(r);
        assert(sl =~= seq![0int] + slr.map_values(|x: int| x + off));
        assert(sl.len() == segs.len() + 1);
        assert forall|i: int| 0 <= i < segs.len() implies #[trigger] segment(s, i) == segs[i] by {
            if i == 0 {
                assert(s.subrange(1, off) =~= segs[0]);
            } else {
                assert(segment(r, i - 1) == rest[i - 1]);
                assert(sl[i] == slr[i - 1] + off);
                assert(sl[i + 1] == slr[i] + off);
                assert(slr[i - 1] < slr[i]);
                assert(s.subrange(sl[i] + 1, sl[i + 1]) =~= r.subrange(slr[i - 1] + 1, slr[i]));
            }
        }
        assert forall|i: int| 0 <= i <= segs.len() implies #[trigger] s.subrange(
            sl[i],
            s.len() as int,
        ) == joined(segs.skip(i)) by {
            if i == 0 {
                assert(s.subrange(0, s.len() as int) =~= s);
                assert(segs.skip(0) =~= segs);
            } else {
                assert(r.subrange(slr[i - 1], r.len() as int) == joined(rest.skip(i - 1)));
                assert(rest.skip(i - 1) =~= segs.skip(i));
                assert(sl[i] == slr[i - 1] + off);
                assert(s.subrange(sl[i], s.len() as int) =~= r.subrange(slr[i - 1], r.len() as int));
            }
        }
    }
}

/// Every segment is free of slashes.
pub open spec fn all_segments(segs: Seq<Seq<char>>) -> bool {
    forall|i: int| 0 <= i < segs.len() ==> has_no_slash(#[trigger] segs[i])
}

proof fn lemma_cons_segments(x: Seq<char>, rest: Seq<Seq<char>>)
    requires
        has_no_slash(x),
        all_segments(rest),
    ensures
        all_segments(cons(x, rest)),
        cons(x, rest).len() == rest.len() + 1,
        cons(x, rest)[0] == x,
        forall|i: int| 0 <= i < rest.len() ==> #[trigger] cons(x, rest)[i + 1] == rest[i],
{
    assert forall|i: int| 0 <= i < cons(x, rest).len() implies has_no_slash(
        #[trigger] cons(x, rest)[i],
    ) by {
        if i > 0 {
            assert(cons(x, rest)[i] == rest[i - 1]);
        }
    }
}

proof fn lemma_signed_decimal_no_slash(n: int)
    ensures
        has_no_slash(signed_decimal(n)),
{
    if n < 0 {
        let m = (0 - n) as nat;
        lemma_decimal_digits(m);
        lemma_digits_no_slash(decimal(m));
        let t = seq!['-'] + decimal(m);
        assert forall|i: int| 0 <= i < t.len() implies t[i] != '/' by {
            if i > 0 {
                assert(t[i] == decimal(m)[i - 1]);
            }
        }
    } else {
        lemma_decimal_digits(n as nat);
        lemma_digits_no_slash(decimal(n as nat));
    }
}

proof fn lemma_number_segment(number: BuildNumberView)
    requires
        number is Number,
    ensures
        has_no_slash(build_number_text(number)),
        build_number_text(number) != "mavenArtifacts"@,
        number_or(build_number_text(number), crate::errors::ExpectedType::Build) == Ok::<
            BuildNumberView,
            crate::errors::ExpectedType,
        >(number),
        number_or(build_number_text(number), crate::errors::ExpectedType::MavenArtifactRecord)
            == Ok::<BuildNumberView, crate::errors::ExpectedType>(number),
        parse_u32_spec(build_number_text(number)) == Some(number->Number_0),
{
    let n = number->Number_0;
    lemma_decimal_digits(n as nat);
    lemma_digits_no_slash(decimal(n as nat));
    lemma_decimal_parses(n);
    lemma_keywords();
    assert(is_digit(decimal(n as nat)[0]));
}

proof fn lemma_joined_2(a: Seq<char>, b: Seq<char>)
    requires
        has_no_slash(a),
        has_no_slash(b),
    ensures
        joined(cons(a, cons(b, seq![]))) == seq!['/'] + a + seq!['/'] + b + seq!['/'],
        all_segments(cons(a, cons(b, seq![]))),
{
    let e = Seq::<Seq<char>>::empty();
    assert(all_segments(e));
    lemma_cons_segments(b, e);
    lemma_cons_segments(a, cons(b, e));
    lemma_joined_cons(a, cons(b, e));
    lemma_joined_cons(b, e);
    assert(joined(cons(a, cons(b, e))) =~= seq!['/'] + a + seq!['/'] + b + seq!['/']);
}

proof fn lemma_joined_3(a: Seq<char>, b: Seq<char>, c: Seq<char>)
    requires
        has_no_slash(a),
        has_no_slash(b),
        has_no_slash(c),
    ensures
        joined(cons(a, cons(b, cons(c, seq![])))) == seq!['/'] + a + seq!['/'] + b + seq!['/'] + c
            + seq!['/'],
        all_segments(cons(a, cons(b, cons(c, seq![])))),
{
    lemma_joined_2(b, c);
    lemma_cons_segments(a, cons(b, cons(c, seq![])));
    lemma_joined_cons(a, cons(b, cons(c, seq![])));
    assert(joined(cons(a, cons(b, cons(c, seq![])))) =~= seq!['/'] + a + seq!['/'] + b + seq![
        '/',
    ] + c + seq!['/']);
}

proof fn lemma_joined_4(a: Seq<char>, b: Seq<char>, c: Seq<char>, d: Seq<char>)
    requires
        has_no_slash(a),
        has_no_slash(b),
        has_no_slash(c),
        has_no_slash(d),
    ensures
        joined(cons(a, cons(b, cons(c, cons(d, seq![]))))) == seq!['/'] + a + seq!['/'] + b
            + seq!['/'] + c + seq!['/'] + d + seq!['/'],
        all_segments(cons(a, cons(b, cons(c, cons(d, seq![]))))),
{
    lemma_joined_3(b, c, d);
    lemma_cons_segments(a, cons(b, cons(c, cons(d, seq![]))));
    lemma_joined_cons(a, cons(b, cons(c, cons(d, seq![]))));
    assert(joined(cons(a, cons(b, cons(c, cons(d, seq![]))))) =~= seq!['/'] + a + seq!['/'] + b
        + seq!['/'] + c + seq!['/'] + d + seq!['/']);
}

proof fn lemma_joined_5(a: Seq<char>, b: Seq<char>, c: Seq<char>, d: Seq<char>, f: Seq<char>)
    requires
        has_no_slash(a),
        has_no_slash(b),
        has_no_slash(c),
        has_no_slash(d),
        has_no_slash(f),
    ensures
        joined(cons(a, cons(b, cons(c, cons(d, cons(f, seq![])))))) == seq!['/'] + a + seq!['/']
            + b + seq!['/'] + c + seq!['/'] + d + seq!['/'] + f + seq!['/'],
        all_segments(cons(a, cons(b, cons(c, cons(d, cons(f, seq![])))))),
{
    lemma_joined_4(b, c, d, f);
    lemma_cons_segments(a, cons(b, cons(c, cons(d, cons(f, seq![])))));
    lemma_joined_cons(a, cons(b, cons(c, cons(d, cons(f, seq![])))));
    assert(joined(cons(a, cons(b, cons(c, cons(d, cons(f, seq![])))))) =~= seq!['/'] + a
        + seq!['/'] + b + seq!['/'] + c + seq!['/'] + d + seq!['/'] + f + seq!['/']);
}

proof fn lemma_render_joined_job(p: PathView)
    requires
        round_trips(p),
        p is Job,
    ensures
        render(p) + "/"@ == joined(segments_of(p)),
        all_segments(segments_of(p)),
{
    lemma_keywords();
    let t = name_text(p->Job_name);
    match p->Job_configuration {
        None => {
            lemma_joined_2("job"@, t);
            assert(render(p) + "/"@ =~= seq!['/'] + "job"@ + seq!['/'] + t + seq!['/']);
        },
        Some(c) => {
            let ct = name_text(c);
            lemma_joined_3("job"@, t, ct);
            assert(render(p) + "/"@ =~= seq!['/'] + "job"@ + seq!['/'] + t + seq!['/'] + ct
                + seq!['/']);
        },
    }
}

proof fn lemma_render_joined_build(p: PathView)
    requires
        round_trips(p),
        p is Build,
    ensures
        render(p) + "/"@ == joined(segments_of(p)),
        all_segments(segments_of(p)),
{
    lemma_keywords();
    let t = name_text(p->Build_job_name);
    let nt = build_number_text(p->Build_number);
    lemma_number_segment(p->Build_number);
    match p->Build_configuration {
        None => {
            lemma_joined_3("job"@, t, nt);
            assert(render(p) + "/"@ =~= seq!['/'] + "job"@ + seq!['/'] + t + seq!['/'] + nt
                + seq!['/']);
        },
        Some(c) => {
            let ct = name_text(c);
            lemma_joined_4("job"@, t, ct, nt);
            assert(render(p) + "/"@ =~= seq!['/'] + "job"@ + seq!['/'] + t + seq!['/'] + ct
                + seq!['/'] + nt + seq!['/']);
        },
    }
}

proof fn lemma_render_joined_maven(p: PathView)
    requires
        round_trips(p),
        p is MavenArtifactRecord,
    ensures
        render(p) + "/"@ == joined(segments_of(p)),
        all_segments(segments_of(p)),
{
    lemma_keywords();
    let t = name_text(p->MavenArtifactRecord_job_name);
    let nt = build_number_text(p->MavenArtifactRecord_number);
    let m = "mavenArtifacts"@;
    lemma_number_segment(p->MavenArtifactRecord_number);
    match p->MavenArtifactRecord_configuration {
        None => {
            lemma_joined_4("job"@, t, nt, m);
            assert(render(p) + "/"@ =~= seq!['/'] + "job"@ + seq!['/'] + t + seq!['/'] + nt
                + seq!['/'] + m + seq!['/']);
        },
        Some(c) => {
            let ct = name_text(c);
            lemma_joined_5("job"@, t, ct, nt, m);
            assert(render(p) + "/"@ =~= seq!['/'] + "job"@ + seq!['/'] + t + seq!['/'] + ct
                + seq!['/'] + nt + seq!['/'] + m + seq!['/']);
        },
    }
}

/// A path that round-trips, rendered and followed by a slash, is the
/// joining of its segments.
proof fn lemma_render_joined(p: PathView)
    requires
        round_trips(p),
    ensures
        render(p) + "/"@ == joined(segments_of(p)),
        all_segments(segments_of(p)),
        segments_of(p).len() >= 2,
    decreases p,
{
    lemma_keywords();
    match p {
        PathView::View { name } => {
            let t = name_text(name);
            lemma_joined_2("view"@, t);
            assert(render(p) + "/"@ =~= seq!['/'] + "view"@ + seq!['/'] + t + seq!['/']);
        },
        PathView::Job { .. } => lemma_render_joined_job(p),
        PathView::Build { .. } => lemma_render_joined_build(p),
        PathView::MavenArtifactRecord { .. } => lemma_render_joined_maven(p),
        PathView::QueueItem { id } => {
            let it = signed_decimal(id as int);
            lemma_signed_decimal_no_slash(id as int);
            lemma_joined_3("queue"@, "item"@, it);
            assert(render(p) + "/"@ =~= seq!['/'] + "queue"@ + seq!['/'] + "item"@ + seq!['/']
                + it + seq!['/']);
        },
        PathView::InFolder { folder_name, path } => {
            let t = name_text(folder_name);
            let inner = segments_of(*path);
            lemma_render_joined(*path);
            lemma_cons_segments(t, inner);
            lemma_cons_segments("job"@, cons(t, inner));
            lemma_joined_cons("job"@, cons(t, inner));
            lemma_joined_cons(t, inner);
            assert(render(p) + "/"@ =~= joined(segments_of(p)));
        },
        _ => {},
    }
}

/// What parsing sees of `/s0/.../sn/`: a well-shaped path whose segments
/// are the `si`.
proof fn lemma_joined_shape(segs: Seq<Seq<char>>)
    requires
        all_segments(segs),
        segs.len() >= 2,
    ensures
        well_shaped(joined(segs)),
        slashes(joined(segs)).len() == segs.len() + 1,
        forall|i: int| 0 <= i < segs.len() ==> #[trigger] segment(joined(segs), i) == segs[i],
        joined(segs).subrange(slashes(joined(segs))[2], joined(segs).len() as int) == joined(
            segs.skip(2),
        ),
{
    lemma_joined(segs);
}

proof fn lemma_parse_joined_job(p: PathView)
    requires
        round_trips(p),
        p is Job,
    ensures
        parse_spec(joined(segments_of(p))) == Ok::<PathView, crate::errors::ExpectedType>(p),
{
    lemma_keywords();
    lemma_render_joined_job(p);
    let segs = segments_of(p);
    let s = joined(segs);
    lemma_joined_shape(segs);
    assert(segment(s, 0) == "job"@);
    assert(segment(s, 1) == name_text(p->Job_name));
    match p->Job_configuration {
        None => {},
        Some(c) => {
            assert(segment(s, 2) == name_text(c));
        },
    }
}

proof fn lemma_parse_joined_build(p: PathView)
    requires
        round_trips(p),
        p is Build,
    ensures
        parse_spec(joined(segments_of(p))) == Ok::<PathView, crate::errors::ExpectedType>(p),
{
    lemma_keywords();
    lemma_render_joined_build(p);
    lemma_number_segment(p->Build_number);
    let segs = segments_of(p);
    let s = joined(segs);
    lemma_joined_shape(segs);
    assert(segment(s, 0) == "job"@);
    assert(segment(s, 1) == name_text(p->Build_job_name));
    match p->Build_configuration {
        None => {
            assert(segment(s, 2) == build_number_text(p->Build_number));
        },
        Some(c) => {
            assert(segment(s, 2) == name_text(c));
            assert(segment(s, 3) == build_number_text(p->Build_number));
        },
    }
}

proof fn lemma_parse_joined_maven(p: PathView)
    requires
        round_trips(p),
        p is MavenArtifactRecord,
    ensures
        parse_spec(joined(segments_of(p))) == Ok::<PathView, crate::errors::ExpectedType>(p),
{
    lemma_keywords();
    lemma_render_joined_maven(p);
    lemma_number_segment(p->MavenArtifactRecord_number);
    let segs = segments_of(p);
    let s = joined(segs);
    lemma_joined_shape(segs);
    assert(segment(s, 0) == "job"@);
    assert(segment(s, 1) == name_text(p->MavenArtifactRecord_job_name));
    match p->MavenArtifactRecord_configuration {
        None => {
            assert(segment(s, 2) == build_number_text(p->MavenArtifactRecord_number));
            assert(segment(s, 3) == "mavenArtifacts"@);
        },
        Some(c) => {
            assert(segment(s, 2) == name_text(c));
            assert(segment(s, 3) == build_number_text(p->MavenArtifactRecord_number));
            assert(segment(s, 4) == "mavenArtifacts"@);
        },
    }
}

/// Parsing the joined segments of a path that round-trips gives the path.
proof fn lemma_parse_joined(p: PathView)
    requires
        round_trips(p),
    ensures
        parse_spec(joined(segments_of(p))) == Ok::<PathView, crate::errors::ExpectedType>(p),
    decreases p,
{
    lemma_keywords();
    lemma_render_joined(p);
    let segs = segments_of(p);
    let s = joined(segs);
    lemma_joined_shape(segs);
    match p {
        PathView::View { name } => {
            assert(segment(s, 0) == "view"@);
            assert(segment(s, 1) == name_text(name));
        },
        PathView::Job { .. } => lemma_parse_joined_job(p),
        PathView::Build { .. } => lemma_parse_joined_build(p),
        PathView::MavenArtifactRecord { .. } => lemma_parse_joined_maven(p),
        PathView::QueueItem { id } => {
            lemma_signed_decimal_parses(id);
            assert(segment(s, 0) == "queue"@);
            assert(segment(s, 1) == "item"@);
            assert(segment(s, 2) == signed_decimal(id as int));
        },
        PathView::InFolder { folder_name, path } => {
            let inner = *path;
            lemma_parse_joined(inner);
            lemma_render_joined(inner);
            let si = segments_of(inner);
            assert(segs.skip(2) =~= si);
            assert(segment(s, 0) == "job"@);
            assert(segment(s, 1) == name_text(folder_name));
            assert(si[0] == "job"@) by {
                match inner {
                    PathView::Job { .. } => {},
                    PathView::Build { .. } => {},
                    PathView::MavenArtifactRecord { .. } => {},
                    PathView::InFolder { .. } => {},
                    _ => {},
                }
            }
            assert(segment(s, 2) == "job"@);
            match inner {
                PathView::Job { name, configuration: None } => {
                    assert(segment(s, 3) == name_text(name));
                },
                PathView::Job { configuration: Some(_), .. } => {
                    assert(si.len() == 3);
                },
                PathView::Build { .. } => {
                    assert(si.len() >= 3);
                },
                PathView::MavenArtifactRecord { .. } => {
                    assert(si.len() >= 4);
                },
                PathView::InFolder { path: deeper, .. } => {
                    assert(round_trips(inner));
                    assert(round_trips(*deeper));
                    lemma_render_joined(*deeper);
                    assert(si.len() >= 4);
                },
                _ => {},
            }
        },
        _ => {},
    }
}

/// Every slash of `s` is listed among its slash positions.
proof fn lemma_slashes_complete(s: Seq<char>, j: int)
    requires
        0 <= j < s.len(),
        s[j] == '/',
    ensures
        exists|m: int| 0 <= m < slashes(s).len() && slashes(s)[m] == j,
    decreases s.len(),
{
    if j == s.len() - 1 {
        let m = slashes(s).len() - 1;
        assert(slashes(s)[m] == j);
    } else {
        let t = s.drop_last();
        assert(t[j] == '/');
        lemma_slashes_complete(t, j);
        let m = choose|m: int| 0 <= m < slashes(t).len() && slashes(t)[m] == j;
        assert(slashes(s)[m] == j);
    }
}

/// The text between two consecutive slashes holds no slash.
proof fn lemma_segment_no_slash(s: Seq<char>, i: int)
    requires
        0 <= i < slashes(s).len() - 1,
    ensures
        has_no_slash(segment(s, i)),
{
    lemma_slashes(s);
    let sl = slashes(s);
    let seg = segment(s, i);
    assert forall|j: int| 0 <= j < seg.len() implies seg[j] != '/' by {
        if seg[j] == '/' {
            let pos = sl[i] + 1 + j;
            assert(s[pos] == '/');
            lemma_slashes_complete(s, pos);
            let m = choose|m: int| 0 <= m < sl.len() && sl[m] == pos;
            if m <= i {
                if m < i {
                    assert(sl[m] < sl[i]);
                }
            } else {
                if m > i + 1 {
                    assert(sl[i + 1] < sl[m]);
                }
            }
        }
    }
}

/// From slash `i` on, the slashes are those of `s` from `i` on, moved back.
proof fn lemma_slashes_suffix(s: Seq<char>, i: int)
    requires
        0 <= i < slashes(s).len(),
    ensures
        slashes(s.subrange(slashes(s)[i], s.len() as int)).len() == slashes(s).len() - i,
        forall|j: int|
            0 <= j < slashes(s).len() - i ==> #[trigger] slashes(
                s.subrange(slashes(s)[i], s.len() as int),
            )[j] == slashes(s)[i + j] - slashes(s)[i],
{
    lemma_slashes(s);
    let sl = slashes(s);
    let p = sl[i];
    let a = s.take(p);
    let b = s.subrange(p, s.len() as int);
    assert(s =~= a + b);
    lemma_slashes_concat(a, b);
    lemma_slashes(a);
    lemma_slashes(b);
    let la = slashes(a).len();
    let shifted = slashes(b).map_values(|x: int| x + p);
    assert(sl =~= slashes(a) + shifted);
    if la > i {
        assert(sl[i] == slashes(a)[i]);
    }
    if la < i {
        assert(sl[la as int] == slashes(b)[0] + p);
        assert(sl[la as int] < sl[i]);
    }
    assert(la == i);
    assert forall|j: int| 0 <= j < sl.len() - i implies #[trigger] slashes(b)[j] == sl[i + j] - p by {
        assert(sl[i + j] == shifted[j]);
    }
}

/// Parsing the rest of a path from slash `i` on sees the segments of the
/// path from `i` on.
proof fn lemma_suffix_segments(s: Seq<char>, i: int)
    requires
        well_shaped(s),
        0 <= i,
        i + 3 <= slashes(s).len(),
    ensures
        well_shaped(s.subrange(slashes(s)[i], s.len() as int)),
        slashes(s.subrange(slashes(s)[i], s.len() as int)).len() == slashes(s).len() - i,
        forall|j: int|
            0 <= j < slashes(s).len() - i - 1 ==> #[trigger] segment(
                s.subrange(slashes(s)[i], s.len() as int),
                j,
            ) == segment(s, i + j),
{
    lemma_slashes(s);
    lemma_slashes_suffix(s, i);
    let sl = slashes(s);
    let t = s.subrange(sl[i], s.len() as int);
    let st = slashes(t);
    assert(st[0] == 0);
    assert(st[st.len() - 1] == sl[sl.len() - 1] - sl[i]);
    assert forall|j: int| 0 <= j < sl.len() - i - 1 implies #[trigger] segment(t, j) == segment(
        s,
        i + j,
    ) by {
        assert(st[j] == sl[i + j] - sl[i]);
        assert(st[j + 1] == sl[i + j + 1] - sl[i]);
        assert(segment(t, j) =~= segment(s, i + j));
    }
}

/// What parsing makes of a well-shaped path that begins with the job
/// keyword, when it recognises it.
proof fn lemma_job_headed(t: Seq<char>)
    requires
        well_shaped(t),
        segment(t, 0) == "job"@,
        parse_spec(t) matches Ok(v) && !(v is Raw),
    ensures
        nests_in_folder(parse_spec(t)->Ok_0) || (parse_spec(t)->Ok_0 matches PathView::Job {
            name,
            configuration: None,
        } && slashes(t).len() == 3 && name_text(name) == segment(t, 1)),
{
    lemma_keywords();
}

/// A recognised resource that parsing gives satisfies the condition of the
/// round-trip law.
proof fn lemma_parsed_round_trips(s: Seq<char>)
    requires
        parse_spec(s) matches Ok(v) && !(v is Raw),
    ensures
        round_trips(parse_spec(s)->Ok_0),
    decreases s.len(),
{
    lemma_keywords();
    lemma_slashes(s);
    let sl = slashes(s);
    let k = sl.len();
    assert(well_shaped(s));
    let v = parse_spec(s)->Ok_0;
    lemma_segment_no_slash(s, 1);
    if k >= 4 {
        lemma_segment_no_slash(s, 2);
    }
    if k >= 5 {
        lemma_segment_no_slash(s, 3);
    }
    if segment(s, 0) == "job"@ && k >= 5 && !(k == 5 && segment(s, 3) == "mavenArtifacts"@)
        && segment(s, 2) == "job"@ {
        let t = s.subrange(sl[2], s.len() as int);
        lemma_suffix_segments(s, 2);
        assert(t.len() < s.len());
        lemma_parsed_round_trips(t);
        lemma_job_headed(t);
        let inner = parse_spec(t)->Ok_0;
        if !nests_in_folder(inner) {
            assert(segment(t, 1) == segment(s, 3));
        }
    }
}

/// Rendering a path that round-trips, appending a slash, and parsing the
/// text gives the path back.
pub proof fn lemma_round_trip(p: PathView)
    requires
        round_trips(p),
    ensures
        parse_spec(render(p) + "/"@) == Ok::<PathView, crate::errors::ExpectedType>(p),
{
    lemma_render_joined(p);
    lemma_parse_joined(p);
}

/// Parsing is stable under rendering: when a text parses to a recognised
/// resource, rendering that resource and appending a slash gives a text that
/// parses to the same resource.
pub proof fn lemma_parse_render_parse(s: Seq<char>)
    requires
        parse_spec(s) matches Ok(v) && !(v is Raw),
    ensures
        parse_spec(render(parse_spec(s)->Ok_0) + "/"@) == parse_spec(s),
{
    lemma_parsed_round_trips(s);
    lemma_round_trip(parse_spec(s)->Ok_0);
}

} // verus!