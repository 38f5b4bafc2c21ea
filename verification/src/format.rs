//! The response formatter: a successful query result to reply text plus a
//! content-type tag, or to no reply at all.

use vstd::prelude::*;
use vstd::string::StrSliceExecFns;
use vstd::string::StringExecFns;
use crate::jassdoc::{Annotation, DocResponse, NativeResponse, Parameter};
use crate::encoding::encoded_query;
use crate::encoding::jassdoc_user_doc_uri_of;
use crate::text::{ci_equal, join_parts, joined, trim_str, trimmed, str_eq_ci};

verus! {

/// What a reply holds: nothing, or text with a content-type tag.  Text with
/// `rich` set is rendered with link and markdown support; otherwise it is
/// shown verbatim.
pub enum ReplyContent {
    Empty,
    Reply { text: String, rich: bool },
}

/// Annotation names that are never displayed, compared without regard to
/// ASCII case.
pub open spec fn is_excluded_name(n: Seq<char>) -> bool {
    ||| ci_equal(n, "return-type"@)
    ||| ci_equal(n, "source-code"@)
    ||| ci_equal(n, "source-file"@)
}

/// Whether an annotation is displayed.
pub open spec fn ann_kept(a: Annotation) -> bool {
    !is_excluded_name(a.name@)
}

/// The display line of a kept annotation.
pub open spec fn ann_line(a: Annotation) -> Seq<char> {
    a.name@ + ": "@ + trimmed(a.value@)
}

/// The lines one annotation contributes: one for a kept annotation, none for
/// an excluded one.
pub open spec fn ann_tail(a: Annotation) -> Seq<Seq<char>> {
    if ann_kept(a) {
        seq![ann_line(a)]
    } else {
        Seq::empty()
    }
}

/// The display lines of an annotation sequence, in source order.
pub open spec fn ann_lines(anns: Seq<Annotation>) -> Seq<Seq<char>>
    decreases anns.len(),
{
    if anns.len() == 0 {
        Seq::empty()
    } else {
        ann_lines(anns.drop_last()) + ann_tail(anns.last())
    }
}

/// Whether a parameter is displayed: its documentation is present and
/// non-empty once trimmed.
pub open spec fn par_kept(p: Parameter) -> bool {
    p.doc matches Some(d) && trimmed(d@).len() > 0
}

/// The display line of a kept parameter.
pub open spec fn par_line(p: Parameter) -> Seq<char> {
    "* "@ + p.name@ + " parameter: "@ + trimmed(p.doc->0@)
}

/// The lines one parameter contributes: one for a kept parameter, none for
/// an undocumented one.
pub open spec fn par_tail(p: Parameter) -> Seq<Seq<char>> {
    if par_kept(p) {
        seq![par_line(p)]
    } else {
        Seq::empty()
    }
}

/// The display lines of a parameter sequence, in source order.
pub open spec fn par_lines(pars: Seq<Parameter>) -> Seq<Seq<char>>
    decreases pars.len(),
{
    if pars.len() == 0 {
        Seq::empty()
    } else {
        par_lines(pars.drop_last()) + par_tail(pars.last())
    }
}

/// The body of a documentation reply: the page link, a blank line, the
/// annotation lines separated by blank lines, a blank line, and the parameter
/// lines separated by newlines.
pub open spec fn doc_reply_text(q: Seq<char>, resp: DocResponse) -> Seq<char> {
    "https://lep.duckdns.org/jassbot/doc/"@ + encoded_query(q) + "\n \n"@ + joined(
        ann_lines(resp.annotations@),
        "\n \n"@,
    ) + "\n \n"@ + joined(par_lines(resp.parameters@), "\n"@)
}

/// The body of a native reply: the first three results, newline-joined, in
/// original order.
pub open spec fn native_reply_text(resp: NativeResponse) -> Seq<char> {
    let rs = resp.results.deep_view();
    let k: int = if rs.len() < 3 {
        rs.len() as int
    } else {
        3
    };
    joined(rs.take(k), "\n"@)
}

/// Whether a documentation result has anything displayable at all.
pub open spec fn doc_has_content(resp: DocResponse) -> bool {
    ann_lines(resp.annotations@).len() + par_lines(resp.parameters@).len() > 0
}

/// What [`format_native`] returns: the first three results newline-joined in
/// original order as plain text, or no reply when there are no results.
pub open spec fn native_format_ok(resp: NativeResponse, r: ReplyContent) -> bool {
    if resp.results.deep_view().len() == 0 {
        r is Empty
    } else {
        &&& r matches ReplyContent::Reply { text, rich }
        &&& text@ == native_reply_text(resp)
        &&& rich == false
    }
}

/// What [`format_doc`] returns: the documentation body as rich text, or no
/// reply when no annotation and no parameter is displayable.
pub open spec fn doc_format_ok(q: Seq<char>, resp: DocResponse, r: ReplyContent) -> bool {
    if !doc_has_content(resp) {
        r is Empty
    } else {
        &&& r matches ReplyContent::Reply { text, rich }
        &&& text@ == doc_reply_text(q, resp)
        &&& rich == true
    }
}

/// Whether `name` is one of the annotation names that are never displayed.
pub fn is_excluded(name: &str) -> (r: bool)
    ensures
        r == is_excluded_name(name@),
{
    str_eq_ci(name, "return-type") || str_eq_ci(name, "source-code") || str_eq_ci(
        name,
        "source-file",
    )
}

/// Shapes a native-search result into a reply.
pub fn format_native(resp: &NativeResponse) -> (r: ReplyContent)
    ensures
        native_format_ok(*resp, r),
{
    let len = resp.results.len();
    if len == 0 {
        return ReplyContent::Empty;
    }
    let k: usize = if len < 3 {
        len
    } else {
        3
    };
    let mut firstk: Vec<String> = Vec::new();
    proof {
        assert(firstk.deep_view() =~= resp.results.deep_view().take(0));
    }
    let mut i: usize = 0;
    while i < k
        invariant
            k <= resp.results@.len(),
            i <= k,
            firstk.deep_view() == resp.results.deep_view().take(i as int),
        decreases k - i,
    {
        let item = resp.results[i].clone();
        let ghost prevdv = firstk.deep_view();
        firstk.push(item);
        proof {
            let rs = resp.results.deep_view();
            let dv = firstk.deep_view();
            assert forall|l: int| 0 <= l < prevdv.len() implies dv[l] == prevdv[l] by {
                assert(dv[l] == firstk@[l]@);
            }
            assert(dv[prevdv.len() as int] == item@);
            assert(rs[i as int] == resp.results@[i as int]@);
            assert(dv =~= rs.take(i as int + 1));
        }
        i = i + 1;
    }
    let text = join_parts(&firstk, "\n");
    ReplyContent::Reply { text, rich: false }
}

/// Shapes a documentation-lookup result into a reply for the original query.
pub fn format_doc(query: &str, resp: &DocResponse) -> (r: ReplyContent)
    ensures
        doc_format_ok(query@, *resp, r),
{
    let mut ann_v: Vec<String> = Vec::new();
    proof {
        assert(ann_v.deep_view() =~= Seq::<Seq<char>>::empty());
        assert(resp.annotations@.take(0) =~= Seq::<Annotation>::empty());
    }
    let mut i: usize = 0;
    while i < resp.annotations.len()
        invariant
            i <= resp.annotations@.len(),
            ann_v.deep_view() == ann_lines(resp.annotations@.take(i as int)),
        decreases resp.annotations@.len() - i,
    {
        let a = &resp.annotations[i];
        proof {
            assert(resp.annotations@.take(i as int + 1).drop_last() =~= resp.annotations@.take(
                i as int,
            ));
            assert(resp.annotations@.take(i as int + 1).last() == resp.annotations@[i as int]);
        }
        if !is_excluded(a.name.as_str()) {
            let mut line = a.name.clone();
            line.append(": ");
            let tv = trim_str(a.value.as_str());
            line.append(tv.as_str());
            let ghost prevdv = ann_v.deep_view();
            let ghost linev = line@;
            ann_v.push(line);
            proof {
                let dv = ann_v.deep_view();
                assert forall|l: int| 0 <= l < prevdv.len() implies dv[l] == prevdv[l] by {
                    assert(dv[l] == ann_v@[l]@);
                }
                assert(dv[prevdv.len() as int] == linev);
                assert(linev == ann_line(resp.annotations@[i as int]));
                assert(dv =~= ann_lines(resp.annotations@.take(i as int + 1)));
            }
        } else {
            proof {
                assert(ann_v.deep_view() =~= ann_lines(resp.annotations@.take(i as int + 1)));
            }
        }
        i = i + 1;
    }
    proof {
        assert(resp.annotations@.take(resp.annotations@.len() as int) =~= resp.annotations@);
    }
    let mut par_v: Vec<String> = Vec::new();
    proof {
        assert(par_v.deep_view() =~= Seq::<Seq<char>>::empty());
        assert(resp.parameters@.take(0) =~= Seq::<Parameter>::empty());
    }
    let mut j: usize = 0;
    while j < resp.parameters.len()
        invariant
            j <= resp.parameters@.len(),
            par_v.deep_view() == par_lines(resp.parameters@.take(j as int)),
        decreases resp.parameters@.len() - j,
    {
        let p = &resp.parameters[j];
        proof {
            assert(resp.parameters@.take(j as int + 1).drop_last() =~= resp.parameters@.take(
                j as int,
            ));
            assert(resp.parameters@.take(j as int + 1).last() == resp.parameters@[j as int]);
        }
        match &p.doc {
            Some(d) => {
                let td = trim_str(d.as_str());
                if td.as_str().unicode_len() > 0 {
                    let mut line = String::from_str("* ");
                    line.append(p.name.as_str());
                    line.append(" parameter: ");
                    line.append(td.as_str());
                    let ghost prevdv = par_v.deep_view();
                    let ghost linev = line@;
                    par_v.push(line);
                    proof {
                        let dv = par_v.deep_view();
                        assert forall|l: int| 0 <= l < prevdv.len() implies dv[l] == prevdv[l] by {
                            assert(dv[l] == par_v@[l]@);
                        }
                        assert(dv[prevdv.len() as int] == linev);
                        assert(par_kept(resp.parameters@[j as int]));
                        assert(linev == par_line(resp.parameters@[j as int]));
                        assert(dv =~= par_lines(resp.parameters@.take(j as int + 1)));
                    }
                } else {
                    proof {
                        assert(par_v.deep_view() =~= par_lines(
                            resp.parameters@.take(j as int + 1),
                        ));
                    }
                }
            },
            None => {
                proof {
                    assert(par_v.deep_view() =~= par_lines(resp.parameters@.take(j as int + 1)));
                }
            },
        }
        j = j + 1;
    }
    proof {
        assert(resp.parameters@.take(resp.parameters@.len() as int) =~= resp.parameters@);
    }
    if ann_v.len() == 0 && par_v.len() == 0 {
        return ReplyContent::Empty;
    }
    let mut text = jassdoc_user_doc_uri_of(query);
    text.append("\n \n");
    let aj = join_parts(&ann_v, "\n \n");
    text.append(aj.as_str());
    text.append("\n \n");
    let pj = join_parts(&par_v, "\n");
    text.append(pj.as_str());
    ReplyContent::Reply { text, rich: true }
}

/// An annotation with an excluded name contributes nothing to the displayed
/// lines, wherever in the sequence it stands.
pub proof fn lemma_excluded_annotation_hidden(anns: Seq<Annotation>, i: int)
    requires
        0 <= i < anns.len(),
        !ann_kept(anns[i]),
    ensures
        ann_lines(anns) == ann_lines(anns.remove(i)),
    decreases anns.len(),
{
    if i == anns.len() - 1 {
        assert(anns.remove(i) =~= anns.drop_last());
        assert(ann_lines(anns) =~= ann_lines(anns.drop_last()));
    } else {
        let dl = anns.drop_last();
        lemma_excluded_annotation_hidden(dl, i);
        let r = anns.remove(i);
        assert(r.drop_last() =~= dl.remove(i));
        assert(r.last() == anns.last());
        assert(ann_lines(r) == ann_lines(r.drop_last()) + ann_tail(r.last()));
        assert(ann_lines(anns) == ann_lines(dl) + ann_tail(anns.last()));
    }
}

/// A parameter without displayable documentation contributes nothing to the
/// displayed lines, wherever in the sequence it stands.
pub proof fn lemma_undocumented_parameter_hidden(pars: Seq<Parameter>, i: int)
    requires
        0 <= i < pars.len(),
        !par_kept(pars[i]),
    ensures
        par_lines(pars) == par_lines(pars.remove(i)),
    decreases pars.len(),
{
    if i == pars.len() - 1 {
        assert(pars.remove(i) =~= pars.drop_last());
        assert(par_lines(pars) =~= par_lines(pars.drop_last()));
    } else {
        let dl = pars.drop_last();
        lemma_undocumented_parameter_hidden(dl, i);
        let r = pars.remove(i);
        assert(r.drop_last() =~= dl.remove(i));
        assert(r.last() == pars.last());
        assert(par_lines(r) == par_lines(r.drop_last()) + par_tail(r.last()));
        assert(par_lines(pars) == par_lines(dl) + par_tail(pars.last()));
    }
}

} // verus!
