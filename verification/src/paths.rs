use vstd::prelude::*;
use vstd::string::StrSliceExecFns;
use vstd::string::StringExecFns;

verus! {

/// A path is modeled as its sequence of characters. This library treats `/`
/// as the one separator it ever inserts and never interprets any other
/// character of a path.
///
/// A path is absolute when it is non-empty and starts at the root.
pub open spec fn is_absolute(p: Seq<char>) -> bool {
    p.len() > 0 && p[0] == '/'
}

/// `base` with `seg` appended as one further path segment.
pub open spec fn join_seq(base: Seq<char>, seg: Seq<char>) -> Seq<char> {
    base + seq!['/'] + seg
}

/// `seg` stands at the end of `p` as its final path segment.
pub open spec fn ends_with_segment(p: Seq<char>, seg: Seq<char>) -> bool {
    &&& p.len() > seg.len()
    &&& p.subrange(p.len() - seg.len() - 1, p.len() as int) == seq!['/'] + seg
}

/// `p` is `base` itself or lies strictly below `base`.
pub open spec fn rooted_under(p: Seq<char>, base: Seq<char>) -> bool {
    ||| p == base
    ||| {
        &&& p.len() > base.len()
        &&& p.subrange(0, base.len() as int) == base
        &&& p[base.len() as int] == '/'
    }
}

/// Joining puts the segment at the end of the result, after a separator.
pub proof fn lemma_join_ends_with_segment(base: Seq<char>, seg: Seq<char>)
    ensures
        ends_with_segment(join_seq(base, seg), seg),
{
    let p = join_seq(base, seg);
    assert(p.subrange(p.len() - seg.len() - 1, p.len() as int) =~= seq!['/'] + seg);
}

/// Joining keeps the result rooted under the base it started from.
pub proof fn lemma_join_rooted_under(base: Seq<char>, seg: Seq<char>)
    ensures
        rooted_under(join_seq(base, seg), base),
{
    let p = join_seq(base, seg);
    assert(p.subrange(0, base.len() as int) =~= base);
}

/// `base` with an optional application name appended as one further path
/// segment: the name is appended when present and `base` stays as it is when
/// not. The name is taken as-is; a value that is no single path segment
/// propagates unchanged into the result.
pub open spec fn suffixed(base: Seq<char>, name: Option<Seq<char>>) -> Seq<char> {
    match name {
        Some(n) => join_seq(base, n),
        None => base,
    }
}

/// A path built by `suffixed` with a name present ends with that name as its
/// final segment.
pub proof fn lemma_suffixed_ends_with_segment(base: Seq<char>, n: Seq<char>)
    ensures
        ends_with_segment(suffixed(base, Some(n)), n),
{
    lemma_join_ends_with_segment(base, n);
}

/// A path built by `suffixed` is rooted under the base it was built from,
/// whether or not a name was appended.
pub proof fn lemma_suffixed_rooted_under(base: Seq<char>, name: Option<Seq<char>>)
    ensures
        rooted_under(suffixed(base, name), base),
{
    if let Some(n) = name {
        lemma_join_rooted_under(base, n);
    }
}

/// Checks whether `path` is a non-empty absolute path; on success the path
/// itself comes back unchanged.
pub fn is_absolute_path(path: &str) -> (r: Option<String>)
    ensures
        r matches Some(p) ==> p@ == path@,
        r is Some <==> is_absolute(path@),
{
    let n: usize = path.unicode_len();
    if n > 0 && path.get_char(0) == '/' {
        Some(String::from_str(path))
    } else {
        None
    }
}

/// Appends `seg` to `base` as one further path segment.
pub fn join_path(base: &str, seg: &str) -> (r: String)
    ensures
        r@ == join_seq(base@, seg@),
{
    let mut s = String::from_str(base);
    s.append("/");
    s.append(seg);
    proof {
        reveal_strlit("/");
        assert(s@ =~= join_seq(base@, seg@));
    }
    s
}

/// Appends the application name to `base` when one is present; hands `base`
/// back unchanged when none is.
pub fn suffix_path(base: &String, name: Option<&str>) -> (r: String)
    ensures
        r@ == suffixed(base@, name.deep_view()),
{
    match name {
        Some(n) => join_path(base.as_str(), n),
        None => base.clone(),
    }
}

} // verus!
