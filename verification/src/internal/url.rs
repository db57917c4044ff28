//! Request URLs: a base host and a path, joined by exactly one slash.

use vstd::prelude::*;
use vstd::string::*;

verus! {

/// `s` without the slashes at its end.
pub open spec fn trim_trailing_slashes(s: Seq<char>) -> Seq<char>
    decreases s.len(),
{
    if s.len() > 0 && s.last() == '/' {
        trim_trailing_slashes(s.drop_last())
    } else {
        s
    }
}

/// `s` without the slashes at its start.
pub open spec fn trim_leading_slashes(s: Seq<char>) -> Seq<char>
    decreases s.len(),
{
    if s.len() > 0 && s.first() == '/' {
        trim_leading_slashes(s.drop_first())
    } else {
        s
    }
}

/// The URL of `path` under `host`: the host up to its last character that
/// is no slash, one slash, and the path from its first character that is no
/// slash.
pub open spec fn url_of(host: Seq<char>, path: Seq<char>) -> Seq<char> {
    trim_trailing_slashes(host) + seq!['/'] + trim_leading_slashes(path)
}

/// What is left of a text without its trailing slashes is a prefix of it
/// that does not end in a slash.
pub proof fn lemma_trim_trailing(s: Seq<char>)
    ensures
        trim_trailing_slashes(s).len() <= s.len(),
        trim_trailing_slashes(s) == s.subrange(0, trim_trailing_slashes(s).len() as int),
        trim_trailing_slashes(s).len() > 0 ==> trim_trailing_slashes(s).last() != '/',
        forall|i: int|
            trim_trailing_slashes(s).len() <= i < s.len() ==> #[trigger] s[i] == '/',
    decreases s.len(),
{
    if s.len() > 0 && s.last() == '/' {
        let shorter = s.drop_last();
        lemma_trim_trailing(shorter);
        let kept = trim_trailing_slashes(shorter);
        assert(kept =~= s.subrange(0, kept.len() as int));
        assert forall|i: int| kept.len() <= i < s.len() implies #[trigger] s[i] == '/' by {
            if i < shorter.len() {
                assert(shorter[i] == s[i]);
            }
        }
    } else {
        assert(s =~= s.subrange(0, s.len() as int));
    }
}

/// What is left of a text without its leading slashes is a suffix of it
/// that does not start with a slash.
pub proof fn lemma_trim_leading(s: Seq<char>)
    ensures
        trim_leading_slashes(s).len() <= s.len(),
        trim_leading_slashes(s) == s.subrange(
            s.len() - trim_leading_slashes(s).len(),
            s.len() as int,
        ),
        trim_leading_slashes(s).len() > 0 ==> trim_leading_slashes(s).first() != '/',
        forall|i: int|
            0 <= i < s.len() - trim_leading_slashes(s).len() ==> #[trigger] s[i] == '/',
    decreases s.len(),
{
    if s.len() > 0 && s.first() == '/' {
        let shorter = s.drop_first();
        lemma_trim_leading(shorter);
        let kept = trim_leading_slashes(shorter);
        assert(kept =~= s.subrange(s.len() - kept.len(), s.len() as int));
        assert forall|i: int| 0 <= i < s.len() - kept.len() implies #[trigger] s[i] == '/' by {
            if i > 0 {
                assert(shorter[i - 1] == s[i]);
            }
        }
    } else {
        assert(s =~= s.subrange(0, s.len() as int));
    }
}

/// A URL has exactly one slash between what is left of the host and what is
/// left of the path: neither does the host's part end in one nor the
/// path's part start with one.
pub proof fn lemma_single_separator(host: Seq<char>, path: Seq<char>)
    ensures
        ({
            let base = trim_trailing_slashes(host);
            let rest = trim_leading_slashes(path);
            let url = url_of(host, path);
            &&& url.len() == base.len() + 1 + rest.len()
            &&& url.subrange(0, base.len() as int) == base
            &&& url[base.len() as int] == '/'
            &&& url.subrange(base.len() as int + 1, url.len() as int) == rest
            &&& base.len() > 0 ==> url[base.len() - 1] != '/'
            &&& rest.len() > 0 ==> url[base.len() as int + 1] != '/'
        }),
{
    let base = trim_trailing_slashes(host);
    let rest = trim_leading_slashes(path);
    let url = url_of(host, path);
    lemma_trim_trailing(host);
    lemma_trim_leading(path);
    assert(url.subrange(0, base.len() as int) =~= base);
    assert(url.subrange(base.len() as int + 1, url.len() as int) =~= rest);
    if base.len() > 0 {
        assert(url[base.len() - 1] == base.last());
    }
    if rest.len() > 0 {
        assert(url[base.len() as int + 1] == rest.first());
    }
}

/// Slashes at the end of the host and at the start of the path do not
/// change the URL.
pub proof fn lemma_url_ignores_seam_slashes(host: Seq<char>, path: Seq<char>)
    ensures
        url_of(host.push('/'), path) == url_of(host, path),
        url_of(host, seq!['/'] + path) == url_of(host, path),
{
    assert(host.push('/').drop_last() =~= host);
    assert((seq!['/'] + path).drop_first() =~= path);
}

/// `s` up to its last character that is no slash.
pub fn without_trailing_slashes(s: &str) -> (kept: &str)
    ensures
        kept@ == trim_trailing_slashes(s@),
{
    let mut end: usize = s.unicode_len();
    assert(s@.subrange(0, end as int) =~= s@);
    while end > 0 && s.get_char(end - 1) == '/'
        invariant
            end <= s@.len(),
            trim_trailing_slashes(s@) == trim_trailing_slashes(s@.subrange(0, end as int)),
        decreases end,
    {
        assert(s@.subrange(0, end as int).drop_last() =~= s@.subrange(0, end - 1));
        end -= 1;
    }
    s.substring_char(0, end)
}

/// `s` from its first character that is no slash.
pub fn without_leading_slashes(s: &str) -> (kept: &str)
    ensures
        kept@ == trim_leading_slashes(s@),
{
    let len: usize = s.unicode_len();
    let mut start: usize = 0;
    assert(s@.subrange(0, len as int) =~= s@);
    while start < len && s.get_char(start) == '/'
        invariant
            len == s@.len(),
            start <= len,
            trim_leading_slashes(s@) == trim_leading_slashes(
                s@.subrange(start as int, len as int),
            ),
        decreases len - start,
    {
        assert(s@.subrange(start as int, len as int).drop_first() =~= s@.subrange(
            start + 1,
            len as int,
        ));
        start += 1;
    }
    s.substring_char(start, len)
}

/// Joins a base host and a path into the URL of a request.
pub fn join_url(host: &str, path: &str) -> (url: String)
    ensures
        url@ == url_of(host@, path@),
{
    let mut url = without_trailing_slashes(host).to_owned();
    url.append("/");
    url.append(without_leading_slashes(path));
    proof {
        reveal_strlit("/");
        assert("/"@ =~= seq!['/']);
    }
    url
}

} // verus!
