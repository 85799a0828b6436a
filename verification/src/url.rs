//! Construction of the chat-completion endpoint URL from a base URL.

use vstd::prelude::*;

verus! {

use vstd::string::StrSliceExecFns;
use vstd::string::StringExecFns;

/// The base URL with every trailing `/` removed.
pub open spec fn strip_trailing_slashes(s: Seq<char>) -> Seq<char>
    decreases s.len(),
{
    if s.len() > 0 && s.last() == '/' {
        strip_trailing_slashes(s.drop_last())
    } else {
        s
    }
}

/// The full request URL for a chat completion against the given base URL.
pub open spec fn endpoint_url(base: Seq<char>) -> Seq<char> {
    strip_trailing_slashes(base) + "/chat/completions"@
}

/// The stripped base URL is a prefix of the input and never ends in `/`.
pub proof fn lemma_strip_trailing_slashes(s: Seq<char>)
    ensures
        strip_trailing_slashes(s).len() <= s.len(),
        strip_trailing_slashes(s) == s.subrange(0, strip_trailing_slashes(s).len() as int),
        strip_trailing_slashes(s).len() > 0 ==> strip_trailing_slashes(s).last() != '/',
    decreases s.len(),
{
    if s.len() > 0 && s.last() == '/' {
        lemma_strip_trailing_slashes(s.drop_last());
        assert(s.drop_last().subrange(0, strip_trailing_slashes(s.drop_last()).len() as int)
            =~= s.subrange(0, strip_trailing_slashes(s.drop_last()).len() as int));
    } else {
        assert(s.subrange(0, s.len() as int) =~= s);
    }
}

/// Joining the stripped base URL and the endpoint path yields exactly one `/`
/// between them: the path starts with one, and the stripped base never ends
/// with one.
pub proof fn lemma_endpoint_url_single_slash(base: Seq<char>)
    ensures
        endpoint_url(base)[strip_trailing_slashes(base).len() as int] == '/',
        strip_trailing_slashes(base).len() > 0 ==> endpoint_url(base)[strip_trailing_slashes(base).len() - 1] != '/',
{
    lemma_strip_trailing_slashes(base);
    reveal_strlit("/chat/completions");
}

/// Builds the request URL: the base URL with trailing slashes removed,
/// followed by the chat-completion endpoint path.
pub fn build_endpoint_url(base: &str) -> (r: String)
    ensures
        r@ == endpoint_url(base@),
{
    let n = base.unicode_len();
    let mut end = n;
    proof {
        assert(base@.subrange(0, n as int) =~= base@);
    }
    while end > 0 && base.get_char(end - 1) == '/'
        invariant
            end <= n,
            n == base@.len(),
            strip_trailing_slashes(base@) == strip_trailing_slashes(base@.subrange(0, end as int)),
        decreases end,
    {
        proof {
            let cur = base@.subrange(0, end as int);
            assert(cur.last() == base@[end - 1]);
            assert(cur.drop_last() =~= base@.subrange(0, end - 1));
        }
        end = end - 1;
    }
    proof {
        let cur = base@.subrange(0, end as int);
        if end > 0 {
            assert(cur.last() == base@[end - 1]);
        }
        assert(strip_trailing_slashes(cur) == cur);
    }
    let prefix = base.substring_char(0, end);
    let mut r = prefix.to_owned();
    r.append("/chat/completions");
    r
}

} // verus!
