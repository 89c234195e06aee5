//! The discovery operation: the endpoint description handed to clients.
//!
//! Discovery reports where media uploads go: the configured base URL with
//! `/upload/media` appended. Trailing slashes on the configured base URL are
//! stripped before the path is appended, so the join never doubles a slash.

use crate::commit::{append_json_string, json_string};
use vstd::prelude::*;
use vstd::string::*;

verus! {

/// `s` with every trailing `'/'` removed.
pub open spec fn strip_trailing_slashes(s: Seq<char>) -> Seq<char>
    decreases s.len(),
{
    if s.len() > 0 && s.last() == '/' {
        strip_trailing_slashes(s.drop_last())
    } else {
        s
    }
}

/// The media-upload URL that discovery advertises for a configured base URL.
pub open spec fn media_endpoint(base_url: Seq<char>) -> Seq<char> {
    strip_trailing_slashes(base_url) + "/upload/media"@
}

/// Builds the advertised media-upload URL.
pub fn build_media_endpoint(base_url: &str) -> (r: String)
    ensures
        r@ == media_endpoint(base_url@),
{
    let n = base_url.unicode_len();
    let mut k = n;
    proof {
        assert(base_url@.take(n as int) =~= base_url@);
    }
    while k > 0 && base_url.get_char(k - 1) == '/'
        invariant
            k <= n,
            n == base_url@.len(),
            strip_trailing_slashes(base_url@) == strip_trailing_slashes(
                base_url@.take(k as int),
            ),
        decreases k,
    {
        proof {
            assert(base_url@.take(k as int).drop_last() =~= base_url@.take(k - 1));
        }
        k = k - 1;
    }
    proof {
        assert(strip_trailing_slashes(base_url@.take(k as int)) == base_url@.take(k as int));
    }
    let prefix = base_url.substring_char(0, k);
    let mut s = String::from_str(prefix);
    s.append("/upload/media");
    proof {
        assert(base_url@.take(k as int) =~= base_url@.subrange(0, k as int));
        assert(s@ =~= media_endpoint(base_url@));
    }
    s
}

/// The discovery response body: a JSON object whose one field,
/// `media-endpoint`, names the advertised media-upload URL.
pub open spec fn discovery_document(base_url: Seq<char>) -> Seq<char> {
    "{\"media-endpoint\":"@ + json_string(media_endpoint(base_url)) + "}"@
}

/// Builds the discovery response body.
pub fn build_discovery_document(base_url: &str) -> (r: String)
    ensures
        r@ == discovery_document(base_url@),
{
    let endpoint = build_media_endpoint(base_url);
    let mut s = String::from_str("{\"media-endpoint\":");
    append_json_string(&mut s, endpoint.as_str());
    s.append("}");
    proof {
        assert(s@ =~= discovery_document(base_url@));
    }
    s
}

/// A trailing slash on the base URL never duplicates the slash before
/// `upload/media`: the advertised endpoint is the same with or without it.
pub proof fn lemma_media_endpoint_trailing_slash(base_url: Seq<char>)
    ensures
        media_endpoint(base_url.push('/')) == media_endpoint(base_url),
{
    assert(base_url.push('/').drop_last() =~= base_url);
}

/// What the strip leaves behind never ends in a slash, so the advertised
/// endpoint carries exactly one slash at the join.
pub proof fn lemma_strip_no_trailing_slash(s: Seq<char>)
    ensures
        strip_trailing_slashes(s).len() > 0 ==> strip_trailing_slashes(s).last() != '/',
    decreases s.len(),
{
    if s.len() > 0 && s.last() == '/' {
        lemma_strip_no_trailing_slash(s.drop_last());
    }
}

} // verus!
