//! The commit client's verified half.
//!
//! A [`Content`] record is turned into a complete store request — URL,
//! authorization header, client identification, and a JSON body holding
//! exactly the `message`, `content` and `path` fields — and the store's
//! reply is interpreted into a [`CommitResult`] or a [`StoreError`]. The
//! JSON body is framed and escaped here, character by character; only the
//! network transfer itself happens elsewhere.

use crate::content::Content;
use crate::strutil::push_char;
use vstd::prelude::*;
use vstd::string::*;

verus! {

/// The hexadecimal digit character for `d`, lower case.
pub open spec fn hex_digit(d: int) -> char
    recommends
        0 <= d <= 15,
{
    if d == 0 {
        '0'
    } else if d == 1 {
        '1'
    } else if d == 2 {
        '2'
    } else if d == 3 {
        '3'
    } else if d == 4 {
        '4'
    } else if d == 5 {
        '5'
    } else if d == 6 {
        '6'
    } else if d == 7 {
        '7'
    } else if d == 8 {
        '8'
    } else if d == 9 {
        '9'
    } else if d == 10 {
        'a'
    } else if d == 11 {
        'b'
    } else if d == 12 {
        'c'
    } else if d == 13 {
        'd'
    } else if d == 14 {
        'e'
    } else {
        'f'
    }
}

/// How one character appears inside a JSON string literal: quotes and
/// backslashes get a backslash escape, the common control characters their
/// short escapes, any other control character a `\u00XX` escape, and
/// everything else stands as itself.
pub open spec fn json_escape_char(c: char) -> Seq<char> {
    if c == '"' {
        seq!['\\', '"']
    } else if c == '\\' {
        seq!['\\', '\\']
    } else if c == '\n' {
        seq!['\\', 'n']
    } else if c == '\r' {
        seq!['\\', 'r']
    } else if c == '\t' {
        seq!['\\', 't']
    } else if (c as u32) < 32 {
        seq!['\\', 'u', '0', '0', hex_digit((c as u32) as int / 16), hex_digit(
            (c as u32) as int % 16,
        )]
    } else {
        seq![c]
    }
}

/// The characters of `s` as they appear inside a JSON string literal.
pub open spec fn json_escape(s: Seq<char>) -> Seq<char>
    decreases s.len(),
{
    if s.len() == 0 {
        seq![]
    } else {
        json_escape_char(s[0]) + json_escape(s.drop_first())
    }
}

/// `s` as a complete JSON string literal, quotes included.
pub open spec fn json_string(s: Seq<char>) -> Seq<char> {
    seq!['"'] + json_escape(s) + seq!['"']
}

/// The JSON request body for a commit: exactly the three fields `message`,
/// `content` and `path`, in that order.
pub open spec fn commit_body(message: Seq<char>, content: Seq<char>, path: Seq<char>) -> Seq<
    char,
> {
    "{\"message\":"@ + json_string(message) + ",\"content\":"@ + json_string(content)
        + ",\"path\":"@ + json_string(path) + "}"@
}

/// The store URL a commit is sent to: the repository's contents endpoint
/// for the record's path.
pub open spec fn commit_url(repository: Seq<char>, path: Seq<char>) -> Seq<char> {
    "https://api.github.com/repos/"@ + repository + "/contents/"@ + path
}

fn hex(d: u8) -> (r: char)
    requires
        d <= 15,
    ensures
        r == hex_digit(d as int),
{
    match d {
        0 => '0',
        1 => '1',
        2 => '2',
        3 => '3',
        4 => '4',
        5 => '5',
        6 => '6',
        7 => '7',
        8 => '8',
        9 => '9',
        10 => 'a',
        11 => 'b',
        12 => 'c',
        13 => 'd',
        14 => 'e',
        _ => 'f',
    }
}

fn push_escaped_char(out: &mut String, c: char)
    ensures
        final(out)@ == old(out)@ + json_escape_char(c),
{
    if c == '"' {
        out.append("\\\"");
        proof {
            reveal_strlit("\\\"");
        }
    } else if c == '\\' {
        out.append("\\\\");
        proof {
            reveal_strlit("\\\\");
        }
    } else if c == '\n' {
        out.append("\\n");
        proof {
            reveal_strlit("\\n");
        }
    } else if c == '\r' {
        out.append("\\r");
        proof {
            reveal_strlit("\\r");
        }
    } else if c == '\t' {
        out.append("\\t");
        proof {
            reveal_strlit("\\t");
        }
    } else {
        let code = c as u32;
        if code < 32 {
            out.append("\\u00");
            push_char(out, hex((code / 16) as u8));
            push_char(out, hex((code % 16) as u8));
            proof {
                reveal_strlit("\\u00");
            }
        } else {
            push_char(out, c);
        }
    }
    assert(out@ =~= old(out)@ + json_escape_char(c));
}

/// Appends `s` as a JSON string literal, quotes and escapes included.
pub(crate) fn append_json_string(out: &mut String, s: &str)
    ensures
        final(out)@ == old(out)@ + json_string(s@),
{
    push_char(out, '"');
    let n = s.unicode_len();
    let mut i: usize = 0;
    proof {
        assert(s@.skip(0) =~= s@);
        assert(out@ + json_escape(s@) =~= old(out)@ + seq!['"'] + json_escape(s@));
    }
    while i < n
        invariant
            n == s@.len(),
            i <= n,
            out@ + json_escape(s@.skip(i as int)) == old(out)@ + seq!['"'] + json_escape(s@),
        decreases n - i,
    {
        let c = s.get_char(i);
        proof {
            assert(s@.skip(i as int).drop_first() =~= s@.skip(i + 1));
            assert(json_escape(s@.skip(i as int)) == json_escape_char(c) + json_escape(
                s@.skip(i + 1),
            ));
        }
        push_escaped_char(out, c);
        proof {
            assert(out@ + json_escape(s@.skip(i + 1)) =~= old(out)@ + seq!['"'] + json_escape(
                s@,
            ));
        }
        i = i + 1;
    }
    proof {
        assert(s@.skip(n as int) =~= Seq::<char>::empty());
    }
    push_char(out, '"');
    assert(out@ =~= old(out)@ + json_string(s@));
}

/// A complete store request, ready to be transferred: where to send it,
/// what headers identify and authorize the client, and the JSON body.
#[derive(Debug, Clone)]
pub struct CommitRequest {
    /// The contents endpoint for the committed path.
    pub url: String,
    /// The `Authorization` header value: the store access credential in
    /// bearer form.
    pub authorization: String,
    /// The `User-Agent` header value: the fixed client identification.
    pub user_agent: String,
    /// The `Content-Type` header value.
    pub content_type: String,
    /// The JSON request body.
    pub body: String,
}

/// Builds the full store request for one commit.
pub fn build_commit_request(repository: &str, store_token: &str, content: &Content) -> (r:
    CommitRequest)
    ensures
        r.url@ == commit_url(repository@, content.path@),
        r.authorization@ == "Bearer "@ + store_token@,
        r.user_agent@ == "pan-rust"@,
        r.content_type@ == "application/json;charset=UTF-8"@,
        r.body@ == commit_body(content.message@, content.content@, content.path@),
{
    let mut url = String::from_str("https://api.github.com/repos/");
    url.append(repository);
    url.append("/contents/");
    url.append(content.path.as_str());
    proof {
        assert(url@ =~= commit_url(repository@, content.path@));
    }

    let mut authorization = String::from_str("Bearer ");
    authorization.append(store_token);

    let mut body = String::from_str("{\"message\":");
    append_json_string(&mut body, content.message.as_str());
    body.append(",\"content\":");
    append_json_string(&mut body, content.content.as_str());
    body.append(",\"path\":");
    append_json_string(&mut body, content.path.as_str());
    body.append("}");
    proof {
        assert(body@ =~= commit_body(content.message@, content.content@, content.path@));
    }

    CommitRequest {
        url,
        authorization,
        user_agent: String::from_str("pan-rust"),
        content_type: String::from_str("application/json;charset=UTF-8"),
        body,
    }
}

/// Why a commit failed.
#[derive(Debug, Clone, PartialEq, Eq, Structural)]
pub enum StoreError {
    /// The store could not be reached, or the transfer broke off.
    Transport,
    /// The store answered with a status outside the success range.
    BadStatus(u16),
    /// The store's reply did not carry the stored file's download URL.
    MalformedResponse,
}

/// The outcome of a successful commit.
#[derive(Debug, Clone)]
pub struct CommitResult {
    /// Where the stored content can be fetched from, as the store reported
    /// it.
    pub location_url: String,
}

/// How a store reply is judged: no reply is a transport failure, a status
/// outside 2xx fails with that status, a 2xx reply without a download URL is
/// malformed, and a 2xx reply with one is the commit's result.
pub open spec fn store_outcome(reply: Option<(u16, Option<String>)>) -> Result<
    CommitResult,
    StoreError,
> {
    match reply {
        None => Err(StoreError::Transport),
        Some((status, location)) => if status < 200 || 300 <= status {
            Err(StoreError::BadStatus(status))
        } else {
            match location {
                Some(url) => Ok(CommitResult { location_url: url }),
                None => Err(StoreError::MalformedResponse),
            }
        },
    }
}

/// Interprets the store's reply to a commit request. The reply arrives as
/// `None` when the transfer itself failed, and otherwise as the response
/// status with the download URL of the stored file, if the response body
/// carried one.
pub fn interpret_store_response(reply: Option<(u16, Option<String>)>) -> (r: Result<
    CommitResult,
    StoreError,
>)
    ensures
        r == store_outcome(reply),
{
    match reply {
        None => Err(StoreError::Transport),
        Some((status, location)) => {
            if status < 200 || 300 <= status {
                Err(StoreError::BadStatus(status))
            } else {
                match location {
                    Some(url) => Ok(CommitResult { location_url: url }),
                    None => Err(StoreError::MalformedResponse),
                }
            }
        },
    }
}

} // verus!
