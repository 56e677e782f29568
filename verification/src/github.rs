//! GitHub addresses and API replies: owner and name of a repository,
//! the paging of repository lists, and the decoding of file contents.
use vstd::prelude::*;
use crate::proxy::{trim_suffix_all, trim_suffix_all_exec};
use crate::text::{
    chars, contains_seq, contains_str, from_chars, slice_range, split_char, split_seq,
    starts_with_seq, starts_with_str, str_eq, trim, trim_seq, views, lemma_split_nonempty,
};

verus! {

/// The owner and name in a `owner/name[/...]` path, when it has both parts.
pub open spec fn two_parts(path: Seq<char>) -> Option<(Seq<char>, Seq<char>)> {
    let parts = split_seq(path, '/');
    if parts.len() >= 2 {
        Some((parts[0], parts[1]))
    } else {
        None
    }
}

/// The owner and name of a repository address: `https://github.com/o/n`,
/// `git@github.com:o/n` (either with `.git` or trailing slashes) or plain
/// `o/n` with both parts non-empty.
pub open spec fn owner_name_of(url: Seq<char>) -> Option<(Seq<char>, Seq<char>)> {
    let cleaned = trim_suffix_all(trim_suffix_all(trim_seq(url), ".git"@), "/"@);
    let https = "https://github.com/"@;
    let ssh = "git@github.com:"@;
    let from_url = if contains_seq(cleaned, "github.com"@) {
        if starts_with_seq(cleaned, https) && two_parts(cleaned.skip(https.len() as int)) is Some {
            two_parts(cleaned.skip(https.len() as int))
        } else if starts_with_seq(cleaned, ssh) && two_parts(cleaned.skip(ssh.len() as int)) is Some {
            two_parts(cleaned.skip(ssh.len() as int))
        } else {
            None
        }
    } else {
        None
    };
    match from_url {
        Some(p) => Some(p),
        None => {
            let parts = split_seq(cleaned, '/');
            if parts.len() == 2 && parts[0].len() > 0 && parts[1].len() > 0 {
                Some((parts[0], parts[1]))
            } else {
                None
            }
        },
    }
}

/// The owner and name of a `owner/name[/...]` path.
fn two_parts_exec(path: &[char]) -> (r: Option<(String, String)>)
    ensures
        match r {
            Some(p) => two_parts(path@) == Some((p.0@, p.1@)),
            None => two_parts(path@) is None,
        },
{
    let parts = split_char(path, '/');
    if parts.len() >= 2 {
        assert(views(parts@)[0] == parts@[0]@);
        assert(views(parts@)[1] == parts@[1]@);
        Some((from_chars(parts[0].as_slice()), from_chars(parts[1].as_slice())))
    } else {
        None
    }
}

/// The owner and name of a repository address (see `owner_name_of`).
pub fn parse_repo_owner_name(repo_url: &str) -> (r: Option<(String, String)>)
    ensures
        match r {
            Some(p) => owner_name_of(repo_url@) == Some((p.0@, p.1@)),
            None => owner_name_of(repo_url@) is None,
        },
{
    let t = trim(chars(repo_url).as_slice());
    let a = trim_suffix_all_exec(t.as_slice(), chars(".git").as_slice());
    let cleaned = trim_suffix_all_exec(a.as_slice(), chars("/").as_slice());
    proof {
        reveal_strlit("https://github.com/");
        reveal_strlit("git@github.com:");
    }
    if contains_str(cleaned.as_slice(), "github.com") {
        if starts_with_str(cleaned.as_slice(), "https://github.com/") {
            let path = slice_range(cleaned.as_slice(), 19, cleaned.len());
            assert(path@ =~= cleaned@.skip(19));
            match two_parts_exec(path.as_slice()) {
                Some(p) => {
                    return Some(p);
                },
                None => {},
            }
        }
        if starts_with_str(cleaned.as_slice(), "git@github.com:") {
            let path = slice_range(cleaned.as_slice(), 15, cleaned.len());
            assert(path@ =~= cleaned@.skip(15));
            match two_parts_exec(path.as_slice()) {
                Some(p) => {
                    return Some(p);
                },
                None => {},
            }
        }
    }
    let parts = split_char(cleaned.as_slice(), '/');
    if parts.len() == 2 && parts[0].len() > 0 && parts[1].len() > 0 {
        assert(views(parts@)[0] == parts@[0]@);
        assert(views(parts@)[1] == parts@[1]@);
        Some((from_chars(parts[0].as_slice()), from_chars(parts[1].as_slice())))
    } else {
        None
    }
}

/// The next page of a repository listing to fetch: none once a page came
/// back short of a hundred, or after the tenth page.
pub open spec fn next_page_of(page: u32, count: usize) -> Option<u32> {
    if count < 100 || page + 1 > 10 {
        None
    } else {
        Some((page + 1) as u32)
    }
}

/// The next page of a repository listing to fetch (see `next_page_of`).
pub fn next_page(page: u32, count: usize) -> (r: Option<u32>)
    requires
        page <= 10,
    ensures
        r == next_page_of(page, count),
{
    if count < 100 || page + 1 > 10 {
        None
    } else {
        Some(page + 1)
    }
}

/// The bytes that a base64 text (standard alphabet, padded) decodes to;
/// none when it is not valid base64.
pub uninterp spec fn base64_decoded(text: Seq<char>) -> Option<Seq<u8>>;

/// Decodes a base64 text.
///
/// Trusted: `base64::decode` (the standard engine). Success is named
/// `base64_decoded`; on failure the error's message is passed on, and
/// nothing is stated of that message.
#[verifier::external_body]
#[allow(deprecated)]
fn base64_decode(text: &str) -> (r: Result<Vec<u8>, String>)
    ensures
        match r {
            Ok(v) => base64_decoded(text@) == Some(v@),
            Err(_) => base64_decoded(text@) is None,
        },
{
    base64::decode(text).map_err(|e| e.to_string())
}

/// The text that bytes encode in UTF-8; none when they are not valid UTF-8.
pub uninterp spec fn utf8_decoded(bytes: Seq<u8>) -> Option<Seq<char>>;

/// Reads bytes as UTF-8 text.
///
/// Trusted: `String::from_utf8`, which the standard library documents to
/// succeed exactly on valid UTF-8. Its outcome is named `utf8_decoded`; on
/// failure the error's message is passed on, and nothing is stated of it.
#[verifier::external_body]
fn utf8_decode(bytes: Vec<u8>) -> (r: Result<String, String>)
    ensures
        match r {
            Ok(s) => utf8_decoded(bytes@) == Some(s@),
            Err(_) => utf8_decoded(bytes@) is None,
        },
{
    String::from_utf8(bytes).map_err(|e| e.to_string())
}

/// `s` without its newlines.
pub open spec fn without_newlines(s: Seq<char>) -> Seq<char>
    decreases s.len(),
{
    if s.len() == 0 {
        s
    } else if s.last() == '\n' {
        without_newlines(s.drop_last())
    } else {
        without_newlines(s.drop_last()).push(s.last())
    }
}

/// The text of a file as the contents API returns it: base64 (newlines
/// ignored) decoded to UTF-8 when so encoded, else as given. Refused when
/// it does not decode.
pub open spec fn file_text_of(content: Seq<char>, encoding: Seq<char>) -> Option<Seq<char>> {
    if encoding == "base64"@ {
        match base64_decoded(without_newlines(content)) {
            Some(bytes) => utf8_decoded(bytes),
            None => None,
        }
    } else {
        Some(content)
    }
}

/// The text of a file as the contents API returns it (see `file_text_of`).
pub fn decode_file_content(content: &str, encoding: &str) -> (r: Result<String, String>)
    ensures
        match file_text_of(content@, encoding@) {
            Some(t) => r matches Ok(s) && s@ == t,
            None => r is Err,
        },
{
    if !str_eq(encoding, "base64") {
        return Ok(content.to_owned());
    }
    let cv = chars(content);
    let mut v: Vec<char> = Vec::new();
    let mut i: usize = 0;
    assert(cv@.take(0) =~= Seq::<char>::empty());
    while i < cv.len()
        invariant
            i <= cv@.len(),
            v@ == without_newlines(cv@.take(i as int)),
        decreases cv@.len() - i,
    {
        assert(cv@.take(i + 1).drop_last() =~= cv@.take(i as int));
        if cv[i] != '\n' {
            v.push(cv[i]);
        }
        i = i + 1;
    }
    assert(cv@.take(cv@.len() as int) =~= cv@);
    let cleaned = from_chars(v.as_slice());
    match base64_decode(cleaned.as_str()) {
        Ok(bytes) => utf8_decode(bytes),
        Err(e) => Err(e),
    }
}

/// The address of a repository's API endpoint below `/repos/{owner}/{name}`.
pub open spec fn repo_api_url(owner: Seq<char>, repo: Seq<char>, rest: Seq<char>) -> Seq<char> {
    "https://api.github.com/repos/"@ + owner + "/"@ + repo + rest
}

/// The address of a repository's API endpoint below `/repos/{owner}/{name}`.
pub fn repo_api(owner: &str, repo: &str, rest: &str) -> (r: String)
    ensures
        r@ == repo_api_url(owner@, repo@, rest@),
{
    let mut v = chars("https://api.github.com/repos/");
    crate::text::append_str(&mut v, owner);
    crate::text::append_str(&mut v, "/");
    crate::text::append_str(&mut v, repo);
    crate::text::append_str(&mut v, rest);
    from_chars(v.as_slice())
}

} // verus!
