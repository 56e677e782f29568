//! Server settings: the values an administrator sets (domains, webhook
//! address) and the whitelist of e-mail addresses allowed to sign in.
use vstd::prelude::*;
use crate::text::{
    chars, contains_seq, contains_str, from_chars, is_ascii_seq, ascii_lower, lowercase, to_lowercase,
    trim, trim_seq, chars_eq,
};

verus! {

/// The webhook secret, as shown to the administrator.
#[derive(Debug, Clone)]
pub struct WebhookSecretResponse {
    pub webhook_secret: String,
}

/// A request to set the base domain.
#[derive(Debug, Clone)]
pub struct SetDomainRequest {
    pub domain: String,
}

/// The base domain setting.
#[derive(Debug, Clone)]
pub struct DomainResponse {
    pub configured: bool,
    pub domain: Option<String>,
}

/// A request to set the TCP domain.
#[derive(Debug, Clone)]
pub struct SetTcpDomainRequest {
    pub tcp_domain: String,
}

/// The TCP domain setting.
#[derive(Debug, Clone)]
pub struct TcpDomainResponse {
    pub configured: bool,
    pub tcp_domain: Option<String>,
}

/// A request to set the webhook address.
#[derive(Debug, Clone)]
pub struct SetWebhookUrlRequest {
    pub webhook_url: String,
}

/// The webhook address setting.
#[derive(Debug, Clone)]
pub struct WebhookUrlResponse {
    pub configured: bool,
    pub webhook_url: Option<String>,
}

/// A request to allow an e-mail address.
#[derive(Debug, Clone)]
pub struct AddEmailRequest {
    pub email: String,
}

/// A request to stop allowing an e-mail address.
#[derive(Debug, Clone)]
pub struct RemoveEmailRequest {
    pub email: String,
}

/// The whitelist, and whether it is in force.
#[derive(Debug, Clone)]
pub struct AllowedEmailsResponse {
    pub emails: Vec<String>,
    pub enabled: bool,
}

/// The server's address as clients reach it.
#[derive(Debug, Clone)]
pub struct ServerIpResponse {
    pub server_ip: String,
}

/// The texts of a vector of strings.
pub open spec fn texts(v: Seq<String>) -> Seq<Seq<char>> {
    v.map_values(|s: String| s@)
}

/// The value stored for a setting: the input trimmed, refused when nothing is left.
pub open spec fn setting_value_of(input: Seq<char>) -> Option<Seq<char>> {
    if trim_seq(input).len() == 0 {
        None
    } else {
        Some(trim_seq(input))
    }
}

/// The value stored for a setting (see `setting_value_of`).
pub fn setting_value(input: &str) -> (r: Option<String>)
    ensures
        match r {
            Some(v) => setting_value_of(input@) == Some(v@),
            None => setting_value_of(input@) is None,
        },
{
    let t = trim(chars(input).as_slice());
    if t.len() == 0 {
        None
    } else {
        Some(from_chars(t.as_slice()))
    }
}

/// The number of bytes of a text in UTF-8.
pub open spec fn utf8_len(s: Seq<char>) -> int
    decreases s.len(),
{
    if s.len() == 0 {
        0
    } else {
        utf8_len(s.drop_last()) + if (s.last() as u32) < 0x80 {
            1int
        } else if (s.last() as u32) < 0x800 {
            2
        } else if (s.last() as u32) < 0x10000 {
            3
        } else {
            4
        }
    }
}

/// Why a whitelist change is refused.
#[derive(Debug, Clone, Copy, PartialEq, Eq, Structural)]
pub enum WhitelistError {
    InvalidEmail,
    AlreadyAllowed,
    NotFound,
}

/// The message of a refused whitelist change.
pub open spec fn whitelist_error_text(e: WhitelistError) -> Seq<char> {
    match e {
        WhitelistError::InvalidEmail => "Invalid email format"@,
        WhitelistError::AlreadyAllowed => "Email already in whitelist"@,
        WhitelistError::NotFound => "Email not found in whitelist"@,
    }
}

impl WhitelistError {
    /// The message of the refusal.
    pub fn message(&self) -> (r: String)
        ensures
            r@ == whitelist_error_text(*self),
    {
        match self {
            WhitelistError::InvalidEmail => "Invalid email format".to_owned(),
            WhitelistError::AlreadyAllowed => "Email already in whitelist".to_owned(),
            WhitelistError::NotFound => "Email not found in whitelist".to_owned(),
        }
    }

    /// The status code of the refusal.
    pub fn status(&self) -> (r: u16)
        ensures
            r == match *self {
                WhitelistError::InvalidEmail => 400u16,
                WhitelistError::AlreadyAllowed => 409u16,
                WhitelistError::NotFound => 404u16,
            },
    {
        match self {
            WhitelistError::InvalidEmail => 400,
            WhitelistError::AlreadyAllowed => 409,
            WhitelistError::NotFound => 404,
        }
    }
}

/// The form an address is kept in: trimmed and lowercased.
pub open spec fn normalized_email(email: Seq<char>) -> Seq<char> {
    lowercase(trim_seq(email))
}

/// Some entry of the list is `email` once lowercased.
pub open spec fn listed(list: Seq<Seq<char>>, email_lower: Seq<char>) -> bool {
    exists|i: int| 0 <= i < list.len() && lowercase(#[trigger] list[i]) == email_lower
}

/// Whether an address may sign in: every address when the whitelist is
/// empty, else those it lists, compared without case.
pub open spec fn email_allowed(list: Seq<Seq<char>>, email: Seq<char>) -> bool {
    list.len() == 0 || listed(list, lowercase(email))
}

/// The whitelist after allowing `email`: its normalized form is added at the
/// end; refused when that is not an address (no `@`, or under five bytes)
/// or is already listed.
pub open spec fn whitelist_add(list: Seq<Seq<char>>, email: Seq<char>) -> Result<Seq<Seq<char>>, WhitelistError> {
    let e = normalized_email(email);
    if !contains_seq(e, "@"@) || utf8_len(e) < 5 {
        Err(WhitelistError::InvalidEmail)
    } else if listed(list, e) {
        Err(WhitelistError::AlreadyAllowed)
    } else {
        Ok(list.push(e))
    }
}

/// The entries of `list` that are not `email_lower` once lowercased, in order.
pub open spec fn without_email(list: Seq<Seq<char>>, email_lower: Seq<char>) -> Seq<Seq<char>>
    decreases list.len(),
{
    if list.len() == 0 {
        seq![]
    } else {
        let prev = without_email(list.drop_last(), email_lower);
        if lowercase(list.last()) == email_lower {
            prev
        } else {
            prev.push(list.last())
        }
    }
}

/// The whitelist after no longer allowing `email`: every entry equal to its
/// normalized form (without case) leaves; refused when none does.
pub open spec fn whitelist_remove(list: Seq<Seq<char>>, email: Seq<char>) -> Result<Seq<Seq<char>>, WhitelistError> {
    let kept = without_email(list, normalized_email(email));
    if kept.len() == list.len() {
        Err(WhitelistError::NotFound)
    } else {
        Ok(kept)
    }
}

/// The UTF-8 length of a text is at least that of any prefix.
proof fn lemma_utf8_len_prefix(s: Seq<char>, k: int)
    requires
        0 <= k <= s.len(),
    ensures
        utf8_len(s.take(k)) <= utf8_len(s),
    decreases s.len() - k,
{
    if k < s.len() {
        assert(s.take(k + 1).drop_last() =~= s.take(k));
        lemma_utf8_len_prefix(s, k + 1);
    } else {
        assert(s.take(k) =~= s);
    }
}

/// Whether a text takes fewer than five bytes in UTF-8.
fn utf8_shorter_than_five(s: &[char]) -> (r: bool)
    ensures
        r == (utf8_len(s@) < 5),
{
    let mut n: usize = 0;
    let mut i: usize = 0;
    assert(s@.take(0) =~= Seq::<char>::empty());
    while i < s.len()
        invariant
            i <= s@.len(),
            n == utf8_len(s@.take(i as int)),
            n < 5,
        decreases s@.len() - i,
    {
        assert(s@.take(i + 1).drop_last() =~= s@.take(i as int));
        let c = s[i] as u32;
        if c < 0x80 {
            n = n + 1;
        } else if c < 0x800 {
            n = n + 2;
        } else if c < 0x10000 {
            n = n + 3;
        } else {
            n = n + 4;
        }
        i = i + 1;
        if n >= 5 {
            proof {
                lemma_utf8_len_prefix(s@, i as int);
            }
            return false;
        }
    }
    assert(s@.take(s@.len() as int) =~= s@);
    true
}

/// Whether some entry of the list is `email_lower` once lowercased.
fn is_listed(list: &Vec<String>, email_lower: &[char]) -> (r: bool)
    ensures
        r == listed(texts(list@), email_lower@),
{
    let ghost ls = texts(list@);
    let mut i: usize = 0;
    while i < list.len()
        invariant
            i <= list@.len(),
            ls == texts(list@),
            forall|j: int| 0 <= j < i ==> lowercase(#[trigger] ls[j]) != email_lower@,
        decreases list@.len() - i,
    {
        let l = to_lowercase(chars(list[i].as_str()).as_slice());
        assert(ls[i as int] == list@[i as int]@);
        if chars_eq(l.as_slice(), email_lower) {
            return true;
        }
        i = i + 1;
    }
    false
}

/// The e-mail whitelist.
pub struct EmailWhitelist;

impl EmailWhitelist {
    /// Whether an address may sign in (see `email_allowed`).
    pub fn is_email_allowed(list: &Vec<String>, email: &str) -> (r: bool)
        ensures
            r == email_allowed(texts(list@), email@),
    {
        if list.len() == 0 {
            return true;
        }
        let l = to_lowercase(chars(email).as_slice());
        is_listed(list, l.as_slice())
    }

    /// Allows an address (see `whitelist_add`).
    pub fn add_allowed_email(list: &Vec<String>, email: &str) -> (r: Result<Vec<String>, WhitelistError>)
        ensures
            match whitelist_add(texts(list@), email@) {
                Ok(l) => r matches Ok(x) && texts(x@) == l,
                Err(e) => r == Err::<Vec<String>, WhitelistError>(e),
            },
    {
        let t = trim(chars(email).as_slice());
        let e = to_lowercase(t.as_slice());
        if !contains_str(e.as_slice(), "@") || utf8_shorter_than_five(e.as_slice()) {
            return Err(WhitelistError::InvalidEmail);
        }
        if is_listed(list, e.as_slice()) {
            return Err(WhitelistError::AlreadyAllowed);
        }
        let mut out: Vec<String> = Vec::new();
        let mut i: usize = 0;
        while i < list.len()
            invariant
                i <= list@.len(),
                texts(out@) == texts(list@).take(i as int),
            decreases list@.len() - i,
        {
            let ghost before = texts(out@);
            out.push(list[i].clone());
            assert(texts(out@) =~= before.push(list@[i as int]@));
            assert(texts(list@).take(i + 1) =~= texts(list@).take(i as int).push(list@[i as int]@));
            i = i + 1;
        }
        let ghost before = texts(out@);
        out.push(from_chars(e.as_slice()));
        assert(texts(list@).take(list@.len() as int) =~= texts(list@));
        assert(texts(out@) =~= before.push(e@));
        Ok(out)
    }

    /// No longer allows an address (see `whitelist_remove`).
    pub fn remove_allowed_email(list: &Vec<String>, email: &str) -> (r: Result<Vec<String>, WhitelistError>)
        ensures
            match whitelist_remove(texts(list@), email@) {
                Ok(l) => r matches Ok(x) && texts(x@) == l,
                Err(e) => r == Err::<Vec<String>, WhitelistError>(e),
            },
    {
        let t = trim(chars(email).as_slice());
        let e = to_lowercase(t.as_slice());
        let mut out: Vec<String> = Vec::new();
        let mut i: usize = 0;
        assert(texts(list@).take(0) =~= Seq::<Seq<char>>::empty());
        while i < list.len()
            invariant
                i <= list@.len(),
                texts(out@) == without_email(texts(list@).take(i as int), e@),
            decreases list@.len() - i,
        {
            assert(texts(list@).take(i + 1).drop_last() =~= texts(list@).take(i as int));
            assert(texts(list@).take(i + 1).last() == list@[i as int]@);
            let l = to_lowercase(chars(list[i].as_str()).as_slice());
            if !chars_eq(l.as_slice(), e.as_slice()) {
                let ghost before = texts(out@);
                out.push(list[i].clone());
                assert(texts(out@) =~= before.push(list@[i as int]@));
            }
            i = i + 1;
        }
        assert(texts(list@).take(list@.len() as int) =~= texts(list@));
        if out.len() == list.len() {
            Err(WhitelistError::NotFound)
        } else {
            Ok(out)
        }
    }
}


/// An empty whitelist lets every address sign in.
pub proof fn law_empty_whitelist_allows_all(email: Seq<char>)
    ensures
        email_allowed(seq![], email),
{
}

/// A list with no entry equal to `e` (without case) keeps all its entries.
proof fn lemma_without_absent(list: Seq<Seq<char>>, e: Seq<char>)
    requires
        !listed(list, e),
    ensures
        without_email(list, e) == list,
    decreases list.len(),
{
    if list.len() > 0 {
        assert(!listed(list.drop_last(), e)) by {
            if listed(list.drop_last(), e) {
                let i = choose|i: int| 0 <= i < list.drop_last().len() && lowercase(#[trigger] list.drop_last()[i]) == e;
                assert(list[i] == list.drop_last()[i]);
            }
        }
        lemma_without_absent(list.drop_last(), e);
        assert(lowercase(list[list.len() - 1]) != e);
        assert(list.drop_last().push(list.last()) =~= list);
    }
}

/// Once an address is added, it is allowed in the form the whitelist keeps
/// (trimmed and lowercased, that form being its own lowercase).
pub proof fn law_added_email_allowed(list: Seq<Seq<char>>, email: Seq<char>)
    requires
        whitelist_add(list, email) is Ok,
        lowercase(normalized_email(email)) == normalized_email(email),
    ensures
        email_allowed(whitelist_add(list, email)->Ok_0, normalized_email(email)),
{
    let l2 = whitelist_add(list, email)->Ok_0;
    assert(l2[l2.len() - 1] == normalized_email(email));
}

/// Removing an address just added gives the whitelist back as it was
/// (the address kept being its own lowercase).
pub proof fn law_add_then_remove(list: Seq<Seq<char>>, email: Seq<char>)
    requires
        whitelist_add(list, email) is Ok,
        lowercase(normalized_email(email)) == normalized_email(email),
    ensures
        whitelist_remove(whitelist_add(list, email)->Ok_0, email) == Ok::<Seq<Seq<char>>, WhitelistError>(
            list,
        ),
{
    let e = normalized_email(email);
    let l2 = list.push(e);
    lemma_without_absent(list, e);
    assert(l2.drop_last() =~= list);
    assert(without_email(l2, e) == list);
}

} // verus!
