use vstd::prelude::*;

verus! {

/// Index of the first `'@'` in `s`, or `s.len()` when there is none.
pub open spec fn first_at(s: Seq<char>) -> nat
    decreases s.len(),
{
    if s.len() == 0 {
        0
    } else if s[0] == '@' {
        0
    } else {
        1 + first_at(s.drop_first())
    }
}

/// Index just after the last `'@'` in `s`, or `0` when there is none.
pub open spec fn after_last_at(s: Seq<char>) -> nat
    decreases s.len(),
{
    if s.len() == 0 {
        0
    } else if s.last() == '@' {
        s.len()
    } else {
        after_last_at(s.drop_last())
    }
}

/// No character of `s` is an `'@'`.
pub open spec fn at_free(s: Seq<char>) -> bool {
    forall|i: int| 0 <= i < s.len() ==> s[i] != '@'
}

/// The part of an address before its first `'@'` (the whole text when
/// there is no `'@'`): what `split('@').next()` gives.
pub open spec fn local_part(s: Seq<char>) -> Seq<char> {
    s.take(first_at(s) as int)
}

/// The part of an address after its last `'@'` (the whole text when
/// there is no `'@'`): what `split('@').last()` gives.
pub open spec fn domain_part(s: Seq<char>) -> Seq<char> {
    s.skip(after_last_at(s) as int)
}

/// `s` holds exactly one `'@'`.
pub open spec fn has_single_at(s: Seq<char>) -> bool {
    &&& first_at(s) < s.len()
    &&& forall|i: int| 0 <= i < s.len() && i != first_at(s) ==> s[i] != '@'
}

/// The user name that an autoconfig `username` template asks for, for the
/// address `email`; `None` for a template this client does not support.
pub open spec fn username_for(template: Seq<char>, email: Seq<char>) -> Option<Seq<char>> {
    if template == "%EMAILADDRESS%"@ {
        Some(email)
    } else if template == "%EMAILLOCALPART%"@ {
        Some(local_part(email))
    } else if template == "%EMAILDOMAIN%"@ {
        Some(domain_part(email))
    } else {
        None
    }
}

/// The initial response of the SASL `PLAIN` mechanism with an empty
/// authorization identity: NUL, the user, NUL, the password.
pub open spec fn plain_response(user: Seq<char>, password: Seq<char>) -> Seq<char> {
    seq!['\0'] + user + seq!['\0'] + password
}

/// `s` holds no NUL character.
pub open spec fn nul_free(s: Seq<char>) -> bool {
    forall|i: int| 0 <= i < s.len() ==> s[i] != '\0'
}

/// `first_at` is the first position that holds an `'@'`.
pub proof fn lemma_first_at_is(s: Seq<char>, k: int)
    requires
        0 <= k <= s.len(),
        forall|j: int| 0 <= j < k ==> s[j] != '@',
        k < s.len() ==> s[k] == '@',
    ensures
        first_at(s) == k,
    decreases k,
{
    if k > 0 {
        let t = s.drop_first();
        assert forall|j: int| 0 <= j < k - 1 implies t[j] != '@' by {
            assert(t[j] == s[j + 1]);
        }
        if k - 1 < t.len() {
            assert(t[k - 1] == s[k]);
        }
        lemma_first_at_is(t, k - 1);
    }
}

/// What `first_at` gives: a position within the text, with no `'@'`
/// before it and an `'@'` at it unless it is the end.
pub proof fn lemma_first_at_props(s: Seq<char>)
    ensures
        first_at(s) <= s.len(),
        forall|j: int| 0 <= j < first_at(s) ==> s[j] != '@',
        first_at(s) < s.len() ==> s[first_at(s) as int] == '@',
    decreases s.len(),
{
    if s.len() > 0 && s[0] != '@' {
        let t = s.drop_first();
        lemma_first_at_props(t);
        assert forall|j: int| 0 <= j < first_at(s) implies s[j] != '@' by {
            if j > 0 {
                assert(s[j] == t[j - 1]);
            }
        }
        if first_at(s) < s.len() {
            assert(s[first_at(s) as int] == t[first_at(t) as int]);
        }
    }
}

/// `after_last_at` is the position after the last `'@'`.
pub proof fn lemma_after_last_at_is(s: Seq<char>, k: int)
    requires
        0 <= k <= s.len(),
        forall|j: int| k <= j < s.len() ==> s[j] != '@',
        k > 0 ==> s[k - 1] == '@',
    ensures
        after_last_at(s) == k,
    decreases s.len(),
{
    if s.len() > 0 && k < s.len() {
        let t = s.drop_last();
        assert forall|j: int| k <= j < t.len() implies t[j] != '@' by {
            assert(t[j] == s[j]);
        }
        if k > 0 {
            assert(t[k - 1] == s[k - 1]);
        }
        lemma_after_last_at_is(t, k);
    }
}

/// What `after_last_at` gives: a position within the text, with no `'@'`
/// from it on and an `'@'` just before it unless it is the start.
pub proof fn lemma_after_last_at_props(s: Seq<char>)
    ensures
        after_last_at(s) <= s.len(),
        forall|j: int| after_last_at(s) <= j < s.len() ==> s[j] != '@',
        after_last_at(s) > 0 ==> s[after_last_at(s) - 1] == '@',
    decreases s.len(),
{
    if s.len() > 0 && s.last() != '@' {
        let t = s.drop_last();
        lemma_after_last_at_props(t);
        assert forall|j: int| after_last_at(s) <= j < s.len() implies s[j] != '@' by {
            if j < t.len() {
                assert(s[j] == t[j]);
            }
        }
        if after_last_at(s) > 0 {
            assert(s[after_last_at(s) - 1] == t[after_last_at(t) - 1]);
        }
    }
}

/// Neither part of an address holds an `'@'`, and an address without any
/// `'@'` is its own local part and its own domain part.
pub proof fn lemma_parts_at_free(s: Seq<char>)
    ensures
        at_free(local_part(s)),
        at_free(domain_part(s)),
        at_free(s) ==> local_part(s) == s && domain_part(s) == s,
{
    lemma_first_at_props(s);
    lemma_after_last_at_props(s);
    if at_free(s) {
        lemma_first_at_is(s, s.len() as int);
        lemma_after_last_at_is(s, 0);
        assert(local_part(s) =~= s);
        assert(domain_part(s) =~= s);
    }
}

/// An address with a single `'@'` is its local part, the `'@'` and its
/// domain part, in this order.
pub proof fn lemma_single_at_split(s: Seq<char>)
    requires
        has_single_at(s),
    ensures
        local_part(s) + seq!['@'] + domain_part(s) == s,
{
    lemma_first_at_props(s);
    let k = first_at(s) as int;
    lemma_after_last_at_is(s, k + 1);
    assert(local_part(s) + seq!['@'] + domain_part(s) =~= s);
}

/// Different credentials without NUL characters give different `PLAIN`
/// responses, so the server reads back the user and password that were meant.
pub proof fn lemma_plain_response_injective(u1: Seq<char>, p1: Seq<char>, u2: Seq<char>, p2: Seq<char>)
    requires
        nul_free(u1),
        nul_free(u2),
        plain_response(u1, p1) == plain_response(u2, p2),
    ensures
        u1 == u2,
        p1 == p2,
{
    let r1 = plain_response(u1, p1);
    let r2 = plain_response(u2, p2);
    assert(r1[u1.len() as int + 1] == '\0');
    assert(r2[u2.len() as int + 1] == '\0');
    if u1.len() < u2.len() {
        assert(r2[u1.len() as int + 1] == u2[u1.len() as int]);
        assert(false);
    }
    if u2.len() < u1.len() {
        assert(r1[u2.len() as int + 1] == u1[u2.len() as int]);
        assert(false);
    }
    assert forall|i: int| 0 <= i < u1.len() implies u1[i] == u2[i] by {
        assert(r1[i + 1] == u1[i]);
        assert(r2[i + 1] == u2[i]);
    }
    assert(u1 =~= u2);
    assert(r1.len() == r2.len());
    assert forall|i: int| 0 <= i < p1.len() implies p1[i] == p2[i] by {
        assert(r1[u1.len() as int + 2 + i] == p1[i]);
        assert(r2[u2.len() as int + 2 + i] == p2[i]);
    }
    assert(p1 =~= p2);
}

/// `u` is the text of `s` before its first `'@'`: a beginning of `s` with no
/// `'@'` in it, followed by an `'@'` or by the end of `s`.
pub open spec fn is_text_before_first_at(u: Seq<char>, s: Seq<char>) -> bool {
    &&& u.len() <= s.len()
    &&& u == s.take(u.len() as int)
    &&& at_free(u)
    &&& (u.len() == s.len() || s[u.len() as int] == '@')
}

/// `d` is the text of `s` after its last `'@'`: an end of `s` with no `'@'`
/// in it, preceded by an `'@'` or by the start of `s`.
pub open spec fn is_text_after_last_at(d: Seq<char>, s: Seq<char>) -> bool {
    &&& d.len() <= s.len()
    &&& d == s.skip(s.len() - d.len())
    &&& at_free(d)
    &&& (d.len() == s.len() || s[s.len() - d.len() - 1] == '@')
}

/// The local part of an address is all of the text before its first `'@'`,
/// dots and every other character included.
pub proof fn lemma_local_part_is_text_before_first_at(s: Seq<char>)
    ensures
        is_text_before_first_at(local_part(s), s),
{
    lemma_first_at_props(s);
    let u = local_part(s);
    assert(u =~= s.take(u.len() as int));
}

/// The domain part of an address is all of the text after its last `'@'`,
/// every label included.
pub proof fn lemma_domain_part_is_text_after_last_at(s: Seq<char>)
    ensures
        is_text_after_last_at(domain_part(s), s),
{
    lemma_after_last_at_props(s);
    let d = domain_part(s);
    assert(d =~= s.skip(s.len() - d.len()));
}

/// The user name of each supported template: `%EMAILADDRESS%` is the whole
/// address, `%EMAILLOCALPART%` all of the text before the first `'@'`,
/// `%EMAILDOMAIN%` all of the text after the last `'@'`.
pub proof fn lemma_username_templates(e: Seq<char>)
    ensures
        username_for("%EMAILADDRESS%"@, e) == Some(e),
        username_for("%EMAILLOCALPART%"@, e) matches Some(u) && is_text_before_first_at(u, e),
        username_for("%EMAILDOMAIN%"@, e) matches Some(d) && is_text_after_last_at(d, e),
{
    reveal_strlit("%EMAILADDRESS%");
    reveal_strlit("%EMAILLOCALPART%");
    reveal_strlit("%EMAILDOMAIN%");
    assert("%EMAILLOCALPART%"@[6] != "%EMAILADDRESS%"@[6]);
    assert("%EMAILDOMAIN%"@.len() != "%EMAILADDRESS%"@.len());
    assert("%EMAILDOMAIN%"@.len() != "%EMAILLOCALPART%"@.len());
    lemma_local_part_is_text_before_first_at(e);
    lemma_domain_part_is_text_after_last_at(e);
}

/// For an address with a single `'@'`, the `%EMAILLOCALPART%` user name,
/// an `'@'` and the `%EMAILDOMAIN%` user name give back the address.
pub proof fn lemma_username_parts_rebuild_address(e: Seq<char>)
    requires
        has_single_at(e),
    ensures
        username_for("%EMAILLOCALPART%"@, e) matches Some(u) && username_for("%EMAILDOMAIN%"@, e)
            matches Some(d) && u + seq!['@'] + d == e,
{
    reveal_strlit("%EMAILADDRESS%");
    reveal_strlit("%EMAILLOCALPART%");
    reveal_strlit("%EMAILDOMAIN%");
    assert("%EMAILLOCALPART%"@[6] != "%EMAILADDRESS%"@[6]);
    assert("%EMAILDOMAIN%"@.len() != "%EMAILADDRESS%"@.len());
    assert("%EMAILDOMAIN%"@.len() != "%EMAILLOCALPART%"@.len());
    lemma_single_at_split(e);
}

/// Any template other than the three supported ones names no user.
pub proof fn lemma_username_other_templates(t: Seq<char>, e: Seq<char>)
    requires
        t != "%EMAILADDRESS%"@,
        t != "%EMAILLOCALPART%"@,
        t != "%EMAILDOMAIN%"@,
    ensures
        username_for(t, e) is None,
{
}

/// The `PLAIN` response is a NUL, the whole user, a NUL and the whole
/// password, and nothing else.
pub proof fn lemma_plain_response_layout(u: Seq<char>, p: Seq<char>)
    ensures
        plain_response(u, p).len() == u.len() + p.len() + 2,
        plain_response(u, p)[0] == '\0',
        plain_response(u, p).subrange(1, u.len() as int + 1) == u,
        plain_response(u, p)[u.len() as int + 1] == '\0',
        plain_response(u, p).skip(u.len() as int + 2) == p,
{
    let r = plain_response(u, p);
    assert(r.subrange(1, u.len() as int + 1) =~= u);
    assert(r.skip(u.len() as int + 2) =~= p);
}

/// Position of the first `'@'` in `s`, or its length in characters.
fn find_first_at(s: &str) -> (k: usize)
    ensures
        k == first_at(s@),
{
    let n = s.unicode_len();
    let mut i: usize = 0;
    while i < n
        invariant
            n == s@.len(),
            i <= n,
            forall|j: int| 0 <= j < i ==> s@[j] != '@',
        decreases n - i,
    {
        if s.get_char(i) == '@' {
            proof {
                lemma_first_at_is(s@, i as int);
            }
            return i;
        }
        i = i + 1;
    }
    proof {
        lemma_first_at_is(s@, i as int);
    }
    i
}

/// Position after the last `'@'` in `s`, or `0`.
fn find_after_last_at(s: &str) -> (k: usize)
    ensures
        k == after_last_at(s@),
{
    let n = s.unicode_len();
    let mut i: usize = n;
    while i > 0
        invariant
            n == s@.len(),
            i <= n,
            forall|j: int| i <= j < n ==> s@[j] != '@',
        decreases i,
    {
        if s.get_char(i - 1) == '@' {
            proof {
                lemma_after_last_at_is(s@, i as int);
            }
            return i;
        }
        i = i - 1;
    }
    proof {
        lemma_after_last_at_is(s@, 0);
    }
    i
}

/// The part of `email` before its first `'@'`, as `split('@').next()` gives it.
pub fn email_local_part(email: &str) -> (r: String)
    ensures
        r@ == local_part(email@),
{
    let k = find_first_at(email);
    proof {
        lemma_first_at_props(email@);
    }
    String::from_str(email.substring_char(0, k))
}

/// The part of `email` after its last `'@'`, as `split('@').last()` gives
/// it: the server that the address belongs to.
pub fn email_domain(email: &str) -> (r: String)
    ensures
        r@ == domain_part(email@),
{
    let k = find_after_last_at(email);
    proof {
        lemma_after_last_at_props(email@);
    }
    let n = email.unicode_len();
    let r = String::from_str(email.substring_char(k, n));
    assert(r@ =~= domain_part(email@));
    r
}

/// Whether two texts are equal, character by character.
fn str_equal(a: &str, b: &str) -> (r: bool)
    ensures
        r == (a@ == b@),
{
    let n = a.unicode_len();
    if n != b.unicode_len() {
        return false;
    }
    let mut i: usize = 0;
    while i < n
        invariant
            n == a@.len(),
            n == b@.len(),
            i <= n,
            forall|j: int| 0 <= j < i ==> a@[j] == b@[j],
        decreases n - i,
    {
        if a.get_char(i) != b.get_char(i) {
            return false;
        }
        i = i + 1;
    }
    assert(a@ =~= b@);
    true
}

/// The user name to log in with, from the autoconfig `username` template
/// and the address: `%EMAILADDRESS%` is the whole address,
/// `%EMAILLOCALPART%` the part before the `'@'`, `%EMAILDOMAIN%` the part
/// after it; any other template is not supported and gives `None`.
pub fn resolve_username(template: &str, email: &str) -> (r: Option<String>)
    ensures
        match r {
            Some(u) => username_for(template@, email@) == Some(u@),
            None => username_for(template@, email@) is None,
        },
{
    if str_equal(template, "%EMAILADDRESS%") {
        Some(String::from_str(email))
    } else if str_equal(template, "%EMAILLOCALPART%") {
        Some(email_local_part(email))
    } else if str_equal(template, "%EMAILDOMAIN%") {
        Some(email_domain(email))
    } else {
        None
    }
}

/// The `PLAIN` response for `user` and `password`: `"\0{user}\0{password}"`.
pub fn plain_auth_response(user: &str, password: &str) -> (r: String)
    ensures
        r@ == plain_response(user@, password@),
{
    proof {
        reveal_strlit("\0");
    }
    let mut r = String::from_str("\0");
    r.append(user);
    r.append("\0");
    r.append(password);
    assert(r@ =~= plain_response(user@, password@));
    r
}

} // verus!
