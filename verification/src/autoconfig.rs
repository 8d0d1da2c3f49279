use vstd::prelude::*;

verus! {

/// The `<documentation>` element of an autoconfig file.
pub struct DocumentationXML {
    pub url: String,
}

/// An `<incomingServer>` element of an autoconfig file.
pub struct IncomingServerXML {
    pub servertype: String,
    pub hostname: String,
    pub port: String,
    pub socket_type: String,
    pub authentication: String,
    pub username: String,
}

/// An `<outgoingServer>` element of an autoconfig file.
pub struct OutgoingServerXML {
    pub servertype: String,
    pub hostname: String,
    pub port: String,
    pub socket_type: String,
    pub authentication: String,
    pub username: String,
}

/// The `<emailProvider>` element of an autoconfig file.
pub struct EmailProviderXML {
    pub id: String,
    pub domains: Vec<String>,
    pub display_name: String,
    pub display_short_name: String,
    pub documentation: Option<DocumentationXML>,
    pub incoming_servers: Vec<IncomingServerXML>,
    pub outgoing_servers: Vec<OutgoingServerXML>,
}

/// A Thunderbird autoconfig file (`config-v1.1.xml`).
pub struct AutoconfigXML {
    pub version: String,
    pub email_provider: EmailProviderXML,
}

/// What the login reads of an incoming server.
pub struct IncomingServerView {
    pub servertype: Seq<char>,
    pub hostname: Seq<char>,
    pub port: Seq<char>,
    pub socket_type: Seq<char>,
    pub authentication: Seq<char>,
    pub username: Seq<char>,
}

impl View for IncomingServerXML {
    type V = IncomingServerView;

    open spec fn view(&self) -> IncomingServerView {
        IncomingServerView {
            servertype: self.servertype@,
            hostname: self.hostname@,
            port: self.port@,
            socket_type: self.socket_type@,
            authentication: self.authentication@,
            username: self.username@,
        }
    }
}

/// The incoming servers of a list, each by its view.
pub open spec fn servers_view(v: Seq<IncomingServerXML>) -> Seq<IncomingServerView> {
    v.map_values(|s: IncomingServerXML| s@)
}

/// The incoming servers that an autoconfig file lists, in file order.
pub open spec fn config_servers(c: AutoconfigXML) -> Seq<IncomingServerView> {
    servers_view(c.email_provider.incoming_servers@)
}

/// Where the login asks first for the autoconfig file of `server`:
/// `https://autoconfig.{server}/mail/config-v1.1.xml?emailaddress={email}`.
pub open spec fn autoconfig_url(server: Seq<char>, email: Seq<char>) -> Seq<char> {
    "https://autoconfig."@ + server + "/mail/config-v1.1.xml?emailaddress="@ + email
}

/// Where the login asks when the first place fails:
/// `https://{server}/.well-known/autoconfig/mail/config-v1.1.xml`.
pub open spec fn wellknown_url(server: Seq<char>) -> Seq<char> {
    "https://"@ + server + "/.well-known/autoconfig/mail/config-v1.1.xml"@
}

/// The HTTP status that an autoconfig answer must have to be read.
pub open spec fn status_ok(status: u16) -> bool {
    status == 200
}

/// Index of the first incoming server whose socket type is `SSL`, or the
/// number of servers when there is none.
pub open spec fn first_ssl(s: Seq<IncomingServerView>) -> nat
    decreases s.len(),
{
    if s.len() == 0 {
        0
    } else if s[0].socket_type == "SSL"@ {
        0
    } else {
        1 + first_ssl(s.drop_first())
    }
}

/// The incoming server that the login uses: the first one with socket type
/// `SSL`, by its index.
pub open spec fn ssl_server_index(s: Seq<IncomingServerView>) -> Option<int> {
    if first_ssl(s) < s.len() {
        Some(first_ssl(s) as int)
    } else {
        None
    }
}

/// `first_ssl` is the first position of a server with socket type `SSL`.
pub proof fn lemma_first_ssl_is(s: Seq<IncomingServerView>, k: int)
    requires
        0 <= k <= s.len(),
        forall|j: int| 0 <= j < k ==> s[j].socket_type != "SSL"@,
        k < s.len() ==> s[k].socket_type == "SSL"@,
    ensures
        first_ssl(s) == k,
    decreases k,
{
    if k > 0 {
        let t = s.drop_first();
        assert forall|j: int| 0 <= j < k - 1 implies t[j].socket_type != "SSL"@ by {
            assert(t[j] == s[j + 1]);
        }
        if k - 1 < t.len() {
            assert(t[k - 1] == s[k]);
        }
        lemma_first_ssl_is(t, k - 1);
    }
}

/// What `first_ssl` gives: no `SSL` server before it, one at it unless it
/// is the end.
pub proof fn lemma_first_ssl_props(s: Seq<IncomingServerView>)
    ensures
        first_ssl(s) <= s.len(),
        forall|j: int| 0 <= j < first_ssl(s) ==> s[j].socket_type != "SSL"@,
        first_ssl(s) < s.len() ==> s[first_ssl(s) as int].socket_type == "SSL"@,
    decreases s.len(),
{
    if s.len() > 0 && s[0].socket_type != "SSL"@ {
        let t = s.drop_first();
        lemma_first_ssl_props(t);
        assert forall|j: int| 0 <= j < first_ssl(s) implies s[j].socket_type != "SSL"@ by {
            if j > 0 {
                assert(s[j] == t[j - 1]);
            }
        }
        if first_ssl(s) < s.len() {
            assert(s[first_ssl(s) as int] == t[first_ssl(t) as int]);
        }
    }
}

/// The first autoconfig address is `https://autoconfig.`, then the whole
/// server name, then `/mail/config-v1.1.xml?emailaddress=`, then the whole
/// address, and nothing else; no label of the server name is dropped.
pub proof fn lemma_autoconfig_url_layout(server: Seq<char>, email: Seq<char>)
    ensures
        ({
            let u = autoconfig_url(server, email);
            let p = "https://autoconfig."@;
            let m = "/mail/config-v1.1.xml?emailaddress="@;
            let a: int = p.len() as int;
            let b: int = a + server.len();
            let c: int = b + m.len();
            &&& u.len() == c + email.len()
            &&& u.take(a) == p
            &&& u.subrange(a, b) == server
            &&& u.subrange(b, c) == m
            &&& u.skip(c) == email
        }),
{
    let u = autoconfig_url(server, email);
    let p = "https://autoconfig."@;
    let m = "/mail/config-v1.1.xml?emailaddress="@;
    let a: int = p.len() as int;
    let b: int = a + server.len();
    let c: int = b + m.len();
    assert(u.take(a) =~= p);
    assert(u.subrange(a, b) =~= server);
    assert(u.subrange(b, c) =~= m);
    assert(u.skip(c) =~= email);
}

/// The well-known address is `https://`, then the whole server name, then
/// `/.well-known/autoconfig/mail/config-v1.1.xml`, and nothing else; no
/// label of the server name is dropped.
pub proof fn lemma_wellknown_url_layout(server: Seq<char>)
    ensures
        ({
            let u = wellknown_url(server);
            let p = "https://"@;
            let m = "/.well-known/autoconfig/mail/config-v1.1.xml"@;
            let a: int = p.len() as int;
            let b: int = a + server.len();
            &&& u.len() == b + m.len()
            &&& u.take(a) == p
            &&& u.subrange(a, b) == server
            &&& u.skip(b) == m
        }),
{
    let u = wellknown_url(server);
    let p = "https://"@;
    let m = "/.well-known/autoconfig/mail/config-v1.1.xml"@;
    let a: int = p.len() as int;
    let b: int = a + server.len();
    assert(u.take(a) =~= p);
    assert(u.subrange(a, b) =~= server);
    assert(u.skip(b) =~= m);
}

/// Two servers get the same address only when they are the same server,
/// whichever of the two addresses is asked.
pub proof fn lemma_urls_tell_servers_apart(s1: Seq<char>, s2: Seq<char>, e: Seq<char>)
    ensures
        wellknown_url(s1) == wellknown_url(s2) ==> s1 == s2,
        autoconfig_url(s1, e) == autoconfig_url(s2, e) ==> s1 == s2,
{
    lemma_wellknown_url_layout(s1);
    lemma_wellknown_url_layout(s2);
    lemma_autoconfig_url_layout(s1, e);
    lemma_autoconfig_url_layout(s2, e);
}

/// The autoconfig address to ask first for `server`, on behalf of `email`.
pub fn autoconfig_url_for(server: &str, email: &str) -> (r: String)
    ensures
        r@ == autoconfig_url(server@, email@),
{
    let mut r = String::from_str("https://autoconfig.");
    r.append(server);
    r.append("/mail/config-v1.1.xml?emailaddress=");
    r.append(email);
    r
}

/// The well-known autoconfig address of `server`.
pub fn wellknown_url_for(server: &str) -> (r: String)
    ensures
        r@ == wellknown_url(server@),
{
    let mut r = String::from_str("https://");
    r.append(server);
    r.append("/.well-known/autoconfig/mail/config-v1.1.xml");
    r
}

/// The index of the first incoming server with socket type `SSL`, if any.
pub fn find_ssl_incoming_server(servers: &Vec<IncomingServerXML>) -> (r: Option<usize>)
    ensures
        match r {
            Some(i) => ssl_server_index(servers_view(servers@)) == Some(i as int),
            None => ssl_server_index(servers_view(servers@)) is None,
        },
{
    let ghost sv = servers_view(servers@);
    let ssl = String::from_str("SSL");
    let mut i: usize = 0;
    while i < servers.len()
        invariant
            sv == servers_view(servers@),
            sv.len() == servers@.len(),
            ssl@ == "SSL"@,
            i <= servers.len(),
            forall|j: int| 0 <= j < i ==> sv[j].socket_type != "SSL"@,
        decreases servers.len() - i,
    {
        if servers[i].socket_type == ssl {
            proof {
                assert(sv[i as int] == servers@[i as int]@);
                lemma_first_ssl_is(sv, i as int);
            }
            return Some(i);
        }
        assert(sv[i as int] == servers@[i as int]@);
        i = i + 1;
    }
    proof {
        lemma_first_ssl_is(sv, i as int);
    }
    None
}

/// The value of a sequence of decimal digits.
pub open spec fn digits_value(s: Seq<char>) -> nat
    decreases s.len(),
{
    if s.len() == 0 {
        0
    } else {
        digits_value(s.drop_last()) * 10 + ((s.last() as nat) - ('0' as nat)) as nat
    }
}

/// Every character of `s` is an ASCII decimal digit.
pub open spec fn all_digits(s: Seq<char>) -> bool {
    forall|i: int| 0 <= i < s.len() ==> '0' <= #[trigger] s[i] <= '9'
}

/// The digits of a port text: the text without a leading `'+'`.
pub open spec fn port_digits(s: Seq<char>) -> Seq<char> {
    if s.len() > 0 && s[0] == '+' {
        s.drop_first()
    } else {
        s
    }
}

/// The port that a text names, as `str::parse::<u16>` reads it: an
/// optional `'+'`, then one or more decimal digits whose value fits in 16
/// bits; `None` for any other text.
pub open spec fn port_value(s: Seq<char>) -> Option<u16> {
    let d = port_digits(s);
    if d.len() > 0 && all_digits(d) && digits_value(d) <= 65535 {
        Some(digits_value(d) as u16)
    } else {
        None
    }
}

/// A longer run of digits is worth at least as much as its prefix.
pub proof fn lemma_digits_value_prefix(s: Seq<char>, i: int)
    requires
        0 <= i <= s.len(),
        all_digits(s),
    ensures
        digits_value(s.take(i)) <= digits_value(s),
    decreases s.len() - i,
{
    if i < s.len() {
        lemma_digits_value_prefix(s, i + 1);
        let t = s.take(i + 1);
        assert(t.drop_last() =~= s.take(i));
        assert('0' <= s[i] <= '9');
        assert(digits_value(t) == digits_value(s.take(i)) * 10 + ((t.last() as nat) - ('0' as nat)) as nat);
    } else {
        assert(s.take(i) =~= s);
    }
}

/// The port named by `s`, read as `str::parse::<u16>` reads it.
pub fn parse_port(s: &str) -> (r: Option<u16>)
    ensures
        r == port_value(s@),
{
    let n = s.unicode_len();
    let mut start: usize = 0;
    if n > 0 && s.get_char(0) == '+' {
        start = 1;
    }
    let ghost d = port_digits(s@);
    assert(d =~= s@.skip(start as int));
    if start == n {
        return None;
    }
    let mut value: u32 = 0;
    let mut i: usize = start;
    while i < n
        invariant
            n == s@.len(),
            start <= i <= n,
            start < n,
            d == s@.skip(start as int),
            d == port_digits(s@),
            all_digits(d.take(i - start)),
            value as nat == digits_value(d.take(i - start)),
            value <= 65535,
        decreases n - i,
    {
        let c = s.get_char(i);
        if c < '0' || c > '9' {
            assert(d[i - start] == c);
            assert(!('0' <= d[i - start] <= '9'));
            assert(!all_digits(d));
            assert(port_value(s@) is None);
            return None;
        }
        let ghost k = i - start;
        let digit: u32 = (c as u32) - ('0' as u32);
        assert(value * 10 + digit <= 655359) by (nonlinear_arith)
            requires
                value <= 65535,
                digit <= 9,
        ;
        let next: u32 = value * 10 + digit;
        proof {
            let t = d.take(k + 1);
            assert(t.drop_last() =~= d.take(k));
            assert(t.last() == c);
            assert(d[k] == c);
            assert(all_digits(t));
            assert(digits_value(t) == digits_value(d.take(k)) * 10 + ((c as nat) - ('0' as nat)) as nat);
            assert(digits_value(t) == next);
        }
        if next > 65535 {
            proof {
                if all_digits(d) {
                    lemma_digits_value_prefix(d, k + 1);
                    assert(digits_value(d) > 65535);
                }
                assert(port_value(s@) is None);
            }
            return None;
        }
        value = next;
        i = i + 1;
    }
    assert(d.take(n - start) =~= d);
    Some(value as u16)
}

} // verus!
