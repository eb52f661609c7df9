//! The identifier builder: turns a login configuration into the canonical
//! plaintext `user:secret@domainport | user:secret@domainport` and hashes
//! it with a one-way 256-bit hash rendered as 64 lowercase hex characters.
//! The derived string names the session and keys both the cache and the
//! secure credential store.

use vstd::prelude::*;

use crate::config::{Credentials, LoginConfig, ServerConfig};
use crate::errors::Error;

verus! {

/// The 32-byte digest that `sha2`'s SHA-256 computes of the input; a
/// function of the input bytes alone.
pub uninterp spec fn sha256_of(bytes: Seq<u8>) -> Seq<u8>;

/// Relies on sha2::Sha256::digest: the one-shot SHA-256 digest of the
/// input, 32 bytes long, depending on the input bytes alone.
#[verifier::external_body]
fn sha256_digest(input: &[u8]) -> (r: Vec<u8>)
    ensures
        r@ == sha256_of(input@),
        r@.len() == 32,
{
    let digest = <sha2::Sha256 as sha2::Digest>::digest(input);
    digest.as_slice().to_vec()
}

/// The character for one decimal digit.
pub open spec fn dec_digit_char(d: int) -> char {
    if d == 0 {
        '0'
    } else if d == 1 {
        '1'
    } else if d == 2 {
        '2'
    } else if d == 3 {
        '3'
    } else if d == 4 {
        '4'
    } else if d == 5 {
        '5'
    } else if d == 6 {
        '6'
    } else if d == 7 {
        '7'
    } else if d == 8 {
        '8'
    } else {
        '9'
    }
}

/// The decimal rendering of a number, most significant digit first, with
/// no leading zeros.
pub open spec fn dec_str_of(n: nat) -> Seq<char>
    decreases n,
{
    if n < 10 {
        seq![dec_digit_char(n as int)]
    } else {
        dec_str_of(n / 10) + seq![dec_digit_char((n % 10) as int)]
    }
}

/// The character for one hexadecimal digit, lowercase.
pub open spec fn hex_digit_char(d: int) -> char {
    if d == 0 {
        '0'
    } else if d == 1 {
        '1'
    } else if d == 2 {
        '2'
    } else if d == 3 {
        '3'
    } else if d == 4 {
        '4'
    } else if d == 5 {
        '5'
    } else if d == 6 {
        '6'
    } else if d == 7 {
        '7'
    } else if d == 8 {
        '8'
    } else if d == 9 {
        '9'
    } else if d == 10 {
        'a'
    } else if d == 11 {
        'b'
    } else if d == 12 {
        'c'
    } else if d == 13 {
        'd'
    } else if d == 14 {
        'e'
    } else {
        'f'
    }
}

/// The lowercase hex rendering of a byte string: two digits per byte,
/// high nibble first.
pub open spec fn hex_str_of(bytes: Seq<u8>) -> Seq<char>
    decreases bytes.len(),
{
    if bytes.len() == 0 {
        Seq::empty()
    } else {
        hex_str_of(bytes.drop_last()) + seq![
            hex_digit_char((bytes.last() / 16) as int),
            hex_digit_char((bytes.last() % 16) as int),
        ]
    }
}

/// Whether a character belongs to the lowercase hex alphabet.
pub open spec fn is_hex_char(c: char) -> bool {
    c == '0' || c == '1' || c == '2' || c == '3' || c == '4' || c == '5' || c == '6' || c == '7'
        || c == '8' || c == '9' || c == 'a' || c == 'b' || c == 'c' || c == 'd' || c == 'e'
        || c == 'f'
}

/// A hex rendering is twice as long as its input.
pub proof fn lemma_hex_str_len(bytes: Seq<u8>)
    ensures
        hex_str_of(bytes).len() == 2 * bytes.len(),
    decreases bytes.len(),
{
    if bytes.len() > 0 {
        lemma_hex_str_len(bytes.drop_last());
    }
}

/// Every character of a hex rendering is a lowercase hex digit.
pub proof fn lemma_hex_str_alphabet(bytes: Seq<u8>)
    ensures
        forall|i: int|
            0 <= i < hex_str_of(bytes).len() ==> is_hex_char(#[trigger] hex_str_of(bytes)[i]),
    decreases bytes.len(),
{
    if bytes.len() > 0 {
        lemma_hex_str_alphabet(bytes.drop_last());
        lemma_hex_str_len(bytes.drop_last());
    }
}

/// Appends one decimal digit to a string.
fn push_dec_digit(s: &mut String, d: u16)
    requires
        d < 10,
    ensures
        final(s)@ == old(s)@ + seq![dec_digit_char(d as int)],
{
    match d {
        0 => s.append("0"),
        1 => s.append("1"),
        2 => s.append("2"),
        3 => s.append("3"),
        4 => s.append("4"),
        5 => s.append("5"),
        6 => s.append("6"),
        7 => s.append("7"),
        8 => s.append("8"),
        _ => s.append("9"),
    }
    proof {
        reveal_strlit("0");
        reveal_strlit("1");
        reveal_strlit("2");
        reveal_strlit("3");
        reveal_strlit("4");
        reveal_strlit("5");
        reveal_strlit("6");
        reveal_strlit("7");
        reveal_strlit("8");
        reveal_strlit("9");
        assert(s@ =~= old(s)@ + seq![dec_digit_char(d as int)]);
    }
}

/// Appends the decimal rendering of a number to a string.
fn push_decimal(s: &mut String, n: u16)
    ensures
        final(s)@ == old(s)@ + dec_str_of(n as nat),
    decreases n,
{
    if n < 10 {
        push_dec_digit(s, n);
    } else {
        push_decimal(s, n / 10);
        push_dec_digit(s, n % 10);
        proof {
            assert(s@ =~= old(s)@ + dec_str_of(n as nat));
        }
    }
}

/// Appends one lowercase hex digit to a string.
fn push_hex_digit(s: &mut String, d: u8)
    requires
        d < 16,
    ensures
        final(s)@ == old(s)@ + seq![hex_digit_char(d as int)],
{
    match d {
        0 => s.append("0"),
        1 => s.append("1"),
        2 => s.append("2"),
        3 => s.append("3"),
        4 => s.append("4"),
        5 => s.append("5"),
        6 => s.append("6"),
        7 => s.append("7"),
        8 => s.append("8"),
        9 => s.append("9"),
        10 => s.append("a"),
        11 => s.append("b"),
        12 => s.append("c"),
        13 => s.append("d"),
        14 => s.append("e"),
        _ => s.append("f"),
    }
    proof {
        reveal_strlit("0");
        reveal_strlit("1");
        reveal_strlit("2");
        reveal_strlit("3");
        reveal_strlit("4");
        reveal_strlit("5");
        reveal_strlit("6");
        reveal_strlit("7");
        reveal_strlit("8");
        reveal_strlit("9");
        reveal_strlit("a");
        reveal_strlit("b");
        reveal_strlit("c");
        reveal_strlit("d");
        reveal_strlit("e");
        reveal_strlit("f");
        assert(s@ =~= old(s)@ + seq![hex_digit_char(d as int)]);
    }
}

/// One step of the hex rendering: extending the input by a byte appends
/// its two digits.
proof fn lemma_hex_str_step(bytes: Seq<u8>, i: int)
    requires
        0 <= i < bytes.len(),
    ensures
        hex_str_of(bytes.take(i + 1)) == hex_str_of(bytes.take(i)) + seq![
            hex_digit_char((bytes[i] / 16) as int),
            hex_digit_char((bytes[i] % 16) as int),
        ],
{
    let t = bytes.take(i + 1);
    assert(t.drop_last() =~= bytes.take(i));
    assert(t.last() == bytes[i]);
}

/// Appends the lowercase hex rendering of a byte string.
fn push_hex(s: &mut String, bytes: &Vec<u8>)
    ensures
        final(s)@ == old(s)@ + hex_str_of(bytes@),
{
    let mut i: usize = 0;
    while i < bytes.len()
        invariant
            i <= bytes.len(),
            s@ == old(s)@ + hex_str_of(bytes@.take(i as int)),
        decreases bytes.len() - i,
    {
        let b = bytes[i];
        push_hex_digit(s, b / 16);
        push_hex_digit(s, b % 16);
        proof {
            lemma_hex_str_step(bytes@, i as int);
            assert(s@ =~= old(s)@ + hex_str_of(bytes@.take(i as int + 1)));
        }
        i = i + 1;
    }
    proof {
        assert(bytes@.take(bytes@.len() as int) =~= bytes@);
    }
}

/// The canonical plaintext for one remote server:
/// `username:secret@domain` followed by the decimal port.
pub open spec fn server_canon(
    username: Seq<char>,
    secret: Seq<char>,
    domain: Seq<char>,
    port: u16,
) -> Seq<char> {
    username + ":"@ + secret + "@"@ + domain + dec_str_of(port as nat)
}

/// The canonical plaintext for one protocol endpoint.
pub open spec fn server_config_canon(config: ServerConfig) -> Seq<char> {
    server_canon(
        config.credentials.spec_username(),
        config.credentials.spec_secret(),
        config.server.domain@,
        config.server.port,
    )
}

/// The canonical plaintext of a whole login configuration: the incoming
/// endpoint, a separator, the outgoing endpoint. Field order and
/// separators are fixed: they define the stored-credential key namespace.
pub open spec fn config_canon(config: LoginConfig) -> Seq<char> {
    server_config_canon(config.spec_incoming().spec_config()) + "|"@ + server_config_canon(
        config.spec_outgoing().spec_config(),
    )
}

/// The derived identifier for a canonical plaintext: the lowercase hex
/// rendering of the SHA-256 digest of its UTF-8 bytes.
pub open spec fn identifier_digest(id: Seq<char>) -> Seq<char> {
    hex_str_of(sha256_of(vstd::utf8::encode_utf8(id)))
}

/// The username and the secret material carried by the credentials,
/// whichever variant holds them.
pub fn get_credentials(credentials: &Credentials) -> (r: (&String, &String))
    ensures
        r.0@ == credentials.spec_username(),
        r.1@ == credentials.spec_secret(),
{
    match credentials {
        Credentials::OAuthToken { username, token } => (username, token),
        Credentials::Password { username, secret } => (username, secret),
    }
}

/// An identifier under construction: the canonical plaintext accumulated
/// so far. Consumed by `hash` to produce the session token.
pub struct Identifier {
    id: String,
}

impl View for Identifier {
    type V = Seq<char>;

    closed spec fn view(&self) -> Seq<char> {
        self.id@
    }
}

impl Default for Identifier {
    /// An identifier with an empty plaintext.
    fn default() -> (r: Self)
        ensures
            r@ == Seq::<char>::empty(),
    {
        Identifier { id: String::new() }
    }
}

impl Identifier {
    /// Appends the canonical plaintext of one remote server.
    pub fn add_remote_server(&mut self, username: &str, secret: &str, server: &str, port: u16)
        ensures
            final(self)@ == old(self)@ + server_canon(username@, secret@, server@, port),
    {
        self.id.append(username);
        self.id.append(":");
        self.id.append(secret);
        self.id.append("@");
        self.id.append(server);
        push_decimal(&mut self.id, port);
        proof {
            assert(self@ =~= old(self)@ + server_canon(username@, secret@, server@, port));
        }
    }

    /// Appends the separator between the incoming and outgoing endpoints.
    pub fn add_separator(&mut self)
        ensures
            final(self)@ == old(self)@ + "|"@,
    {
        self.id.append("|");
    }

    /// Builds the canonical plaintext of a login configuration: the
    /// incoming endpoint, the separator, the outgoing endpoint.
    pub fn from_config(login_options: &LoginConfig) -> (r: Self)
        ensures
            r@ == config_canon(*login_options),
    {
        let mut identifier = Identifier::default();

        let incoming = login_options.incoming();
        let outgoing = login_options.outgoing();

        let incoming_config = incoming.config();
        let (username, secret) = get_credentials(&incoming_config.credentials);
        identifier.add_remote_server(
            username.as_str(),
            secret.as_str(),
            incoming_config.server.domain.as_str(),
            incoming_config.server.port,
        );

        identifier.add_separator();

        let outgoing_config = outgoing.config();
        let (username, secret) = get_credentials(&outgoing_config.credentials);
        identifier.add_remote_server(
            username.as_str(),
            secret.as_str(),
            outgoing_config.server.domain.as_str(),
            outgoing_config.server.port,
        );

        proof {
            assert(identifier@ =~= config_canon(*login_options));
        }
        identifier
    }

    /// Hashes the accumulated plaintext: SHA-256 of its UTF-8 bytes,
    /// rendered as 64 lowercase hex characters. Never fails and never
    /// retains the plaintext.
    pub fn hash(self) -> (r: Result<String, Error>)
        ensures
            r is Ok,
            r->Ok_0@ == identifier_digest(self@),
            r->Ok_0@.len() == 64,
            forall|i: int| 0 <= i < r->Ok_0@.len() ==> is_hex_char(#[trigger] r->Ok_0@[i]),
    {
        let bytes = self.id.as_str().as_bytes_vec();
        let digest = sha256_digest(bytes.as_slice());
        let mut rendered = String::new();
        push_hex(&mut rendered, &digest);
        proof {
            lemma_hex_str_len(digest@);
            lemma_hex_str_alphabet(digest@);
        }
        Ok(rendered)
    }

    /// Hands the accumulated plaintext back.
    pub fn into_string(self) -> (r: String)
        ensures
            r@ == self@,
    {
        self.id
    }
}

/// Derives the session token for a login configuration: the canonical
/// plaintext is built and hashed, and the 64-character lowercase hex
/// token is returned. Infallible for every well-formed configuration.
pub fn derive(login_options: &LoginConfig) -> (r: Result<String, Error>)
    ensures
        r is Ok,
        r->Ok_0@ == identifier_digest(config_canon(*login_options)),
        r->Ok_0@.len() == 64,
        forall|i: int| 0 <= i < r->Ok_0@.len() ==> is_hex_char(#[trigger] r->Ok_0@[i]),
{
    Identifier::from_config(login_options).hash()
}

/// Identifier derivation is deterministic: two login configurations that
/// agree on the username, the secret, the domain and the port of both
/// endpoints have the same canonical plaintext, and therefore the same
/// derived identifier, whatever their protocol kinds.
pub proof fn lemma_derive_deterministic(a: LoginConfig, b: LoginConfig)
    requires
        a.spec_incoming().spec_config().credentials.spec_username()
            == b.spec_incoming().spec_config().credentials.spec_username(),
        a.spec_incoming().spec_config().credentials.spec_secret()
            == b.spec_incoming().spec_config().credentials.spec_secret(),
        a.spec_incoming().spec_config().server.domain@
            == b.spec_incoming().spec_config().server.domain@,
        a.spec_incoming().spec_config().server.port == b.spec_incoming().spec_config().server.port,
        a.spec_outgoing().spec_config().credentials.spec_username()
            == b.spec_outgoing().spec_config().credentials.spec_username(),
        a.spec_outgoing().spec_config().credentials.spec_secret()
            == b.spec_outgoing().spec_config().credentials.spec_secret(),
        a.spec_outgoing().spec_config().server.domain@
            == b.spec_outgoing().spec_config().server.domain@,
        a.spec_outgoing().spec_config().server.port == b.spec_outgoing().spec_config().server.port,
    ensures
        config_canon(a) == config_canon(b),
        identifier_digest(config_canon(a)) == identifier_digest(config_canon(b)),
{
}

/// Equal concatenations with equally long left parts (or equally long
/// right parts) have equal parts.
proof fn lemma_concat_cancel(a1: Seq<char>, b1: Seq<char>, a2: Seq<char>, b2: Seq<char>)
    requires
        a1 + b1 == a2 + b2,
        a1.len() == a2.len() || b1.len() == b2.len(),
    ensures
        a1 == a2,
        b1 == b2,
{
    assert((a1 + b1).len() == a1.len() + b1.len());
    assert((a2 + b2).len() == a2.len() + b2.len());
    assert(a1.len() == a2.len());
    assert(a1 =~= a2) by {
        assert forall|i: int| 0 <= i < a1.len() implies a1[i] == a2[i] by {
            assert((a1 + b1)[i] == a1[i]);
            assert((a2 + b2)[i] == a2[i]);
        }
    }
    assert(b1 =~= b2) by {
        assert forall|i: int| 0 <= i < b1.len() implies b1[i] == b2[i] by {
            assert((a1 + b1)[a1.len() + i] == b1[i]);
            assert((a2 + b2)[a2.len() + i] == b2[i]);
        }
    }
}

/// A decimal rendering has at least one digit, and at least two for a
/// number of two digits.
proof fn lemma_dec_str_len(n: nat)
    ensures
        dec_str_of(n).len() >= 1,
        n >= 10 ==> dec_str_of(n).len() >= 2,
    decreases n,
{
    if n >= 10 {
        lemma_dec_str_len(n / 10);
    }
}

/// Decimal renderings are injective: equal renderings name equal numbers.
pub proof fn lemma_dec_str_injective(m: nat, n: nat)
    requires
        dec_str_of(m) == dec_str_of(n),
    ensures
        m == n,
    decreases m,
{
    lemma_dec_str_len(m);
    lemma_dec_str_len(n);
    if m < 10 && n < 10 {
        assert(dec_str_of(m)[0] == dec_digit_char(m as int));
        assert(dec_str_of(n)[0] == dec_digit_char(n as int));
    } else if m < 10 || n < 10 {
        assert(dec_str_of(m).len() != dec_str_of(n).len());
    } else {
        assert(m / 10 < m && n / 10 < n) by (nonlinear_arith)
            requires
                m >= 10,
                n >= 10,
        ;
        lemma_concat_cancel(
            dec_str_of(m / 10),
            seq![dec_digit_char((m % 10) as int)],
            dec_str_of(n / 10),
            seq![dec_digit_char((n % 10) as int)],
        );
        lemma_dec_str_injective(m / 10, n / 10);
        assert(seq![dec_digit_char((m % 10) as int)][0] == seq![dec_digit_char((n % 10) as int)][0]);
        assert(dec_digit_char((m % 10) as int) == dec_digit_char((n % 10) as int));
        assert(m % 10 == n % 10);
        assert(m == 10 * (m / 10) + m % 10 && n == 10 * (n / 10) + n % 10) by (nonlinear_arith);
    }
}

/// Identifier derivation is sensitive to every field, up to the one-way
/// hash: changing exactly one of the username, the secret, the domain or
/// the port changes the canonical plaintext of that server. That the
/// hash of different plaintexts differs rests on the hash's collision
/// resistance, which no contract here states.
pub proof fn lemma_server_canon_sensitive(
    u1: Seq<char>,
    s1: Seq<char>,
    d1: Seq<char>,
    p1: u16,
    u2: Seq<char>,
    s2: Seq<char>,
    d2: Seq<char>,
    p2: u16,
)
    requires
        (s1 == s2 && d1 == d2 && p1 == p2) || (u1 == u2 && d1 == d2 && p1 == p2) || (u1 == u2
            && s1 == s2 && p1 == p2) || (u1 == u2 && s1 == s2 && d1 == d2),
        !(u1 == u2 && s1 == s2 && d1 == d2 && p1 == p2),
    ensures
        server_canon(u1, s1, d1, p1) != server_canon(u2, s2, d2, p2),
{
    let c1 = server_canon(u1, s1, d1, p1);
    let c2 = server_canon(u2, s2, d2, p2);
    if c1 == c2 {
        if s1 == s2 && d1 == d2 && p1 == p2 {
            let t = ":"@ + s1 + "@"@ + d1 + dec_str_of(p1 as nat);
            assert(c1 =~= u1 + t);
            assert(c2 =~= u2 + t);
            lemma_concat_cancel(u1, t, u2, t);
        } else if u1 == u2 && d1 == d2 && p1 == p2 {
            let a = u1 + ":"@;
            let t = "@"@ + d1 + dec_str_of(p1 as nat);
            assert(c1 =~= a + (s1 + t));
            assert(c2 =~= a + (s2 + t));
            lemma_concat_cancel(a, s1 + t, a, s2 + t);
            lemma_concat_cancel(s1, t, s2, t);
        } else if u1 == u2 && s1 == s2 && p1 == p2 {
            let a = u1 + ":"@ + s1 + "@"@;
            let t = dec_str_of(p1 as nat);
            assert(c1 =~= a + (d1 + t));
            assert(c2 =~= a + (d2 + t));
            lemma_concat_cancel(a, d1 + t, a, d2 + t);
            lemma_concat_cancel(d1, t, d2, t);
        } else {
            let a = u1 + ":"@ + s1 + "@"@ + d1;
            assert(c1 =~= a + dec_str_of(p1 as nat));
            assert(c2 =~= a + dec_str_of(p2 as nat));
            lemma_concat_cancel(a, dec_str_of(p1 as nat), a, dec_str_of(p2 as nat));
            lemma_dec_str_injective(p1 as nat, p2 as nat);
        }
    }
}

/// The same sensitivity, lifted to a whole configuration: a change that
/// alters the canonical plaintext of one endpoint while the other
/// endpoint's stays the same alters the canonical plaintext of the
/// configuration.
pub proof fn lemma_config_canon_sensitive(a: LoginConfig, b: LoginConfig)
    requires
        (server_config_canon(a.spec_incoming().spec_config()) != server_config_canon(
            b.spec_incoming().spec_config(),
        ) && server_config_canon(a.spec_outgoing().spec_config()) == server_config_canon(
            b.spec_outgoing().spec_config(),
        )) || (server_config_canon(a.spec_incoming().spec_config()) == server_config_canon(
            b.spec_incoming().spec_config(),
        ) && server_config_canon(a.spec_outgoing().spec_config()) != server_config_canon(
            b.spec_outgoing().spec_config(),
        )),
    ensures
        config_canon(a) != config_canon(b),
{
    let in1 = server_config_canon(a.spec_incoming().spec_config());
    let in2 = server_config_canon(b.spec_incoming().spec_config());
    let out1 = server_config_canon(a.spec_outgoing().spec_config());
    let out2 = server_config_canon(b.spec_outgoing().spec_config());
    if config_canon(a) == config_canon(b) {
        assert(config_canon(a) =~= in1 + ("|"@ + out1));
        assert(config_canon(b) =~= in2 + ("|"@ + out2));
        if out1 == out2 {
            lemma_concat_cancel(in1, "|"@ + out1, in2, "|"@ + out2);
        } else {
            lemma_concat_cancel(in1, "|"@ + out1, in2, "|"@ + out2);
            lemma_concat_cancel("|"@, out1, "|"@, out2);
        }
    }
}

} // verus!
