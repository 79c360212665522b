//! The socket URI grammar and its parser.
//!
//! A URI has the shape `[role+direction:]scheme://host[:source]` with
//! `role` one of `pub`, `sub`, `req`, `rep`, `dealer`, `router`;
//! `direction` one of `bind`, `connect`; and `scheme` one of `tcp`, `ipc`.
//! The host is a nonempty run of characters without `:`; the optional source
//! (everything after the next `:`) is nonempty and is accepted only for
//! writer roles. The endpoint kept in the parsed descriptor retains its
//! scheme prefix.

use crate::error::TransportError;
use vstd::prelude::*;

verus! {

/// Roles a reader socket can take.
#[derive(Clone, Copy, Debug, PartialEq, Eq, Structural)]
pub enum ReaderSocketType {
    Sub,
    Router,
    Rep,
}

/// Roles a writer socket can take.
#[derive(Clone, Copy, Debug, PartialEq, Eq, Structural)]
pub enum WriterSocketType {
    Pub,
    Dealer,
    Req,
}

/// A socket role: either a reader role or a writer role.
#[derive(Clone, Copy, Debug, PartialEq, Eq, Structural)]
pub enum SocketType {
    Reader(ReaderSocketType),
    Writer(WriterSocketType),
}

/// A parsed socket URI. Immutable after parsing.
///
/// Invariant (established by the parser): `source` is present only when
/// `socket_type` is a writer role, and `bind` and `socket_type` are either
/// both present or both absent.
#[derive(Debug)]
pub struct ZmqSocketUri {
    pub endpoint: String,
    pub source: Option<String>,
    pub bind: Option<bool>,
    pub socket_type: Option<SocketType>,
}

// ---------------------------------------------------------------------------
// The grammar, stated declaratively over the character sequence.
// ---------------------------------------------------------------------------
/// `t` is exactly the token naming `role`, e.g. `pub`.
pub open spec fn is_role_token(t: Seq<char>, role: SocketType) -> bool {
    match role {
        SocketType::Writer(WriterSocketType::Pub) => t.len() == 3 && t[0] == 'p' && t[1] == 'u'
            && t[2] == 'b',
        SocketType::Reader(ReaderSocketType::Sub) => t.len() == 3 && t[0] == 's' && t[1] == 'u'
            && t[2] == 'b',
        SocketType::Writer(WriterSocketType::Req) => t.len() == 3 && t[0] == 'r' && t[1] == 'e'
            && t[2] == 'q',
        SocketType::Reader(ReaderSocketType::Rep) => t.len() == 3 && t[0] == 'r' && t[1] == 'e'
            && t[2] == 'p',
        SocketType::Writer(WriterSocketType::Dealer) => t.len() == 6 && t[0] == 'd' && t[1] == 'e'
            && t[2] == 'a' && t[3] == 'l' && t[4] == 'e' && t[5] == 'r',
        SocketType::Reader(ReaderSocketType::Router) => t.len() == 6 && t[0] == 'r' && t[1] == 'o'
            && t[2] == 'u' && t[3] == 't' && t[4] == 'e' && t[5] == 'r',
    }
}

/// The role named by `t`, if `t` is a known role token.
pub open spec fn role_of(t: Seq<char>) -> Option<SocketType> {
    if is_role_token(t, SocketType::Writer(WriterSocketType::Pub)) {
        Some(SocketType::Writer(WriterSocketType::Pub))
    } else if is_role_token(t, SocketType::Reader(ReaderSocketType::Sub)) {
        Some(SocketType::Reader(ReaderSocketType::Sub))
    } else if is_role_token(t, SocketType::Writer(WriterSocketType::Req)) {
        Some(SocketType::Writer(WriterSocketType::Req))
    } else if is_role_token(t, SocketType::Reader(ReaderSocketType::Rep)) {
        Some(SocketType::Reader(ReaderSocketType::Rep))
    } else if is_role_token(t, SocketType::Writer(WriterSocketType::Dealer)) {
        Some(SocketType::Writer(WriterSocketType::Dealer))
    } else if is_role_token(t, SocketType::Reader(ReaderSocketType::Router)) {
        Some(SocketType::Reader(ReaderSocketType::Router))
    } else {
        None
    }
}

/// `t` is exactly the token naming the binding direction `bind`.
pub open spec fn is_dir_token(t: Seq<char>, bind: bool) -> bool {
    if bind {
        t.len() == 4 && t[0] == 'b' && t[1] == 'i' && t[2] == 'n' && t[3] == 'd'
    } else {
        t.len() == 7 && t[0] == 'c' && t[1] == 'o' && t[2] == 'n' && t[3] == 'n' && t[4] == 'e'
            && t[5] == 'c' && t[6] == 't'
    }
}

/// The direction named by `t`, if `t` is a known direction token.
pub open spec fn dir_of(t: Seq<char>) -> Option<bool> {
    if is_dir_token(t, true) {
        Some(true)
    } else if is_dir_token(t, false) {
        Some(false)
    } else {
        None
    }
}

/// `s` carries `tcp://` or `ipc://` starting at position `pos`.
pub open spec fn scheme_at(s: Seq<char>, pos: int) -> bool {
    &&& 0 <= pos
    &&& pos + 6 <= s.len()
    &&& ((s[pos] == 't' && s[pos + 1] == 'c' && s[pos + 2] == 'p') || (s[pos] == 'i' && s[pos + 1]
        == 'p' && s[pos + 2] == 'c'))
    &&& s[pos + 3] == ':'
    &&& s[pos + 4] == '/'
    &&& s[pos + 5] == '/'
}

/// No `:` occurs in `s` at positions `from..to`.
pub open spec fn colon_free(s: Seq<char>, from: int, to: int) -> bool {
    forall|i: int| from <= i < to ==> s[i] != ':'
}

/// The URI `s` decomposes as: an options part of length `olen` (zero when
/// absent) with the `+` of `role+direction:` at position `k`; the scheme at
/// `olen`; the host ending at `h`; and, when `h` is inside `s`, a `:` at `h`
/// followed by a nonempty source, which is only allowed for writer roles.
pub open spec fn uri_split_ok(s: Seq<char>, olen: int, k: int, h: int) -> bool {
    &&& (if olen == 0 {
        k == 0
    } else {
        &&& 0 < k < olen - 1
        &&& olen <= s.len()
        &&& s[olen - 1] == ':'
        &&& s[k] == '+'
        &&& role_of(s.subrange(0, k)) is Some
        &&& dir_of(s.subrange(k + 1, olen - 1)) is Some
    })
    &&& scheme_at(s, olen)
    &&& olen + 6 < h <= s.len()
    &&& colon_free(s, olen + 6, h)
    &&& (h == s.len() || (s[h] == ':' && h + 1 < s.len()))
    &&& (h < s.len() ==> olen > 0 && role_of(s.subrange(0, k)) matches Some(
        SocketType::Writer(_),
    ))
}

/// The URI `s` matches the accepted grammar, with known role and direction
/// tokens, and carries a source only on a writer role. `parse_zmq_socket_uri`
/// succeeds on exactly these strings.
pub open spec fn uri_well_formed(s: Seq<char>) -> bool {
    exists|olen: int, k: int, h: int| uri_split_ok(s, olen, k, h)
}

/// The descriptor `d` holds the parts of `s` as cut at `(olen, k, h)`.
pub open spec fn uri_parts_ok(s: Seq<char>, olen: int, k: int, h: int, d: ZmqSocketUri) -> bool {
    &&& d.endpoint@ == s.subrange(olen, h)
    &&& d.socket_type == (if olen == 0 {
        Option::<SocketType>::None
    } else {
        role_of(s.subrange(0, k))
    })
    &&& d.bind == (if olen == 0 {
        Option::<bool>::None
    } else {
        dir_of(s.subrange(k + 1, olen - 1))
    })
    &&& (match d.source {
        Some(src) => h < s.len() && src@ == s.subrange(h + 1, s.len() as int),
        None => h == s.len(),
    })
}

// ---------------------------------------------------------------------------
// Facts about the token alphabet, and uniqueness of the decomposition.
// ---------------------------------------------------------------------------
/// A known role token is 3 or 6 letters long and contains neither `:` nor `+`.
proof fn lemma_role_token_chars(t: Seq<char>)
    requires
        role_of(t) is Some,
    ensures
        t.len() == 3 || t.len() == 6,
        forall|i: int| 0 <= i < t.len() ==> t[i] != ':' && t[i] != '+',
{
    assert forall|i: int| 0 <= i < t.len() implies t[i] != ':' && t[i] != '+' by {
        if t.len() == 3 {
            assert(i == 0 || i == 1 || i == 2);
        } else {
            assert(i == 0 || i == 1 || i == 2 || i == 3 || i == 4 || i == 5);
        }
    }
}

/// A known direction token is 4 or 7 letters long and contains neither `:`
/// nor `+`.
proof fn lemma_dir_token_chars(t: Seq<char>)
    requires
        dir_of(t) is Some,
    ensures
        t.len() == 4 || t.len() == 7,
        forall|i: int| 0 <= i < t.len() ==> t[i] != ':' && t[i] != '+',
{
    assert forall|i: int| 0 <= i < t.len() implies t[i] != ':' && t[i] != '+' by {
        if t.len() == 4 {
            assert(i == 0 || i == 1 || i == 2 || i == 3);
        } else {
            assert(i == 0 || i == 1 || i == 2 || i == 3 || i == 4 || i == 5 || i == 6);
        }
    }
}

/// What any valid decomposition of `s` pins down about its characters: where
/// the options part is present, its single `:` is the first colon of `s` and
/// its single `+` is the first plus; where it is absent, the scheme stands at
/// the start.
proof fn lemma_split_shape(s: Seq<char>, olen: int, k: int, h: int)
    requires
        uri_split_ok(s, olen, k, h),
    ensures
        olen == 0 ==> scheme_at(s, 0),
        olen > 0 ==> {
            &&& 3 < olen <= s.len()
            &&& s[olen - 1] == ':'
            &&& forall|i: int| 0 <= i < olen - 1 ==> s[i] != ':'
            &&& s[k] == '+'
            &&& forall|i: int| 0 <= i < k ==> s[i] != '+'
        },
{
    if olen > 0 {
        let role_tok = s.subrange(0, k);
        let dir_tok = s.subrange(k + 1, olen - 1);
        lemma_role_token_chars(role_tok);
        lemma_dir_token_chars(dir_tok);
        assert forall|i: int| 0 <= i < olen - 1 implies s[i] != ':' by {
            if i < k {
                assert(role_tok[i] == s[i]);
            } else if i > k {
                assert(dir_tok[i - (k + 1)] == s[i]);
            }
        }
        assert forall|i: int| 0 <= i < k implies s[i] != '+' by {
            assert(role_tok[i] == s[i]);
        }
    }
}

/// A URI decomposes in at most one way.
pub proof fn lemma_uri_split_unique(
    s: Seq<char>,
    o1: int,
    k1: int,
    h1: int,
    o2: int,
    k2: int,
    h2: int,
)
    requires
        uri_split_ok(s, o1, k1, h1),
        uri_split_ok(s, o2, k2, h2),
    ensures
        o1 == o2,
        k1 == k2,
        h1 == h2,
{
    lemma_split_shape(s, o1, k1, h1);
    lemma_split_shape(s, o2, k2, h2);
    if o1 == 0 && o2 > 0 {
        // The scheme at the start puts a colon at position 3, so the options
        // part would have to end there, leaving no room for a role token.
        assert(s[3] == ':');
        assert(o2 - 1 <= 3);
        lemma_role_token_chars(s.subrange(0, k2));
        assert(false);
    }
    if o2 == 0 && o1 > 0 {
        assert(s[3] == ':');
        assert(o1 - 1 <= 3);
        lemma_role_token_chars(s.subrange(0, k1));
        assert(false);
    }
    if o1 > 0 && o2 > 0 {
        // Both end at the first colon of `s`, and their `+` is its first plus.
        if o1 < o2 {
            assert(s[o1 - 1] == ':');
            assert(false);
        }
        if o2 < o1 {
            assert(s[o2 - 1] == ':');
            assert(false);
        }
        if k1 < k2 {
            assert(s[k1] == '+');
            assert(false);
        }
        if k2 < k1 {
            assert(s[k2] == '+');
            assert(false);
        }
    }
    // The host ends at the first colon after the scheme, or at the end.
    if h1 < h2 {
        assert(s[h1] == ':');
        assert(false);
    }
    if h2 < h1 {
        assert(s[h2] == ':');
        assert(false);
    }
}

// ---------------------------------------------------------------------------
// Executable scanning helpers.
// ---------------------------------------------------------------------------
/// First occurrence of `c` in `s` at a position in `from..to`.
fn find_char_in(s: &str, from: usize, to: usize, c: char) -> (r: Option<usize>)
    requires
        from <= to <= s@.len(),
    ensures
        match r {
            Some(i) => from <= i < to && s@[i as int] == c && (forall|j: int|
                from <= j < i ==> s@[j] != c),
            None => forall|j: int| from <= j < to ==> s@[j] != c,
        },
{
    let mut i: usize = from;
    while i < to
        invariant
            from <= i <= to <= s@.len(),
            forall|j: int| from <= j < i ==> s@[j] != c,
        decreases to - i,
    {
        if s.get_char(i) == c {
            return Some(i);
        }
        i = i + 1;
    }
    None
}

/// Does `s` carry `tcp://` or `ipc://` at `pos`?
fn scheme_at_exec(s: &str, n: usize, pos: usize) -> (r: bool)
    requires
        n == s@.len(),
        pos <= n,
    ensures
        r == scheme_at(s@, pos as int),
{
    if pos > n || n - pos < 6 {
        return false;
    }
    let c0 = s.get_char(pos);
    let c1 = s.get_char(pos + 1);
    let c2 = s.get_char(pos + 2);
    let tcp = c0 == 't' && c1 == 'c' && c2 == 'p';
    let ipc = c0 == 'i' && c1 == 'p' && c2 == 'c';
    (tcp || ipc) && s.get_char(pos + 3) == ':' && s.get_char(pos + 4) == '/' && s.get_char(pos + 5)
        == '/'
}

/// The role named by `s[from..to]`, if any.
fn role_at(s: &str, from: usize, to: usize) -> (r: Option<SocketType>)
    requires
        from <= to <= s@.len(),
    ensures
        r == role_of(s@.subrange(from as int, to as int)),
{
    let len = to - from;
    let ghost t = s@.subrange(from as int, to as int);
    if len == 3 {
        let c0 = s.get_char(from);
        let c1 = s.get_char(from + 1);
        let c2 = s.get_char(from + 2);
        assert(t[0] == c0 && t[1] == c1 && t[2] == c2);
        if c0 == 'p' && c1 == 'u' && c2 == 'b' {
            Some(SocketType::Writer(WriterSocketType::Pub))
        } else if c0 == 's' && c1 == 'u' && c2 == 'b' {
            Some(SocketType::Reader(ReaderSocketType::Sub))
        } else if c0 == 'r' && c1 == 'e' && c2 == 'q' {
            Some(SocketType::Writer(WriterSocketType::Req))
        } else if c0 == 'r' && c1 == 'e' && c2 == 'p' {
            Some(SocketType::Reader(ReaderSocketType::Rep))
        } else {
            None
        }
    } else if len == 6 {
        let c0 = s.get_char(from);
        let c1 = s.get_char(from + 1);
        let c2 = s.get_char(from + 2);
        let c3 = s.get_char(from + 3);
        let c4 = s.get_char(from + 4);
        let c5 = s.get_char(from + 5);
        assert(t[0] == c0 && t[1] == c1 && t[2] == c2 && t[3] == c3 && t[4] == c4 && t[5] == c5);
        if c0 == 'd' && c1 == 'e' && c2 == 'a' && c3 == 'l' && c4 == 'e' && c5 == 'r' {
            Some(SocketType::Writer(WriterSocketType::Dealer))
        } else if c0 == 'r' && c1 == 'o' && c2 == 'u' && c3 == 't' && c4 == 'e' && c5 == 'r' {
            Some(SocketType::Reader(ReaderSocketType::Router))
        } else {
            None
        }
    } else {
        None
    }
}

/// The binding direction named by `s[from..to]`, if any.
fn dir_at(s: &str, from: usize, to: usize) -> (r: Option<bool>)
    requires
        from <= to <= s@.len(),
    ensures
        r == dir_of(s@.subrange(from as int, to as int)),
{
    let len = to - from;
    let ghost t = s@.subrange(from as int, to as int);
    if len == 4 {
        let c0 = s.get_char(from);
        let c1 = s.get_char(from + 1);
        let c2 = s.get_char(from + 2);
        let c3 = s.get_char(from + 3);
        assert(t[0] == c0 && t[1] == c1 && t[2] == c2 && t[3] == c3);
        if c0 == 'b' && c1 == 'i' && c2 == 'n' && c3 == 'd' {
            Some(true)
        } else {
            None
        }
    } else if len == 7 {
        let c0 = s.get_char(from);
        let c1 = s.get_char(from + 1);
        let c2 = s.get_char(from + 2);
        let c3 = s.get_char(from + 3);
        let c4 = s.get_char(from + 4);
        let c5 = s.get_char(from + 5);
        let c6 = s.get_char(from + 6);
        assert(t[0] == c0 && t[1] == c1 && t[2] == c2 && t[3] == c3 && t[4] == c4 && t[5] == c5
            && t[6] == c6);
        if c0 == 'c' && c1 == 'o' && c2 == 'n' && c3 == 'n' && c4 == 'e' && c5 == 'c' && c6 == 't' {
            Some(false)
        } else {
            None
        }
    } else {
        None
    }
}

// ---------------------------------------------------------------------------
// The parser.
// ---------------------------------------------------------------------------
fn invalid_uri() -> (r: TransportError)
    ensures
        r is InvalidUri,
{
    TransportError::InvalidUri { message: String::from_str("invalid socket URI") }
}

/// Parse a socket URI of the shape `[role+direction:]scheme://host[:source]`.
///
/// Succeeds exactly on the strings the grammar accepts (with known role and
/// direction tokens), where a source tail is only present for writer roles.
pub fn parse_zmq_socket_uri(uri: String) -> (r: Result<ZmqSocketUri, TransportError>)
    ensures
        r is Ok <==> uri_well_formed(uri@),
        r matches Ok(d) ==> exists|olen: int, k: int, h: int|
            #![auto]
            uri_split_ok(uri@, olen, k, h) && uri_parts_ok(uri@, olen, k, h, d),
        r matches Err(e) ==> e is InvalidUri,
{
    let s: &str = uri.as_str();
    let n: usize = s.unicode_len();
    let ghost sv = s@;
    let olen: usize;
    let k: usize;
    let socket_type: Option<SocketType>;
    let bind: Option<bool>;
    if scheme_at_exec(s, n, 0) {
        olen = 0;
        k = 0;
        socket_type = None;
        bind = None;
    } else {
        // The options part must be present and end at the first colon.
        let fc = match find_char_in(s, 0, n, ':') {
            Some(i) => i,
            None => {
                proof {
                    assert forall|o: int, kk: int, h: int| !uri_split_ok(sv, o, kk, h) by {
                        if uri_split_ok(sv, o, kk, h) {
                            lemma_split_shape(sv, o, kk, h);
                        }
                    }
                }
                return Err(invalid_uri());
            },
        };
        let pl = match find_char_in(s, 0, fc, '+') {
            Some(i) => i,
            None => {
                proof {
                    assert forall|o: int, kk: int, h: int| !uri_split_ok(sv, o, kk, h) by {
                        if uri_split_ok(sv, o, kk, h) {
                            lemma_split_shape(sv, o, kk, h);
                            assert(o - 1 == fc);
                        }
                    }
                }
                return Err(invalid_uri());
            },
        };
        proof {
            // In any valid decomposition the options end at `fc` and the
            // role token ends at `pl`.
            assert forall|o: int, kk: int, h: int| uri_split_ok(sv, o, kk, h) implies o == fc + 1
                && kk == pl by {
                lemma_split_shape(sv, o, kk, h);
                if o == 0 {
                } else {
                    assert(o - 1 == fc);
                    if kk < pl {
                        assert(sv[kk] == '+');
                    }
                    if pl < kk {
                        assert(sv[pl as int] == '+');
                    }
                }
            }
        }
        let role_v = match role_at(s, 0, pl) {
            Some(t) => t,
            None => {
                return Err(invalid_uri());
            },
        };
        let bind_v = match dir_at(s, pl + 1, fc) {
            Some(b) => b,
            None => {
                return Err(invalid_uri());
            },
        };
        olen = fc + 1;
        k = pl;
        socket_type = Some(role_v);
        bind = Some(bind_v);
        if !scheme_at_exec(s, n, olen) {
            return Err(invalid_uri());
        }
    }
    proof {
        // In any valid decomposition the options length is the one found.
        assert forall|o: int, kk: int, h: int| uri_split_ok(sv, o, kk, h) implies o == olen
            && kk == k by {
            lemma_split_shape(sv, o, kk, h);
            if olen == 0 && o > 0 {
                assert(sv[3] == ':');
                assert(o - 1 <= 3);
                lemma_role_token_chars(sv.subrange(0, kk));
            }
        }
    }
    // The host runs to the next colon, or to the end.
    let h = match find_char_in(s, olen + 6, n, ':') {
        Some(i) => i,
        None => n,
    };
    proof {
        assert forall|o: int, kk: int, hh: int| uri_split_ok(sv, o, kk, hh) implies hh == h by {
            if hh < h {
                assert(sv[hh] == ':');
            }
            if h < hh {
                assert(sv[h as int] == ':');
            }
        }
    }
    if h == olen + 6 {
        // Empty host.
        return Err(invalid_uri());
    }
    if h < n {
        if h + 1 >= n {
            // A lone trailing colon: the source would be empty.
            return Err(invalid_uri());
        }
        let is_writer = match &socket_type {
            Some(SocketType::Writer(_)) => true,
            _ => false,
        };
        if !is_writer {
            // A source tail is only allowed for writer roles.
            return Err(invalid_uri());
        }
    }
    let endpoint: String = s.substring_char(olen, h).to_owned();
    let source: Option<String> = if h < n {
        Some(s.substring_char(h + 1, n).to_owned())
    } else {
        None
    };
    let d = ZmqSocketUri { endpoint, source, bind, socket_type };
    proof {
        assert(uri_split_ok(sv, olen as int, k as int, h as int));
        assert(uri_parts_ok(sv, olen as int, k as int, h as int, d));
    }
    Ok(d)
}

/// No decomposition of `s` carries a writer-role options part.
pub open spec fn uri_names_no_writer(s: Seq<char>) -> bool {
    forall|olen: int, k: int, h: int|
        uri_split_ok(s, olen, k, h) && olen > 0 ==> !(role_of(s.subrange(0, k)) matches Some(
            SocketType::Writer(_),
        ))
}

/// No decomposition of `s` carries a reader-role options part.
pub open spec fn uri_names_no_reader(s: Seq<char>) -> bool {
    forall|olen: int, k: int, h: int|
        uri_split_ok(s, olen, k, h) && olen > 0 ==> !(role_of(s.subrange(0, k)) matches Some(
            SocketType::Reader(_),
        ))
}

/// Every parsed descriptor satisfies the data-model invariant: a source is
/// present only under a writer role, and `bind` and `socket_type` are either
/// both present or both absent.
pub proof fn lemma_parsed_descriptor_invariant(
    s: Seq<char>,
    olen: int,
    k: int,
    h: int,
    d: ZmqSocketUri,
)
    requires
        uri_split_ok(s, olen, k, h),
        uri_parts_ok(s, olen, k, h, d),
    ensures
        d.source is Some ==> d.socket_type matches Some(SocketType::Writer(_)),
        d.bind is Some <==> d.socket_type is Some,
{
}

// ---------------------------------------------------------------------------
// Local-IPC endpoints.
// ---------------------------------------------------------------------------
/// `s` starts with `ipc://`.
pub open spec fn ipc_prefix(s: Seq<char>) -> bool {
    s.len() >= 6 && s[0] == 'i' && s[1] == 'p' && s[2] == 'c' && s[3] == ':' && s[4] == '/' && s[5]
        == '/'
}

/// Is this endpoint a local-IPC endpoint?
pub fn is_ipc_endpoint(endpoint: &str) -> (r: bool)
    ensures
        r == ipc_prefix(endpoint@),
{
    let n = endpoint.unicode_len();
    n >= 6 && endpoint.get_char(0) == 'i' && endpoint.get_char(1) == 'p' && endpoint.get_char(2)
        == 'c' && endpoint.get_char(3) == ':' && endpoint.get_char(4) == '/' && endpoint.get_char(5)
        == '/'
}

/// The filesystem path of a local-IPC endpoint: what follows `ipc://`.
/// Fails when the endpoint does not carry the prefix or the path is empty;
/// preparing directories and permissions for that path is left to the caller
/// at the process edge.
pub fn ipc_socket_path(endpoint: &str) -> (r: Result<String, TransportError>)
    ensures
        r is Ok <==> (ipc_prefix(endpoint@) && endpoint@.len() > 6),
        r matches Ok(p) ==> p@ == endpoint@.subrange(6, endpoint@.len() as int),
        r matches Err(e) ==> e is IpcPrep,
{
    let n = endpoint.unicode_len();
    if !is_ipc_endpoint(endpoint) || n == 6 {
        return Err(
            TransportError::IpcPrep { message: String::from_str("invalid IPC endpoint") },
        );
    }
    Ok(endpoint.substring_char(6, n).to_owned())
}

// ---------------------------------------------------------------------------
// Formatting a descriptor back into a URI, and the round-trip law.
// ---------------------------------------------------------------------------
/// The token naming `role`.
pub open spec fn role_token_seq(role: SocketType) -> Seq<char> {
    match role {
        SocketType::Writer(WriterSocketType::Pub) => seq!['p', 'u', 'b'],
        SocketType::Reader(ReaderSocketType::Sub) => seq!['s', 'u', 'b'],
        SocketType::Writer(WriterSocketType::Req) => seq!['r', 'e', 'q'],
        SocketType::Reader(ReaderSocketType::Rep) => seq!['r', 'e', 'p'],
        SocketType::Writer(WriterSocketType::Dealer) => seq!['d', 'e', 'a', 'l', 'e', 'r'],
        SocketType::Reader(ReaderSocketType::Router) => seq!['r', 'o', 'u', 't', 'e', 'r'],
    }
}

/// The token naming the binding direction `bind`.
pub open spec fn dir_token_seq(bind: bool) -> Seq<char> {
    if bind {
        seq!['b', 'i', 'n', 'd']
    } else {
        seq!['c', 'o', 'n', 'n', 'e', 'c', 't']
    }
}

impl ZmqSocketUri {
    /// The URI this descriptor formats to.
    pub open spec fn spec_format(self) -> Seq<char> {
        (match self.socket_type {
            Some(t) => role_token_seq(t) + seq!['+'] + dir_token_seq(
                self.bind.unwrap_or(true),
            ) + seq![':'],
            None => Seq::<char>::empty(),
        }) + self.endpoint@ + (match self.source {
            Some(src) => seq![':'] + src@,
            None => Seq::<char>::empty(),
        })
    }

    /// A syntactically valid descriptor: the endpoint is `scheme://host` with
    /// a nonempty host free of `:`; `bind` and `socket_type` stand or fall
    /// together; a source is nonempty and only present on a writer role.
    pub open spec fn desc_wf(self) -> bool {
        &&& scheme_at(self.endpoint@, 0)
        &&& self.endpoint@.len() > 6
        &&& colon_free(self.endpoint@, 6, self.endpoint@.len() as int)
        &&& (self.bind is Some <==> self.socket_type is Some)
        &&& (self.source is Some ==> self.socket_type matches Some(SocketType::Writer(_)))
        &&& (self.source matches Some(src) ==> src@.len() > 0)
    }

    /// The fields of the two descriptors agree, comparing strings by content.
    pub open spec fn same_parts(self, other: ZmqSocketUri) -> bool {
        &&& self.endpoint@ == other.endpoint@
        &&& self.socket_type == other.socket_type
        &&& self.bind == other.bind
        &&& (match (self.source, other.source) {
            (Some(a), Some(b)) => a@ == b@,
            (None, None) => true,
            _ => false,
        })
    }

    /// Format this descriptor as a URI string.
    pub fn to_uri_string(&self) -> (r: String)
        ensures
            r@ == self.spec_format(),
    {
        let mut out = String::new();
        match (&self.socket_type, &self.bind) {
            (Some(t), b) => {
                match t {
                    SocketType::Writer(WriterSocketType::Pub) => {
                        out.append("pub");
                        proof {
                            reveal_strlit("pub");
                            assert("pub"@ =~= role_token_seq(SocketType::Writer(WriterSocketType::Pub)));
                        }
                    },
                    SocketType::Reader(ReaderSocketType::Sub) => {
                        out.append("sub");
                        proof {
                            reveal_strlit("sub");
                            assert("sub"@ =~= role_token_seq(SocketType::Reader(ReaderSocketType::Sub)));
                        }
                    },
                    SocketType::Writer(WriterSocketType::Req) => {
                        out.append("req");
                        proof {
                            reveal_strlit("req");
                            assert("req"@ =~= role_token_seq(SocketType::Writer(WriterSocketType::Req)));
                        }
                    },
                    SocketType::Reader(ReaderSocketType::Rep) => {
                        out.append("rep");
                        proof {
                            reveal_strlit("rep");
                            assert("rep"@ =~= role_token_seq(SocketType::Reader(ReaderSocketType::Rep)));
                        }
                    },
                    SocketType::Writer(WriterSocketType::Dealer) => {
                        out.append("dealer");
                        proof {
                            reveal_strlit("dealer");
                            assert("dealer"@ =~= role_token_seq(
                                SocketType::Writer(WriterSocketType::Dealer),
                            ));
                        }
                    },
                    SocketType::Reader(ReaderSocketType::Router) => {
                        out.append("router");
                        proof {
                            reveal_strlit("router");
                            assert("router"@ =~= role_token_seq(
                                SocketType::Reader(ReaderSocketType::Router),
                            ));
                        }
                    },
                }
                out.append("+");
                proof {
                    reveal_strlit("+");
                    assert("+"@ =~= seq!['+']);
                }
                let bind_val = match b {
                    Some(v) => *v,
                    None => true,
                };
                if bind_val {
                    out.append("bind");
                    proof {
                        reveal_strlit("bind");
                        assert("bind"@ =~= dir_token_seq(true));
                    }
                } else {
                    out.append("connect");
                    proof {
                        reveal_strlit("connect");
                        assert("connect"@ =~= dir_token_seq(false));
                    }
                }
                out.append(":");
                proof {
                    reveal_strlit(":");
                    assert(":"@ =~= seq![':']);
                }
            },
            (None, _) => {},
        }
        out.append(self.endpoint.as_str());
        match &self.source {
            Some(src) => {
                out.append(":");
                proof {
                    reveal_strlit(":");
                    assert(":"@ =~= seq![':']);
                }
                out.append(src.as_str());
            },
            None => {},
        }
        proof {
            assert(out@ =~= self.spec_format());
        }
        out
    }
}

/// Formatting and then parsing a token gives back the role it names.
proof fn lemma_role_token_roundtrip(role: SocketType)
    ensures
        role_of(role_token_seq(role)) == Some(role),
{
}

/// Formatting and then parsing a token gives back the direction it names.
proof fn lemma_dir_token_roundtrip(bind: bool)
    ensures
        dir_of(dir_token_seq(bind)) == Some(bind),
{
}

/// Round trip: formatting a syntactically valid descriptor and parsing the
/// result yields a descriptor with the same parts. Together with the parser's
/// contract this gives `parse(format(d))` succeeding with `d`'s fields, where
/// strings are compared by content.
pub proof fn lemma_parse_format_roundtrip(d: ZmqSocketUri)
    requires
        d.desc_wf(),
    ensures
        uri_well_formed(d.spec_format()),
        forall|olen: int, k: int, h: int, d2: ZmqSocketUri|
            uri_split_ok(d.spec_format(), olen, k, h) && uri_parts_ok(
                d.spec_format(),
                olen,
                k,
                h,
                d2,
            ) ==> d2.same_parts(d),
{
    let fs = d.spec_format();
    let olen0: int = match d.socket_type {
        Some(t) => role_token_seq(t).len() as int + 1 + dir_token_seq(
            d.bind.unwrap_or(true),
        ).len() as int + 1,
        None => 0,
    };
    let k0: int = match d.socket_type {
        Some(t) => role_token_seq(t).len() as int,
        None => 0,
    };
    let h0: int = olen0 + d.endpoint@.len();
    if d.socket_type is Some {
        let t = d.socket_type.unwrap();
        let b = d.bind.unwrap_or(true);
        lemma_role_token_roundtrip(t);
        lemma_dir_token_roundtrip(b);
        assert(fs.subrange(0, k0) =~= role_token_seq(t));
        assert(fs.subrange(k0 + 1, olen0 - 1) =~= dir_token_seq(b));
        assert(fs[k0] == '+');
        assert(fs[olen0 - 1] == ':');
    }
    assert forall|i: int| 0 <= i < d.endpoint@.len() implies fs[olen0 + i] == d.endpoint@[i] by {}
    if d.source is Some {
        let src = d.source.unwrap();
        assert(fs[h0] == ':');
        assert forall|i: int| 0 <= i < src@.len() implies fs[h0 + 1 + i] == src@[i] by {}
    }
    assert(uri_split_ok(fs, olen0, k0, h0));
    assert forall|olen: int, k: int, h: int, d2: ZmqSocketUri|
        uri_split_ok(fs, olen, k, h) && uri_parts_ok(fs, olen, k, h, d2) implies d2.same_parts(
        d,
    ) by {
        lemma_uri_split_unique(fs, olen, k, h, olen0, k0, h0);
        assert(d2.endpoint@ =~= d.endpoint@);
        if d.socket_type is Some {
            let t = d.socket_type.unwrap();
            let b = d.bind.unwrap_or(true);
            assert(fs.subrange(0, k0) =~= role_token_seq(t));
            assert(fs.subrange(k0 + 1, olen0 - 1) =~= dir_token_seq(b));
            lemma_role_token_roundtrip(t);
            lemma_dir_token_roundtrip(b);
            assert(d2.socket_type == Some(t));
            assert(d.bind == Some(b));
        }
        if d.source is Some {
            let src = d.source.unwrap();
            assert(d2.source is Some);
            assert(d2.source.unwrap()@ =~= src@);
        }
    }
}

} // verus!
