//! The local sockets that a remote session is forwarded to. Their paths have to
//! fit in a socket address, and so do the paths derived from them.

use vstd::prelude::*;
use vstd::std_specs::hash::DefaultHasherAdditionalSpecFns;
use vstd::utf8;
use std::collections::hash_map::DefaultHasher;
use std::hash::Hasher;
use crate::remote::quote;
use crate::text;

verus! {

broadcast use vstd::string::group_string_axioms;

/// The bytes that a path may take: the smallest socket address in use holds 104
/// bytes, one of which ends the path.
pub const SOCKET_PATH_MAX: usize = 103;

/// What deriving the client socket adds to the path of the API socket.
pub const DERIVED_CLIENT_SUFFIX_RESERVE: usize = 7;

/// The number of bytes of a text.
pub open spec fn byte_len(s: Seq<char>) -> nat {
    utf8::encode_utf8(s).len()
}

/// Whether a path fits in a socket address, with bytes to spare.
pub open spec fn fits(path: Seq<char>, reserve: nat) -> bool {
    byte_len(path) + reserve <= SOCKET_PATH_MAX
}

/// Whether a path fits in a socket address.
pub fn fits_unix_socket_path(path: &str) -> (r: bool)
    ensures
        r == fits(path@, 0),
{
    fits_unix_socket_path_with_reserve(path, 0)
}

/// Whether a path fits in a socket address, with bytes to spare.
pub fn fits_unix_socket_path_with_reserve(path: &str, reserve: usize) -> (r: bool)
    ensures
        r == fits(path@, reserve as nat),
{
    let n: usize = path.as_bytes().len();
    n <= SOCKET_PATH_MAX && reserve <= SOCKET_PATH_MAX - n
}

/// A name in a directory.
pub open spec fn path_in(dir: Seq<char>, name: Seq<char>) -> Seq<char> {
    if dir.len() == 0 {
        name
    } else if dir.last() == '/' {
        dir + name
    } else {
        dir + "/"@ + name
    }
}

/// A relative name in a directory.
pub fn join_path(dir: &str, name: &str) -> (r: String)
    requires
        name@.len() > 0 ==> name@[0] != '/',
    ensures
        r@ == path_in(dir@, name@),
{
    let v = text::to_chars(dir);
    if v.len() == 0 {
        name.to_string()
    } else if v[v.len() - 1] == '/' {
        text::join2(dir, name)
    } else {
        text::join3(dir, "/", name)
    }
}

/// The digit of a number below sixteen.
pub open spec fn hex_digit(n: nat) -> char {
    if n < 10 {
        text::digit(n)
    } else {
        (('a' as u32) + (n - 10)) as char
    }
}

/// The last `k` hexadecimal digits of a number.
pub open spec fn hex(n: nat, k: nat) -> Seq<char>
    decreases k,
{
    if k == 0 {
        seq![]
    } else {
        hex(n / 16, (k - 1) as nat).push(hex_digit(n % 16))
    }
}

fn hex_char(n: u64) -> (c: char)
    requires
        n < 16,
    ensures
        c == hex_digit(n as nat),
{
    let b: u8 = n as u8;
    if n < 10 {
        (48 + b) as char
    } else {
        (87 + b) as char
    }
}

fn hex_text(n: u64, k: usize) -> (r: String)
    ensures
        r@ == hex(n as nat, k as nat),
    decreases k,
{
    if k == 0 {
        let r = String::new();
        assert(r@ =~= seq![]);
        r
    } else {
        let mut r = hex_text(n / 16, k - 1);
        r.push(hex_char(n % 16));
        r
    }
}

/// What is hashed: each text, a byte that no text holds after it, and a zero
/// between two texts.
pub open spec fn hashed(target: Seq<char>, session: Seq<char>, kind: Seq<char>) -> Seq<Seq<u8>> {
    seq![
        utf8::encode_utf8(target),
        seq![0xffu8],
        seq![0u8],
        utf8::encode_utf8(session),
        seq![0xffu8],
        seq![0u8],
        utf8::encode_utf8(kind),
        seq![0xffu8],
    ]
}

/// The hash in a short socket name.
pub open spec fn socket_hash(target: Seq<char>, session: Seq<char>, kind: Seq<char>) -> Seq<char> {
    hex(DefaultHasher::spec_finish(hashed(target, session, kind)) as nat, 16)
}

/// The hash in a short socket name. It covers the whole target and session, so
/// that two sessions do not share a name because their texts were cut.
pub fn short_socket_hash(target: &str, session: &str, kind: &str) -> (r: String)
    ensures
        r@ == socket_hash(target@, session@, kind@),
{
    let mut hasher = DefaultHasher::new();
    let end: Vec<u8> = vec![0xff];
    let gap: Vec<u8> = vec![0];
    assert(end@ =~= seq![0xffu8]);
    assert(gap@ =~= seq![0u8]);
    hasher.write(target.as_bytes());
    hasher.write(end.as_slice());
    hasher.write(gap.as_slice());
    hasher.write(session.as_bytes());
    hasher.write(end.as_slice());
    hasher.write(gap.as_slice());
    hasher.write(kind.as_bytes());
    hasher.write(end.as_slice());
    assert(hasher@ =~= hashed(target@, session@, kind@));
    hex_text(hasher.finish(), 16)
}

/// The readable name of an API socket.
pub open spec fn readable_name(pid: u32, target: Seq<char>, session: Seq<char>) -> Seq<char> {
    "herdr-remote-"@ + text::decimal(pid as nat) + "-"@ + quote::component(target) + "-"@
        + quote::component(session) + "-api.sock"@
}

/// The short name of an API socket.
pub open spec fn short_name(pid: u32, target: Seq<char>, session: Seq<char>) -> Seq<char> {
    "herdr-r-"@ + text::decimal(pid as nat) + "-"@ + quote::at_most(quote::component(target), 8)
        + "-api."@ + socket_hash(target, session, "api"@) + ".sock"@
}

/// The path of the API socket: a readable name where it fits, else a short one,
/// and that in `/tmp` where the temporary directory itself is too long.
pub open spec fn api_socket(tmpdir: Seq<char>, pid: u32, target: Seq<char>, session: Seq<char>) -> Seq<
    char,
> {
    let readable = path_in(tmpdir, readable_name(pid, target, session));
    let short = short_name(pid, target, session);
    if fits(readable, DERIVED_CLIENT_SUFFIX_RESERVE as nat) {
        readable
    } else if fits(path_in(tmpdir, short), DERIVED_CLIENT_SUFFIX_RESERVE as nat) {
        path_in(tmpdir, short)
    } else {
        path_in("/tmp"@, short)
    }
}

/// The path of the local API socket of a remote session, in the temporary
/// directory of the process.
pub fn local_forward_api_socket_path(tmpdir: &str, pid: u32, target: &str, session_name: &str) -> (r:
    String)
    ensures
        r@ == api_socket(tmpdir@, pid, target@, session_name@),
{
    let target_clean = quote::sanitize_path_component(target);
    let session_clean = quote::sanitize_path_component(session_name);
    let pid_text = text::decimal_text(pid as u64);
    let mut name = "herdr-remote-".to_string();
    name.append(pid_text.as_str());
    name.append("-");
    name.append(target_clean.as_str());
    name.append("-");
    name.append(session_clean.as_str());
    name.append("-api.sock");
    proof {
        reveal_strlit("herdr-remote-");
        reveal_strlit("herdr-r-");
        assert(name@[0] == "herdr-remote-"@[0]);
    }
    let readable = join_path(tmpdir, name.as_str());
    if fits_unix_socket_path_with_reserve(readable.as_str(), DERIVED_CLIENT_SUFFIX_RESERVE) {
        return readable;
    }
    let prefix = quote::first_chars(target_clean.as_str(), 8);
    let hash = short_socket_hash(target, session_name, "api");
    let mut short = "herdr-r-".to_string();
    short.append(pid_text.as_str());
    short.append("-");
    short.append(prefix.as_str());
    short.append("-api.");
    short.append(hash.as_str());
    short.append(".sock");
    assert(short@[0] == "herdr-r-"@[0]);
    let in_tmpdir = join_path(tmpdir, short.as_str());
    if fits_unix_socket_path_with_reserve(in_tmpdir.as_str(), DERIVED_CLIENT_SUFFIX_RESERVE) {
        return in_tmpdir;
    }
    join_path("/tmp", short.as_str())
}

/// The client socket that goes with an API socket.
pub open spec fn client_socket_of(api: Seq<char>) -> Seq<char> {
    api.take(api.len() - 5) + "-client.sock"@
}

/// The client socket that goes with an API socket: `-client` stands before its
/// `.sock`.
pub fn derive_client_socket_from_api_socket(api: &str) -> (r: String)
    requires
        text::has_suffix(api@, ".sock"@),
    ensures
        r@ == client_socket_of(api@),
{
    proof {
        reveal_strlit(".sock");
    }
    let v = text::to_chars(api);
    let stem = text::from_chars(v.as_slice(), 0, v.len() - 5);
    assert(stem@ =~= api@.take(api@.len() - 5));
    text::join2(stem.as_str(), "-client.sock")
}

/// The two local sockets of a remote session.
#[derive(Clone, Debug, PartialEq, Eq)]
pub struct RemoteBridgePaths {
    pub client_socket: String,
    pub api_socket: String,
}

/// The local sockets of a remote session. A client that is told of both derives
/// the client socket from the API socket, so that is where the bridge listens.
pub fn remote_bridge_socket_paths(tmpdir: &str, pid: u32, target: &str, session_name: &str) -> (r:
    RemoteBridgePaths)
    ensures
        r.api_socket@ == api_socket(tmpdir@, pid, target@, session_name@),
        r.client_socket@ == client_socket_of(r.api_socket@),
{
    let api_socket = local_forward_api_socket_path(tmpdir, pid, target, session_name);
    proof {
        lemma_api_socket_ends_in_sock(tmpdir@, pid, target@, session_name@);
    }
    let client_socket = derive_client_socket_from_api_socket(api_socket.as_str());
    RemoteBridgePaths { client_socket, api_socket }
}

proof fn lemma_suffix_in(dir: Seq<char>, name: Seq<char>, suffix: Seq<char>)
    requires
        text::has_suffix(name, suffix),
    ensures
        text::has_suffix(path_in(dir, name), suffix),
{
    let p = path_in(dir, name);
    assert(p.skip(p.len() - suffix.len()) =~= name.skip(name.len() - suffix.len()));
}

proof fn lemma_suffix_of_sum(a: Seq<char>, b: Seq<char>, suffix: Seq<char>)
    requires
        text::has_suffix(b, suffix),
    ensures
        text::has_suffix(a + b, suffix),
{
    let p = a + b;
    assert(p.skip(p.len() - suffix.len()) =~= b.skip(b.len() - suffix.len()));
}

proof fn lemma_api_socket_ends_in_sock(
    tmpdir: Seq<char>,
    pid: u32,
    target: Seq<char>,
    session: Seq<char>,
)
    ensures
        text::has_suffix(api_socket(tmpdir, pid, target, session), ".sock"@),
{
    reveal_strlit(".sock");
    reveal_strlit("-api.sock");
    assert("-api.sock"@.skip(4) =~= ".sock"@);
    assert(".sock"@.skip(0) =~= ".sock"@);
    let readable = readable_name(pid, target, session);
    let short = short_name(pid, target, session);
    lemma_suffix_of_sum(
        "herdr-remote-"@ + text::decimal(pid as nat) + "-"@ + quote::component(target) + "-"@
            + quote::component(session),
        "-api.sock"@,
        ".sock"@,
    );
    lemma_suffix_of_sum(
        "herdr-r-"@ + text::decimal(pid as nat) + "-"@ + quote::at_most(
            quote::component(target),
            8,
        ) + "-api."@ + socket_hash(target, session, "api"@),
        ".sock"@,
        ".sock"@,
    );
    lemma_suffix_in(tmpdir, readable, ".sock"@);
    lemma_suffix_in(tmpdir, short, ".sock"@);
    lemma_suffix_in("/tmp"@, short, ".sock"@);
}

proof fn lemma_encode_sum(a: Seq<char>, b: Seq<char>)
    ensures
        utf8::encode_utf8(a + b) == utf8::encode_utf8(a) + utf8::encode_utf8(b),
        byte_len(a + b) == byte_len(a) + byte_len(b),
    decreases a.len(),
{
    if a.len() == 0 {
        assert(a + b =~= b);
        assert(utf8::encode_utf8(a) + utf8::encode_utf8(b) =~= utf8::encode_utf8(b));
    } else {
        lemma_encode_sum(a.drop_first(), b);
        assert((a + b).drop_first() =~= a.drop_first() + b);
        assert(utf8::encode_utf8(a + b) =~= utf8::encode_utf8(a) + utf8::encode_utf8(b));
    }
}

proof fn lemma_ascii_len(s: Seq<char>)
    requires
        utf8::is_ascii_chars(s),
    ensures
        byte_len(s) == s.len(),
{
    utf8::is_ascii_chars_encode_utf8(s);
}

proof fn lemma_decimal_ascii(n: nat)
    ensures
        utf8::is_ascii_chars(text::decimal(n)),
        n < 10000000000 ==> text::decimal(n).len() <= 10,
    decreases n,
{
    if n >= 10 {
        lemma_decimal_ascii(n / 10);
        if n < 10000000000 {
            assert(power_of_ten(10) == 10000000000) by {
                reveal_with_fuel(power_of_ten, 11);
            }
            lemma_decimal_len(n, 10);
        }
        let d = text::decimal(n);
        assert forall|i: int| 0 <= i < d.len() implies '\0' <= #[trigger] d[i] <= '\u{7f}' by {
            if i < d.len() - 1 {
                assert(d[i] == text::decimal(n / 10)[i]);
            }
        }
    }
}

proof fn lemma_decimal_len(n: nat, k: nat)
    requires
        1 <= k <= 10,
        n < power_of_ten(k),
    ensures
        text::decimal(n).len() <= k,
    decreases k,
{
    if n >= 10 {
        assert(power_of_ten(1) == 10) by {
            reveal_with_fuel(power_of_ten, 2);
        }
        assert(k > 1);
        lemma_decimal_len(n / 10, (k - 1) as nat);
    }
}

/// Ten to the given power.
spec fn power_of_ten(k: nat) -> nat
    decreases k,
{
    if k == 0 {
        1
    } else {
        10 * power_of_ten((k - 1) as nat)
    }
}

proof fn lemma_hex_ascii(n: nat, k: nat)
    ensures
        hex(n, k).len() == k,
        utf8::is_ascii_chars(hex(n, k)),
    decreases k,
{
    if k > 0 {
        lemma_hex_ascii(n / 16, (k - 1) as nat);
        assert forall|i: int| 0 <= i < hex(n, k).len() implies '\0' <= #[trigger] hex(
            n,
            k,
        )[i] <= '\u{7f}' by {
            if i < k - 1 {
                assert(hex(n, k)[i] == hex(n / 16, (k - 1) as nat)[i]);
            }
        }
    }
}

proof fn lemma_name_char_ascii(c: char)
    requires
        quote::is_name_char(c),
    ensures
        '\0' <= c <= '\u{7f}',
{
}

proof fn lemma_short_name_len(pid: u32, target: Seq<char>, session: Seq<char>)
    ensures
        byte_len(path_in("/tmp"@, short_name(pid, target, session)))
            + DERIVED_CLIENT_SUFFIX_RESERVE <= SOCKET_PATH_MAX,
{
    reveal_strlit("/tmp");
    reveal_strlit("/");
    reveal_strlit("herdr-r-");
    reveal_strlit("-");
    reveal_strlit("-api.");
    reveal_strlit(".sock");
    let d = text::decimal(pid as nat);
    let c = quote::component(target);
    let p = quote::at_most(c, 8);
    let h = socket_hash(target, session, "api"@);
    lemma_decimal_ascii(pid as nat);
    quote::law_components_are_file_names(target);
    lemma_hex_ascii(DefaultHasher::spec_finish(hashed(target, session, "api"@)) as nat, 16);
    assert forall|i: int| 0 <= i < p.len() implies '\0' <= #[trigger] p[i] <= '\u{7f}' by {
        assert(p[i] == c[i]);
        assert(quote::is_name_char(c[i]));
        lemma_name_char_ascii(c[i]);
    }
    lemma_ascii_len(d);
    lemma_ascii_len(p);
    lemma_ascii_len(h);
    lemma_ascii_len("/tmp"@);
    lemma_ascii_len("/"@);
    lemma_ascii_len("herdr-r-"@);
    lemma_ascii_len("-"@);
    lemma_ascii_len("-api."@);
    lemma_ascii_len(".sock"@);
    let s1 = "herdr-r-"@ + d;
    let s2 = s1 + "-"@;
    let s3 = s2 + p;
    let s4 = s3 + "-api."@;
    let s5 = s4 + h;
    let s6 = s5 + ".sock"@;
    lemma_encode_sum("herdr-r-"@, d);
    lemma_encode_sum(s1, "-"@);
    lemma_encode_sum(s2, p);
    lemma_encode_sum(s3, "-api."@);
    lemma_encode_sum(s4, h);
    lemma_encode_sum(s5, ".sock"@);
    lemma_encode_sum("/tmp"@, "/"@);
    lemma_encode_sum("/tmp"@ + "/"@, s6);
    assert("/tmp"@.len() == 4 && "/"@.len() == 1 && "herdr-r-"@.len() == 8 && "-"@.len() == 1
        && "-api."@.len() == 5 && ".sock"@.len() == 5);
    assert("/tmp"@.last() == 'p');
}

/// Whatever the temporary directory, the target and the session, both local
/// sockets of a remote session fit in a socket address.
pub proof fn law_bridge_sockets_fit(
    tmpdir: Seq<char>,
    pid: u32,
    target: Seq<char>,
    session: Seq<char>,
)
    ensures
        fits(api_socket(tmpdir, pid, target, session), 0),
        fits(client_socket_of(api_socket(tmpdir, pid, target, session)), 0),
{
    lemma_short_name_len(pid, target, session);
    lemma_api_socket_ends_in_sock(tmpdir, pid, target, session);
    reveal_strlit(".sock");
    reveal_strlit("-client.sock");
    let api = api_socket(tmpdir, pid, target, session);
    let stem = api.take(api.len() - 5);
    assert(api =~= stem + ".sock"@) by {
        assert(api.skip(api.len() - 5) == ".sock"@);
        assert(stem + api.skip(api.len() - 5) =~= api);
    }
    lemma_encode_sum(stem, ".sock"@);
    lemma_encode_sum(stem, "-client.sock"@);
    lemma_ascii_len(".sock"@);
    lemma_ascii_len("-client.sock"@);
}

/// The two sockets of a remote session are never the same.
pub proof fn law_bridge_sockets_differ(
    tmpdir: Seq<char>,
    pid: u32,
    target: Seq<char>,
    session: Seq<char>,
)
    ensures
        client_socket_of(api_socket(tmpdir, pid, target, session)) != api_socket(
            tmpdir,
            pid,
            target,
            session,
        ),
{
    lemma_api_socket_ends_in_sock(tmpdir, pid, target, session);
    reveal_strlit(".sock");
    reveal_strlit("-client.sock");
    let api = api_socket(tmpdir, pid, target, session);
    assert(client_socket_of(api).len() == api.len() + 7);
}

} // verus!
