//! Decisions of the sandboxed static file server.
//!
//! The server loop itself performs I/O and lives outside the library;
//! everything it decides — how a request path is decoded and joined onto
//! the served root, whether the canonicalized result is still inside the
//! root, which content type a file gets, and which status each outcome
//! maps to — is decided here.  A path that escapes the root is answered
//! exactly like a missing file, so the response leaks nothing.

use vstd::prelude::*;

use crate::state::last_dot;
use crate::state::lemma_last_dot;
use crate::state::spec_file_name;
use crate::text::chars_eq;
use crate::text::chars_of;
use crate::text::chars_range;
use crate::text::push_chars;
use crate::text::rfind_char;
use crate::text::string_of;

verus! {

/// The first port tried when no port is requested.
pub const SERVE_PORT_RANGE_START: u16 = 8000;

/// The end (exclusive) of the scanned port range.
pub const SERVE_PORT_RANGE_END: u16 = 8100;

/// The value of one hexadecimal digit character.
pub open spec fn hex_digit_val(c: char) -> Option<u8> {
    if '0' as u32 <= c as u32 && c as u32 <= '9' as u32 {
        Some((c as u32 - '0' as u32) as u8)
    } else if 'a' as u32 <= c as u32 && c as u32 <= 'f' as u32 {
        Some((c as u32 - 'a' as u32 + 10) as u8)
    } else if 'A' as u32 <= c as u32 && c as u32 <= 'F' as u32 {
        Some((c as u32 - 'A' as u32 + 10) as u8)
    } else {
        None
    }
}

/// The byte encoded by a two-character escape body.  A leading `+`
/// before a single hex digit is accepted, as radix parsers commonly
/// accept a sign.
pub open spec fn hex2_val(h1: char, h2: char) -> Option<u8> {
    match (hex_digit_val(h1), hex_digit_val(h2)) {
        (Some(a), Some(b)) => Some((16 * a + b) as u8),
        _ => {
            if h1 == '+' && hex_digit_val(h2) is Some {
                Some(hex_digit_val(h2)->0)
            } else {
                None
            }
        },
    }
}

/// The percent-decoding of a request path: `%XX` becomes the byte `XX`
/// read as a character, a `%` whose escape body does not parse is copied
/// with that body, a trailing `%` with less than two characters after it
/// is copied as it stands, and `+` becomes a space.
pub open spec fn spec_url_decode(s: Seq<char>) -> Seq<char>
    decreases s.len(),
{
    if s.len() == 0 {
        Seq::empty()
    } else if s[0] == '%' {
        if s.len() >= 3 {
            match hex2_val(s[1], s[2]) {
                Some(b) => seq![b as char] + spec_url_decode(s.skip(3)),
                None => seq![s[0], s[1], s[2]] + spec_url_decode(s.skip(3)),
            }
        } else {
            s
        }
    } else if s[0] == '+' {
        seq![' '] + spec_url_decode(s.skip(1))
    } else {
        seq![s[0]] + spec_url_decode(s.skip(1))
    }
}

fn hex_digit_val_exec(c: char) -> (r: Option<u8>)
    ensures
        r == hex_digit_val(c),
{
    let cu = c as u32;
    if cu >= '0' as u32 && cu <= '9' as u32 {
        Some((cu - '0' as u32) as u8)
    } else if cu >= 'a' as u32 && cu <= 'f' as u32 {
        Some((cu - 'a' as u32 + 10) as u8)
    } else if cu >= 'A' as u32 && cu <= 'F' as u32 {
        Some((cu - 'A' as u32 + 10) as u8)
    } else {
        None
    }
}

fn hex2_val_exec(h1: char, h2: char) -> (r: Option<u8>)
    ensures
        r == hex2_val(h1, h2),
{
    match (hex_digit_val_exec(h1), hex_digit_val_exec(h2)) {
        (Some(a), Some(b)) => Some(16 * a + b),
        (_, ob) => {
            if h1 == '+' && ob.is_some() {
                ob
            } else {
                None
            }
        },
    }
}

/// Percent-decodes a request path and maps `+` to space.
pub fn urlencoding_decode(s: &str) -> (r: String)
    ensures
        r@ == spec_url_decode(s@),
{
    let cs = chars_of(s);
    let mut out: Vec<char> = Vec::new();
    let mut i: usize = 0;
    proof {
        assert(cs@.skip(0) =~= cs@);
    }
    while i < cs.len()
        invariant
            i <= cs@.len(),
            spec_url_decode(cs@) == out@ + spec_url_decode(cs@.skip(i as int)),
        decreases cs@.len() - i,
    {
        let ghost tail = cs@.skip(i as int);
        let c = cs[i];
        proof {
            assert(tail[0] == c);
        }
        if c == '%' {
            if cs.len() - i >= 3 {
                let h1 = cs[i + 1];
                let h2 = cs[i + 2];
                proof {
                    assert(tail[1] == h1);
                    assert(tail[2] == h2);
                    assert(tail.skip(3) =~= cs@.skip(i as int + 3));
                }
                match hex2_val_exec(h1, h2) {
                    Some(b) => {
                        out.push(b as char);
                        proof {
                            assert(out@ + spec_url_decode(cs@.skip(i as int + 3)) =~= (
                            out@.drop_last() + seq![b as char]) + spec_url_decode(
                                cs@.skip(i as int + 3),
                            ));
                            assert(out@.drop_last() + (seq![b as char] + spec_url_decode(
                                cs@.skip(i as int + 3),
                            )) =~= (out@.drop_last() + seq![b as char]) + spec_url_decode(
                                cs@.skip(i as int + 3),
                            ));
                        }
                    },
                    None => {
                        out.push(c);
                        out.push(h1);
                        out.push(h2);
                        proof {
                            assert(out@ + spec_url_decode(cs@.skip(i as int + 3))
                                =~= out@.subrange(0, out@.len() - 3) + (seq![c, h1, h2]
                                + spec_url_decode(cs@.skip(i as int + 3))));
                        }
                    },
                }
                i = i + 3;
            } else {
                // A lone `%` at the end, with at most one character
                // after it: everything left is copied as it stands.
                out.push(c);
                if i + 1 < cs.len() {
                    out.push(cs[i + 1]);
                }
                proof {
                    if i + 1 < cs@.len() {
                        assert(tail =~= seq![c, cs@[i as int + 1]]);
                    } else {
                        assert(tail =~= seq![c]);
                    }
                    assert(out@ + Seq::<char>::empty() =~= out@);
                    assert(spec_url_decode(cs@.skip(cs@.len() as int)) == Seq::<char>::empty());
                }
                i = cs.len();
            }
        } else {
            let mapped = if c == '+' {
                ' '
            } else {
                c
            };
            out.push(mapped);
            proof {
                assert(tail.skip(1) =~= cs@.skip(i as int + 1));
                assert(out@ + spec_url_decode(cs@.skip(i as int + 1)) =~= out@.drop_last() + (seq![
                    mapped,
                ] + spec_url_decode(cs@.skip(i as int + 1))));
            }
            i = i + 1;
        }
    }
    proof {
        assert(cs@.skip(cs@.len() as int) =~= Seq::<char>::empty());
        assert(out@ + Seq::<char>::empty() =~= out@);
    }
    string_of(&out)
}

/// A character lowered to its ASCII lowercase form.
pub open spec fn ascii_lower_char(c: char) -> char {
    if 'A' as u32 <= c as u32 && c as u32 <= 'Z' as u32 {
        ((c as u32 + 32) as u8) as char
    } else {
        c
    }
}

/// A sequence lowered character by character.
pub open spec fn ascii_lower(s: Seq<char>) -> Seq<char> {
    s.map_values(|c: char| ascii_lower_char(c))
}

/// The extension of the final path component: the characters after its
/// last `.`, unless the only `.` leads the component.
pub open spec fn spec_extension(p: Seq<char>) -> Option<Seq<char>> {
    match spec_file_name(p) {
        None => None,
        Some(n) => {
            let d = last_dot(n);
            if d <= 0 {
                None
            } else {
                Some(n.skip(d + 1))
            }
        },
    }
}

/// The content type chosen for a path: by its extension, compared
/// without regard to ASCII case, with a generic binary type for anything
/// unrecognized.
pub open spec fn spec_content_type(p: Seq<char>) -> Seq<char> {
    let e = match spec_extension(p) {
        Some(e) => ascii_lower(e),
        None => Seq::<char>::empty(),
    };
    if e == "html"@ || e == "htm"@ {
        "text/html; charset=utf-8"@
    } else if e == "css"@ {
        "text/css; charset=utf-8"@
    } else if e == "js"@ {
        "application/javascript; charset=utf-8"@
    } else if e == "json"@ {
        "application/json; charset=utf-8"@
    } else if e == "png"@ {
        "image/png"@
    } else if e == "jpg"@ || e == "jpeg"@ {
        "image/jpeg"@
    } else if e == "gif"@ {
        "image/gif"@
    } else if e == "svg"@ {
        "image/svg+xml"@
    } else if e == "txt"@ {
        "text/plain; charset=utf-8"@
    } else if e == "py"@ {
        "text/x-python; charset=utf-8"@
    } else {
        "application/octet-stream"@
    }
}

/// The extension of a path, lowered, or nothing.
fn extension_lower_chars(cs: &Vec<char>) -> (r: Option<Vec<char>>)
    ensures
        r matches Some(v) ==> spec_extension(cs@) matches Some(e) && v@ == ascii_lower(e),
        r is None ==> spec_extension(cs@) is None,
{
    let (a, b) = match crate::state::file_name_range(cs) {
        Some(se) => se,
        None => {
            return None;
        },
    };
    let name = chars_range(cs, a, b);
    proof {
        lemma_last_dot(name@);
    }
    let d = rfind_char(&name, '.');
    proof {
        if d > 0 {
            assert(last_dot(name@) == d - 1);
        } else {
            assert(last_dot(name@) == -1);
        }
    }
    if d < 2 {
        return None;
    }
    let ext = chars_range(&name, d, name.len());
    let mut low: Vec<char> = Vec::new();
    let mut i: usize = 0;
    while i < ext.len()
        invariant
            i <= ext@.len(),
            low@.len() == i,
            forall|j: int| 0 <= j < i ==> low@[j] == ascii_lower_char(ext@[j]),
        decreases ext@.len() - i,
    {
        let c = ext[i];
        let cu = c as u32;
        if cu >= 'A' as u32 && cu <= 'Z' as u32 {
            let b = (cu + 32) as u8;
            low.push(b as char);
        } else {
            low.push(c);
        }
        i = i + 1;
    }
    proof {
        assert(low@ =~= ascii_lower(ext@));
    }
    Some(low)
}

/// Picks the content type for a file path from the fixed extension
/// table.
pub fn guess_content_type(path: &str) -> (r: String)
    ensures
        r@ == spec_content_type(path@),
{
    let cs = chars_of(path);
    let low = match extension_lower_chars(&cs) {
        Some(v) => v,
        None => Vec::new(),
    };
    proof {
        assert(Seq::<char>::empty() =~= ascii_lower(Seq::<char>::empty()));
    }
    let r = if chars_eq(&low, &chars_of("html")) || chars_eq(&low, &chars_of("htm")) {
        "text/html; charset=utf-8"
    } else if chars_eq(&low, &chars_of("css")) {
        "text/css; charset=utf-8"
    } else if chars_eq(&low, &chars_of("js")) {
        "application/javascript; charset=utf-8"
    } else if chars_eq(&low, &chars_of("json")) {
        "application/json; charset=utf-8"
    } else if chars_eq(&low, &chars_of("png")) {
        "image/png"
    } else if chars_eq(&low, &chars_of("jpg")) || chars_eq(&low, &chars_of("jpeg")) {
        "image/jpeg"
    } else if chars_eq(&low, &chars_of("gif")) {
        "image/gif"
    } else if chars_eq(&low, &chars_of("svg")) {
        "image/svg+xml"
    } else if chars_eq(&low, &chars_of("txt")) {
        "text/plain; charset=utf-8"
    } else if chars_eq(&low, &chars_of("py")) {
        "text/x-python; charset=utf-8"
    } else {
        "application/octet-stream"
    };
    r.to_owned()
}

/// The request path without its leading slashes.
pub open spec fn spec_trim_slashes(s: Seq<char>) -> Seq<char>
    decreases s.len(),
{
    if s.len() > 0 && s[0] == '/' {
        spec_trim_slashes(s.drop_first())
    } else {
        s
    }
}

/// The file path a request resolves to before canonicalization: the
/// empty path means the root's `index.html`; joining an absolute path
/// replaces the root wholesale, exactly as path join does — the sandbox
/// check afterwards is what keeps such a path from being served.
pub open spec fn spec_request_file_path(root: Seq<char>, decoded: Seq<char>) -> Seq<char> {
    if decoded.len() == 0 {
        root + "/index.html"@
    } else if decoded[0] == '/' {
        decoded
    } else {
        root + "/"@ + decoded
    }
}

/// Resolves a raw request path against the served root: strips leading
/// slashes, percent-decodes, and joins.
pub fn resolve_request_path(root: &str, raw: &str) -> (r: String)
    ensures
        r@ == spec_request_file_path(root@, spec_url_decode(spec_trim_slashes(raw@))),
{
    let cs = chars_of(raw);
    let mut k: usize = 0;
    proof {
        assert(cs@.skip(0) =~= cs@);
    }
    while k < cs.len() && cs[k] == '/'
        invariant
            k <= cs@.len(),
            spec_trim_slashes(cs@) == spec_trim_slashes(cs@.skip(k as int)),
        decreases cs@.len() - k,
    {
        proof {
            assert(cs@.skip(k as int).drop_first() =~= cs@.skip(k as int + 1));
        }
        k = k + 1;
    }
    let trimmed = chars_range(&cs, k, cs.len());
    proof {
        assert(trimmed@ =~= cs@.skip(k as int));
    }
    let trimmed_str = string_of(&trimmed);
    let decoded = urlencoding_decode(trimmed_str.as_str());
    let dcs = chars_of(decoded.as_str());
    let mut out: Vec<char> = Vec::new();
    if dcs.len() == 0 {
        let root_cs = chars_of(root);
        push_chars(&mut out, &root_cs);
        let suffix = chars_of("/index.html");
        push_chars(&mut out, &suffix);
    } else if dcs[0] == '/' {
        push_chars(&mut out, &dcs);
    } else {
        let root_cs = chars_of(root);
        push_chars(&mut out, &root_cs);
        let slash = chars_of("/");
        push_chars(&mut out, &slash);
        push_chars(&mut out, &dcs);
    }
    string_of(&out)
}

/// Whether a canonical path lies inside a canonical root: the root is a
/// prefix and ends a path component there.  Mirrors the component-wise
/// prefix test of path `starts_with` for canonical absolute paths, which
/// hold no `..` and no doubled or trailing separators.
pub open spec fn spec_within_root(p: Seq<char>, root: Seq<char>) -> bool {
    &&& root.is_prefix_of(p)
    &&& (p.len() == root.len() || p[root.len() as int] == '/' || (root.len() > 0 && root.last()
        == '/'))
}

/// The sole traversal defense: a freshly canonicalized request path is
/// served only when the canonical root still prefixes it.
pub fn path_within_root(path: &str, root: &str) -> (r: bool)
    ensures
        r == spec_within_root(path@, root@),
{
    let p = chars_of(path);
    let rt = chars_of(root);
    if !crate::text::chars_start_with(&p, &rt) {
        return false;
    }
    if p.len() == rt.len() {
        return true;
    }
    if p[rt.len()] == '/' {
        return true;
    }
    if rt.len() > 0 && rt[rt.len() - 1] == '/' {
        return true;
    }
    false
}

/// The status a request is answered with: a path outside the root is
/// not found — indistinguishable from a genuinely absent file — a
/// present regular file is served when its read completes, and a failed
/// read is a server error.
pub fn response_status(within_root: bool, is_file: bool, read_ok: bool) -> (r: u16)
    ensures
        !within_root ==> r == 404,
        within_root && !is_file ==> r == 404,
        within_root && is_file && read_ok ==> r == 200,
        within_root && is_file && !read_ok ==> r == 500,
{
    if !within_root {
        404
    } else if !is_file {
        404
    } else if read_ok {
        200
    } else {
        500
    }
}

} // verus!
