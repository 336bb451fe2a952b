//! The parts of the update check that touch nothing outside: the URLs of the
//! release feed, of downloads and of release pages, and which download
//! hosts are allowed. The feed itself is read in [`crate::atom_feed`].

use vstd::prelude::*;
use vstd::utf8::{decode_utf8, encode_utf8, valid_utf8};

use crate::text::{
    same_chars,
    after_first, after_last, before_any, chars_of, eq_ignore_case, eq_ignore_case_exec,
    find_any_exec, lemma_after_last_none, lemma_after_last_tail, lower_exec, lower_seq, slice_of, string_of, strip_prefix, strip_prefix_exec,
    strip_suffix, strip_suffix_exec, trim, trim_exec,
};
use crate::version::split_first_exec;

pub use crate::atom_feed::extract_latest_tag_from_atom;


pub use crate::version::Version;

verus! {

// ---------------------------------------------------------------------------
// Specification
// ---------------------------------------------------------------------------

/// Bytes that stand for themselves in a path segment: `A-Z a-z 0-9 - . _ ~`.
pub open spec fn is_unreserved(b: u8) -> bool {
    ||| 65 <= b <= 90
    ||| 97 <= b <= 122
    ||| 48 <= b <= 57
    ||| b == 45
    ||| b == 46
    ||| b == 95
    ||| b == 126
}

/// Upper-case hexadecimal digit of `d` (below 16).
pub open spec fn hex_upper(d: u8) -> char {
    if d < 10 {
        ((d + 48) as u8) as char
    } else {
        ((d + 55) as u8) as char
    }
}

/// One byte of a path segment: itself, or `%XX`.
pub open spec fn encode_byte(b: u8) -> Seq<char> {
    if is_unreserved(b) {
        seq![b as char]
    } else {
        seq!['%', hex_upper(b / 16), hex_upper(b % 16)]
    }
}

/// Percent-encoding of a byte string as one URL path segment.
pub open spec fn percent_encode(b: Seq<u8>) -> Seq<char>
    decreases b.len(),
{
    if b.len() == 0 {
        Seq::empty()
    } else {
        percent_encode(b.drop_last()) + encode_byte(b.last())
    }
}

/// Percent-encoding of the UTF-8 bytes of `s`.
pub open spec fn encode_segment(s: Seq<char>) -> Seq<char> {
    percent_encode(encode_utf8(s))
}

/// Value of a hexadecimal digit byte, either case.
pub open spec fn hex_value(b: u8) -> Option<u8> {
    if 48 <= b <= 57 {
        Some((b - 48) as u8)
    } else if 97 <= b <= 102 {
        Some((b - 87) as u8)
    } else if 65 <= b <= 70 {
        Some((b - 55) as u8)
    } else {
        None
    }
}

/// Replaces each `%XX` (two hexadecimal digits) by the byte it names.
pub open spec fn percent_decode_bytes(b: Seq<u8>) -> Seq<u8>
    decreases b.len(),
{
    if b.len() == 0 {
        Seq::empty()
    } else if b[0] == 37 && 2 < b.len() && hex_value(b[1]) is Some && hex_value(b[2]) is Some {
        seq![(hex_value(b[1])->0 * 16 + hex_value(b[2])->0) as u8] + percent_decode_bytes(
            b.skip(3),
        )
    } else {
        seq![b[0]] + percent_decode_bytes(b.skip(1))
    }
}

/// Percent-decoding of `s`; where the decoded bytes are no UTF-8, `s` itself.
pub open spec fn percent_decode(s: Seq<char>) -> Seq<char> {
    let out = percent_decode_bytes(encode_utf8(s));
    if valid_utf8(out) {
        decode_utf8(out)
    } else {
        s
    }
}

/// `atom_url_from_api_url`: `https://api.github.com/repos/{owner}/{repo}/releases...`
/// gives `https://github.com/{owner}/{repo}/releases.atom`.
pub open spec fn atom_url_for(api_url: Seq<char>) -> Option<Seq<char>> {
    match strip_prefix(api_url, "https://api.github.com/repos/"@) {
        None => None,
        Some(rest) => {
            let path = before_any(rest, seq!['?', '#']);
            let owner = before_any(path, seq!['/']);
            match after_first(path, '/') {
                None => None,
                Some(r1) => {
                    let repo = before_any(r1, seq!['/']);
                    match after_first(r1, '/') {
                        None => None,
                        Some(r2) => {
                            let releases = before_any(r2, seq!['/']);
                            if owner.len() > 0 && repo.len() > 0 && eq_ignore_case(
                                releases,
                                "releases"@,
                            ) {
                                Some(
                                    "https://github.com/"@ + owner + seq!['/'] + repo
                                        + "/releases.atom"@,
                                )
                            } else {
                                None
                            }
                        },
                    }
                },
            }
        },
    }
}

/// `build_download_url`.
pub open spec fn download_url_for(atom_url: Seq<char>, tag: Seq<char>, asset: Seq<char>) -> Option<
    Seq<char>,
> {
    if tag.len() == 0 || asset.len() == 0 {
        None
    } else {
        match strip_suffix(atom_url, ".atom"@) {
            None => None,
            Some(base) => Some(
                base + "/download/"@ + encode_segment(tag) + seq!['/'] + encode_segment(asset),
            ),
        }
    }
}

/// `build_release_page_url`.
pub open spec fn release_page_url_for(atom_url: Seq<char>, tag: Seq<char>) -> Option<Seq<char>> {
    if tag.len() == 0 {
        None
    } else {
        match strip_suffix(atom_url, ".atom"@) {
            None => None,
            Some(base) => Some(base + "/tag/"@ + encode_segment(tag)),
        }
    }
}

/// The host part of an `https://` URL: the authority up to the first `/`,
/// `?` or `#`, after its last `@`, before its first `:`, trimmed.
pub open spec fn url_host(rest: Seq<char>) -> Seq<char> {
    let authority = before_any(rest, seq!['/', '?', '#']);
    let host_port = after_last(authority, '@');
    trim(before_any(host_port, seq![':']))
}

/// The hosts that serve GitHub release files.
pub open spec fn is_release_host(h: Seq<char>) -> bool {
    ||| h == "github.com"@
    ||| h == "api.github.com"@
    ||| h == "objects.githubusercontent.com"@
    ||| strip_suffix(h, ".githubusercontent.com"@) is Some
}

/// `is_allowed_download_url`: HTTPS, and a GitHub release host (any case).
pub open spec fn allowed_download_url(url: Seq<char>) -> bool {
    match strip_prefix(url, "https://"@) {
        None => false,
        Some(rest) => {
            let host = url_host(rest);
            host.len() > 0 && is_release_host(lower_seq(host))
        },
    }
}

// ---------------------------------------------------------------------------
// Executable code
// ---------------------------------------------------------------------------

/// Appends all of `src` to `dst`.
pub fn extend_chars(dst: &mut Vec<char>, src: &Vec<char>)
    ensures
        final(dst)@ == old(dst)@ + src@,
{
    let mut k: usize = 0;
    while k < src.len()
        invariant
            k <= src.len(),
            dst@ == old(dst)@ + src@.take(k as int),
        decreases src.len() - k,
    {
        dst.push(src[k]);
        assert(src@.take(k + 1) == src@.take(k as int).push(src@[k as int]));
        k += 1;
    }
    assert(src@.take(src.len() as int) == src@);
}

/// Builds the Atom feed URL (`https://github.com/{owner}/{repo}/releases.atom`)
/// from the API URL of `settings.json`
/// (`https://api.github.com/repos/{owner}/{repo}/releases/latest`).
/// Another host, or a path not of the form `repos/{owner}/{repo}/releases/...`,
/// gives `None`: then the check goes by the API alone.
pub fn atom_url_from_api_url(api_url: &str) -> (r: Option<String>)
    ensures
        r matches Some(s) ==> atom_url_for(api_url@) == Some(s@),
        r is None ==> atom_url_for(api_url@) is None,
{
    let url = chars_of(api_url);
    let prefix = chars_of("https://api.github.com/repos/");
    let rest = match strip_prefix_exec(&url, &prefix) {
        Some(r) => r,
        None => return None,
    };
    let stops = ['?', '#'];
    assert(stops@ == seq!['?', '#']);
    let path = match find_any_exec(&rest, &stops, 0) {
        Some(i) => {
            let p = slice_of(&rest, 0, i);
            assert(rest@.subrange(0, i as int) == rest@.take(i as int));
            p
        },
        None => rest,
    };
    let (owner, r1) = split_first_exec(&path, '/');
    let r1 = match r1 {
        Some(x) => x,
        None => return None,
    };
    let (repo, r2) = split_first_exec(&r1, '/');
    let r2 = match r2 {
        Some(x) => x,
        None => return None,
    };
    let (releases, _) = split_first_exec(&r2, '/');
    if owner.len() == 0 || repo.len() == 0 {
        return None;
    }
    let word = chars_of("releases");
    if !eq_ignore_case_exec(&releases, &word) {
        return None;
    }
    let mut out = chars_of("https://github.com/");
    extend_chars(&mut out, &owner);
    out.push('/');
    extend_chars(&mut out, &repo);
    let tail = chars_of("/releases.atom");
    extend_chars(&mut out, &tail);
    Some(string_of(&out))
}

/// Upper-case hexadecimal digit of `d` (below 16).
fn hex_upper_exec(d: u8) -> (r: char)
    requires
        d < 16,
    ensures
        r == hex_upper(d),
{
    if d < 10 {
        (d + 48) as char
    } else {
        (d + 55) as char
    }
}

/// Percent-encodes `s` as one URL path segment: every byte but
/// `A-Z a-z 0-9 - . _ ~` becomes `%XX`.
pub fn percent_encode_path_segment(s: &str) -> (r: Vec<char>)
    ensures
        r@ == encode_segment(s@),
{
    let bytes = s.as_bytes();
    let mut out: Vec<char> = Vec::new();
    let mut k: usize = 0;
    while k < bytes.len()
        invariant
            k <= bytes@.len(),
            bytes@ == encode_utf8(s@),
            out@ == percent_encode(bytes@.take(k as int)),
        decreases bytes@.len() - k,
    {
        let b = bytes[k];
        assert(bytes@.take(k + 1).drop_last() == bytes@.take(k as int));
        if (65 <= b && b <= 90) || (97 <= b && b <= 122) || (48 <= b && b <= 57) || b == 45 || b
            == 46 || b == 95 || b == 126 {
            out.push(b as char);
        } else {
            out.push('%');
            out.push(hex_upper_exec(b / 16));
            out.push(hex_upper_exec(b % 16));
        }
        k += 1;
    }
    assert(bytes@.take(bytes@.len() as int) == bytes@);
    out
}

/// The base of an Atom feed URL: the URL without its `.atom`.
fn atom_base(atom_url: &str) -> (r: Option<Vec<char>>)
    ensures
        r matches Some(b) ==> strip_suffix(atom_url@, ".atom"@) == Some(b@),
        r is None ==> strip_suffix(atom_url@, ".atom"@) is None,
{
    let url = chars_of(atom_url);
    let suffix = chars_of(".atom");
    strip_suffix_exec(&url, &suffix)
}

/// Builds the download URL of `asset_name` in release `tag` from the Atom
/// feed URL:
/// `https://github.com/{owner}/{repo}/releases.atom` gives
/// `https://github.com/{owner}/{repo}/releases/download/{tag}/{asset_name}`.
/// An empty tag or asset name, or a URL that does not end in `.atom`, gives
/// `None`.
pub fn build_download_url(atom_url: &str, tag: &str, asset_name: &str) -> (r: Option<String>)
    ensures
        r matches Some(s) ==> download_url_for(atom_url@, tag@, asset_name@) == Some(s@),
        r is None ==> download_url_for(atom_url@, tag@, asset_name@) is None,
{
    if tag.is_empty() || asset_name.is_empty() {
        return None;
    }
    let mut out = match atom_base(atom_url) {
        Some(b) => b,
        None => return None,
    };
    let mid = chars_of("/download/");
    extend_chars(&mut out, &mid);
    let t = percent_encode_path_segment(tag);
    extend_chars(&mut out, &t);
    out.push('/');
    let a = percent_encode_path_segment(asset_name);
    extend_chars(&mut out, &a);
    Some(string_of(&out))
}

/// Builds the release page URL of `tag` from the Atom feed URL
/// (`.../releases.atom` gives `.../releases/tag/{tag}`).
pub fn build_release_page_url(atom_url: &str, tag: &str) -> (r: Option<String>)
    ensures
        r matches Some(s) ==> release_page_url_for(atom_url@, tag@) == Some(s@),
        r is None ==> release_page_url_for(atom_url@, tag@) is None,
{
    if tag.is_empty() {
        return None;
    }
    let mut out = match atom_base(atom_url) {
        Some(b) => b,
        None => return None,
    };
    let mid = chars_of("/tag/");
    extend_chars(&mut out, &mid);
    let t = percent_encode_path_segment(tag);
    extend_chars(&mut out, &t);
    Some(string_of(&out))
}

/// The part of `v` after its last `c`.
pub fn after_last_exec(v: &Vec<char>, c: char) -> (r: Vec<char>)
    ensures
        r@ == after_last(v@, c),
{
    let mut i = v.len();
    while i > 0 && v[i - 1] != c
        invariant
            i <= v.len(),
            forall|j: int| i <= j < v.len() ==> v@[j] != c,
        decreases i,
    {
        i -= 1;
    }
    proof {
        let y = v@.skip(i as int);
        assert(!y.contains(c)) by {
            if y.contains(c) {
                let k = choose|k: int| 0 <= k < y.len() && y[k] == c;
                assert(v@[i + k] == c);
            }
        }
        if i == 0 {
            assert(y == v@);
            lemma_after_last_none(v@, c);
        } else {
            let x = v@.take(i - 1);
            assert(x.push(c) + y == v@);
            lemma_after_last_tail(x, c, y);
        }
    }
    let r = slice_of(v, i, v.len());
    assert(v@.subrange(i as int, v@.len() as int) == v@.skip(i as int));
    r
}

/// Whether a downloaded update may be fetched from `url`.
///
/// The program runs the file it downloads, so it does not trust the host
/// written in a response: only HTTPS, and only GitHub's release hosts
/// (`github.com`, `api.github.com`, `objects.githubusercontent.com` and
/// `*.githubusercontent.com`, in any case).
pub fn is_allowed_download_url(url: &str) -> (r: bool)
    ensures
        r == allowed_download_url(url@),
{
    let u = chars_of(url);
    let scheme = chars_of("https://");
    let rest = match strip_prefix_exec(&u, &scheme) {
        Some(r) => r,
        None => return false,
    };
    let stops = ['/', '?', '#'];
    assert(stops@ == seq!['/', '?', '#']);
    let authority = match find_any_exec(&rest, &stops, 0) {
        Some(i) => {
            let a = slice_of(&rest, 0, i);
            assert(rest@.subrange(0, i as int) == rest@.take(i as int));
            a
        },
        None => rest,
    };
    let host_port = after_last_exec(&authority, '@');
    let (host, _) = split_first_exec(&host_port, ':');
    let host = trim_exec(&host);
    if host.len() == 0 {
        return false;
    }
    let h = lower_exec(&host);
    let a = chars_of("github.com");
    let b = chars_of("api.github.com");
    let c = chars_of("objects.githubusercontent.com");
    let d = chars_of(".githubusercontent.com");
    same_chars(&h, &a) || same_chars(&h, &b) || same_chars(&h, &c) || strip_suffix_exec(
        &h,
        &d,
    ).is_some()
}

/// `String::from_utf8`: claimed to succeed exactly when `bytes` are
/// well-formed UTF-8 (vstd's `valid_utf8`), with the characters they
/// encode (vstd's `decode_utf8`).
#[verifier::external_body]
pub fn string_from_utf8(bytes: Vec<u8>) -> (r: Option<String>)
    ensures
        r is Some <==> valid_utf8(bytes@),
        r matches Some(s) ==> s@ == decode_utf8(bytes@),
{
    String::from_utf8(bytes).ok()
}

/// Value of a hexadecimal digit byte, either case.
pub fn hex_digit(b: u8) -> (r: Option<u8>)
    ensures
        r == hex_value(b),
{
    if 48 <= b && b <= 57 {
        Some(b - 48)
    } else if 97 <= b && b <= 102 {
        Some(b - 87)
    } else if 65 <= b && b <= 70 {
        Some(b - 55)
    } else {
        None
    }
}

/// Turns each `%XX` back into its byte. Where the result is no UTF-8, `s`
/// itself is returned.
pub fn percent_decode_exec(s: &Vec<char>) -> (r: String)
    ensures
        r@ == percent_decode(s@),
{
    let text = string_of(s);
    let bytes = text.as_str().as_bytes();
    let mut out: Vec<u8> = Vec::new();
    let mut i: usize = 0;
    assert(bytes@.skip(0) == bytes@);
    while i < bytes.len()
        invariant
            i <= bytes@.len(),
            bytes@ == encode_utf8(s@),
            percent_decode_bytes(bytes@) == out@ + percent_decode_bytes(bytes@.skip(i as int)),
        decreases bytes@.len() - i,
    {
        let ghost rest = bytes@.skip(i as int);
        if bytes[i] == 37 && bytes.len() - i > 2 {
            let h = hex_digit(bytes[i + 1]);
            let l = hex_digit(bytes[i + 2]);
            if let (Some(h), Some(l)) = (h, l) {
                assert(rest[1] == bytes@[i + 1] && rest[2] == bytes@[i + 2]);
                assert(rest.skip(3) == bytes@.skip(i + 3));
                out.push(h * 16 + l);
                i += 3;
                continue;
            }
        }
        assert(rest.skip(1) == bytes@.skip(i + 1));
        out.push(bytes[i]);
        i += 1;
    }
    assert(bytes@.skip(i as int).len() == 0);
    assert(out@ == percent_decode_bytes(bytes@));
    match string_from_utf8(out) {
        Some(decoded) => decoded,
        None => text,
    }
}

} // verus!
