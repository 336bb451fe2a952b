//! Properties that tie the library's functions together: versions, URLs, the
//! feed, the update check, temporary files and replacing the executable.

use vstd::prelude::*;

use vstd::utf8::{
    decode_utf8, encode_utf8, encode_utf8_decode_utf8, encode_utf8_valid_utf8, is_ascii_chars,
    is_ascii_chars_encode_utf8, valid_utf8,
};

use crate::update::{
    install_run, is_temp_name, temp_name_of, Build, InstallFailure, InstallFiles, InstallNext, InstallStep,
    NoticeView, notice_of, AvailableView, CheckErrorView, CheckStepView, ReleaseView,
    after_api_of, after_feed_of, atom_verdict_of, check_begin_of, release_verdict_of,
    AtomVerdictView,
};
use crate::http::HttpErrorView;
use crate::atom_feed::{
    best_candidate, elements_from, entry_candidate, latest_tag, tag_of_release_url,
};
use crate::update_logic::{
    allowed_download_url, atom_url_for, download_url_for, is_release_host, url_host,
    encode_byte, encode_segment, hex_upper, hex_value, is_unreserved, percent_decode,
    percent_decode_bytes, percent_encode, release_page_url_for,
};
use crate::text::{
    after_first, before_any, find_any_from, is_ascii_digit, is_unicode_ws,
    lemma_after_last_none, lemma_after_last_tail, lemma_find_any_skip, lower_seq, strip_prefix,
    lemma_trim_end_noop, lemma_trim_start_shape,
    strip_suffix, trim, trim_end, trim_end_char, trim_start,
};
use crate::version::{
    all_digits, decimal, digit_char, digits_value, field, parse_u32, parse_version, version_core,
    version_lt, version_text, Version,
};

verus! {

// ---------------------------------------------------------------------------
// Helpers about searching
// ---------------------------------------------------------------------------

/// The first character of `set` in `s` is at `i`.
pub proof fn lemma_find_any_first(s: Seq<char>, set: Seq<char>, i: int)
    requires
        0 <= i < s.len(),
        set.contains(s[i]),
        forall|j: int| 0 <= j < i ==> !set.contains(s[j]),
    ensures
        find_any_from(s, set, 0) == Some(i),
{
    lemma_find_any_skip(s, set, 0, i);
}

/// No character of `set` occurs in `s`.
pub proof fn lemma_find_any_none(s: Seq<char>, set: Seq<char>)
    requires
        forall|j: int| 0 <= j < s.len() ==> !set.contains(s[j]),
    ensures
        find_any_from(s, set, 0) is None,
        before_any(s, set) == s,
{
    lemma_find_any_skip(s, set, 0, s.len() as int);
}

/// Membership in a one-element set.
pub proof fn lemma_contains1(a: char, x: char)
    ensures
        seq![a].contains(x) <==> x == a,
{
    if x == a {
        assert(seq![a][0] == x);
    }
}

/// Membership in a two-element set.
pub proof fn lemma_contains2(a: char, b: char, x: char)
    ensures
        seq![a, b].contains(x) <==> (x == a || x == b),
{
    if x == a {
        assert(seq![a, b][0] == x);
    }
    if x == b {
        assert(seq![a, b][1] == x);
    }
}

/// Membership in a three-element set.
pub proof fn lemma_contains3(a: char, b: char, c: char, x: char)
    ensures
        seq![a, b, c].contains(x) <==> (x == a || x == b || x == c),
{
    if x == a {
        assert(seq![a, b, c][0] == x);
    }
    if x == b {
        assert(seq![a, b, c][1] == x);
    }
    if x == c {
        assert(seq![a, b, c][2] == x);
    }
}

/// Splitting `a.rest` at its first `.` when `a` holds none.
pub proof fn lemma_split_dot(a: Seq<char>, rest: Seq<char>)
    requires
        forall|j: int| 0 <= j < a.len() ==> a[j] != '.',
    ensures
        before_any(a + seq!['.'] + rest, seq!['.']) == a,
        after_first(a + seq!['.'] + rest, '.') == Some(rest),
{
    let s = a + seq!['.'] + rest;
    assert forall|j: int| 0 <= j < a.len() implies !seq!['.'].contains(s[j]) by {
        lemma_contains1('.', s[j]);
    }
    lemma_contains1('.', s[a.len() as int]);
    lemma_find_any_first(s, seq!['.'], a.len() as int);
    assert(s.take(a.len() as int) == a);
    assert(s.skip(a.len() as int + 1) == rest);
}

/// A sequence without `.` is one field.
pub proof fn lemma_no_dot(a: Seq<char>)
    requires
        forall|j: int| 0 <= j < a.len() ==> a[j] != '.',
    ensures
        before_any(a, seq!['.']) == a,
        after_first(a, '.') is None,
{
    assert forall|j: int| 0 <= j < a.len() implies !seq!['.'].contains(a[j]) by {
        lemma_contains1('.', a[j]);
    }
    lemma_find_any_none(a, seq!['.']);
}

// ---------------------------------------------------------------------------
// Decimal text
// ---------------------------------------------------------------------------

/// The decimal text of `n` is a non-empty run of digits worth `n`.
pub proof fn lemma_decimal(n: nat)
    ensures
        decimal(n).len() > 0,
        all_digits(decimal(n)),
        digits_value(decimal(n)) == n,
    decreases n,
{
    if n < 10 {
        let s = decimal(n);
        assert(s.drop_last() == Seq::<char>::empty());
        assert(digit_char(n) as u32 == n + 48);
        assert(s.last() == digit_char(n));
        assert(digits_value(s.drop_last()) == 0);
        assert(digits_value(s) == n);
    } else {
        assert(digit_char(n % 10) as u32 == n % 10 + 48);
        lemma_decimal(n / 10);
        let s = decimal(n);
        assert(s.drop_last() == decimal(n / 10));
        assert forall|i: int| 0 <= i < s.len() implies is_ascii_digit(#[trigger] s[i]) by {
            if i < s.len() - 1 {
                assert(s[i] == decimal(n / 10)[i]);
            }
        }
        assert((n / 10) * 10 + n % 10 == n) by (nonlinear_arith);
        assert(s.last() == digit_char(n % 10));
        assert(digits_value(s) == digits_value(decimal(n / 10)) * 10 + n % 10);
    }
}

/// A run of digits reads back as its value when it fits in 32 bits.
pub proof fn lemma_parse_decimal(n: u32)
    ensures
        parse_u32(decimal(n as nat)) == Some(n),
{
    lemma_decimal(n as nat);
}

/// `trim` keeps a sequence that neither starts nor ends with white space.
pub proof fn lemma_trim_noop(s: Seq<char>)
    requires
        s.len() > 0,
        !is_unicode_ws(s[0]),
        !is_unicode_ws(s.last()),
    ensures
        trim(s) == s,
{
    assert(trim_start(s) == s);
}

/// Reading the text of a version gives the version back.
pub proof fn law_version_text_round_trip(v: Version)
    ensures
        parse_version(version_text(v)) == Some(v),
{
    let a = decimal(v.major as nat);
    let b = decimal(v.minor as nat);
    let c = decimal(v.patch as nat);
    lemma_decimal(v.major as nat);
    lemma_decimal(v.minor as nat);
    lemma_decimal(v.patch as nat);
    let text = version_text(v);
    let bc = b + seq!['.'] + c;
    assert(text == a + seq!['.'] + bc);
    assert(forall|j: int| 0 <= j < a.len() ==> is_ascii_digit(#[trigger] a[j]));
    assert(forall|j: int| 0 <= j < b.len() ==> is_ascii_digit(#[trigger] b[j]));
    assert(forall|j: int| 0 <= j < c.len() ==> is_ascii_digit(#[trigger] c[j]));
    assert forall|j: int| 0 <= j < text.len() implies !seq!['-', '+'].contains(#[trigger] text[j])
        && (text[j] == '.' || is_ascii_digit(text[j])) by {
        lemma_contains2('-', '+', text[j]);
        if j < a.len() {
            assert(text[j] == a[j]);
        } else if j == a.len() {
        } else if j < a.len() + 1 + b.len() {
            assert(text[j] == b[j - a.len() - 1]);
        } else if j == a.len() + 1 + b.len() {
        } else {
            assert(text[j] == c[j - a.len() - 2 - b.len()]);
        }
    }
    assert(text[0] == a[0]);
    assert(text.last() == c.last());
    lemma_trim_noop(text);
    lemma_find_any_none(text, seq!['-', '+']);
    assert(version_core(text) == text);
    lemma_split_dot(a, bc);
    lemma_split_dot(b, c);
    lemma_no_dot(c);
    lemma_parse_decimal(v.major);
    lemma_parse_decimal(v.minor);
    lemma_parse_decimal(v.patch);
}

// ---------------------------------------------------------------------------
// Newest tag of a feed
// ---------------------------------------------------------------------------

/// What `best_candidate` picks: a candidate of some entry, whose version
/// no other candidate exceeds.
pub proof fn lemma_best_candidate(entries: Seq<Seq<char>>)
    ensures
        best_candidate(entries) matches Some(b) ==> (exists|i: int|
            0 <= i < entries.len() && entry_candidate(#[trigger] entries[i]) == Some(b)) && forall|
            i: int,
        |
            0 <= i < entries.len() ==> (entry_candidate(#[trigger] entries[i]) matches Some(c)
                ==> !version_lt(b.0, c.0)),
        best_candidate(entries) is None ==> forall|i: int|
            0 <= i < entries.len() ==> entry_candidate(#[trigger] entries[i]) is None,
    decreases entries.len(),
{
    if entries.len() > 0 {
        let init = entries.drop_last();
        lemma_best_candidate(init);
        let n = entries.len() - 1;
        assert(entries[n] == entries.last());
        assert forall|i: int| 0 <= i < n implies entries[i] == #[trigger] init[i] by {}
        match best_candidate(entries) {
            Some(b) => {
                if best_candidate(init) == Some(b) {
                    let i = choose|i: int|
                        0 <= i < init.len() && entry_candidate(#[trigger] init[i]) == Some(b);
                    assert(entries[i] == init[i]);
                } else {
                    assert(entry_candidate(entries[n]) == Some(b));
                }
                assert forall|i: int| 0 <= i < entries.len() implies (entry_candidate(
                    #[trigger] entries[i],
                ) matches Some(c) ==> !version_lt(b.0, c.0)) by {
                    if i < n {
                        assert(entries[i] == init[i]);
                    }
                }
            },
            None => {
                assert forall|i: int| 0 <= i < entries.len() implies entry_candidate(
                    #[trigger] entries[i],
                ) is None by {
                    if i < n {
                        assert(entries[i] == init[i]);
                    }
                }
            },
        }
    }
}

/// The tag that `extract_latest_tag_from_atom` returns names the greatest
/// version among the feed's readable tags, whatever their order, and it is
/// the tag of one of the feed's entries; when it returns nothing, no entry
/// names a readable version.
pub proof fn law_latest_tag_is_greatest(xml: Seq<char>)
    ensures
        ({
            let entries = elements_from(xml, seq!['e', 'n', 't', 'r', 'y'], 0);
            &&& latest_tag(xml) matches Some(t) ==> exists|v: Version|
                {
                    &&& parse_version(t) == Some(v)
                    &&& exists|i: int|
                        0 <= i < entries.len() && entry_candidate(#[trigger] entries[i]) == Some(
                            (v, t),
                        )
                    &&& forall|i: int|
                        0 <= i < entries.len() ==> (entry_candidate(#[trigger] entries[i]) matches Some(
                            c,
                        ) ==> !version_lt(v, c.0))
                }
            &&& latest_tag(xml) is None ==> forall|i: int|
                0 <= i < entries.len() ==> entry_candidate(#[trigger] entries[i]) is None
        }),
{
    let entries = elements_from(xml, seq!['e', 'n', 't', 'r', 'y'], 0);
    lemma_best_candidate(entries);
    if let Some(b) = best_candidate(entries) {
        let i = choose|i: int| 0 <= i < entries.len() && entry_candidate(#[trigger] entries[i]) == Some(b);
        assert(parse_version(b.1) == Some(b.0));
    }
}

// ---------------------------------------------------------------------------
// Percent-encoding and release page URLs
// ---------------------------------------------------------------------------

/// The bytes of an ASCII text.
pub open spec fn ascii_bytes(s: Seq<char>) -> Seq<u8> {
    s.map_values(|c: char| c as u8)
}

/// A character that percent-encoding may produce: ASCII, neither white
/// space nor `/`.
pub open spec fn is_segment_char(c: char) -> bool {
    '\0' <= c <= '\u{7f}' && !is_unicode_ws(c) && c != '/'
}

/// Encoding distributes over concatenation.
pub proof fn lemma_percent_encode_concat(x: Seq<u8>, y: Seq<u8>)
    ensures
        percent_encode(x + y) == percent_encode(x) + percent_encode(y),
    decreases y.len(),
{
    if y.len() == 0 {
        assert(x + y == x);
        assert(percent_encode(y) == Seq::<char>::empty());
        assert(percent_encode(x) + Seq::<char>::empty() == percent_encode(x));
    } else {
        assert((x + y).drop_last() == x + y.drop_last());
        assert((x + y).last() == y.last());
        lemma_percent_encode_concat(x, y.drop_last());
    }
}

/// Encoding seen from the front.
pub proof fn lemma_percent_encode_front(b: Seq<u8>)
    requires
        b.len() > 0,
    ensures
        percent_encode(b) == encode_byte(b[0]) + percent_encode(b.drop_first()),
{
    assert(b == seq![b[0]] + b.drop_first());
    lemma_percent_encode_concat(seq![b[0]], b.drop_first());
    assert(seq![b[0]].drop_last() == Seq::<u8>::empty());
    assert(seq![b[0]].last() == b[0]);
    assert(percent_encode(Seq::<u8>::empty()) == Seq::<char>::empty());
    assert(percent_encode(seq![b[0]]) == percent_encode(seq![b[0]].drop_last()) + encode_byte(
        seq![b[0]].last(),
    ));
    assert(Seq::<char>::empty() + encode_byte(b[0]) == encode_byte(b[0]));
}

/// The upper-case digit of `d` reads back as `d`.
pub proof fn lemma_hex_upper(d: u8)
    requires
        d < 16,
    ensures
        hex_value(hex_upper(d) as u8) == Some(d),
        is_segment_char(hex_upper(d)),
        hex_upper(d) as u32 == hex_upper(d) as u8,
{
}

/// Every character of an encoded byte is a segment character.
pub proof fn lemma_encode_byte_chars(b: u8)
    ensures
        encode_byte(b).len() > 0,
        forall|i: int| 0 <= i < encode_byte(b).len() ==> is_segment_char(#[trigger] encode_byte(b)[i]),
{
    if !is_unreserved(b) {
        lemma_hex_upper(b / 16);
        lemma_hex_upper(b % 16);
    }
}

/// Every character of an encoding is a segment character, and a non-empty
/// input gives a non-empty encoding.
pub proof fn lemma_percent_encode_chars(b: Seq<u8>)
    ensures
        b.len() > 0 ==> percent_encode(b).len() > 0,
        forall|i: int|
            0 <= i < percent_encode(b).len() ==> is_segment_char(#[trigger] percent_encode(b)[i]),
    decreases b.len(),
{
    if b.len() > 0 {
        lemma_percent_encode_chars(b.drop_last());
        lemma_encode_byte_chars(b.last());
        let p = percent_encode(b.drop_last());
        let e = encode_byte(b.last());
        assert forall|i: int| 0 <= i < percent_encode(b).len() implies is_segment_char(
            #[trigger] percent_encode(b)[i],
        ) by {
            if i < p.len() {
                assert(percent_encode(b)[i] == p[i]);
            } else {
                assert(percent_encode(b)[i] == e[i - p.len()]);
            }
        }
    }
}

/// Decoding the bytes of an encoding gives the encoded bytes back.
pub proof fn lemma_decode_of_encode(b: Seq<u8>)
    ensures
        percent_decode_bytes(ascii_bytes(percent_encode(b))) == b,
    decreases b.len(),
{
    if b.len() == 0 {
        assert(ascii_bytes(percent_encode(b)) == Seq::<u8>::empty());
    } else {
        let b0 = b[0];
        let rest = b.drop_first();
        lemma_percent_encode_front(b);
        let e = encode_byte(b0);
        let r = percent_encode(rest);
        let bytes = ascii_bytes(e + r);
        assert(ascii_bytes(e + r) == ascii_bytes(e) + ascii_bytes(r));
        lemma_decode_of_encode(rest);
        if is_unreserved(b0) {
            assert((b0 as char) as u8 == b0);
            assert(bytes[0] == b0);
            assert(bytes.skip(1) == ascii_bytes(r));
            assert(b == seq![b0] + rest);
        } else {
            lemma_hex_upper(b0 / 16);
            lemma_hex_upper(b0 % 16);
            assert(bytes[0] == 37);
            assert(bytes[1] == hex_upper(b0 / 16) as u8);
            assert(bytes[2] == hex_upper(b0 % 16) as u8);
            assert(bytes.skip(3) == ascii_bytes(r));
            assert((b0 / 16) * 16 + b0 % 16 == b0);
            assert(b == seq![b0] + rest);
        }
    }
}

/// Percent-decoding undoes percent-encoding.
pub proof fn lemma_percent_round_trip(s: Seq<char>)
    ensures
        percent_decode(encode_segment(s)) == s,
{
    let b = encode_utf8(s);
    let enc = percent_encode(b);
    lemma_percent_encode_chars(b);
    assert(is_ascii_chars(enc)) by {
        assert forall|i| 0 <= i < enc.len() implies '\0' <= #[trigger] enc[i] <= '\u{7f}' by {
            assert(is_segment_char(percent_encode(b)[i]));

        }
    }
    is_ascii_chars_encode_utf8(enc);
    assert(encode_utf8(enc) == ascii_bytes(enc));
    lemma_decode_of_encode(b);
    encode_utf8_valid_utf8(s);
    encode_utf8_decode_utf8(s);
    assert(valid_utf8(b));
    assert(decode_utf8(b) == s);
}

/// The tag read back from a release page URL built for a tag is that tag.
pub proof fn law_release_page_names_its_tag(atom_url: Seq<char>, tag: Seq<char>)
    requires
        release_page_url_for(atom_url, tag) is Some,
    ensures
        tag_of_release_url(release_page_url_for(atom_url, tag)->0) == Some(tag),
{
    reveal_strlit("/tag/");
    reveal_strlit(".atom");
    let base = strip_suffix(atom_url, ".atom"@)->0;
    let enc = encode_segment(tag);
    let u = base + "/tag/"@ + enc;
    assert(release_page_url_for(atom_url, tag)->0 == u);
    let b = encode_utf8(tag);
    lemma_percent_encode_chars(b);
    assert(b.len() > 0) by {
        assert(tag.len() > 0);
        if b.len() == 0 {
            encode_utf8_decode_utf8(tag);
            assert(decode_utf8(b) == Seq::<char>::empty());
        }
    }
    assert(enc.len() > 0);
    // white space trimmed from the front stops at the `/` of `/tag/`
    lemma_trim_start_shape(u);
    let k = choose|k: int|
        0 <= k <= u.len() && trim_start(u) == u.skip(k) && forall|j: int|
            0 <= j < k ==> is_unicode_ws(#[trigger] u[j]);
    assert(u[base.len() as int] == '/');
    assert(k <= base.len()) by {
        if k > base.len() {
            assert(is_unicode_ws(u[base.len() as int]));
        }
    }
    let t1 = u.skip(k);
    assert(t1.last() == enc.last());
    assert(is_segment_char(enc[enc.len() - 1]));
    lemma_trim_end_noop(t1);
    assert(trim(u) == t1);
    assert(trim_end_char(t1, '/') == t1);
    let x = base.skip(k) + seq!['/', 't', 'a', 'g'];
    assert(t1 == x.push('/') + enc);
    assert(!enc.contains('/')) by {
        if enc.contains('/') {
            let j = choose|j: int| 0 <= j < enc.len() && enc[j] == '/';
            assert(is_segment_char(enc[j]));
        }
    }
    lemma_after_last_tail(x, '/', enc);
    lemma_percent_round_trip(tag);
}

// ---------------------------------------------------------------------------
// Download URLs built from the feed URL
// ---------------------------------------------------------------------------

/// The host of `h/tail` is `h` when `h` is a plain host name.
pub proof fn lemma_host_of(h: Seq<char>, tail: Seq<char>)
    requires
        h.len() > 0,
        !is_unicode_ws(h[0]),
        !is_unicode_ws(h.last()),
        forall|j: int|
            0 <= j < h.len() ==> #[trigger] h[j] != '/' && h[j] != '?' && h[j] != '#' && h[j] != '@'
                && h[j] != ':',
    ensures
        url_host(h + seq!['/'] + tail) == h,
{
    let s = h + seq!['/'] + tail;
    assert forall|j: int| 0 <= j < h.len() implies !seq!['/', '?', '#'].contains(s[j]) by {
        assert(s[j] == h[j]);
        lemma_contains3('/', '?', '#', s[j]);
    }
    lemma_contains3('/', '?', '#', s[h.len() as int]);
    lemma_find_any_first(s, seq!['/', '?', '#'], h.len() as int);
    assert(s.take(h.len() as int) == h);
    assert(!h.contains('@')) by {
        if h.contains('@') {
            let j = choose|j: int| 0 <= j < h.len() && h[j] == '@';
        }
    }
    lemma_after_last_none(h, '@');
    assert forall|j: int| 0 <= j < h.len() implies !seq![':'].contains(h[j]) by {
        lemma_contains1(':', h[j]);
    }
    lemma_find_any_none(h, seq![':']);
    lemma_trim_noop(h);
}

/// A download URL built from the feed URL that an API URL gives points at
/// `github.com` over HTTPS, so the download check lets it through.
pub proof fn law_built_download_url_is_allowed(api_url: Seq<char>, tag: Seq<char>, asset: Seq<char>)
    requires
        atom_url_for(api_url) is Some,
        download_url_for(atom_url_for(api_url)->0, tag, asset) is Some,
    ensures
        allowed_download_url(download_url_for(atom_url_for(api_url)->0, tag, asset)->0),
{
    reveal_strlit("https://github.com/");
    reveal_strlit("/releases.atom");
    reveal_strlit(".atom");
    reveal_strlit("https://");
    reveal_strlit("github.com");
    reveal_strlit("/download/");
    let atom = atom_url_for(api_url)->0;
    let gh = "https://github.com/"@;
    let rest_atom = atom.skip(gh.len() as int);
    assert(atom == gh + rest_atom);
    let p = atom.take(atom.len() - 5);
    assert(atom.skip(atom.len() - 5) == ".atom"@);
    assert(strip_suffix(atom, ".atom"@) == Some(p));
    let url = download_url_for(atom, tag, asset)->0;
    let after_host = url.skip(19);
    assert(url == "https://"@ + ("github.com"@ + seq!['/'] + after_host));
    assert(url.take(8) == "https://"@);
    assert(url.skip(8) == "github.com"@ + seq!['/'] + after_host);
    let h = "github.com"@;
    lemma_host_of(h, after_host);
    assert(lower_seq(h) == h);
    assert(is_release_host(lower_seq(h)));
}

// ---------------------------------------------------------------------------
// Version prefixes
// ---------------------------------------------------------------------------

/// Trimming the end of `c + s` trims the end of `s`.
pub proof fn lemma_trim_end_after(c: char, s: Seq<char>)
    requires
        s.len() > 0,
        !is_unicode_ws(s[0]),
    ensures
        trim_end(seq![c] + s) == seq![c] + trim_end(s),
        trim_end(s).len() > 0,
        trim_end(s)[0] == s[0],
    decreases s.len(),
{
    let cs = seq![c] + s;
    assert(cs.last() == s.last());
    if is_unicode_ws(s.last()) {
        assert(s.len() > 1);
        assert(cs.drop_last() == seq![c] + s.drop_last());
        lemma_trim_end_after(c, s.drop_last());
    }
}

/// A leading `v` or `V` does not change the version that a text reads as.
pub proof fn law_v_prefix_is_ignored(s: Seq<char>)
    requires
        s.len() > 0,
        !is_unicode_ws(s[0]),
        s[0] != 'v',
        s[0] != 'V',
    ensures
        parse_version(seq!['v'] + s) == parse_version(s),
        parse_version(seq!['V'] + s) == parse_version(s),
{
    assert(trim_start(s) == s);
    lemma_trim_end_after('v', s);
    lemma_trim_end_after('V', s);
    assert(trim_start(seq!['v'] + s) == seq!['v'] + s);
    assert(trim_start(seq!['V'] + s) == seq!['V'] + s);
    assert((seq!['v'] + trim_end(s)).drop_first() == trim_end(s));
    assert((seq!['V'] + trim_end(s)).drop_first() == trim_end(s));
    assert(version_core(seq!['v'] + s) == version_core(s));
    assert(version_core(seq!['V'] + s) == version_core(s));
}

// ---------------------------------------------------------------------------
// Temporary update files
// ---------------------------------------------------------------------------

/// The text of a version holds only digits and dots.
pub proof fn lemma_version_text_chars(v: Version)
    ensures
        version_text(v).len() > 0,
        forall|i: int|
            0 <= i < version_text(v).len() ==> ('0' <= #[trigger] version_text(v)[i] <= '9'
                || version_text(v)[i] == '.'),
{
    let a = decimal(v.major as nat);
    let b = decimal(v.minor as nat);
    let c = decimal(v.patch as nat);
    lemma_decimal(v.major as nat);
    lemma_decimal(v.minor as nat);
    lemma_decimal(v.patch as nat);
    let t = version_text(v);
    assert forall|i: int| 0 <= i < t.len() implies ('0' <= #[trigger] t[i] <= '9' || t[i] == '.') by {
        if i < a.len() {
            assert(t[i] == a[i]);
            assert(is_ascii_digit(a[i]));
        } else if i == a.len() {
        } else if i < a.len() + 1 + b.len() {
            assert(t[i] == b[i - a.len() - 1]);
            assert(is_ascii_digit(b[i - a.len() - 1]));
        } else if i == a.len() + 1 + b.len() {
        } else {
            assert(t[i] == c[i - a.len() - 2 - b.len()]);
            assert(is_ascii_digit(c[i - a.len() - 2 - b.len()]));
        }
    }
}

/// The temporary file that the download of any version is written to is
/// one that the startup cleanup recognizes as its own.
pub proof fn law_temp_file_is_recognized(v: Version)
    ensures
        is_temp_name(temp_name_of(v)),
{
    reveal_strlit("Atai-paste-");
    reveal_strlit(".exe");
    let p = "Atai-paste-"@;
    let e = ".exe"@;
    let t = version_text(v);
    let name = temp_name_of(v);
    lemma_version_text_chars(v);
    assert(name.take(p.len() as int) == p);
    assert(name.skip(p.len() as int) == t + e);
    assert(strip_prefix(name, p) == Some(t + e));
    let rest = t + e;
    assert(rest.skip(rest.len() - e.len()) == e);
    assert(rest.take(rest.len() - e.len()) == t);
    assert(strip_suffix(rest, e) == Some(t));
}

// ---------------------------------------------------------------------------
// Replacing the executable
// ---------------------------------------------------------------------------

/// Whatever operations fail, a replacement that starts with the running
/// build alone in place ends in one of three ways. It succeeded, and the
/// executable is the new build, with the running one kept as `.old` and
/// no `.new` left. Or it failed, and the executable is still the running
/// build; only where the undoing rename failed too is there no executable,
/// and then `.old` holds the running build, which the next start restores.
/// The new build is never in place after a failure.
pub proof fn law_install_keeps_an_executable(oks: Seq<bool>)
    ensures
        install_run(
            InstallStep::CopyToStaged,
            InstallFiles { exe: Some(Build::Current), old: None, staged: None },
            oks,
        ) matches Some((end, f)) ==> {
            &&& end == InstallNext::Installed ==> f.exe == Some(Build::New) && f.old == Some(
                Build::Current,
            ) && f.staged is None
            &&& end == InstallNext::Failed(InstallFailure::Copy) ==> f.exe == Some(Build::Current)
            &&& end == InstallNext::Failed(InstallFailure::SetAside) ==> f.exe == Some(
                Build::Current,
            )
            &&& end == InstallNext::Failed(InstallFailure::PutInPlace) ==> f.exe == Some(
                Build::Current,
            ) || (f.exe is None && f.old == Some(Build::Current))
            &&& end != InstallNext::Installed ==> f.exe != Some(Build::New)
        },
{
    reveal_with_fuel(install_run, 5);
}

// ---------------------------------------------------------------------------
// What the user is told
// ---------------------------------------------------------------------------

/// The check at startup shows nothing unless it found an update.
pub proof fn law_startup_check_is_quiet(
    outcome: Result<Option<AvailableView>, CheckErrorView>,
    releases_page: Seq<char>,
    current: Version,
)
    requires
        !(outcome matches Ok(Some(_))),
    ensures
        notice_of(false, outcome, releases_page, current) == NoticeView::Silent,
{
}

/// A check from the menu always tells its outcome.
pub proof fn law_menu_check_always_answers(
    outcome: Result<Option<AvailableView>, CheckErrorView>,
    releases_page: Seq<char>,
    current: Version,
)
    ensures
        notice_of(true, outcome, releases_page, current) != NoticeView::Silent,
{
}

/// A found update is always offered, whether from the menu or at startup.
pub proof fn law_found_update_is_offered(
    manual: bool,
    found: AvailableView,
    releases_page: Seq<char>,
    current: Version,
)
    ensures
        notice_of(manual, Ok(Some(found)), releases_page, current) is AskToUpdate,
{
}

// ---------------------------------------------------------------------------
// Version order
// ---------------------------------------------------------------------------

/// Versions are ordered as numbers, field by field: the order is strict
/// and total, so "newest" is well defined.
pub proof fn law_version_order_is_strict_and_total(a: Version, b: Version, c: Version)
    ensures
        !version_lt(a, a),
        version_lt(a, b) ==> !version_lt(b, a),
        version_lt(a, b) && version_lt(b, c) ==> version_lt(a, c),
        a == b || version_lt(a, b) || version_lt(b, a),
{
}

/// A version as one number: the three fields as digits of base 2^32,
/// major first.
pub open spec fn version_number(v: Version) -> int {
    v.major * 0x1_0000_0000_0000_0000 + v.minor * 0x1_0000_0000 + v.patch
}

/// Versions are compared as numbers: `a` is older than `b` exactly when
/// its number is smaller. So a larger major wins whatever follows, and with
/// the same major a larger minor wins (`1.10.0` is newer than `1.9.0`),
/// and with both the same a larger patch wins.
pub proof fn law_version_order_is_numeric(a: Version, b: Version)
    ensures
        version_lt(a, b) <==> version_number(a) < version_number(b),
        a.major < b.major ==> version_lt(a, b),
        a.major == b.major && a.minor < b.minor ==> version_lt(a, b),
        a.major == b.major && a.minor == b.minor && a.patch < b.patch ==> version_lt(a, b),
        a == b ==> !version_lt(a, b),
{
    let m: int = 0x1_0000_0000;
    let ka = version_number(a);
    let kb = version_number(b);
    assert(a.minor * m + a.patch < m * m) by (nonlinear_arith)
        requires
            a.minor < m,
            a.patch < m,
            m == 0x1_0000_0000,
    ;
    assert(b.minor * m + b.patch < m * m) by (nonlinear_arith)
        requires
            b.minor < m,
            b.patch < m,
            m == 0x1_0000_0000,
    ;
    assert(m * m == 0x1_0000_0000_0000_0000);
    if a.major < b.major {
        assert(a.major * (m * m) + (m * m) <= b.major * (m * m)) by (nonlinear_arith)
            requires
                a.major < b.major,
                m * m > 0,
        ;
    } else if a.major > b.major {
        assert(b.major * (m * m) + (m * m) <= a.major * (m * m)) by (nonlinear_arith)
            requires
                b.major < a.major,
                m * m > 0,
        ;
    } else if a.minor < b.minor {
        assert(a.minor * m + m <= b.minor * m) by (nonlinear_arith)
            requires
                a.minor < b.minor,
                m > 0,
        ;
    } else if a.minor > b.minor {
        assert(b.minor * m + m <= a.minor * m) by (nonlinear_arith)
            requires
                b.minor < a.minor,
                m > 0,
        ;
    }
}

/// The version that the feed's newest entry names, if the feed can be read
/// and its newest tag parses.
pub open spec fn feed_version(body: Seq<u8>) -> Option<Version> {
    if !valid_utf8(body) {
        None
    } else {
        match latest_tag(decode_utf8(body)) {
            Some(tag) => parse_version(tag),
            None => None,
        }
    }
}

/// The feed's verdict compares versions as numbers: it says "newer" with
/// the feed's version exactly when that version's number is larger than
/// this build's, "up to date" exactly when it is not larger, and it says
/// nothing only when the feed names no version.
pub proof fn law_feed_verdict_is_numeric(current: Version, body: Seq<u8>)
    ensures
        atom_verdict_of(current, body) matches AtomVerdictView::Newer(v, _) ==> feed_version(body)
            == Some(v) && version_number(current) < version_number(v),
        atom_verdict_of(current, body) is UpToDate ==> (feed_version(body) matches Some(v)
            && version_number(v) <= version_number(current)),
        atom_verdict_of(current, body) is Unreadable <==> feed_version(body) is None,
        feed_version(body) matches Some(v) ==> (version_number(current) < version_number(v)
            <==> atom_verdict_of(current, body) is Newer),
{
    if let Some(v) = feed_version(body) {
        law_version_order_is_numeric(current, v);
    }
}

/// The API's answer offers only a newer build: an update it offers is the
/// release's own version and its number is larger than this build's; a
/// release whose version is not larger is "up to date", whatever assets it
/// has.
pub proof fn law_release_offers_only_newer(
    current: Version,
    rel: ReleaseView,
    asset_name: Seq<char>,
    releases_page: Seq<char>,
)
    ensures
        release_verdict_of(current, rel, asset_name, releases_page) matches Ok(Some(a)) ==> (
        parse_version(rel.tag_name) == Some(a.version) && version_number(current)
            < version_number(a.version)),
        (parse_version(rel.tag_name) matches Some(v) && version_number(v) <= version_number(
            current,
        )) ==> release_verdict_of(current, rel, asset_name, releases_page) is Ok
            && release_verdict_of(current, rel, asset_name, releases_page)->Ok_0 is None,
{
    if let Some(v) = parse_version(rel.tag_name) {
        law_version_order_is_numeric(current, v);
    }
}

// ---------------------------------------------------------------------------
// The order of the check
// ---------------------------------------------------------------------------

/// A check asks at most twice: it starts with the feed or the API, the
/// feed leads to the end or to the API, and the API always ends it.
pub proof fn law_check_asks_at_most_twice(
    api_url: Seq<char>,
    current: Version,
    atom_url: Seq<char>,
    feed_answer: Result<Seq<u8>, HttpErrorView>,
    asset_name: Seq<char>,
    releases_page: Seq<char>,
    atom: Option<Seq<char>>,
    known: Option<(Version, Seq<char>)>,
    api_answer: Result<Result<ReleaseView, Seq<char>>, HttpErrorView>,
)
    ensures
        !(check_begin_of(api_url) is Done),
        !(after_feed_of(current, atom_url, feed_answer) is FetchFeed),
        after_api_of(current, asset_name, releases_page, atom, known, api_answer) is Done,
{
}

/// The API is asked only when the feed does not show this build to be up
/// to date; when it does, the check ends with "no update".
pub proof fn law_api_only_when_feed_shows_no_answer(
    current: Version,
    atom_url: Seq<char>,
    body: Seq<u8>,
)
    ensures
        after_feed_of(current, atom_url, Ok(body)) is Done <==> atom_verdict_of(current, body)
            == AtomVerdictView::UpToDate,
        after_feed_of(current, atom_url, Ok(body)) is Done ==> after_feed_of(
            current,
            atom_url,
            Ok(body),
        ) == CheckStepView::Done(Ok(None)),
{
}

/// When the API fails after the feed showed a newer version, the update
/// still goes ahead, with the download URL built by rule and no digest.
pub proof fn law_api_failure_keeps_feed_result(
    current: Version,
    asset_name: Seq<char>,
    releases_page: Seq<char>,
    atom: Seq<char>,
    newer: Version,
    tag: Seq<char>,
    err: HttpErrorView,
)
    requires
        download_url_for(atom, tag, asset_name) is Some,
    ensures
        after_api_of(current, asset_name, releases_page, Some(atom), Some((newer, tag)), Err(err))
            matches CheckStepView::Done(Ok(Some(a))) && a.version == newer && a.sha256 is None
            && a.download_url == download_url_for(atom, tag, asset_name)->0,
{
}

/// An API refusal with HTTP 403, with nothing from the feed to go on, is
/// reported as the rate limit.
pub proof fn law_forbidden_is_rate_limit(
    current: Version,
    asset_name: Seq<char>,
    releases_page: Seq<char>,
    atom: Option<Seq<char>>,
)
    ensures
        after_api_of(current, asset_name, releases_page, atom, None, Err(HttpErrorView::Status(403)))
            == CheckStepView::Done(Err(CheckErrorView::RateLimited)),
{
}

} // verus!
