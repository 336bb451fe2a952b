//! Reading the newest release tag out of a GitHub `releases.atom` feed.
//!
//! No XML parser: the feed is cut into `<entry>` elements, the first
//! `<link ... href="...">` of each entry gives the release page URL, and its
//! last path segment is the tag. Broken or unexpected input gives `None`,
//! never a panic.

use vstd::prelude::*;

use crate::text::{
    after_last, chars_of, find_from, find_from_exec, lemma_find_from, slice_of,
    trim, trim_end_char, trim_exec,
};
use crate::update_logic::{after_last_exec, percent_decode, percent_decode_exec};
use crate::version::{parse_version, version_lt, Version};

verus! {

// ---------------------------------------------------------------------------
// Specification
// ---------------------------------------------------------------------------

/// The character at `i`, if there is one.
pub open spec fn char_at(s: Seq<char>, i: int) -> Option<char> {
    if 0 <= i < s.len() {
        Some(s[i])
    } else {
        None
    }
}

/// A character that may follow a tag name: white space, `>` or `/`.
pub open spec fn is_tag_boundary(c: Option<char>) -> bool {
    match c {
        Some(c) => c == ' ' || c == '\t' || c == '\n' || c == '\r' || c == '>' || c == '/',
        None => false,
    }
}

pub open spec fn is_xml_space(c: char) -> bool {
    c == ' ' || c == '\t' || c == '\n' || c == '\r'
}

/// The contents of the elements `<name ...>...</name>` found from `cursor`
/// on. A self-closing `<name .../>` is skipped; a start tag without `>` or
/// an element without its end tag stops the scan.
pub open spec fn elements_from(xml: Seq<char>, name: Seq<char>, cursor: int) -> Seq<Seq<char>>
    decreases xml.len() + 1 - cursor,
{
    let open = seq!['<'] + name;
    let close = seq!['<', '/'] + name + seq!['>'];
    if cursor < 0 || cursor > xml.len() {
        Seq::empty()
    } else {
        match find_from(xml, open, cursor) {
            None => Seq::empty(),
            Some(tag_start) => {
                proof {
                    lemma_find_from(xml, open, cursor);
                }
                let after = tag_start + open.len();
                if !is_tag_boundary(char_at(xml, after)) {
                    elements_from(xml, name, after)
                } else {
                    match find_from(xml, seq!['>'], tag_start) {
                        None => Seq::empty(),
                        Some(gt) => {
                            proof {
                                lemma_find_from(xml, seq!['>'], tag_start);
                            }
                            let content_start = gt + 1;
                            if xml[gt - 1] == '/' {
                                elements_from(xml, name, content_start)
                            } else {
                                match find_from(xml, close, content_start) {
                                    None => Seq::empty(),
                                    Some(content_end) => {
                                        proof {
                                            lemma_find_from(xml, close, content_start);
                                        }
                                        seq![xml.subrange(content_start, content_end)]
                                            + elements_from(xml, name, content_end + close.len())
                                    },
                                }
                            }
                        },
                    }
                }
            },
        }
    }
}

/// The value of attribute `name` in `tag`, searched from `cursor`: the
/// first `name=` at the start or after white space whose value is quoted
/// with `"` or `'`. An unclosed quote gives `None`.
pub open spec fn attr_from(tag: Seq<char>, name: Seq<char>, cursor: int) -> Option<Seq<char>>
    decreases tag.len() + 1 - cursor,
{
    let pattern = name.push('=');
    if cursor < 0 || cursor > tag.len() {
        None
    } else {
        match find_from(tag, pattern, cursor) {
            None => None,
            Some(idx) => {
                proof {
                    lemma_find_from(tag, pattern, cursor);
                }
                let preceded = idx == 0 || is_xml_space(tag[idx - 1]);
                let value_start = idx + pattern.len();
                if preceded && value_start < tag.len() && (tag[value_start] == '"'
                    || tag[value_start] == '\'') {
                    match find_from(tag, seq![tag[value_start]], value_start + 1) {
                        Some(end) => Some(tag.subrange(value_start + 1, end)),
                        None => None,
                    }
                } else {
                    attr_from(tag, name, value_start)
                }
            },
        }
    }
}

pub open spec fn link_open() -> Seq<char> {
    seq!['<', 'l', 'i', 'n', 'k']
}

pub open spec fn href_name() -> Seq<char> {
    seq!['h', 'r', 'e', 'f']
}

/// The first non-empty `href` of a `<link ...>` tag in `entry`, searched
/// from `cursor`. A `<link` without a closing `>` gives `None`.
pub open spec fn link_href_from(entry: Seq<char>, cursor: int) -> Option<Seq<char>>
    decreases entry.len() + 1 - cursor,
{
    if cursor < 0 || cursor > entry.len() {
        None
    } else {
        match find_from(entry, link_open(), cursor) {
            None => None,
            Some(tag_start) => {
                proof {
                    lemma_find_from(entry, link_open(), cursor);
                }
                let after = tag_start + 5;
                if !is_tag_boundary(char_at(entry, after)) {
                    link_href_from(entry, after)
                } else {
                    match find_from(entry, seq!['>'], tag_start) {
                        None => None,
                        Some(tag_end) => {
                            proof {
                                lemma_find_from(entry, seq!['>'], tag_start);
                            }
                            match attr_from(
                                entry.subrange(tag_start, tag_end + 1),
                                href_name(),
                                0,
                            ) {
                                Some(h) => if h.len() > 0 {
                                    Some(h)
                                } else {
                                    link_href_from(entry, tag_end + 1)
                                },
                                None => link_href_from(entry, tag_end + 1),
                            }
                        },
                    }
                }
            },
        }
    }
}

/// The tag named by a release page URL (`.../releases/tag/{tag}`): its
/// last path segment, percent-decoded.
pub open spec fn tag_of_release_url(href: Seq<char>) -> Option<Seq<char>> {
    let trimmed = trim_end_char(trim(href), '/');
    let last = after_last(trimmed, '/');
    if last.len() == 0 {
        None
    } else {
        Some(percent_decode(last))
    }
}

/// The version and tag that an entry names, if it names a readable one.
pub open spec fn entry_candidate(entry: Seq<char>) -> Option<(Version, Seq<char>)> {
    match link_href_from(entry, 0) {
        None => None,
        Some(href) => match tag_of_release_url(href) {
            None => None,
            Some(tag) => match parse_version(tag) {
                None => None,
                Some(v) => Some((v, tag)),
            },
        },
    }
}

/// The candidate with the greatest version; of equal versions the first.
pub open spec fn best_candidate(entries: Seq<Seq<char>>) -> Option<(Version, Seq<char>)>
    decreases entries.len(),
{
    if entries.len() == 0 {
        None
    } else {
        let b = best_candidate(entries.drop_last());
        match entry_candidate(entries.last()) {
            None => b,
            Some(c) => match b {
                None => Some(c),
                Some(prev) => if version_lt(prev.0, c.0) {
                    Some(c)
                } else {
                    b
                },
            },
        }
    }
}

/// `extract_latest_tag_from_atom`.
pub open spec fn latest_tag(xml: Seq<char>) -> Option<Seq<char>> {
    match best_candidate(elements_from(xml, seq!['e', 'n', 't', 'r', 'y'], 0)) {
        Some(c) => Some(c.1),
        None => None,
    }
}

// ---------------------------------------------------------------------------
// Executable code
// ---------------------------------------------------------------------------

fn is_tag_boundary_at(s: &Vec<char>, i: usize) -> (r: bool)
    ensures
        r == is_tag_boundary(char_at(s@, i as int)),
{
    if i < s.len() {
        let c = s[i];
        c == ' ' || c == '\t' || c == '\n' || c == '\r' || c == '>' || c == '/'
    } else {
        false
    }
}

/// The contents of every `<name ...>...</name>` element of `xml`, in order.
fn find_elements(xml: &Vec<char>, name: &Vec<char>) -> (r: Vec<Vec<char>>)
    ensures
        r@.len() == elements_from(xml@, name@, 0).len(),
        forall|i: int| 0 <= i < r@.len() ==> #[trigger] r@[i]@ == elements_from(xml@, name@, 0)[i],
{
    let mut open: Vec<char> = Vec::new();
    open.push('<');
    crate::update_logic::extend_chars(&mut open, name);
    let mut close: Vec<char> = Vec::new();
    close.push('<');
    close.push('/');
    crate::update_logic::extend_chars(&mut close, name);
    close.push('>');
    assert(open@ == seq!['<'] + name@);
    assert(close@ == seq!['<', '/'] + name@ + seq!['>']);
    let mut gt: Vec<char> = Vec::new();
    gt.push('>');
    assert(gt@ == seq!['>']);
    let ghost total = elements_from(xml@, name@, 0);
    let mut result: Vec<Vec<char>> = Vec::new();
    let mut cursor: usize = 0;
    loop
        invariant
            cursor <= xml.len(),
            open@ == seq!['<'] + name@,
            close@ == seq!['<', '/'] + name@ + seq!['>'],
            gt@ == seq!['>'],
            total == elements_from(xml@, name@, 0),
            total == Seq::new(result@.len() as nat, |i: int| result@[i]@) + elements_from(
                xml@,
                name@,
                cursor as int,
            ),
        ensures
            total == Seq::new(result@.len() as nat, |i: int| result@[i]@),
        decreases xml.len() + 1 - cursor,
    {
        let ghost done = Seq::new(result@.len() as nat, |i: int| result@[i]@);
        let tag_start = match find_from_exec(xml, &open, cursor) {
            Some(t) => t,
            None => {
                assert(elements_from(xml@, name@, cursor as int) == Seq::<Seq<char>>::empty());
                assert(done + Seq::<Seq<char>>::empty() == done);
                break;
            },
        };
        let after = tag_start + open.len();
        if !is_tag_boundary_at(xml, after) {
            cursor = after;
            continue;
        }
        let gt_pos = match find_from_exec(xml, &gt, tag_start) {
            Some(g) => g,
            None => {
                assert(elements_from(xml@, name@, cursor as int) == Seq::<Seq<char>>::empty());
                assert(done + Seq::<Seq<char>>::empty() == done);
                break;
            },
        };
        assert(xml@.subrange(tag_start as int, tag_start + open@.len())[0] == '<');
        assert(gt_pos != tag_start);
        let content_start = gt_pos + 1;
        if xml[gt_pos - 1] == '/' {
            cursor = content_start;
            continue;
        }
        let content_end = match find_from_exec(xml, &close, content_start) {
            Some(e) => e,
            None => {
                assert(elements_from(xml@, name@, cursor as int) == Seq::<Seq<char>>::empty());
                assert(done + Seq::<Seq<char>>::empty() == done);
                break;
            },
        };
        let content = slice_of(xml, content_start, content_end);
        let ghost next = content_end + close@.len();
        let ghost rest = elements_from(xml@, name@, next);
        assert(elements_from(xml@, name@, cursor as int) == seq![content@] + rest);
        result.push(content);
        assert(Seq::new(result@.len() as nat, |i: int| result@[i]@) == done.push(content@));
        assert(done + (seq![content@] + rest) == done.push(content@) + rest);
        cursor = content_end + close.len();
    }
    result
}

/// The value of attribute `name` in the tag text `tag`.
fn extract_attr(tag: &Vec<char>, name: &Vec<char>) -> (r: Option<Vec<char>>)
    ensures
        r matches Some(v) ==> attr_from(tag@, name@, 0) == Some(v@),
        r is None ==> attr_from(tag@, name@, 0) is None,
{
    let mut pattern = name.clone();
    pattern.push('=');
    let mut cursor: usize = 0;
    loop
        invariant
            cursor <= tag.len(),
            pattern@ == name@.push('='),
            attr_from(tag@, name@, 0) == attr_from(tag@, name@, cursor as int),
        decreases tag.len() + 1 - cursor,
    {
        let idx = match find_from_exec(tag, &pattern, cursor) {
            Some(i) => i,
            None => return None,
        };
        let preceded = idx == 0 || {
            let p = tag[idx - 1];
            p == ' ' || p == '\t' || p == '\n' || p == '\r'
        };
        let value_start = idx + pattern.len();
        if preceded && value_start < tag.len() {
            let quote = tag[value_start];
            if quote == '"' || quote == '\'' {
                let mut q: Vec<char> = Vec::new();
                q.push(quote);
                assert(q@ == seq![quote]);
                let after_quote = value_start + 1;
                match find_from_exec(tag, &q, after_quote) {
                    Some(end) => {
                        return Some(slice_of(tag, after_quote, end));
                    },
                    None => return None,
                }
            }
        }
        cursor = value_start;
    }
}

/// The first non-empty `href` of a `<link ...>` tag in `entry`.
fn first_link_href(entry: &Vec<char>) -> (r: Option<Vec<char>>)
    ensures
        r matches Some(v) ==> link_href_from(entry@, 0) == Some(v@),
        r is None ==> link_href_from(entry@, 0) is None,
{
    let link = chars_of("<link");
    let href = chars_of("href");
    proof {
        reveal_strlit("<link");
        reveal_strlit("href");
    }
    assert(link@ == link_open());
    assert(href@ == href_name());
    let mut gt: Vec<char> = Vec::new();
    gt.push('>');
    assert(gt@ == seq!['>']);
    let mut cursor: usize = 0;
    loop
        invariant
            cursor <= entry.len(),
            link@ == link_open(),
            href@ == href_name(),
            gt@ == seq!['>'],
            link_href_from(entry@, 0) == link_href_from(entry@, cursor as int),
        decreases entry.len() + 1 - cursor,
    {
        let tag_start = match find_from_exec(entry, &link, cursor) {
            Some(t) => t,
            None => return None,
        };
        let after = tag_start + 5;
        if !is_tag_boundary_at(entry, after) {
            cursor = after;
            continue;
        }
        let tag_end = match find_from_exec(entry, &gt, tag_start) {
            Some(e) => e,
            None => return None,
        };
        let tag = slice_of(entry, tag_start, tag_end + 1);
        match extract_attr(&tag, &href) {
            Some(value) => {
                if value.len() > 0 {
                    return Some(value);
                }
            },
            None => {},
        }
        cursor = tag_end + 1;
    }
}

/// The tag named by a release page URL (`.../releases/tag/{tag}`): its last
/// path segment (trailing `/` ignored), percent-decoded.
pub fn tag_from_release_url(href: &str) -> (r: Option<String>)
    ensures
        r matches Some(s) ==> tag_of_release_url(href@) == Some(s@),
        r is None ==> tag_of_release_url(href@) is None,
{
    let chars = chars_of(href);
    tag_of_href(&chars)
}

/// [`tag_from_release_url`] on characters.
fn tag_of_href(href: &Vec<char>) -> (r: Option<String>)
    ensures
        r matches Some(s) ==> tag_of_release_url(href@) == Some(s@),
        r is None ==> tag_of_release_url(href@) is None,
{
    let t = trim_exec(href);
    let mut end = t.len();
    assert(t@.take(end as int) == t@);
    while end > 0 && t[end - 1] == '/'
        invariant
            end <= t.len(),
            trim_end_char(t@, '/') == trim_end_char(t@.take(end as int), '/'),
        decreases end,
    {
        assert(t@.take(end as int).drop_last() == t@.take(end - 1));
        end -= 1;
    }
    let trimmed = slice_of(&t, 0, end);
    assert(t@.subrange(0, end as int) == t@.take(end as int));
    let last = after_last_exec(&trimmed, '/');
    if last.len() == 0 {
        return None;
    }
    Some(percent_decode_exec(&last))
}

/// Reads the tag of the newest release from a GitHub `releases.atom`
/// feed, or `None`.
///
/// It does not go by the order of the entries: of the tags that read as
/// versions it picks the greatest version (the first of equal ones).
/// Tags that are no versions (`nightly`, `wip`) are ignored. A tag is the
/// last path segment of the entry's first `<link ... href=".../releases/tag/{tag}"/>`.
pub fn extract_latest_tag_from_atom(xml: &str) -> (r: Option<String>)
    ensures
        r matches Some(s) ==> latest_tag(xml@) == Some(s@),
        r is None ==> latest_tag(xml@) is None,
{
    let chars = chars_of(xml);
    let name = chars_of("entry");
    proof {
        reveal_strlit("entry");
    }
    assert(name@ == seq!['e', 'n', 't', 'r', 'y']);
    let entries = find_elements(&chars, &name);
    let ghost all = elements_from(chars@, name@, 0);
    let mut best: Option<(Version, String)> = None;
    let mut k: usize = 0;
    while k < entries.len()
        invariant
            k <= entries@.len(),
            entries@.len() == all.len(),
            forall|i: int| 0 <= i < entries@.len() ==> #[trigger] entries@[i]@ == all[i],
            match best {
                Some(b) => best_candidate(all.take(k as int)) == Some((b.0, b.1@)),
                None => best_candidate(all.take(k as int)) is None,
            },
        decreases entries.len() - k,
    {
        assert(all.take(k + 1).drop_last() == all.take(k as int));
        assert(all.take(k + 1).last() == entries@[k as int]@);
        let entry = &entries[k];
        if let Some(href) = first_link_href(entry) {
            if let Some(tag) = tag_of_href(&href) {
                if let Some(version) = Version::parse(tag.as_str()) {
                    let is_better = match &best {
                        Some(b) => version.is_newer_than(&b.0),
                        None => true,
                    };
                    if is_better {
                        best = Some((version, tag));
                    }
                }
            }
        }
        k += 1;
    }
    assert(all.take(entries@.len() as int) == all);
    match best {
        Some(b) => Some(b.1),
        None => None,
    }
}

} // verus!
