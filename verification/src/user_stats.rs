//! The user stats button: its title, drawn from the user's name, and the
//! names and paths of the images it shows.

use vstd::prelude::*;
use std::collections::hash_map::DefaultHasher;
use std::hash::Hasher;
use vstd::std_specs::hash::DefaultHasherAdditionalSpecFns;
use vstd::utf8::encode_utf8;
use crate::ids::{is_v4_uuid_text, new_v4_uuid};
use crate::text::{
    trim_str,
    char_views, chars_of, copy_range, join_range, join_words, lemma_join_take_next, split_words,
    string_of, trim, trim_bounds, trim_chars, trim_end, trim_end_bound, words,
};

verus! {

/// `input` trimmed and cut to `max_chars` characters; a cut label loses its
/// trailing white space and ends in `...`.
pub open spec fn trim_label_spec(input: Seq<char>, max_chars: nat) -> Seq<char> {
    let t = trim(input);
    if t.len() > max_chars {
        trim_end(t.take(max_chars as int)) + seq!['.', '.', '.']
    } else {
        t
    }
}

/// The number of leading words of `ws` that go on a title's first line: the
/// first word always, then each next word while the line, words joined by
/// single spaces, stays within `max` characters.
pub open spec fn fit_count(ws: Seq<Seq<char>>, max: nat, k: nat) -> nat
    decreases ws.len() - k,
{
    if k < ws.len() && join_words(ws.take(k + 1 as int)).len() <= max {
        fit_count(ws, max, k + 1)
    } else {
        k
    }
}

/// A title laid out on at most two lines of about `max` characters: kept
/// whole when it fits, else broken between words where it can be, else
/// broken after `max` characters; the second line is cut as a label.
pub open spec fn wrap_title_spec(input: Seq<char>, max: nat) -> Seq<char> {
    let t = trim(input);
    let ws = words(t);
    let k = fit_count(ws, max, 1);
    if t.len() == 0 {
        Seq::empty()
    } else if t.len() <= max {
        t
    } else if ws.len() >= 2 && k < ws.len() {
        join_words(ws.take(k as int)) + seq!['\n'] + trim_label_spec(
            join_words(ws.skip(k as int)),
            max,
        )
    } else {
        t.take(max as int) + seq!['\n'] + trim_label_spec(t.skip(max as int), max)
    }
}

/// `trim_label` over characters.
pub fn trim_label_chars(input: &Vec<char>, max_chars: usize) -> (r: Vec<char>)
    ensures
        r@ == trim_label_spec(input@, max_chars as nat),
{
    let (lo, hi) = trim_bounds(input);
    let ghost t = input@.subrange(lo as int, hi as int);
    if hi - lo > max_chars {
        let end = trim_end_bound(input, lo, lo + max_chars);
        assert(t.take(max_chars as int) =~= input@.subrange(lo as int, lo + max_chars));
        let mut r = copy_range(input, lo, end);
        r.push('.');
        r.push('.');
        r.push('.');
        assert(r@ =~= input@.subrange(lo as int, end as int) + seq!['.', '.', '.']);
        r
    } else {
        copy_range(input, lo, hi)
    }
}

/// A label cut to at most `max_chars` characters after trimming, ending in
/// `...` where it was cut.
pub fn trim_label(input: &str, max_chars: usize) -> (r: String)
    ensures
        r@ == trim_label_spec(input@, max_chars as nat),
{
    let v = chars_of(input);
    let r = trim_label_chars(&v, max_chars);
    string_of(&r)
}

/// `a`, a newline and `b`.
fn two_lines(a: &Vec<char>, b: &Vec<char>) -> (r: Vec<char>)
    ensures
        r@ == a@ + seq!['\n'] + b@,
{
    let mut r = copy_range(a, 0, a.len());
    assert(a@.subrange(0, a.len() as int) =~= a@);
    r.push('\n');
    let mut i: usize = 0;
    let ghost base = r@;
    while i < b.len()
        invariant
            i <= b.len(),
            r@ == base + b@.subrange(0, i as int),
        decreases b.len() - i,
    {
        r.push(b[i]);
        i = i + 1;
        assert(r@ =~= base + b@.subrange(0, i as int));
    }
    assert(b@.subrange(0, b.len() as int) =~= b@);
    r
}

/// A title laid out on at most two lines of about `max_line_chars`
/// characters.
pub fn wrap_title(input: &str, max_line_chars: usize) -> (r: String)
    ensures
        r@ == wrap_title_spec(input@, max_line_chars as nat),
{
    let v = chars_of(input);
    let t = trim_chars(&v);
    let max = max_line_chars;
    if t.len() == 0 {
        return String::new();
    }
    if t.len() <= max {
        return string_of(&t);
    }
    let ws = split_words(&t);
    let ghost views = char_views(ws@);
    if ws.len() >= 2 {
        let mut first = copy_range(&ws[0], 0, ws[0].len());
        proof {
            assert(ws@[0]@.subrange(0, ws@[0]@.len() as int) =~= ws@[0]@);
            assert(views.take(1) =~= seq![views[0]]);
        }
        let mut start: usize = 1;
        while start < ws.len()
            invariant_except_break
                1 <= start <= ws.len(),
                views == char_views(ws@),
                first@ == join_words(views.take(start as int)),
                fit_count(views, max as nat, 1) == fit_count(views, max as nat, start as nat),
            ensures
                1 <= start <= ws.len(),
                first@ == join_words(views.take(start as int)),
                fit_count(views, max as nat, 1) == start,
            decreases ws.len() - start,
        {
            let w = &ws[start];
            proof {
                lemma_join_take_next(views, start as int);
            }
            if first.len() < max && w.len() <= max - first.len() - 1 {
                first.push(' ');
                let mut k: usize = 0;
                let ghost base = first@;
                while k < w.len()
                    invariant
                        k <= w.len(),
                        first@ == base + w@.subrange(0, k as int),
                    decreases w.len() - k,
                {
                    first.push(w[k]);
                    k = k + 1;
                    assert(first@ =~= base + w@.subrange(0, k as int));
                }
                assert(w@.subrange(0, w.len() as int) =~= w@);
                start = start + 1;
            } else {
                break;
            }
        }
        if start < ws.len() {
            let rest = join_range(&ws, start, ws.len());
            assert(views.subrange(start as int, ws.len() as int) =~= views.skip(start as int));
            let second = trim_label_chars(&rest, max);
            let r = two_lines(&first, &second);
            return string_of(&r);
        }
    }
    let first = copy_range(&t, 0, max);
    let remainder = copy_range(&t, max, t.len());
    assert(t@.take(max as int) =~= t@.subrange(0, max as int));
    assert(t@.skip(max as int) =~= t@.subrange(max as int, t.len() as int));
    let second = trim_label_chars(&remainder, max);
    let r = two_lines(&first, &second);
    string_of(&r)
}

/// The lowercase hexadecimal digit for `d`, which is below 16.
pub open spec fn hex_digit(d: u64) -> char {
    if d == 0 {
        '0'
    } else if d == 1 {
        '1'
    } else if d == 2 {
        '2'
    } else if d == 3 {
        '3'
    } else if d == 4 {
        '4'
    } else if d == 5 {
        '5'
    } else if d == 6 {
        '6'
    } else if d == 7 {
        '7'
    } else if d == 8 {
        '8'
    } else if d == 9 {
        '9'
    } else if d == 10 {
        'a'
    } else if d == 11 {
        'b'
    } else if d == 12 {
        'c'
    } else if d == 13 {
        'd'
    } else if d == 14 {
        'e'
    } else {
        'f'
    }
}

/// `n` as `{:016x}` writes it: sixteen lowercase hexadecimal digits, the
/// most significant first.
pub open spec fn hex16(n: u64) -> Seq<char> {
    Seq::new(16, |i: int| hex_digit((n >> ((60 - 4 * i) as u64)) & 0xf))
}

fn hex_digit_char(d: u64) -> (c: char)
    ensures
        c == hex_digit(d),
{
    if d == 0 {
        '0'
    } else if d == 1 {
        '1'
    } else if d == 2 {
        '2'
    } else if d == 3 {
        '3'
    } else if d == 4 {
        '4'
    } else if d == 5 {
        '5'
    } else if d == 6 {
        '6'
    } else if d == 7 {
        '7'
    } else if d == 8 {
        '8'
    } else if d == 9 {
        '9'
    } else if d == 10 {
        'a'
    } else if d == 11 {
        'b'
    } else if d == 12 {
        'c'
    } else if d == 13 {
        'd'
    } else if d == 14 {
        'e'
    } else {
        'f'
    }
}

/// Appends `n` as sixteen lowercase hexadecimal digits.
fn push_hex16(s: &mut String, n: u64)
    ensures
        final(s)@ == old(s)@ + hex16(n),
{
    let mut v: Vec<char> = Vec::new();
    let mut i: u64 = 0;
    while i < 16
        invariant
            i <= 16,
            v@ == hex16(n).take(i as int),
        decreases 16 - i,
    {
        let d = (n >> (60 - 4 * i)) & 0xf;
        let c = hex_digit_char(d);
        v.push(c);
        i = i + 1;
        assert(v@ =~= hex16(n).take(i as int));
    }
    assert(hex16(n).take(16) =~= hex16(n));
    let h = string_of(&v);
    s.append(h.as_str());
}

/// What hashing one `str` writes into a hasher: its UTF-8 bytes, then the
/// byte `0xff` that `impl Hash for str` adds.
pub open spec fn str_hash_writes(s: Seq<char>) -> Seq<Seq<u8>> {
    seq![encode_utf8(s), seq![0xffu8]]
}

/// The hash that a fresh `DefaultHasher` gives after hashing `tag`,
/// `user_id` and `avatar_hash`, in that order.
pub open spec fn avatar_key_hash(tag: Seq<char>, user_id: Seq<char>, avatar_hash: Seq<char>) -> u64 {
    DefaultHasher::spec_finish(
        str_hash_writes(tag) + str_hash_writes(user_id) + str_hash_writes(avatar_hash),
    )
}

/// Feeds `s` to `hasher` as `str::hash` does.
fn hash_str(hasher: &mut DefaultHasher, s: &str)
    ensures
        final(hasher)@ == old(hasher)@ + str_hash_writes(s@),
{
    hasher.write(s.as_bytes());
    let sep: [u8; 1] = [0xffu8];
    hasher.write(&sep);
    assert(sep@ =~= seq![0xffu8]);
    assert(final(hasher)@ =~= old(hasher)@ + str_hash_writes(s@));
}

/// The hash of `tag`, `user_id` and `avatar_hash` under a fresh
/// `DefaultHasher`.
fn avatar_key(tag: &str, user_id: &str, avatar_hash: &str) -> (h: u64)
    ensures
        h == avatar_key_hash(tag@, user_id@, avatar_hash@),
{
    let mut hasher = DefaultHasher::new();
    hash_str(&mut hasher, tag);
    hash_str(&mut hasher, user_id);
    hash_str(&mut hasher, avatar_hash);
    assert(hasher@ =~= str_hash_writes(tag@) + str_hash_writes(user_id@) + str_hash_writes(
        avatar_hash@,
    ));
    hasher.finish()
}

/// `prefix`, then the hash in hexadecimal, then `.png`.
fn png_name(prefix: &str, h: u64) -> (r: String)
    ensures
        r@ == prefix@ + hex16(h) + ".png"@,
{
    let mut r = String::from_str(prefix);
    push_hex16(&mut r, h);
    r.append(".png");
    r
}

/// The file name of the composed stats image for a user and avatar.
pub fn stats_image_filename(user_id: &str, avatar_hash: &str) -> (r: String)
    ensures
        r@ == "user_stats_"@ + hex16(
            avatar_key_hash("user_stats_avatar_only_v1"@, user_id@, avatar_hash@),
        ) + ".png"@,
{
    let h = avatar_key("user_stats_avatar_only_v1", user_id, avatar_hash);
    png_name("user_stats_", h)
}

/// The file name under which a user's downloaded avatar is cached.
pub fn avatar_cache_filename(user_id: &str, avatar_hash: &str) -> (r: String)
    ensures
        r@ == "user_stats_avatar_"@ + hex16(
            avatar_key_hash("user_stats_avatar_cache_v4"@, user_id@, avatar_hash@),
        ) + ".png"@,
{
    let h = avatar_key("user_stats_avatar_cache_v4", user_id, avatar_hash);
    png_name("user_stats_avatar_", h)
}

/// `s` with every trailing copy of `suffix` removed, as
/// `str::trim_end_matches` does with a non-empty pattern.
pub open spec fn strip_suffixes(s: Seq<char>, suffix: Seq<char>) -> Seq<char>
    decreases s.len(),
{
    if suffix.len() > 0 && s.len() >= suffix.len() && s.skip(s.len() - suffix.len()) == suffix {
        strip_suffixes(s.take(s.len() - suffix.len()), suffix)
    } else {
        s
    }
}

/// `s` with every trailing copy of `suffix` removed.
pub fn trim_end_matches(s: &Vec<char>, suffix: &Vec<char>) -> (r: Vec<char>)
    ensures
        r@ == strip_suffixes(s@, suffix@),
{
    let mut end: usize = s.len();
    let m = suffix.len();
    assert(s@.take(end as int) =~= s@);
    loop
        invariant
            end <= s.len(),
            m == suffix.len(),
            strip_suffixes(s@.take(end as int), suffix@) == strip_suffixes(s@, suffix@),
        ensures
            end <= s.len(),
            strip_suffixes(s@.take(end as int), suffix@) == strip_suffixes(s@, suffix@),
            strip_suffixes(s@.take(end as int), suffix@) == s@.take(end as int),
        decreases end,
    {
        let ghost cur = s@.take(end as int);
        if m == 0 || end < m {
            break;
        }
        let mut i: usize = 0;
        let mut same = true;
        while i < m
            invariant
                i <= m,
                m == suffix.len(),
                m <= end <= s.len(),
                same == forall|j: int| 0 <= j < i ==> s@[end - m + j] == suffix@[j],
            decreases m - i,
        {
            if s[end - m + i] != suffix[i] {
                same = false;
            }
            i = i + 1;
        }
        assert(same == (cur.skip(cur.len() - m) =~= suffix@)) by {
            assert forall|j: int| 0 <= j < m implies #[trigger] cur.skip(cur.len() - m)[j] == s@[end - m + j] by {}
        }
        if !same {
            break;
        }
        assert(cur.take(cur.len() - m) =~= s@.take(end - m));
        end = end - m;
    }
    let r = copy_range(s, 0, end);
    assert(r@ =~= s@.take(end as int));
    r
}

/// Where the composed stats image for `filename` is looked up: under
/// `actions/generated/`, without the `.png` extension.
pub fn image_path_for(filename: &str) -> (r: String)
    ensures
        r@ == "actions/generated/"@ + strip_suffixes(filename@, ".png"@),
{
    let name = chars_of(filename);
    let ext = chars_of(".png");
    let stem = trim_end_matches(&name, &ext);
    let mut r = String::from_str("actions/generated/");
    let stem_s = string_of(&stem);
    r.append(stem_s.as_str());
    r
}

/// The Discord CDN address of a user's avatar, at 256 pixels.
pub fn avatar_url(user_id: &str, avatar_hash: &str) -> (r: String)
    ensures
        r@ == "https://cdn.discordapp.com/avatars/"@ + user_id@ + "/"@ + avatar_hash@
            + ".png?size=256"@,
{
    let mut r = String::from_str("https://cdn.discordapp.com/avatars/");
    r.append(user_id);
    r.append("/");
    r.append(avatar_hash);
    r.append(".png?size=256");
    r
}

/// The name of the scratch file for the resized avatar, made unique by `id`.
pub fn temp_avatar_filename(id: &str) -> (r: String)
    ensures
        r@ == "user_stats_avatar_fullbleed_"@ + id@ + ".png"@,
{
    let mut r = String::from_str("user_stats_avatar_fullbleed_");
    r.append(id);
    r.append(".png");
    r
}

/// The avatar hash to draw from, if the user has a non-blank one: trimmed.
pub fn usable_avatar_hash(avatar_hash: Option<&str>) -> (r: Option<String>)
    ensures
        match avatar_hash {
            None => r is None,
            Some(h) => if trim(h@).len() == 0 {
                r is None
            } else {
                r matches Some(t) && t@ == trim(h@)
            },
        },
{
    match avatar_hash {
        None => None,
        Some(h) => {
            let t = trim_str(h);
            if t.unicode_len() == 0 {
                None
            } else {
                Some(t)
            }
        },
    }
}

/// The stats button's title: the user's name cut to eighteen characters and
/// laid out on lines of eight, or `User` when nobody is signed in.
pub fn user_stats_title(username: Option<&str>) -> (r: String)
    ensures
        match username {
            Some(name) => r@ == wrap_title_spec(trim_label_spec(name@, 18), 8),
            None => r@ == "User"@,
        },
{
    match username {
        Some(name) => {
            let label = trim_label(name, 18);
            wrap_title(label.as_str(), 8)
        },
        None => String::from_str("User"),
    }
}

/// The stats button's image: the composed one, or the stock server stats
/// image when none could be made.
pub fn user_stats_image(rendered: Option<String>) -> (r: String)
    ensures
        match rendered {
            Some(path) => r == path,
            None => r@ == "actions/serverStats"@,
        },
{
    match rendered {
        Some(path) => path,
        None => String::from_str("actions/serverStats"),
    }
}

/// The texts of a list of strings.
pub open spec fn texts(v: Seq<String>) -> Seq<Seq<char>> {
    v.map_values(|s: String| s@)
}

fn push_str(v: &mut Vec<String>, s: &str)
    ensures
        final(v)@ == old(v)@.push(final(v)@.last()),
        final(v)@.last()@ == s@,
{
    v.push(String::from_str(s));
}

/// The arguments of the `convert` run that crops the avatar at
/// `avatar_path` to a full 144 by 144 square, written as 32-bit PNG to
/// `temp_path`.
pub fn fullbleed_avatar_args(avatar_path: &str, temp_path: &str) -> (r: Vec<String>)
    ensures
        texts(r@) == seq![avatar_path@, "-resize"@, "144x144^"@, "-gravity"@, "center"@, "-crop"@,
            "144x144+0+0"@, "+repage"@, "png32:"@ + temp_path@],
{
    let mut r: Vec<String> = Vec::new();
    push_str(&mut r, avatar_path);
    push_str(&mut r, "-resize");
    push_str(&mut r, "144x144^");
    push_str(&mut r, "-gravity");
    push_str(&mut r, "center");
    push_str(&mut r, "-crop");
    push_str(&mut r, "144x144+0+0");
    push_str(&mut r, "+repage");
    let mut target = String::from_str("png32:");
    target.append(temp_path);
    r.push(target);
    assert(texts(r@) =~= seq![avatar_path@, "-resize"@, "144x144^"@, "-gravity"@, "center"@, "-crop"@,
            "144x144+0+0"@, "+repage"@, "png32:"@ + temp_path@]);
    r
}

/// The arguments of the `convert` run that lays the cropped avatar at
/// `temp_path` over the blank button face at `blank_path`, centred, and
/// writes the button image to `output_path`.
pub fn compose_args(blank_path: &str, temp_path: &str, output_path: &str) -> (r: Vec<String>)
    ensures
        texts(r@) == seq![blank_path@, temp_path@, "-gravity"@, "center"@, "-geometry"@, "+0+0"@,
            "-composite"@, output_path@],
{
    let mut r: Vec<String> = Vec::new();
    push_str(&mut r, blank_path);
    push_str(&mut r, temp_path);
    push_str(&mut r, "-gravity");
    push_str(&mut r, "center");
    push_str(&mut r, "-geometry");
    push_str(&mut r, "+0+0");
    push_str(&mut r, "-composite");
    push_str(&mut r, output_path);
    assert(texts(r@) =~= seq![blank_path@, temp_path@, "-gravity"@, "center"@, "-geometry"@, "+0+0"@,
            "-composite"@, output_path@]);
    r
}

/// A fresh name for the scratch file of a resized avatar, made unique by a
/// random UUID.
pub fn fresh_temp_avatar_filename() -> (r: String)
    ensures
        exists|id: Seq<char>| is_v4_uuid_text(id) && r@ == "user_stats_avatar_fullbleed_"@ + id + ".png"@,
{
    let id = new_v4_uuid();
    let r = temp_avatar_filename(id.as_str());
    assert(is_v4_uuid_text(id@) && r@ == "user_stats_avatar_fullbleed_"@ + id@ + ".png"@);
    r
}

/// The button that shows the signed-in user's avatar and name.
pub struct UserStatsAction;

impl UserStatsAction {
    /// What the button shows, as `(image, title)`: the composed image or
    /// the stock one, and the user's name laid out, or `User`.
    pub fn appearance(username: Option<&str>, rendered: Option<String>) -> (r: (String, String))
        ensures
            match rendered {
                Some(path) => r.0 == path,
                None => r.0@ == "actions/serverStats"@,
            },
            match username {
                Some(name) => r.1@ == wrap_title_spec(trim_label_spec(name@, 18), 8),
                None => r.1@ == "User"@,
            },
    {
        let title = user_stats_title(username);
        (user_stats_image(rendered), title)
    }
}

} // verus!
