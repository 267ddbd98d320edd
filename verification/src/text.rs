//! Text helpers shared by the page, link and bot logic: string equality,
//! decimal and hexadecimal formatting, ASCII lowercasing and joining.

use vstd::prelude::*;
use vstd::string::*;

verus! {

/// The view of an optional string slice: `None` stays `None`, a slice becomes its characters.
pub open spec fn str_option_view(o: Option<&str>) -> Option<Seq<char>> {
    match o {
        Some(s) => Some(s@),
        None => None,
    }
}

/// Appends one character to a string (`String::push`).
#[verifier::external_body]
pub(crate) fn push_char(s: &mut String, c: char)
    ensures
        final(s)@ == old(s)@.push(c),
{
    s.push(c)
}

/// Compares two string slices character by character.
pub fn str_eq(a: &str, b: &str) -> (equal: bool)
    ensures
        equal == (a@ == b@),
{
    let n = a.unicode_len();
    if n != b.unicode_len() {
        return false;
    }
    let mut i: usize = 0;
    while i < n
        invariant
            n == a@.len(),
            n == b@.len(),
            i <= n,
            forall|j: int| 0 <= j < i ==> a@[j] == b@[j],
        decreases n - i,
    {
        if a.get_char(i) != b.get_char(i) {
            return false;
        }
        i += 1;
    }
    assert(a@ =~= b@);
    true
}

/// The character of a decimal digit.
pub open spec fn digit_char(d: nat) -> char {
    ('0' as nat + d) as char
}

/// The decimal digits of a natural number, as `{}` formats it.
pub open spec fn decimal(n: nat) -> Seq<char>
    decreases n,
{
    if n < 10 {
        seq![digit_char(n)]
    } else {
        decimal(n / 10).push(digit_char(n % 10))
    }
}

fn digit(d: u64) -> (c: char)
    requires
        d < 10,
    ensures
        c == digit_char(d as nat),
{
    let b: u8 = 48u8 + d as u8;
    b as char
}

/// Appends the decimal digits of `n` to `s`.
pub fn write_decimal(s: &mut String, n: u64)
    ensures
        final(s)@ == old(s)@ + decimal(n as nat),
    decreases n,
{
    if n >= 10 {
        write_decimal(s, n / 10);
    }
    push_char(s, digit(n % 10));
    proof {
        if n >= 10 {
            assert(decimal(n as nat) == decimal((n / 10) as nat).push(digit_char((n % 10) as nat)));
        }
    }
}


/// The decimal form of an integer, with a leading `-` when it is negative.
pub open spec fn decimal_int(i: int) -> Seq<char> {
    if i < 0 {
        seq!['-'].add(decimal((-i) as nat))
    } else {
        decimal(i as nat)
    }
}

/// The decimal form of `n`, as `n.to_string()` gives it.
pub fn u64_string(n: u64) -> (s: String)
    ensures
        s@ == decimal(n as nat),
{
    let mut s = String::new();
    write_decimal(&mut s, n);
    assert(s@ =~= decimal(n as nat));
    s
}

/// Appends the decimal form of a signed integer to `s`.
pub fn write_decimal_i64(s: &mut String, i: i64)
    ensures
        final(s)@ == old(s)@ + decimal_int(i as int),
{
    if i < 0 {
        push_char(s, '-');
        let magnitude: u64 = if i == i64::MIN {
            9223372036854775808u64
        } else {
            (-i) as u64
        };
        write_decimal(s, magnitude);
        assert(final(s)@ =~= old(s)@ + decimal_int(i as int));
    } else {
        write_decimal(s, i as u64);
    }
}

/// The character of a lowercase hexadecimal digit.
pub open spec fn hex_digit_char(d: nat) -> char {
    if d < 10 {
        ('0' as nat + d) as char
    } else {
        ('a' as nat + (d - 10)) as char
    }
}

/// The lowercase hexadecimal digits of a natural number, as `{:x}` formats it (no padding).
pub open spec fn hex(n: nat) -> Seq<char>
    decreases n,
{
    if n < 16 {
        seq![hex_digit_char(n)]
    } else {
        hex(n / 16).push(hex_digit_char(n % 16))
    }
}

fn hex_digit(d: u64) -> (c: char)
    requires
        d < 16,
    ensures
        c == hex_digit_char(d as nat),
{
    if d < 10 {
        let b: u8 = 48u8 + d as u8;
        b as char
    } else {
        let b: u8 = 97u8 + (d - 10) as u8;
        b as char
    }
}

/// Appends the lowercase hexadecimal digits of `n` to `s`.
pub fn write_hex(s: &mut String, n: u64)
    ensures
        final(s)@ == old(s)@ + hex(n as nat),
    decreases n,
{
    if n >= 16 {
        write_hex(s, n / 16);
    }
    push_char(s, hex_digit(n % 16));
    proof {
        if n >= 16 {
            assert(hex(n as nat) == hex((n / 16) as nat).push(hex_digit_char((n % 16) as nat)));
        }
    }
}

/// The bits of a 32-bit signed integer read as an unsigned one: what `{:x}` prints for an `i32`.
pub open spec fn i32_bits(i: i32) -> nat {
    if i < 0 {
        (i + 0x1_0000_0000) as nat
    } else {
        i as nat
    }
}

/// Appends `{:x}` of a 32-bit signed integer to `s`: negative values print their two's complement.
pub fn write_hex_i32(s: &mut String, i: i32)
    ensures
        final(s)@ == old(s)@ + hex(i32_bits(i)),
{
    let bits: u64 = if i < 0 {
        (i as i64 + 0x1_0000_0000i64) as u64
    } else {
        i as u64
    };
    write_hex(s, bits);
}

/// Whether `c` has Unicode's White_Space property, which `char::is_whitespace` tests.
pub open spec fn is_white_space(c: char) -> bool {
    let u = c as u32;
    ||| 9 <= u <= 13
    ||| u == 32
    ||| u == 0x85
    ||| u == 0xa0
    ||| u == 0x1680
    ||| 0x2000 <= u <= 0x200a
    ||| u == 0x2028
    ||| u == 0x2029
    ||| u == 0x202f
    ||| u == 0x205f
    ||| u == 0x3000
}

/// Tests whether `c` is white space.
pub fn char_is_white_space(c: char) -> (ws: bool)
    ensures
        ws == is_white_space(c),
{
    let u = c as u32;
    (9 <= u && u <= 13) || u == 32 || u == 0x85 || u == 0xa0 || u == 0x1680 || (0x2000 <= u && u
        <= 0x200a) || u == 0x2028 || u == 0x2029 || u == 0x202f || u == 0x205f || u == 0x3000
}

/// `s` without its leading white space.
pub open spec fn trim_start(s: Seq<char>) -> Seq<char>
    decreases s.len(),
{
    if s.len() > 0 && is_white_space(s[0]) {
        trim_start(s.drop_first())
    } else {
        s
    }
}

/// `s` without its trailing white space.
pub open spec fn trim_end(s: Seq<char>) -> Seq<char>
    decreases s.len(),
{
    if s.len() > 0 && is_white_space(s.last()) {
        trim_end(s.drop_last())
    } else {
        s
    }
}

/// `s` without leading and trailing white space, as `str::trim` gives it.
pub open spec fn trim(s: Seq<char>) -> Seq<char> {
    trim_end(trim_start(s))
}

/// Removes leading and trailing white space.
pub fn trim_str(s: &str) -> (t: &str)
    ensures
        t@ == trim(s@),
{
    let n = s.unicode_len();
    let mut i: usize = 0;
    assert(s@.subrange(0, n as int) =~= s@);
    while i < n && char_is_white_space(s.get_char(i))
        invariant
            n == s@.len(),
            i <= n,
            trim_start(s@) == trim_start(s@.subrange(i as int, n as int)),
        decreases n - i,
    {
        assert(s@.subrange(i as int, n as int).drop_first() =~= s@.subrange(i + 1, n as int));
        i += 1;
    }
    assert(trim_start(s@.subrange(i as int, n as int)) == s@.subrange(i as int, n as int));
    let mut j: usize = n;
    while j > i && char_is_white_space(s.get_char(j - 1))
        invariant
            n == s@.len(),
            i <= j <= n,
            trim(s@) == trim_end(s@.subrange(i as int, j as int)),
        decreases j,
    {
        assert(s@.subrange(i as int, j as int).drop_last() =~= s@.subrange(i as int, j - 1));
        j -= 1;
    }
    s.substring_char(i, j)
}

/// The words of `s`: its maximal runs of characters that are not white space, in order,
/// as `str::split_whitespace` gives them.
pub open spec fn words(s: Seq<char>) -> Seq<Seq<char>>
    decreases s.len(),
{
    if s.len() == 0 {
        Seq::empty()
    } else {
        let rest = words(s.drop_last());
        if is_white_space(s.last()) {
            rest
        } else if s.len() >= 2 && !is_white_space(s[s.len() - 2]) {
            rest.drop_last().push(rest.last().push(s.last()))
        } else {
            rest.push(seq![s.last()])
        }
    }
}

/// The views of a sequence of strings.
pub open spec fn string_views(v: Seq<String>) -> Seq<Seq<char>> {
    v.map_values(|t: String| t@)
}

/// Splits `s` into its words.
pub fn split_white_space(s: &str) -> (parts: Vec<String>)
    ensures
        string_views(parts@) == words(s@),
{
    let n = s.unicode_len();
    let mut parts: Vec<String> = Vec::new();
    let mut cur = String::new();
    let mut cur_empty = true;
    let mut i: usize = 0;
    while i < n
        invariant
            n == s@.len(),
            cur_empty == (cur@.len() == 0),
            i <= n,
            cur@.len() == 0 ==> words(s@.subrange(0, i as int)) == string_views(parts@),
            cur@.len() > 0 ==> i > 0 && !is_white_space(s@[i - 1]) && words(s@.subrange(0, i as int))
                == string_views(parts@).push(cur@),
            cur@.len() == 0 && i > 0 ==> is_white_space(s@[i - 1]),
        decreases n - i,
    {
        let c = s.get_char(i);
        let ghost prefix = s@.subrange(0, i as int);
        let ghost next = s@.subrange(0, i + 1);
        assert(next.drop_last() =~= prefix);
        assert(next.last() == c);
        if char_is_white_space(c) {
            if !cur_empty {
                proof {
                    assert(string_views(parts@.push(cur)) =~= string_views(parts@).push(cur@));
                }
                parts.push(cur);
                cur = String::new();
                cur_empty = true;
            }
        } else {
            let ghost old_cur = cur@;
            push_char(&mut cur, c);
            cur_empty = false;
            proof {
                let rest = words(prefix);
                if old_cur.len() > 0 {
                    assert(prefix[i - 1] == next[next.len() - 2]);
                    assert(words(next) == rest.drop_last().push(rest.last().push(c)));
                    assert(rest.drop_last() =~= string_views(parts@));
                    assert(words(next) =~= string_views(parts@).push(cur@));
                } else {
                    assert(cur@ =~= seq![c]);
                    if i > 0 {
                        assert(prefix[i - 1] == next[next.len() - 2]);
                    }
                    assert(words(next) == rest.push(seq![c]));
                }
            }
        }
        i += 1;
    }
    if !cur_empty {
        proof {
            assert(string_views(parts@.push(cur)) =~= string_views(parts@).push(cur@));
        }
        parts.push(cur);
    }
    assert(s@.subrange(0, n as int) =~= s@);
    parts
}

/// Whether `c` is an uppercase ASCII letter.
pub open spec fn is_ascii_upper(c: char) -> bool {
    65 <= c as u32 <= 90
}

/// `c` with an uppercase ASCII letter made lowercase, as `char::to_ascii_lowercase` gives it.
pub open spec fn ascii_lower(c: char) -> char {
    if is_ascii_upper(c) {
        ((c as u32) + 32) as char
    } else {
        c
    }
}

/// `s` with its uppercase ASCII letters made lowercase and every other character kept.
pub open spec fn ascii_lowercase(s: Seq<char>) -> Seq<char> {
    s.map_values(|c: char| ascii_lower(c))
}

/// Makes the uppercase ASCII letters of `s` lowercase, as `str::make_ascii_lowercase` does.
pub fn make_ascii_lowercase(s: &mut String)
    ensures
        final(s)@ == ascii_lowercase(old(s)@),
{
    let source: &str = s.as_str();
    let n = source.unicode_len();
    let mut lowered = String::new();
    let mut i: usize = 0;
    while i < n
        invariant
            n == source@.len(),
            source@ == old(s)@,
            i <= n,
            lowered@ =~= ascii_lowercase(source@.subrange(0, i as int)),
        decreases n - i,
    {
        let c = source.get_char(i);
        let u = c as u32;
        let l = if 65 <= u && u <= 90 {
            let b: u8 = (u + 32) as u8;
            b as char
        } else {
            c
        };
        push_char(&mut lowered, l);
        assert(source@.subrange(0, i + 1) =~= source@.subrange(0, i as int).push(c));
        i += 1;
    }
    assert(source@.subrange(0, n as int) =~= source@);
    *s = lowered;
}

/// The parts of `list` joined with `sep` between each two.
pub open spec fn join(list: Seq<Seq<char>>, sep: Seq<char>) -> Seq<char>
    decreases list.len(),
{
    if list.len() == 0 {
        Seq::empty()
    } else if list.len() == 1 {
        list[0]
    } else {
        join(list.drop_last(), sep) + sep + list.last()
    }
}

/// Joins strings with a separator, as `[String]::join` does.
pub fn join_strings(list: &Vec<String>, sep: &str) -> (joined: String)
    ensures
        joined@ == join(string_views(list@), sep@),
{
    let mut joined = String::new();
    let ghost views = string_views(list@);
    let mut i: usize = 0;
    while i < list.len()
        invariant
            views == string_views(list@),
            i <= list.len(),
            joined@ == join(views.take(i as int), sep@),
        decreases list.len() - i,
    {
        if i != 0 {
            joined.append(sep);
        }
        joined.append(list[i].as_str());
        assert(views.take(i + 1).drop_last() =~= views.take(i as int));
        i += 1;
    }
    assert(views.take(list.len() as int) =~= views);
    joined
}

/// What `str::to_lowercase` makes of a string: Unicode's full lowercase mapping,
/// which takes tables to state.
pub uninterp spec fn unicode_lowercase(s: Seq<char>) -> Seq<char>;

/// `str::to_lowercase`: the Unicode lowercase form of `s`, a function of `s` alone.
#[verifier::external_body]
pub(crate) fn to_lowercase(s: &str) -> (lower: String)
    ensures
        lower@ == unicode_lowercase(s@),
{
    s.to_lowercase()
}

/// Whether no character of `w` is white space.
pub open spec fn no_white_space(w: Seq<char>) -> bool {
    forall|j: int| 0 <= j < w.len() ==> !is_white_space(#[trigger] w[j])
}

/// Whether every word is non-empty and holds no white space.
pub open spec fn clean_words(ws: Seq<Seq<char>>) -> bool {
    forall|i: int| 0 <= i < ws.len() ==> (#[trigger] ws[i]).len() > 0 && no_white_space(ws[i])
}

/// The words of any text are non-empty and hold no white space.
pub proof fn lemma_words_clean(s: Seq<char>)
    ensures
        clean_words(words(s)),
    decreases s.len(),
{
    if s.len() > 0 {
        let t = s.drop_last();
        lemma_words_clean(t);
        let rest = words(t);
        if is_white_space(s.last()) {
        } else if s.len() >= 2 && !is_white_space(s[s.len() - 2]) {
            assert(t.last() == s[s.len() - 2]);
            assert(rest.len() > 0);
            let w = rest.last().push(s.last());
            assert(rest[rest.len() - 1] == rest.last());
            assert(no_white_space(w)) by {
                assert forall|j: int| 0 <= j < w.len() implies !is_white_space(#[trigger] w[j]) by {
                    if j < w.len() - 1 {
                        assert(w[j] == rest.last()[j]);
                    }
                }
            }
            let out = rest.drop_last().push(w);
            assert(words(s) == out);
            assert forall|i: int| 0 <= i < out.len() implies (#[trigger] out[i]).len() > 0 && no_white_space(out[i]) by {
                if i < out.len() - 1 {
                    assert(out[i] == rest[i]);
                }
            }
        } else {
            let w = seq![s.last()];
            let out = rest.push(w);
            assert(words(s) == out);
            assert forall|i: int| 0 <= i < out.len() implies (#[trigger] out[i]).len() > 0 && no_white_space(out[i]) by {
                if i < out.len() - 1 {
                    assert(out[i] == rest[i]);
                }
            }
        }
    }
}

/// The words of a text followed by a word are those of the text, then the word, where the
/// text is empty or ends in white space.
proof fn lemma_words_append_word(x: Seq<char>, w: Seq<char>)
    requires
        w.len() > 0,
        no_white_space(w),
        x.len() == 0 || is_white_space(x.last()),
    ensures
        words(x + w) == words(x).push(w),
    decreases w.len(),
{
    let s = x + w;
    assert(s.last() == w[w.len() - 1]);
    if w.len() == 1 {
        assert(s.drop_last() =~= x);
        if s.len() >= 2 {
            assert(s[s.len() - 2] == x.last());
        }
        assert(w =~= seq![s.last()]);
    } else {
        let w1 = w.drop_last();
        assert forall|j: int| 0 <= j < w1.len() implies !is_white_space(#[trigger] w1[j]) by {
            assert(w1[j] == w[j]);
        }
        lemma_words_append_word(x, w1);
        assert(s.drop_last() =~= x + w1);
        assert(s[s.len() - 2] == w[w.len() - 2]);
        assert(words(x).push(w1).drop_last() =~= words(x));
        assert(w1.push(s.last()) =~= w);
    }
}

/// Non-empty words without white space, joined by spaces and split into words again, are
/// given back.
pub proof fn lemma_words_of_joined(ws: Seq<Seq<char>>)
    requires
        clean_words(ws),
    ensures
        words(join(ws, " "@)) == ws,
    decreases ws.len(),
{
    reveal_strlit(" ");
    if ws.len() == 0 {
        assert(words(join(ws, " "@)) =~= ws);
    } else if ws.len() == 1 {
        assert(ws[0].len() > 0 && no_white_space(ws[0]));
        lemma_words_append_word(Seq::empty(), ws[0]);
        assert(Seq::<char>::empty() + ws[0] =~= ws[0]);
        assert(Seq::<Seq<char>>::empty().push(ws[0]) =~= ws);
    } else {
        let d = ws.drop_last();
        assert forall|i: int| 0 <= i < d.len() implies (#[trigger] d[i]).len() > 0 && no_white_space(d[i]) by {
            assert(d[i] == ws[i]);
        }
        lemma_words_of_joined(d);
        let x = join(d, " "@) + " "@;
        assert(x.drop_last() =~= join(d, " "@));
        assert(x.last() == ' ');
        assert(words(x) == words(join(d, " "@)));
        assert(ws[ws.len() - 1] == ws.last());
        lemma_words_append_word(x, ws.last());
        assert(d.push(ws.last()) =~= ws);
    }
}

/// Words joined by a single separator start with the first word's first character and end
/// with the last word's last character.
proof fn lemma_join_ends(ws: Seq<Seq<char>>, sep: Seq<char>)
    requires
        clean_words(ws),
        ws.len() > 0,
    ensures
        join(ws, sep).len() > 0,
        join(ws, sep)[0] == ws[0][0],
        join(ws, sep).last() == ws.last().last(),
    decreases ws.len(),
{
    assert(ws[0].len() > 0);
    assert(ws[ws.len() - 1].len() > 0);
    if ws.len() > 1 {
        let d = ws.drop_last();
        assert forall|i: int| 0 <= i < d.len() implies (#[trigger] d[i]).len() > 0 && no_white_space(d[i]) by {
            assert(d[i] == ws[i]);
        }
        lemma_join_ends(d, sep);
        assert(d[0] == ws[0]);
    }
}

/// Non-empty words without white space, joined by spaces, have no white space to trim.
pub proof fn lemma_joined_words_trimmed(ws: Seq<Seq<char>>)
    requires
        clean_words(ws),
    ensures
        trim(join(ws, " "@)) == join(ws, " "@),
{
    let j = join(ws, " "@);
    if ws.len() > 0 {
        lemma_join_ends(ws, " "@);
        assert(no_white_space(ws[0]));
        assert(!is_white_space(ws[0][0]));
        assert(no_white_space(ws[ws.len() - 1]));
        assert(ws.last() == ws[ws.len() - 1]);
        assert(!is_white_space(ws.last()[ws.last().len() - 1]));
        assert(trim_start(j) == j);
        assert(trim_end(j) == j);
    } else {
        assert(j.len() == 0);
    }
}

} // verus!