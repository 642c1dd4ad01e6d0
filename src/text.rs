//! Text helpers: duration labels, extension tests and file names.

use vstd::prelude::*;

verus! {

/// The decimal digit character for `d < 10`.
pub open spec fn digit_char(d: nat) -> char {
    if d == 0 { '0' }
    else if d == 1 { '1' }
    else if d == 2 { '2' }
    else if d == 3 { '3' }
    else if d == 4 { '4' }
    else if d == 5 { '5' }
    else if d == 6 { '6' }
    else if d == 7 { '7' }
    else if d == 8 { '8' }
    else { '9' }
}

/// The decimal representation of `n`, without leading zeros.
pub open spec fn decimal(n: nat) -> Seq<char>
    decreases n,
{
    if n < 10 {
        seq![digit_char(n)]
    } else {
        decimal(n / 10).push(digit_char(n % 10))
    }
}

/// `s` left-padded with zeros to a width of two characters.
pub open spec fn pad2(s: Seq<char>) -> Seq<char> {
    if s.len() < 2 { seq!['0'].add(s) } else { s }
}

/// The "mm:ss" label of a duration given in seconds; the minutes are not
/// capped, so an hour reads "60:00".
pub open spec fn clock_label(secs: nat) -> Seq<char> {
    pad2(decimal(secs / 60)) + seq![':'] + pad2(decimal(secs % 60))
}

proof fn lemma_decimal_len(n: nat)
    ensures
        decimal(n).len() >= 1,
        n < 10 <==> decimal(n).len() == 1,
    decreases n,
{
    if n >= 10 {
        lemma_decimal_len(n / 10);
    }
}

fn digit_str(d: u64) -> (r: &'static str)
    requires
        d < 10,
    ensures
        r@ == seq![digit_char(d as nat)],
{
    proof {
        reveal_strlit("0");
        reveal_strlit("1");
        reveal_strlit("2");
        reveal_strlit("3");
        reveal_strlit("4");
        reveal_strlit("5");
        reveal_strlit("6");
        reveal_strlit("7");
        reveal_strlit("8");
        reveal_strlit("9");
    }
    if d == 0 { "0" }
    else if d == 1 { "1" }
    else if d == 2 { "2" }
    else if d == 3 { "3" }
    else if d == 4 { "4" }
    else if d == 5 { "5" }
    else if d == 6 { "6" }
    else if d == 7 { "7" }
    else if d == 8 { "8" }
    else { "9" }
}

fn push_decimal(s: &mut String, n: u64)
    ensures
        final(s)@ == old(s)@ + decimal(n as nat),
    decreases n,
{
    if n >= 10 {
        push_decimal(s, n / 10);
    }
    s.append(digit_str(n % 10));
    assert(final(s)@ =~= old(s)@ + decimal(n as nat));
}

fn push_pad2(s: &mut String, n: u64)
    ensures
        final(s)@ == old(s)@ + pad2(decimal(n as nat)),
{
    proof {
        lemma_decimal_len(n as nat);
        reveal_strlit("0");
    }
    if n < 10 {
        s.append("0");
    }
    push_decimal(s, n);
    assert(final(s)@ =~= old(s)@ + pad2(decimal(n as nat)));
}

/// Formats a duration in seconds as "mm:ss", each part at least two digits.
pub fn format_duration(secs: u64) -> (r: String)
    ensures
        r@ == clock_label(secs as nat),
{
    let mut s = String::new();
    push_pad2(&mut s, secs / 60);
    proof {
        reveal_strlit(":");
    }
    s.append(":");
    push_pad2(&mut s, secs % 60);
    assert(s@ =~= clock_label(secs as nat));
    s
}

/// A character's code with ASCII upper-case letters mapped to lower case.
pub open spec fn fold_case(c: char) -> u32 {
    let x = c as u32;
    if 65 <= x && x <= 90 { (x + 32) as u32 } else { x }
}

/// `a` and `b` are the same text when ASCII letter case is ignored.
pub open spec fn same_ignoring_case(a: Seq<char>, b: Seq<char>) -> bool {
    &&& a.len() == b.len()
    &&& forall|i: int| 0 <= i < a.len() ==> fold_case(#[trigger] a[i]) == fold_case(b[i])
}

/// The extensions of the formats the player plays, in lower case.
pub open spec fn audio_extensions() -> Seq<Seq<char>> {
    seq![
        seq!['m', 'p', '3'],
        seq!['f', 'l', 'a', 'c'],
        seq!['w', 'a', 'v'],
        seq!['o', 'g', 'g'],
        seq!['m', '4', 'a'],
    ]
}

/// `ext` names a playable format, whatever its letter case.
pub open spec fn is_audio_extension_spec(ext: Seq<char>) -> bool {
    exists|k: int| 0 <= k < audio_extensions().len() && same_ignoring_case(ext, #[trigger] audio_extensions()[k])
}

/// `ext` is the mp3 extension, whatever its letter case.
pub open spec fn is_mp3_spec(ext: Seq<char>) -> bool {
    same_ignoring_case(ext, audio_extensions()[0])
}

/// Compares two strings ignoring ASCII letter case.
pub fn eq_ignoring_case(a: &str, b: &str) -> (r: bool)
    ensures
        r == same_ignoring_case(a@, b@),
{
    let n = a.unicode_len();
    if n != b.unicode_len() {
        return false;
    }
    let mut i: usize = 0;
    while i < n
        invariant
            n == a@.len(),
            n == b@.len(),
            i <= n,
            forall|j: int| 0 <= j < i ==> fold_case(#[trigger] a@[j]) == fold_case(b@[j]),
        decreases n - i,
    {
        let x = a.get_char(i) as u32;
        let y = b.get_char(i) as u32;
        let fx = if 65 <= x && x <= 90 { x + 32 } else { x };
        let fy = if 65 <= y && y <= 90 { y + 32 } else { y };
        if fx != fy {
            return false;
        }
        i += 1;
    }
    true
}

/// Tells whether a file extension names a playable format (mp3, flac, wav,
/// ogg or m4a), ignoring letter case.
pub fn is_audio_extension(ext: &str) -> (r: bool)
    ensures
        r == is_audio_extension_spec(ext@),
{
    proof {
        reveal_strlit("mp3");
        reveal_strlit("flac");
        reveal_strlit("wav");
        reveal_strlit("ogg");
        reveal_strlit("m4a");
    }
    let names: [&str; 5] = ["mp3", "flac", "wav", "ogg", "m4a"];
    let mut k: usize = 0;
    while k < 5
        invariant
            k <= 5,
            forall|j: int| 0 <= j < 5 ==> (#[trigger] names[j])@ == audio_extensions()[j],
            forall|j: int| 0 <= j < k ==> !same_ignoring_case(ext@, #[trigger] audio_extensions()[j]),
        decreases 5 - k,
    {
        if eq_ignoring_case(ext, names[k]) {
            return true;
        }
        k += 1;
    }
    false
}

/// Tells whether a file extension is mp3, ignoring letter case: the one
/// format whose duration is probed.
pub fn is_mp3_extension(ext: &str) -> (r: bool)
    ensures
        r == is_mp3_spec(ext@),
{
    proof {
        reveal_strlit("mp3");
    }
    eq_ignoring_case(ext, "mp3")
}

/// Relies on `std::path::MAIN_SEPARATOR`, the platform's preferred path
/// separator: '/' on Unix-like systems and '\\' on Windows.
#[verifier::external_body]
pub fn main_separator() -> (r: char)
    ensures
        r == '/' || r == '\\',
{
    std::path::MAIN_SEPARATOR
}

/// `c` separates path components: '/' always, and `sep`, the platform's
/// separator ('\\' on Windows, where both are accepted).
pub open spec fn is_separator(c: char, sep: char) -> bool {
    c == '/' || c == sep
}

/// Where the last component of `p[..i]` starts: just after the last
/// separator before `i`, or 0 when there is none.
pub open spec fn name_start(p: Seq<char>, sep: char, i: int) -> int
    decreases i,
{
    if i <= 0 {
        0
    } else if is_separator(p[i - 1], sep) {
        i
    } else {
        name_start(p, sep, i - 1)
    }
}

/// The last component of a path: what follows its last separator.
pub open spec fn file_name_spec(p: Seq<char>, sep: char) -> Seq<char> {
    p.subrange(name_start(p, sep, p.len() as int), p.len() as int)
}

/// The file name of a path: the text after its last separator, where the
/// separators are '/' and `sep`.
pub fn file_name(path: &str, sep: char) -> (r: String)
    ensures
        r@ == file_name_spec(path@, sep),
{
    let n = path.unicode_len();
    let mut i: usize = n;
    while i > 0 && path.get_char(i - 1) != '/' && path.get_char(i - 1) != sep
        invariant
            n == path@.len(),
            i <= n,
            name_start(path@, sep, i as int) == name_start(path@, sep, n as int),
        decreases i,
    {
        i -= 1;
    }
    path.substring_char(i, n).to_owned()
}

} // verus!
