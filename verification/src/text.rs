//! Text helpers: substring search, identifier derivation and the assembly of
//! a transcript from the engine's output segments.

use vstd::prelude::*;
use vstd::string::*;

verus! {

/// What `str::trim` returns for a string with the given characters.
pub uninterp spec fn trimmed(s: Seq<char>) -> Seq<char>;

/// `str::trim`: the result is the input without its leading and trailing
/// white space. The contract only names that result; nothing else is
/// claimed of it.
pub assume_specification[ str::trim ](s: &str) -> (r: &str)
    ensures
        r@ == trimmed(s@),
;

/// `String::push`: appends one character at the end of the string.
pub assume_specification[ String::push ](s: &mut String, ch: char)
    ensures
        final(s)@ == old(s)@.push(ch),
;

/// `needle` stands in `hay` starting at position `i`.
pub open spec fn occurs_at(hay: Seq<char>, needle: Seq<char>, i: int) -> bool {
    &&& 0 <= i
    &&& i + needle.len() <= hay.len()
    &&& hay.subrange(i, i + needle.len()) == needle
}

/// `needle` stands somewhere in `hay`.
pub open spec fn has_substring(hay: Seq<char>, needle: Seq<char>) -> bool {
    exists|i: int| occurs_at(hay, needle, i)
}

/// The characters of `s`, one by one.
pub fn chars_of(s: &str) -> (chars: Vec<char>)
    ensures
        chars@ == s@,
{
    let mut chars: Vec<char> = Vec::new();
    for c in it: s.chars()
        invariant
            it.seq() == s@,
            chars@ == it.seq().subrange(0, it.index() as int),
    {
        chars.push(c);
        assert(it.seq().subrange(0, it.index() + 1) =~= it.seq().subrange(
            0,
            it.index() as int,
        ).push(c));
    }
    assert(s@.subrange(0, s@.len() as int) =~= s@);
    chars
}

/// Whether `needle` occurs in `hay` as a contiguous run of characters.
pub fn contains(hay: &str, needle: &str) -> (found: bool)
    ensures
        found == has_substring(hay@, needle@),
{
    let h: Vec<char> = chars_of(hay);
    let p: Vec<char> = chars_of(needle);
    let n: usize = h.len();
    let m: usize = p.len();
    if m > n {
        assert(forall|i: int| !occurs_at(hay@, needle@, i));
        return false;
    }
    if m == 0 {
        assert(hay@.subrange(0, 0) =~= needle@);
        assert(occurs_at(hay@, needle@, 0));
        return true;
    }
    let last: usize = n - m;
    let mut i: usize = 0;
    while i <= last
        invariant
            h@ == hay@,
            p@ == needle@,
            n == h@.len(),
            m == p@.len(),
            0 < m <= n,
            last == n - m,
            i <= last + 1,
            forall|k: int| 0 <= k < i ==> !occurs_at(hay@, needle@, k),
        decreases last + 1 - i,
    {
        let mut j: usize = 0;
        let mut same: bool = true;
        while j < m && same
            invariant
                h@ == hay@,
                p@ == needle@,
                n == h@.len(),
                m == p@.len(),
                i + m <= n,
                j <= m,
                same ==> forall|l: int| 0 <= l < j ==> hay@[i + l] == needle@[l],
                !same ==> !occurs_at(hay@, needle@, i as int),
            decreases m - j + (if same { 1int } else { 0int }),
        {
            if h[i + j] != p[j] {
                same = false;
                assert(hay@.subrange(i as int, i + m)[j as int] == hay@[i + j]);
            } else {
                j = j + 1;
            }
        }
        if same {
            assert(hay@.subrange(i as int, i + m) =~= needle@);
            assert(occurs_at(hay@, needle@, i as int));
            return true;
        }
        i = i + 1;
    }
    assert(forall|k: int| !occurs_at(hay@, needle@, k));
    false
}

/// The character that stands for `c` in a model identifier: path
/// separators and dots become underscores.
pub open spec fn id_char(c: char) -> char {
    if c == '/' || c == '\\' || c == '.' {
        '_'
    } else {
        c
    }
}

/// The identifier under which the model at `path` is registered.
pub open spec fn model_id_of(path: Seq<char>) -> Seq<char> {
    "model_"@ + path.map_values(|c: char| id_char(c))
}

/// Derives the registry identifier of a model from its path: the prefix
/// `model_`, then the path with every `/`, `\` and `.` replaced by `_`.
pub fn model_id_for_path(path: &str) -> (id: String)
    ensures
        id@ == model_id_of(path@),
{
    let mut id: String = String::from_str("model_");
    let chars: Vec<char> = chars_of(path);
    let n: usize = chars.len();
    let mut i: usize = 0;
    while i < n
        invariant
            chars@ == path@,
            n == path@.len(),
            i <= n,
            id@ == "model_"@ + path@.subrange(0, i as int).map_values(|c: char| id_char(c)),
        decreases n - i,
    {
        let c: char = chars[i];
        let mapped: char = if c == '/' || c == '\\' || c == '.' {
            '_'
        } else {
            c
        };
        id.push(mapped);
        assert(path@.subrange(0, i + 1).map_values(|c: char| id_char(c))
            =~= path@.subrange(0, i as int).map_values(|c: char| id_char(c)).push(mapped));
        i = i + 1;
    }
    assert(path@.subrange(0, n as int) =~= path@);
    id
}

/// No character of `text` is NUL, so that it can cross a boundary that
/// ends strings with NUL.
pub open spec fn exchangeable(text: Seq<char>) -> bool {
    forall|i: int| 0 <= i < text.len() ==> text[i] != '\0'
}

/// Whether `text` is free of NUL characters.
pub fn is_exchangeable(text: &str) -> (free: bool)
    ensures
        free == exchangeable(text@),
{
    let chars: Vec<char> = chars_of(text);
    let n: usize = chars.len();
    let mut i: usize = 0;
    while i < n
        invariant
            chars@ == text@,
            n == text@.len(),
            i <= n,
            forall|k: int| 0 <= k < i ==> text@[k] != '\0',
        decreases n - i,
    {
        if chars[i] == '\0' {
            return false;
        }
        i = i + 1;
    }
    true
}

/// What segment `i` of `segments` adds to the raw transcript: its text,
/// followed by one space unless it is the last segment. A segment whose
/// text could not be read adds nothing.
pub open spec fn segment_piece(segments: Seq<Option<String>>, i: int) -> Seq<char> {
    match segments[i] {
        Some(text) => if i < segments.len() - 1 {
            text@.push(' ')
        } else {
            text@
        },
        None => Seq::empty(),
    }
}

/// The raw transcript of the first `k` segments, before trimming.
pub open spec fn joined_prefix(segments: Seq<Option<String>>, k: nat) -> Seq<char>
    decreases k,
{
    if k == 0 {
        Seq::empty()
    } else {
        joined_prefix(segments, (k - 1) as nat) + segment_piece(segments, k - 1)
    }
}

/// The transcript of a run of output segments: the readable segments in
/// order, separated by single spaces, with surrounding white space removed
/// from the whole.
pub open spec fn transcript_of(segments: Seq<Option<String>>) -> Seq<char> {
    trimmed(joined_prefix(segments, segments.len()))
}

/// Strings the engine's output segments together, untrimmed. `None`
/// stands for a segment whose text the engine could not hand out.
pub fn concat_segments(segments: &Vec<Option<String>>) -> (raw: String)
    ensures
        raw@ == joined_prefix(segments@, segments@.len()),
{
    let mut raw: String = String::new();
    let n: usize = segments.len();
    let mut i: usize = 0;
    while i < n
        invariant
            n == segments@.len(),
            i <= n,
            raw@ == joined_prefix(segments@, i as nat),
        decreases n - i,
    {
        match &segments[i] {
            Some(piece) => {
                raw.append(piece.as_str());
                if i < n - 1 {
                    raw.push(' ');
                }
            },
            None => {
                assert(raw@ + Seq::<char>::empty() =~= raw@);
            },
        }
        i = i + 1;
    }
    raw
}

/// Assembles the transcript from the engine's output segments: the
/// segments strung together, then trimmed as a whole.
pub fn join_segments(segments: &Vec<Option<String>>) -> (text: String)
    ensures
        text@ == transcript_of(segments@),
{
    let raw: String = concat_segments(segments);
    String::from_str(raw.as_str().trim())
}

} // verus!
