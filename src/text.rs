//! Character-level helpers over std: scalar values, UTF-8 and white space.

use vstd::prelude::*;
use vstd::utf8::*;

verus! {

#[verifier::external_type_specification]
#[verifier::external_body]
pub struct ExFromUtf8Error(std::string::FromUtf8Error);

/// Whether `u` is a Unicode scalar value, i.e. the code of some `char`.
pub open spec fn is_scalar_value(u: u32) -> bool {
    u <= 0x10FFFF && !(0xD800 <= u <= 0xDFFF)
}

/// Relies on `char::from_u32`: `Some` exactly for a Unicode scalar value,
/// holding the `char` with that code.
#[verifier::external_body]
pub(crate) fn char_from_u32(u: u32) -> (r: Option<char>)
    ensures
        r is Some <==> is_scalar_value(u),
        r matches Some(c) ==> c as u32 == u,
{
    char::from_u32(u)
}

/// Relies on `String::from_utf8`: `Ok` exactly when the bytes are valid
/// UTF-8, holding the characters they encode.
#[verifier::external_body]
pub(crate) fn string_from_utf8(bytes: Vec<u8>) -> (r: Result<String, std::string::FromUtf8Error>)
    ensures
        r is Ok <==> valid_utf8(bytes@),
        r matches Ok(s) ==> s@ == decode_utf8(bytes@),
{
    String::from_utf8(bytes)
}

/// Relies on `String::push`: appends one character.
#[verifier::external_body]
pub(crate) fn push_char(s: &mut String, c: char)
    ensures
        final(s)@ == old(s)@.push(c),
{
    s.push(c)
}

/// The characters with Unicode's `White_Space` property.
pub open spec fn is_white_space(c: char) -> bool {
    let u = c as u32;
    ||| 0x09 <= u <= 0x0D
    ||| u == 0x20 || u == 0x85 || u == 0xA0 || u == 0x1680
    ||| 0x2000 <= u <= 0x200A
    ||| u == 0x2028 || u == 0x2029 || u == 0x202F || u == 0x205F || u == 0x3000
}

/// Relies on `char::is_whitespace`: true exactly for the characters with
/// Unicode's `White_Space` property.
#[verifier::external_body]
pub(crate) fn char_is_whitespace(c: char) -> (r: bool)
    ensures
        r == is_white_space(c),
{
    c.is_whitespace()
}

/// `s` without its leading white space.
pub open spec fn trim_start(s: Seq<char>) -> Seq<char>
    decreases s.len(),
{
    if s.len() > 0 && is_white_space(s[0]) {
        trim_start(s.drop_first())
    } else {
        s
    }
}

/// `s` without its trailing white space.
pub open spec fn trim_end(s: Seq<char>) -> Seq<char>
    decreases s.len(),
{
    if s.len() > 0 && is_white_space(s.last()) {
        trim_end(s.drop_last())
    } else {
        s
    }
}

/// `s` without its leading and trailing white space.
pub open spec fn trimmed(s: Seq<char>) -> Seq<char> {
    trim_end(trim_start(s))
}

/// `s` with every white-space character removed.
pub open spec fn without_white_space(s: Seq<char>) -> Seq<char>
    decreases s.len(),
{
    if s.len() == 0 {
        Seq::empty()
    } else if is_white_space(s.last()) {
        without_white_space(s.drop_last())
    } else {
        without_white_space(s.drop_last()).push(s.last())
    }
}

/// Whether `s` holds no white space at all.
pub open spec fn free_of_white_space(s: Seq<char>) -> bool {
    forall|i: int| 0 <= i < s.len() ==> !is_white_space(#[trigger] s[i])
}

/// Removing white space distributes over concatenation.
pub proof fn lemma_without_white_space_concat(a: Seq<char>, b: Seq<char>)
    ensures
        without_white_space(a + b) == without_white_space(a) + without_white_space(b),
    decreases b.len(),
{
    if b.len() == 0 {
        assert(a + b =~= a);
        assert(without_white_space(a) + Seq::<char>::empty() =~= without_white_space(a));
    } else {
        assert((a + b).drop_last() =~= a + b.drop_last());
        assert((a + b).last() == b.last());
        lemma_without_white_space_concat(a, b.drop_last());
        let wa = without_white_space(a);
        let wb = without_white_space(b.drop_last());
        assert((wa + wb).push(b.last()) =~= wa + wb.push(b.last()));
    }
}

/// Trimming only removes characters that removing white space removes too.
pub proof fn lemma_without_white_space_trimmed(s: Seq<char>)
    ensures
        without_white_space(trimmed(s)) == without_white_space(s),
{
    lemma_without_white_space_trim_start(s);
    lemma_without_white_space_trim_end(trim_start(s));
}

proof fn lemma_without_white_space_trim_start(s: Seq<char>)
    ensures
        without_white_space(trim_start(s)) == without_white_space(s),
    decreases s.len(),
{
    if s.len() > 0 && is_white_space(s[0]) {
        lemma_without_white_space_trim_start(s.drop_first());
        assert(s =~= seq![s[0]] + s.drop_first());
        lemma_without_white_space_concat(seq![s[0]], s.drop_first());
        let head = seq![s[0]];
        assert(head.drop_last() =~= Seq::<char>::empty());
        assert(head.last() == s[0]);
        assert(without_white_space(Seq::<char>::empty()) == Seq::<char>::empty());
        assert(without_white_space(head) == Seq::<char>::empty());
        assert(Seq::<char>::empty() + without_white_space(s.drop_first()) =~= without_white_space(
            s.drop_first(),
        ));
    }
}

proof fn lemma_without_white_space_trim_end(s: Seq<char>)
    ensures
        without_white_space(trim_end(s)) == without_white_space(s),
    decreases s.len(),
{
    if s.len() > 0 && is_white_space(s.last()) {
        lemma_without_white_space_trim_end(s.drop_last());
    }
}

/// Text without white space is left as it is.
pub proof fn lemma_without_white_space_identity(s: Seq<char>)
    requires
        free_of_white_space(s),
    ensures
        without_white_space(s) == s,
    decreases s.len(),
{
    if s.len() > 0 {
        assert(free_of_white_space(s.drop_last()));
        lemma_without_white_space_identity(s.drop_last());
        assert(s.drop_last().push(s.last()) =~= s);
    } else {
        assert(s =~= Seq::<char>::empty());
    }
}

/// The characters of `s`, in order.
pub fn chars_of(s: &str) -> (v: Vec<char>)
    ensures
        v@ == s@,
{
    let mut v: Vec<char> = Vec::new();
    for c in it: s.chars()
        invariant
            it.seq() == s@,
            v@ == s@.subrange(0, it.index()),
    {
        v.push(c);
        proof {
            assert(v@ =~= s@.subrange(0, it.index() + 1));
        }
    }
    proof {
        assert(v@ =~= s@);
    }
    v
}

/// The string made of `v[from..to]`.
pub fn string_of_range(v: &Vec<char>, from: usize, to: usize) -> (r: String)
    requires
        from <= to <= v@.len(),
    ensures
        r@ == v@.subrange(from as int, to as int),
{
    let mut r = String::new();
    let mut i: usize = from;
    while i < to
        invariant
            from <= i <= to <= v@.len(),
            r@ == v@.subrange(from as int, i as int),
        decreases to - i,
    {
        push_char(&mut r, v[i]);
        proof {
            assert(r@ =~= v@.subrange(from as int, i + 1));
        }
        i += 1;
    }
    r
}

/// Skipping a white-space prefix does not change `trim_start`.
proof fn lemma_trim_start_step(s: Seq<char>, lo: int)
    requires
        0 <= lo < s.len(),
        is_white_space(s[lo]),
    ensures
        trim_start(s.subrange(lo, s.len() as int)) == trim_start(s.subrange(lo + 1, s.len() as int)),
{
    assert(s.subrange(lo, s.len() as int).drop_first() =~= s.subrange(lo + 1, s.len() as int));
}

/// Dropping a white-space suffix does not change `trim_end`.
proof fn lemma_trim_end_step(s: Seq<char>, hi: int)
    requires
        0 < hi <= s.len(),
        is_white_space(s[hi - 1]),
    ensures
        trim_end(s.subrange(0, hi)) == trim_end(s.subrange(0, hi - 1)),
{
    assert(s.subrange(0, hi).drop_last() =~= s.subrange(0, hi - 1));
}

/// `s` without its leading and trailing white space.
pub fn trim(s: &str) -> (r: String)
    ensures
        r@ == trimmed(s@),
{
    let v = chars_of(s);
    let mut lo: usize = 0;
    proof {
        assert(v@.subrange(0, v@.len() as int) =~= v@);
    }
    while lo < v.len() && char_is_whitespace(v[lo])
        invariant
            lo <= v@.len(),
            trim_start(v@) == trim_start(v@.subrange(lo as int, v@.len() as int)),
        decreases v@.len() - lo,
    {
        proof {
            lemma_trim_start_step(v@, lo as int);
        }
        lo += 1;
    }
    let ghost rest = v@.subrange(lo as int, v@.len() as int);
    assert(trim_start(v@) == rest);
    let mut hi: usize = v.len();
    proof {
        assert(rest.subrange(0, rest.len() as int) =~= rest);
    }
    while hi > lo && char_is_whitespace(v[hi - 1])
        invariant
            lo <= hi <= v@.len(),
            rest == v@.subrange(lo as int, v@.len() as int),
            trim_end(rest) == trim_end(rest.subrange(0, hi - lo)),
        decreases hi,
    {
        proof {
            lemma_trim_end_step(rest, hi - lo);
        }
        hi -= 1;
    }
    proof {
        assert(rest.subrange(0, hi - lo) =~= v@.subrange(lo as int, hi as int));
    }
    string_of_range(&v, lo, hi)
}

/// The characters of `v[from..]` that are not white space, in order.
pub fn remove_white_space(v: &Vec<char>, from: usize) -> (r: String)
    requires
        from <= v@.len(),
    ensures
        r@ == without_white_space(v@.subrange(from as int, v@.len() as int)),
{
    let mut r = String::new();
    let mut i: usize = from;
    proof {
        assert(v@.subrange(from as int, from as int) =~= Seq::<char>::empty());
    }
    while i < v.len()
        invariant
            from <= i <= v@.len(),
            r@ == without_white_space(v@.subrange(from as int, i as int)),
        decreases v@.len() - i,
    {
        let c = v[i];
        proof {
            assert(v@.subrange(from as int, i + 1).drop_last() =~= v@.subrange(from as int, i as int));
        }
        if !char_is_whitespace(c) {
            push_char(&mut r, c);
        }
        i += 1;
    }
    r
}

/// Whether the two strings hold the same characters.
pub fn same_text(a: &str, b: &str) -> (r: bool)
    ensures
        r == (a@ == b@),
{
    let x = chars_of(a);
    let y = chars_of(b);
    if x.len() != y.len() {
        return false;
    }
    let mut i: usize = 0;
    while i < x.len()
        invariant
            i <= x@.len(),
            x@ == a@,
            y@ == b@,
            x@.len() == y@.len(),
            forall|k: int| 0 <= k < i ==> x@[k] == y@[k],
        decreases x@.len() - i,
    {
        if x[i] != y[i] {
            assert(x@[i as int] != y@[i as int]);
            return false;
        }
        i += 1;
    }
    proof {
        assert(x@ =~= y@);
    }
    true
}

} // verus!
