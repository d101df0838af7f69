//! Text helpers over Unicode scalar sequences: whitespace trimming with the
//! meaning of `str::trim`, UTF-8 byte lengths and ASCII case folding.
use vstd::prelude::*;
use vstd::utf8::*;
use vstd::string::*;

verus! {

broadcast use vstd::string::axiom_spec_iter;

/// The Unicode `White_Space` property, which is what `str::trim` removes.
pub open spec fn is_unicode_whitespace(c: char) -> bool {
    let v = c as u32;
    ||| 0x9 <= v <= 0xD
    ||| v == 0x20
    ||| v == 0x85
    ||| v == 0xA0
    ||| v == 0x1680
    ||| 0x2000 <= v <= 0x200A
    ||| v == 0x2028
    ||| v == 0x2029
    ||| v == 0x202F
    ||| v == 0x205F
    ||| v == 0x3000
}

/// `s` without its leading whitespace.
pub open spec fn trim_start_chars(s: Seq<char>) -> Seq<char>
    decreases s.len(),
{
    if s.len() > 0 && is_unicode_whitespace(s[0]) {
        trim_start_chars(s.drop_first())
    } else {
        s
    }
}

/// `s` without its trailing whitespace.
pub open spec fn trim_end_chars(s: Seq<char>) -> Seq<char>
    decreases s.len(),
{
    if s.len() > 0 && is_unicode_whitespace(s.last()) {
        trim_end_chars(s.drop_last())
    } else {
        s
    }
}

/// `s` without leading and trailing whitespace.
pub open spec fn trim_chars(s: Seq<char>) -> Seq<char> {
    trim_end_chars(trim_start_chars(s))
}

/// The number of bytes of the UTF-8 encoding of `s` (what `str::len` reports).
pub open spec fn utf8_len(s: Seq<char>) -> nat {
    encode_utf8(s).len()
}

/// The code point of `c` after ASCII case folding.
pub open spec fn ascii_lower(c: char) -> int {
    if 'A' <= c && c <= 'Z' {
        (c as u32) + 32
    } else {
        c as u32 as int
    }
}

/// Whether `a` and `b` are equal when ASCII letters are compared without case.
pub open spec fn eq_ignore_ascii_case(a: Seq<char>, b: Seq<char>) -> bool {
    a.len() == b.len() && forall|i: int| 0 <= i < a.len() ==> ascii_lower(#[trigger] a[i]) == ascii_lower(b[i])
}

pub proof fn lemma_encode_utf8_add(a: Seq<char>, b: Seq<char>)
    ensures
        encode_utf8(a + b) == encode_utf8(a) + encode_utf8(b),
    decreases a.len(),
{
    if a.len() == 0 {
        assert(a + b =~= b);
        assert(encode_utf8(a) =~= Seq::<u8>::empty());
        assert(encode_utf8(a) + encode_utf8(b) =~= encode_utf8(b));
    } else {
        assert((a + b).drop_first() =~= a.drop_first() + b);
        assert((a + b)[0] == a[0]);
        lemma_encode_utf8_add(a.drop_first(), b);
        assert(encode_utf8(a + b) =~= encode_scalar(a[0] as u32) + encode_utf8(a.drop_first() + b));
    }
}

proof fn lemma_char_boundary_after_prefix(a: Seq<char>, b: Seq<char>)
    ensures
        valid_utf8(encode_utf8(a + b)),
        is_char_boundary(encode_utf8(a + b), encode_utf8(a).len() as int),
    decreases a.len(),
{
    broadcast use encode_utf8_valid_utf8;

    let bytes = encode_utf8(a + b);
    if a.len() == 0 {
    } else {
        let ab = a + b;
        encode_utf8_first_scalar(ab);
        assert(ab.drop_first() =~= a.drop_first() + b);
        lemma_encode_utf8_add(a, b);
        lemma_encode_utf8_add(a.drop_first(), b);
        assert(pop_first_scalar(bytes) =~= encode_utf8(ab.drop_first()));
        lemma_char_boundary_after_prefix(a.drop_first(), b);
        assert(encode_utf8(a).len() == encode_scalar(a[0] as u32).len() + encode_utf8(
            a.drop_first(),
        ).len());
    }
}

proof fn lemma_utf8_len_snoc(s: Seq<char>, c: char)
    ensures
        utf8_len(s.push(c)) == utf8_len(s) + encode_scalar(c as u32).len(),
{
    lemma_encode_utf8_add(s, seq![c]);
    assert(s.push(c) =~= s + seq![c]);
    assert(seq![c].drop_first() =~= Seq::<char>::empty());
    assert(encode_utf8(seq![c]) =~= encode_scalar(c as u32) + encode_utf8(Seq::<char>::empty()));
}

/// Whether `c` has the Unicode `White_Space` property.
pub fn is_whitespace(c: char) -> (b: bool)
    ensures
        b == is_unicode_whitespace(c),
{
    let v = c as u32;
    (0x9 <= v && v <= 0xD) || v == 0x20 || v == 0x85 || v == 0xA0 || v == 0x1680 || (0x2000 <= v
        && v <= 0x200A) || v == 0x2028 || v == 0x2029 || v == 0x202F || v == 0x205F || v == 0x3000
}

/// The number of bytes that `c` takes in UTF-8.
pub fn char_utf8_width(c: char) -> (w: usize)
    ensures
        w == encode_scalar(c as u32).len(),
        1 <= w <= 4,
{
    proof {
        char_is_scalar(c);
    }
    let v = c as u32;
    if v <= 0x7F {
        1
    } else if v <= 0x7FF {
        2
    } else if v <= 0xFFFF {
        3
    } else {
        4
    }
}

/// The characters of `s`, in order.
pub fn chars_of(s: &str) -> (v: Vec<char>)
    ensures
        v@ == s@,
{
    let mut v: Vec<char> = Vec::new();
    for c in it: s.chars()
        invariant
            it.seq() == s@,
            v@ == it.seq().take(it.index() as int),
    {
        v.push(c);
        assert(v@ =~= it.seq().take(it.index() + 1));
    }
    assert(v@ =~= s@);
    v
}

/// Counts the leading whitespace of `v` in characters and in UTF-8 bytes.
fn leading_whitespace(v: &Vec<char>, total_bytes: usize) -> (r: (usize, usize))
    requires
        utf8_len(v@) == total_bytes,
    ensures
        r.0 <= v@.len(),
        trim_start_chars(v@) == v@.subrange(r.0 as int, v@.len() as int),
        r.1 == utf8_len(v@.subrange(0, r.0 as int)),
{
    let ghost full = v@;
    let n = v.len();
    proof {
        assert(full.subrange(0, 0) =~= Seq::<char>::empty());
        assert(full.subrange(0, n as int) =~= full);
        assert(encode_utf8(Seq::<char>::empty()) =~= Seq::<u8>::empty());
    }
    let mut i: usize = 0;
    let mut start_bytes: usize = 0;
    while i < n && is_whitespace(v[i])
        invariant
            v@ == full,
            n == full.len(),
            i <= n,
            trim_start_chars(full) == trim_start_chars(full.subrange(i as int, n as int)),
            start_bytes == utf8_len(full.subrange(0, i as int)),
            utf8_len(full) == total_bytes,
        decreases n - i,
    {
        let w = char_utf8_width(v[i]);
        proof {
            let pre = full.subrange(0, i as int);
            assert(full.subrange(0, i + 1) =~= pre.push(full[i as int]));
            lemma_utf8_len_snoc(pre, full[i as int]);
            assert(full.subrange(i as int, n as int).drop_first() =~= full.subrange(
                i + 1,
                n as int,
            ));
            lemma_encode_utf8_add(full.subrange(0, i + 1), full.subrange(i + 1, n as int));
            assert(full =~= full.subrange(0, i + 1) + full.subrange(i + 1, n as int));
        }
        start_bytes = start_bytes + w;
        i = i + 1;
    }
    (i, start_bytes)
}

/// Finds where the trailing whitespace of `v` begins, in characters and in
/// UTF-8 bytes, looking no further left than `from`.
fn trailing_whitespace(v: &Vec<char>, from: usize, total_bytes: usize) -> (r: (usize, usize))
    requires
        from <= v@.len(),
        utf8_len(v@) == total_bytes,
    ensures
        from <= r.0 <= v@.len(),
        trim_end_chars(v@.subrange(from as int, v@.len() as int)) == v@.subrange(
            from as int,
            r.0 as int,
        ),
        r.1 == utf8_len(v@.subrange(0, r.0 as int)),
{
    let ghost full = v@;
    let n = v.len();
    proof {
        assert(full.subrange(0, n as int) =~= full);
    }
    let mut j: usize = n;
    let mut end_bytes: usize = total_bytes;
    while j > from && is_whitespace(v[j - 1])
        invariant
            v@ == full,
            n == full.len(),
            from <= j <= n,
            trim_end_chars(full.subrange(from as int, n as int)) == trim_end_chars(
                full.subrange(from as int, j as int),
            ),
            end_bytes == utf8_len(full.subrange(0, j as int)),
        decreases j,
    {
        let w = char_utf8_width(v[j - 1]);
        proof {
            let pre = full.subrange(0, j - 1);
            assert(full.subrange(0, j as int) =~= pre.push(full[j - 1]));
            lemma_utf8_len_snoc(pre, full[j - 1]);
            assert(full.subrange(from as int, j as int).drop_last() =~= full.subrange(
                from as int,
                j - 1,
            ));
        }
        end_bytes = end_bytes - w;
        j = j - 1;
    }
    (j, end_bytes)
}

/// Removes leading and trailing whitespace, as `str::trim` does.
pub fn trim(s: &str) -> (r: &str)
    ensures
        r@ == trim_chars(s@),
{
    let v = chars_of(s);
    let total = s.as_bytes().len();
    let ghost full = s@;
    let (i, start_bytes) = leading_whitespace(&v, total);
    let (j, end_bytes) = trailing_whitespace(&v, i, total);
    let ghost n = full.len() as int;
    let ghost pre = full.subrange(0, i as int);
    let ghost core = full.subrange(i as int, j as int);
    let ghost post = full.subrange(j as int, n);
    proof {
        assert(full =~= pre + (core + post));
        assert(full.subrange(0, j as int) =~= pre + core);
        lemma_encode_utf8_add(pre, core + post);
        lemma_encode_utf8_add(core, post);
        lemma_encode_utf8_add(pre, core);
        lemma_char_boundary_after_prefix(pre, core + post);
    }
    let (_, rest) = s.split_at(start_bytes);
    proof {
        assert(rest.spec_bytes() =~= encode_utf8(core + post));
        encode_utf8_decode_utf8(rest@);
        encode_utf8_decode_utf8(core + post);
        lemma_char_boundary_after_prefix(core, post);
    }
    let (r, _) = rest.split_at(end_bytes - start_bytes);
    proof {
        assert(r.spec_bytes() =~= encode_utf8(core));
        encode_utf8_decode_utf8(r@);
        encode_utf8_decode_utf8(core);
    }
    r
}

/// The number of bytes of the UTF-8 encoding of `s`.
pub fn byte_len(s: &str) -> (n: usize)
    ensures
        n == utf8_len(s@),
{
    s.as_bytes().len()
}

/// Whether `s` contains the character `c`.
pub fn contains_char(s: &str, c: char) -> (b: bool)
    ensures
        b == s@.contains(c),
{
    let v = chars_of(s);
    let n = v.len();
    let mut i: usize = 0;
    while i < n
        invariant
            v@ == s@,
            n == v@.len(),
            i <= n,
            forall|k: int| 0 <= k < i ==> v@[k] != c,
        decreases n - i,
    {
        if v[i] == c {
            assert(s@[i as int] == c);
            return true;
        }
        i = i + 1;
    }
    false
}

/// Whether `a` and `b` hold the same characters.
pub fn str_equals(a: &str, b: &str) -> (r: bool)
    ensures
        r == (a@ == b@),
{
    let va = chars_of(a);
    let vb = chars_of(b);
    if va.len() != vb.len() {
        return false;
    }
    let n = va.len();
    let mut i: usize = 0;
    while i < n
        invariant
            va@ == a@,
            vb@ == b@,
            n == va@.len(),
            n == vb@.len(),
            i <= n,
            forall|k: int| 0 <= k < i ==> a@[k] == b@[k],
        decreases n - i,
    {
        if va[i] != vb[i] {
            return false;
        }
        i = i + 1;
    }
    assert(a@ =~= b@);
    true
}

/// Compares two strings with ASCII letters folded to lower case.
pub fn equals_ignore_ascii_case(a: &str, b: &str) -> (r: bool)
    ensures
        r == eq_ignore_ascii_case(a@, b@),
{
    let va = chars_of(a);
    let vb = chars_of(b);
    if va.len() != vb.len() {
        return false;
    }
    let n = va.len();
    let mut i: usize = 0;
    while i < n
        invariant
            va@ == a@,
            vb@ == b@,
            n == va@.len(),
            n == vb@.len(),
            i <= n,
            forall|k: int| 0 <= k < i ==> ascii_lower(#[trigger] a@[k]) == ascii_lower(b@[k]),
        decreases n - i,
    {
        let x = va[i];
        let y = vb[i];
        let lx = if 'A' <= x && x <= 'Z' {
            (x as u32) + 32
        } else {
            x as u32
        };
        let ly = if 'A' <= y && y <= 'Z' {
            (y as u32) + 32
        } else {
            y as u32
        };
        if lx != ly {
            return false;
        }
        i = i + 1;
    }
    true
}

/// `s` without its leading `prefix`, or `None` when `s` does not start with
/// `prefix`, as `str::strip_prefix` does.
pub fn strip_prefix<'a>(s: &'a str, prefix: &str) -> (r: Option<&'a str>)
    ensures
        prefix@.is_prefix_of(s@) ==> (r matches Some(t) && t@ == s@.subrange(
            prefix@.len() as int,
            s@.len() as int,
        )),
        !prefix@.is_prefix_of(s@) ==> r is None,
{
    let vs = chars_of(s);
    let vp = chars_of(prefix);
    if vp.len() > vs.len() {
        return None;
    }
    let n = vp.len();
    let mut i: usize = 0;
    while i < n
        invariant
            vs@ == s@,
            vp@ == prefix@,
            n == vp@.len(),
            n <= vs@.len(),
            i <= n,
            forall|k: int| 0 <= k < i ==> s@[k] == prefix@[k],
        decreases n - i,
    {
        if vs[i] != vp[i] {
            assert(!prefix@.is_prefix_of(s@)) by {
                if prefix@.is_prefix_of(s@) {
                    assert(s@.subrange(0, n as int)[i as int] == s@[i as int]);
                }
            }
            return None;
        }
        i = i + 1;
    }
    let ghost rest = s@.subrange(n as int, s@.len() as int);
    proof {
        assert(s@.subrange(0, n as int) =~= prefix@);
        assert(s@ =~= prefix@ + rest);
        lemma_encode_utf8_add(prefix@, rest);
        lemma_char_boundary_after_prefix(prefix@, rest);
    }
    let offset = byte_len(prefix);
    let (_, tail) = s.split_at(offset);
    proof {
        assert(tail.spec_bytes() =~= encode_utf8(rest));
        encode_utf8_decode_utf8(tail@);
        encode_utf8_decode_utf8(rest);
    }
    Some(tail)
}

/// The string made of `a` followed by `b`.
pub fn join_texts(a: &str, b: &str) -> (r: String)
    ensures
        r@ == a@ + b@,
{
    let mut r = String::from_str(a);
    r.append(b);
    r
}

} // verus!
