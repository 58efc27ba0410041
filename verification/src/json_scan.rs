use vstd::prelude::*;

use crate::ids::code_cut;

verus! {

/// Where a left-to-right scan of JSON bytes stands: whether it is inside a
/// string and right after a backslash there, where the current string's
/// text starts, whether that text holds an escape and whether it may stand
/// for a character outside ASCII, how deep objects and arrays nest outside
/// strings, and, at the top level, whether a string has closed there yet
/// and whether the last one that did may read `eid`.
pub struct Lex {
    pub in_str: bool,
    pub esc: bool,
    pub start: nat,
    pub has_bs: bool,
    pub wide: bool,
    pub depth: nat,
    pub seen: bool,
    pub pending: bool,
}

pub open spec fn lex_init() -> Lex {
    Lex { in_str: false, esc: false, start: 0, has_bs: false, wide: false, depth: 0, seen: false, pending: false }
}

/// A UTF-8 continuation byte.
pub open spec fn is_cont(x: u8) -> bool {
    0x80 <= x <= 0xbf
}

/// The `u` at `i` opens an escape `\u00` followed by a digit 0 to 7, that
/// is, of an ASCII character.
pub open spec fn ascii_unicode_escape(b: Seq<u8>, i: int) -> bool {
    &&& i + 3 < b.len()
    &&& b[i + 1] == 0x30 && b[i + 2] == 0x30
    &&& 0x30 <= b[i + 3] <= 0x37
}

/// The bytes from `start` to `end` are `eid`.
pub open spec fn raw_is_eid(b: Seq<u8>, start: nat, end: int) -> bool {
    &&& end == start + 3
    &&& b[start as int] == 0x65 && b[start + 1int] == 0x69 && b[start + 2int] == 0x64
}

/// The scan after reading the byte at `i` in state `s`.
pub open spec fn lex_step(b: Seq<u8>, s: Lex, i: int) -> Lex {
    let c = b[i];
    if !s.in_str {
        if c == 0x22 {
            Lex { in_str: true, esc: false, start: (i + 1) as nat, has_bs: false, wide: false, depth: s.depth, seen: s.seen, pending: s.pending }
        } else if c == 0x7b || c == 0x5b {
            Lex { in_str: s.in_str, esc: s.esc, start: s.start, has_bs: s.has_bs, wide: s.wide, depth: s.depth + 1, seen: s.seen, pending: s.pending }
        } else if (c == 0x7d || c == 0x5d) && s.depth > 0 {
            Lex { in_str: s.in_str, esc: s.esc, start: s.start, has_bs: s.has_bs, wide: s.wide, depth: (s.depth - 1) as nat, seen: s.seen, pending: s.pending }
        } else {
            s
        }
    } else if s.esc {
        Lex {
            in_str: true,
            esc: false,
            start: s.start,
            has_bs: s.has_bs,
            wide: s.wide || (c == 0x75 && !ascii_unicode_escape(b, i)),
            depth: s.depth,
            seen: s.seen,
            pending: s.pending,
        }
    } else if c == 0x5c {
        Lex { in_str: true, esc: true, start: s.start, has_bs: true, wide: s.wide, depth: s.depth, seen: s.seen, pending: s.pending }
    } else if c == 0x22 {
        if s.depth == 1 {
            Lex {
                in_str: false,
                esc: false,
                start: s.start,
                has_bs: s.has_bs,
                wide: s.wide,
                depth: s.depth,
                seen: true,
                pending: s.has_bs || raw_is_eid(b, s.start, i),
            }
        } else {
            Lex { in_str: false, esc: false, start: s.start, has_bs: s.has_bs, wide: s.wide, depth: s.depth, seen: s.seen, pending: s.pending }
        }
    } else if c >= 0x80 {
        Lex { in_str: true, esc: false, start: s.start, has_bs: s.has_bs, wide: true, depth: s.depth, seen: s.seen, pending: s.pending }
    } else {
        s
    }
}

/// The scan after the first `n` bytes.
pub open spec fn lex(b: Seq<u8>, n: nat) -> Lex
    decreases n,
{
    if n == 0 {
        lex_init()
    } else {
        lex_step(b, lex(b, (n - 1) as nat), n - 1)
    }
}

/// The byte at `i` closes a string.
pub open spec fn closing(b: Seq<u8>, i: int) -> bool {
    &&& 0 <= i < b.len()
    &&& lex(b, i as nat).in_str
    &&& !lex(b, i as nat).esc
    &&& b[i] == 0x22
}

/// The text, between its quotes, of the string that closes at `i`.
pub open spec fn token(b: Seq<u8>, i: int) -> Seq<u8> {
    b.subrange(lex(b, i as nat).start as int, i)
}

pub open spec fn is_upper_byte(x: u8) -> bool {
    0x41 <= x <= 0x5a
}

pub open spec fn is_hex_byte(x: u8) -> bool {
    (0x30 <= x <= 0x39) || (0x61 <= x <= 0x66)
}

/// A version string `PPPPvvKKKKllllll_` whose tenth byte falls inside a
/// character: the version reader (`said::version::SerializationInfo`)
/// slices bytes 6 to 10 of it and panics there.
pub open spec fn version_cut(t: Seq<u8>) -> bool {
    &&& t.len() == 17
    &&& t[16] == 0x5f
    &&& is_upper_byte(t[0]) && is_upper_byte(t[1]) && is_upper_byte(t[2]) && is_upper_byte(t[3])
    &&& is_hex_byte(t[4]) && is_hex_byte(t[5])
    &&& is_cont(t[10])
}

/// The string with text `t` may read as a cut version string. Without an
/// escape it reads as `t` itself. With one, it reads as fewer bytes than
/// `t` (each escape stands for at most as many bytes as it is written
/// with, and at least one byte for six), holds a character outside ASCII
/// only if `t` does or has a `\u` escape of one, and ends with `_` only if
/// `t` ends with `_` or with the escape `\u005f`.
pub open spec fn version_may_be_cut(t: Seq<u8>, has_bs: bool, wide: bool) -> bool {
    if !has_bs {
        version_cut(t)
    } else {
        &&& wide
        &&& 17 <= t.len() <= 102
        &&& (t.last() == 0x5f || t.last() == 0x66 || t.last() == 0x46)
    }
}

/// JSON in which no string may read as a cut version string.
pub open spec fn json_versions_safe(b: Seq<u8>) -> bool {
    forall|i: int|
        #[trigger] closing(b, i) ==> !version_may_be_cut(token(b, i), lex(b, i as nat).has_bs, lex(b, i as nat).wide)
}

/// The string with text `t` may read as a cut identifier. With an escape,
/// it starts with `0` or `1` only if `t` does or starts with the escape
/// `\u003`, and reads as fewer than four bytes only if `t` is shorter than
/// 24 bytes.
pub open spec fn code_may_be_cut(t: Seq<u8>, has_bs: bool, wide: bool) -> bool {
    if !has_bs {
        code_cut(t)
    } else {
        &&& t.len() > 0
        &&& {
            ||| t[0] == 0x30
            ||| t[0] == 0x31
            ||| t.len() >= 5 && t[0] == 0x5c && t[1] == 0x75 && t[2] == 0x30 && t[3] == 0x30 && t[4] == 0x33
        }
        &&& (wide || t.len() < 24)
    }
}

/// JSON in which the string that may be read as the `eid` of the top-level
/// object (the one after a key that may read `eid`), or as the first item
/// of a top-level array, may not read as a cut identifier.
pub open spec fn json_eid_safe(b: Seq<u8>) -> bool {
    forall|i: int|
        #[trigger] closing(b, i) && lex(b, i as nat).depth == 1 && (lex(b, i as nat).pending || !lex(b, i as nat).seen)
            ==> !code_may_be_cut(token(b, i), lex(b, i as nat).has_bs, lex(b, i as nat).wide)
}

/// Bytes all in ASCII, with no `\u` escape: every string in them reads as
/// ASCII text.
pub open spec fn plain_ascii(b: Seq<u8>) -> bool {
    &&& forall|i: int| 0 <= i < b.len() ==> b[i] < 0x80
    &&& forall|i: int| 0 < i < b.len() && b[i - 1] == 0x5c ==> #[trigger] b[i] != 0x75
}

/// A string's text starts within the bytes scanned, and an escape is only
/// open inside a string.
pub proof fn lemma_lex_shape(b: Seq<u8>, n: nat)
    requires
        n <= b.len(),
    ensures
        lex(b, n).start <= n,
        lex(b, n).esc ==> lex(b, n).in_str,
    decreases n,
{
    if n > 0 {
        lemma_lex_shape(b, (n - 1) as nat);
    }
}

/// Inside a string, its text starts right after an opening quote; over
/// bytes with no backslash no string is marked as holding an escape.
pub proof fn lemma_lex_string_start(b: Seq<u8>, n: nat)
    requires
        n <= b.len(),
    ensures
        lex(b, n).in_str ==> 1 <= lex(b, n).start <= n && b[lex(b, n).start - 1] == 0x22,
        (forall|k: int| 0 <= k < n ==> b[k] != 0x5c) ==> !lex(b, n).has_bs,
        (forall|k: int| 0 <= k < n ==> b[k] != 0x5c) && lex(b, n).in_str
            ==> forall|m: int| lex(b, n).start <= m < n ==> b[m] != 0x22,
    decreases n,
{
    if n > 0 {
        lemma_lex_string_start(b, (n - 1) as nat);
    }
}

/// Over plain ASCII bytes no string is marked as reading outside ASCII.
pub proof fn lemma_plain_ascii_narrow(b: Seq<u8>, n: nat)
    requires
        plain_ascii(b),
        n <= b.len(),
    ensures
        !lex(b, n).wide,
        lex(b, n).esc ==> n > 0 && b[n - 1] == 0x5c,
    decreases n,
{
    lemma_lex_shape(b, n);
    if n > 0 {
        lemma_plain_ascii_narrow(b, (n - 1) as nat);
        lemma_lex_shape(b, (n - 1) as nat);
        let i = n - 1;
        if lex(b, i as nat).in_str && lex(b, i as nat).esc {
            assert(b[i - 1] == 0x5c);
            assert(b[i] != 0x75);
        }
        if lex(b, i as nat).in_str && !lex(b, i as nat).esc {
            assert(b[i] < 0x80);
        }
    }
}

/// The scan in executable form.
struct Lexer {
    in_str: bool,
    esc: bool,
    start: usize,
    has_bs: bool,
    wide: bool,
    depth: usize,
    seen: bool,
    pending: bool,
}

impl View for Lexer {
    type V = Lex;

    closed spec fn view(&self) -> Lex {
        Lex {
            in_str: self.in_str,
            esc: self.esc,
            start: self.start as nat,
            has_bs: self.has_bs,
            wide: self.wide,
            depth: self.depth as nat,
            seen: self.seen,
            pending: self.pending,
        }
    }
}

impl Lexer {
    fn new() -> (l: Lexer)
        ensures
            l@ == lex_init(),
            l.depth == 0,
            l.start == 0,
    {
        Lexer { in_str: false, esc: false, start: 0, has_bs: false, wide: false, depth: 0, seen: false, pending: false }
    }

    /// Reads the byte at `i`.
    fn advance(&mut self, b: &[u8], i: usize)
        requires
            i < b@.len(),
            old(self)@ == lex(b@, i as nat),
            old(self).depth <= i,
            old(self).start <= i,
        ensures
            final(self)@ == lex(b@, (i + 1) as nat),
            final(self).depth <= i + 1,
            final(self).start <= i + 1,
    {
        let c = b[i];
        if !self.in_str {
            if c == 0x22 {
                self.in_str = true;
                self.esc = false;
                self.start = i + 1;
                self.has_bs = false;
                self.wide = false;
            } else if c == 0x7b || c == 0x5b {
                self.depth = self.depth + 1;
            } else if (c == 0x7d || c == 0x5d) && self.depth > 0 {
                self.depth = self.depth - 1;
            }
        } else if self.esc {
            self.esc = false;
            if c == 0x75 {
                let ascii = b.len() - i > 3 && b[i + 1] == 0x30 && b[i + 2] == 0x30 && 0x30 <= b[i + 3]
                    && b[i + 3] <= 0x37;
                if !ascii {
                    self.wide = true;
                }
            }
        } else if c == 0x5c {
            self.esc = true;
            self.has_bs = true;
        } else if c == 0x22 {
            self.in_str = false;
            self.esc = false;
            if self.depth == 1 {
                let eid = i - self.start == 3 && b[self.start] == 0x65 && b[self.start + 1] == 0x69
                    && b[self.start + 2] == 0x64;
                self.seen = true;
                self.pending = self.has_bs || eid;
            }
        } else if c >= 0x80 {
            self.wide = true;
        }
    }
}

/// Whether the bytes from `start` to `end` hold a cut version string
/// (`version_may_be_cut`).
fn version_token_cut(b: &[u8], start: usize, end: usize, has_bs: bool, wide: bool) -> (r: bool)
    requires
        start <= end <= b@.len(),
    ensures
        r == version_may_be_cut(b@.subrange(start as int, end as int), has_bs, wide),
{
    let len = end - start;
    let t = Ghost(b@.subrange(start as int, end as int));
    if !has_bs {
        if len != 17 {
            return false;
        }
        assert(t@[0] == b@[start as int] && t@[4] == b@[start + 4] && t@[10] == b@[start + 10] && t@[16] == b@[start + 16]);
        assert(t@[1] == b@[start + 1] && t@[2] == b@[start + 2] && t@[3] == b@[start + 3] && t@[5] == b@[start + 5]);
        let (c0, c1, c2, c3, c4, c5) = (b[start], b[start + 1], b[start + 2], b[start + 3], b[start + 4], b[start + 5]);
        b[start + 16] == 0x5f && 0x41 <= c0 && c0 <= 0x5a && 0x41 <= c1 && c1 <= 0x5a && 0x41 <= c2 && c2 <= 0x5a
            && 0x41 <= c3 && c3 <= 0x5a && ((0x30 <= c4 && c4 <= 0x39) || (0x61 <= c4 && c4 <= 0x66))
            && ((0x30 <= c5 && c5 <= 0x39) || (0x61 <= c5 && c5 <= 0x66)) && 0x80 <= b[start + 10]
            && b[start + 10] <= 0xbf
    } else {
        if !wide || len < 17 || len > 102 {
            return false;
        }
        let last = b[end - 1];
        assert(t@.last() == b@[end - 1]);
        last == 0x5f || last == 0x66 || last == 0x46
    }
}

/// Whether the bytes from `start` to `end` hold a cut identifier
/// (`code_may_be_cut`).
fn code_token_cut(b: &[u8], start: usize, end: usize, has_bs: bool, wide: bool) -> (r: bool)
    requires
        start <= end <= b@.len(),
    ensures
        r == code_may_be_cut(b@.subrange(start as int, end as int), has_bs, wide),
{
    let len = end - start;
    let t = Ghost(b@.subrange(start as int, end as int));
    if len == 0 {
        return false;
    }
    let c0 = b[start];
    assert(t@[0] == c0);
    if !has_bs {
        if c0 == 0x30 {
            if len < 2 {
                return true;
            }
            if len == 2 {
                return false;
            }
            assert(t@[2] == b@[start + 2]);
            0x80 <= b[start + 2] && b[start + 2] <= 0xbf
        } else if c0 == 0x31 {
            if len < 4 {
                return true;
            }
            if len == 4 {
                return false;
            }
            assert(t@[4] == b@[start + 4]);
            0x80 <= b[start + 4] && b[start + 4] <= 0xbf
        } else {
            false
        }
    } else {
        let lead = c0 == 0x30 || c0 == 0x31 || (len >= 5 && c0 == 0x5c && b[start + 1] == 0x75 && b[start + 2] == 0x30
            && b[start + 3] == 0x30 && b[start + 4] == 0x33);
        proof {
            if len >= 5 {
                assert(t@[1] == b@[start + 1] && t@[2] == b@[start + 2] && t@[3] == b@[start + 3] && t@[4] == b@[start + 4]);
            }
        }
        lead && (wide || len < 24)
    }
}

/// Checks `json_versions_safe`.
pub fn json_versions_ok(b: &[u8]) -> (ok: bool)
    ensures
        ok == json_versions_safe(b@),
{
    let n = b.len();
    let mut lx = Lexer::new();
    let mut i: usize = 0;
    while i < n
        invariant
            n == b@.len(),
            i <= n,
            lx@ == lex(b@, i as nat),
            lx.depth <= i,
            lx.start <= i,
            forall|k: int|
                0 <= k < i && #[trigger] closing(b@, k)
                    ==> !version_may_be_cut(token(b@, k), lex(b@, k as nat).has_bs, lex(b@, k as nat).wide),
        decreases n - i,
    {
        if lx.in_str && !lx.esc && b[i] == 0x22 {
            assert(closing(b@, i as int));
            if version_token_cut(b, lx.start, i, lx.has_bs, lx.wide) {
                return false;
            }
        }
        proof {
            if !closing(b@, i as int) {
                assert(!(lx.in_str && !lx.esc && b@[i as int] == 0x22));
            }
        }
        lx.advance(b, i);
        i = i + 1;
    }
    assert forall|k: int| #[trigger] closing(b@, k) implies !version_may_be_cut(token(b@, k), lex(b@, k as nat).has_bs, lex(b@, k as nat).wide) by {
        assert(0 <= k < n);
    }
    true
}

/// Checks `json_eid_safe`.
pub fn json_eid_ok(b: &[u8]) -> (ok: bool)
    ensures
        ok == json_eid_safe(b@),
{
    let n = b.len();
    let mut lx = Lexer::new();
    let mut i: usize = 0;
    while i < n
        invariant
            n == b@.len(),
            i <= n,
            lx@ == lex(b@, i as nat),
            lx.depth <= i,
            lx.start <= i,
            forall|k: int|
                0 <= k < i && #[trigger] closing(b@, k) && lex(b@, k as nat).depth == 1 && (lex(b@, k as nat).pending
                    || !lex(b@, k as nat).seen)
                    ==> !code_may_be_cut(token(b@, k), lex(b@, k as nat).has_bs, lex(b@, k as nat).wide),
        decreases n - i,
    {
        if lx.in_str && !lx.esc && b[i] == 0x22 && lx.depth == 1 && (lx.pending || !lx.seen) {
            assert(closing(b@, i as int));
            if code_token_cut(b, lx.start, i, lx.has_bs, lx.wide) {
                return false;
            }
        }
        lx.advance(b, i);
        i = i + 1;
    }
    assert forall|k: int|
        #[trigger] closing(b@, k) && lex(b@, k as nat).depth == 1 && (lex(b@, k as nat).pending || !lex(b@, k as nat).seen)
        implies !code_may_be_cut(token(b@, k), lex(b@, k as nat).has_bs, lex(b@, k as nat).wide) by {
        assert(0 <= k < n);
    }
    true
}

} // verus!
