//! The reply of a ZooKeeper server to the "srvr" command: one `key: value`
//! pair per line, of which the mode, version and last zxid are required.
use vstd::prelude::*;

verus! {

/// Unicode white space, as `char::is_whitespace` defines it.
pub open spec fn is_ws(c: char) -> bool {
    let u = c as u32;
    (0x9 <= u && u <= 0xd) || u == 0x20 || u == 0x85 || u == 0xa0 || u == 0x1680 || (0x2000 <= u
        && u <= 0x200a) || u == 0x2028 || u == 0x2029 || u == 0x202f || u == 0x205f || u == 0x3000
}

fn is_space(c: char) -> (r: bool)
    ensures
        r == is_ws(c),
{
    let u = c as u32;
    (0x9 <= u && u <= 0xd) || u == 0x20 || u == 0x85 || u == 0xa0 || u == 0x1680 || (0x2000 <= u
        && u <= 0x200a) || u == 0x2028 || u == 0x2029 || u == 0x202f || u == 0x205f || u == 0x3000
}

/// First index in `[k, hi)` holding `ch`, or `hi`.
pub open spec fn find_from(s: Seq<char>, k: int, hi: int, ch: char) -> int
    decreases hi - k,
{
    if k >= hi {
        hi
    } else if s[k] == ch {
        k
    } else {
        find_from(s, k + 1, hi, ch)
    }
}

proof fn lemma_find_bounds(s: Seq<char>, k: int, hi: int, ch: char)
    requires
        k <= hi,
    ensures
        k <= find_from(s, k, hi, ch) <= hi,
    decreases hi - k,
{
    if k < hi && s[k] != ch {
        lemma_find_bounds(s, k + 1, hi, ch);
    }
}

/// First index in `[k, hi)` holding no white space, or `hi`.
pub open spec fn skip_ws(s: Seq<char>, k: int, hi: int) -> int
    decreases hi - k,
{
    if k >= hi {
        hi
    } else if is_ws(s[k]) {
        skip_ws(s, k + 1, hi)
    } else {
        k
    }
}

/// End of `[lo, k)` once trailing white space is dropped.
pub open spec fn back_ws(s: Seq<char>, lo: int, k: int) -> int
    decreases k - lo,
{
    if k <= lo {
        lo
    } else if is_ws(s[k - 1]) {
        back_ws(s, lo, k - 1)
    } else {
        k
    }
}

/// The characters of `[lo, hi)` without leading and trailing white space.
pub open spec fn trim_range(s: Seq<char>, lo: int, hi: int) -> Seq<char> {
    let a = skip_ws(s, lo, hi);
    s.subrange(a, back_ws(s, a, hi))
}

/// Value of a hexadecimal digit.
pub open spec fn hex_digit(c: char) -> Option<int> {
    let u = c as u32;
    if 0x30 <= u && u <= 0x39 {
        Some(u - 0x30)
    } else if 0x61 <= u && u <= 0x66 {
        Some(u - 0x61 + 10)
    } else if 0x41 <= u && u <= 0x46 {
        Some(u - 0x41 + 10)
    } else {
        None
    }
}

/// Every character is a hexadecimal digit.
pub open spec fn all_hex(d: Seq<char>) -> bool {
    forall|i: int| 0 <= i < d.len() ==> (#[trigger] hex_digit(d[i])) is Some
}

/// The number that hexadecimal digits spell.
pub open spec fn hex_nat(d: Seq<char>) -> int
    decreases d.len(),
{
    if d.len() == 0 {
        0
    } else {
        hex_nat(d.drop_last()) * 16 + match hex_digit(d.last()) {
            Some(v) => v,
            None => 0,
        }
    }
}

/// A non-empty run of hexadecimal digits whose value, negated when
/// `negative`, fits an `i64`.
pub open spec fn hex_magnitude(d: Seq<char>, negative: bool) -> Option<i64> {
    if d.len() > 0 && all_hex(d) && hex_nat(d) <= (if negative {
        0x8000_0000_0000_0000int
    } else {
        i64::MAX as int
    }) {
        Some((if negative {
            -hex_nat(d)
        } else {
            hex_nat(d)
        }) as i64)
    } else {
        None
    }
}

/// A base-16 `i64` as `i64::from_str_radix` reads it: an optional sign,
/// then at least one hexadecimal digit.
pub open spec fn signed_hex(d: Seq<char>) -> Option<i64> {
    if d.len() == 0 {
        None
    } else if d[0] == '+' {
        hex_magnitude(d.subrange(1, d.len() as int), false)
    } else if d[0] == '-' {
        hex_magnitude(d.subrange(1, d.len() as int), true)
    } else {
        hex_magnitude(d, false)
    }
}

/// Number of bytes of a character in UTF-8.
pub open spec fn utf8_width(c: char) -> int {
    let u = c as u32;
    if u < 0x80 {
        1
    } else if u < 0x800 {
        2
    } else if u < 0x10000 {
        3
    } else {
        4
    }
}

/// What follows the first two bytes of a text, when byte 2 starts a
/// character; `None` when the text is shorter or byte 2 falls inside one.
pub open spec fn after_two_bytes(v: Seq<char>) -> Option<Seq<char>> {
    if v.len() >= 1 && utf8_width(v[0]) == 2 {
        Some(v.subrange(1, v.len() as int))
    } else if v.len() >= 2 && utf8_width(v[0]) == 1 && utf8_width(v[1]) == 1 {
        Some(v.subrange(2, v.len() as int))
    } else {
        None
    }
}

/// The zxid a value gives: what follows its first two bytes (the "0x"
/// prefix, not checked), read as a base-16 `i64`.
pub open spec fn zxid_value(v: Seq<char>) -> Option<i64> {
    match after_two_bytes(v) {
        Some(d) => signed_hex(d),
        None => None,
    }
}

proof fn lemma_hex_nonneg(d: Seq<char>)
    ensures
        hex_nat(d) >= 0,
    decreases d.len(),
{
    if d.len() > 0 {
        lemma_hex_nonneg(d.drop_last());
    }
}

/// The value of a prefix of hexadecimal digits is at most that of the whole.
proof fn lemma_hex_prefix(d: Seq<char>, k: int)
    requires
        0 <= k <= d.len(),
    ensures
        hex_nat(d.subrange(0, k)) <= hex_nat(d),
    decreases d.len(),
{
    if k < d.len() {
        let p = d.drop_last();
        assert(d.subrange(0, k) =~= p.subrange(0, k));
        lemma_hex_prefix(p, k);
        lemma_hex_nonneg(p);
        lemma_hex_nonneg(d);
    } else {
        assert(d.subrange(0, k) =~= d);
    }
}

fn hex_digit_value(c: char) -> (r: Option<u64>)
    ensures
        r is Some <==> hex_digit(c) is Some,
        r is Some ==> r->Some_0 == hex_digit(c)->Some_0 && r->Some_0 < 16,
{
    let u = c as u32;
    if 0x30 <= u && u <= 0x39 {
        Some((u - 0x30) as u64)
    } else if 0x61 <= u && u <= 0x66 {
        Some((u - 0x61 + 10) as u64)
    } else if 0x41 <= u && u <= 0x46 {
        Some((u - 0x41 + 10) as u64)
    } else {
        None
    }
}

fn utf8_width_of(c: char) -> (r: u8)
    ensures
        r as int == utf8_width(c),
{
    let u = c as u32;
    if u < 0x80 {
        1
    } else if u < 0x800 {
        2
    } else if u < 0x10000 {
        3
    } else {
        4
    }
}

/// Reads the hexadecimal digits of `v` from `first` on, as a magnitude that
/// is negated when `negative`.
fn parse_magnitude(v: &str, first: usize, negative: bool) -> (r: Option<i64>)
    requires
        first <= v@.len(),
    ensures
        r == hex_magnitude(v@.subrange(first as int, v@.len() as int), negative),
{
    let n = v.unicode_len();
    let ghost d = v@.subrange(first as int, n as int);
    if first >= n {
        return None;
    }
    let limit: u64 = if negative {
        0x8000_0000_0000_0000
    } else {
        0x7fff_ffff_ffff_ffff
    };
    let mut acc: u64 = 0;
    let mut i: usize = first;
    while i < n
        invariant
            n == v@.len(),
            first <= i <= n,
            d == v@.subrange(first as int, n as int),
            all_hex(d.subrange(0, i - first)),
            acc as int == hex_nat(d.subrange(0, i - first)),
            acc <= limit,
            limit == (if negative {
                0x8000_0000_0000_0000u64
            } else {
                0x7fff_ffff_ffff_ffffu64
            }),
        decreases n - i,
    {
        let c = v.get_char(i);
        let dv = match hex_digit_value(c) {
            Some(x) => x,
            None => {
                assert(hex_digit(d[i - first]) is None);
                return None;
            },
        };
        let ghost pre = d.subrange(0, i - first);
        let ghost next = d.subrange(0, i - first + 1);
        proof {
            assert(next.drop_last() =~= pre);
            assert(next.last() == c);
            assert(hex_nat(next) == acc * 16 + dv);
            lemma_hex_nonneg(pre);
        }
        if dv > limit || acc > (limit - dv) / 16 {
            proof {
                assert(acc * 16 + dv > limit) by (nonlinear_arith)
                    requires
                        dv > limit || acc > (limit - dv) / 16,
                        dv < 16,
                ;
                lemma_hex_prefix(d, i - first + 1);
            }
            return None;
        }
        proof {
            assert(acc * 16 + dv <= limit) by (nonlinear_arith)
                requires
                    acc <= (limit - dv) / 16,
                    dv <= limit,
            ;
            assert forall|j: int| 0 <= j < next.len() implies (#[trigger] hex_digit(next[j])) is Some by {
                if j < pre.len() {
                    assert(next[j] == pre[j]);
                }
            }
        }
        acc = acc * 16 + dv;
        i = i + 1;
    }
    assert(d.subrange(0, n - first) =~= d);
    if negative {
        if acc == 0x8000_0000_0000_0000 {
            Some(i64::MIN)
        } else {
            Some(-(acc as i64))
        }
    } else {
        Some(acc as i64)
    }
}

/// Reads the zxid from a value: what follows its first two bytes, as a
/// base-16 `i64` with an optional sign.
fn parse_zxid(v: &str) -> (r: Option<i64>)
    ensures
        r == zxid_value(v@),
{
    let n = v.unicode_len();
    let start: usize = if n >= 1 && utf8_width_of(v.get_char(0)) == 2 {
        1
    } else if n >= 2 && utf8_width_of(v.get_char(0)) == 1 && utf8_width_of(v.get_char(1)) == 1 {
        2
    } else {
        return None;
    };
    let ghost d = v@.subrange(start as int, n as int);
    assert(after_two_bytes(v@) == Some(d));
    if start >= n {
        return None;
    }
    let c = v.get_char(start);
    if c == '+' {
        assert(d.subrange(1, d.len() as int) =~= v@.subrange(start + 1, n as int));
        parse_magnitude(v, start + 1, false)
    } else if c == '-' {
        assert(d.subrange(1, d.len() as int) =~= v@.subrange(start + 1, n as int));
        parse_magnitude(v, start + 1, true)
    } else {
        parse_magnitude(v, start, false)
    }
}

fn find_char(s: &str, from: usize, hi: usize, ch: char) -> (r: usize)
    requires
        from <= hi <= s@.len(),
    ensures
        r as int == find_from(s@, from as int, hi as int, ch),
        from <= r <= hi,
{
    let mut k = from;
    while k < hi
        invariant
            from <= k <= hi,
            hi <= s@.len(),
            find_from(s@, from as int, hi as int, ch) == find_from(s@, k as int, hi as int, ch),
        decreases hi - k,
    {
        if s.get_char(k) == ch {
            return k;
        }
        k = k + 1;
    }
    k
}

/// The characters of `[lo, hi)` without leading and trailing white space.
fn trimmed(s: &str, lo: usize, hi: usize) -> (r: String)
    requires
        lo <= hi <= s@.len(),
    ensures
        r@ == trim_range(s@, lo as int, hi as int),
{
    let mut a = lo;
    while a < hi && is_space(s.get_char(a))
        invariant
            lo <= a <= hi,
            hi <= s@.len(),
            skip_ws(s@, lo as int, hi as int) == skip_ws(s@, a as int, hi as int),
        decreases hi - a,
    {
        a = a + 1;
    }
    let mut b = hi;
    while b > a && is_space(s.get_char(b - 1))
        invariant
            a <= b <= hi,
            hi <= s@.len(),
            back_ws(s@, a as int, hi as int) == back_ws(s@, a as int, b as int),
        decreases b - a,
    {
        b = b - 1;
    }
    s.substring_char(a, b).to_owned()
}

/// The fields read so far from a reply.
pub struct SrvrFields {
    pub mode: Option<Seq<char>>,
    pub version: Option<Seq<char>>,
    pub zxid: Option<i64>,
    pub extras: Seq<(Seq<char>, Seq<char>)>,
}

/// Nothing read yet.
pub open spec fn no_fields() -> SrvrFields {
    SrvrFields { mode: None, version: None, zxid: None, extras: Seq::empty() }
}

/// One `key: value` line applied to the fields read so far: the mode, the
/// zxid and the version are kept (the last one wins); any other pair is kept
/// among the extras. A zxid that does not read is `None`.
pub open spec fn field_step(f: SrvrFields, key: Seq<char>, value: Seq<char>) -> Option<SrvrFields> {
    if key == "Mode"@ {
        Some(SrvrFields { mode: Some(value), ..f })
    } else if key == "Zxid"@ {
        match zxid_value(value) {
            Some(z) => Some(SrvrFields { zxid: Some(z), ..f }),
            None => None,
        }
    } else if key == "Zookeeper version"@ {
        Some(SrvrFields { version: Some(value), ..f })
    } else {
        Some(SrvrFields { extras: f.extras.push((key, value)), ..f })
    }
}

/// The fields read from the lines that start at `pos`. Reading stops at the
/// end of the text or at the first line without a colon; a line splits at its
/// first colon, and key and value are trimmed of white space.
pub open spec fn parse_lines(s: Seq<char>, pos: int, f: SrvrFields) -> Option<SrvrFields>
    decreases s.len() + 1 - pos,
    via parse_lines_decreases
{
    if pos < 0 || pos >= s.len() {
        Some(f)
    } else {
        let e = find_from(s, pos, s.len() as int, '\n');
        let c = find_from(s, pos, e, ':');
        if c == e {
            Some(f)
        } else {
            match field_step(f, trim_range(s, pos, c), trim_range(s, c + 1, e)) {
                Some(g) => parse_lines(s, e + 1, g),
                None => None,
            }
        }
    }
}

#[via_fn]
proof fn parse_lines_decreases(s: Seq<char>, pos: int, f: SrvrFields) {
    if 0 <= pos < s.len() {
        lemma_find_bounds(s, pos, s.len() as int, '\n');
    }
}

/// Sub-set of the "srvr" response the agent needs.
#[derive(Clone, Debug, PartialEq, Eq)]
pub struct Response {
    pub zk_mode: String,
    pub zk_version: String,
    pub zk_zxid: i64,
    /// The other pairs, in the order of the reply.
    pub zk_extras: Vec<(String, String)>,
}

impl Response {
    /// The value of the last extra pair with the given key.
    pub fn extra(&self, key: &str) -> (r: Option<&String>)
        ensures
            r is None <==> forall|i: int|
                0 <= i < self.zk_extras@.len() ==> self.zk_extras@[i].0@ != key@,
            r is Some ==> exists|i: int|
                0 <= i < self.zk_extras@.len() && self.zk_extras@[i].0@ == key@ && *r->Some_0
                    == self.zk_extras@[i].1 && forall|j: int|
                    i < j < self.zk_extras@.len() ==> self.zk_extras@[j].0@ != key@,
    {
        let wanted = key.to_owned();
        assert(wanted@ == key@);
        let mut i = self.zk_extras.len();
        while i > 0
            invariant
                i <= self.zk_extras@.len(),
                wanted@ == key@,
                forall|j: int| i <= j < self.zk_extras@.len() ==> self.zk_extras@[j].0@ != key@,
            decreases i,
        {
            if self.zk_extras[i - 1].0 == wanted {
                assert(self.zk_extras@[i - 1].0@ == key@);
                return Some(&self.zk_extras[i - 1].1);
            }
            i = i - 1;
        }
        None
    }
}

/// Why a "srvr" reply could not be read.
#[derive(Clone, Debug, PartialEq, Eq)]
pub enum SrvrError {
    /// The zxid is not a hexadecimal number that fits 64 signed bits.
    InvalidZxid,
    /// A required field is missing; its name is given.
    MissingField(String),
}

/// The extras as pairs of character sequences.
pub open spec fn pairs_view(v: Seq<(String, String)>) -> Seq<(Seq<char>, Seq<char>)> {
    v.map_values(|p: (String, String)| (p.0@, p.1@))
}

/// The view of an optional text.
pub open spec fn opt_view(o: Option<String>) -> Option<Seq<char>> {
    match o {
        Some(s) => Some(s@),
        None => None,
    }
}

/// The "srvr" command.
pub struct Srvr;

impl Srvr {
    /// The four-letter word sent to the server.
    pub fn command() -> (r: &'static str)
        ensures
            r@ == "srvr"@,
    {
        "srvr"
    }

    /// Reads a reply to "srvr". Fails with `InvalidZxid` when a Zxid line does
    /// not read, and otherwise with `MissingField` naming the first of mode,
    /// version and zxid that no line gave.
    pub fn parse_response(response: &str) -> (r: Result<Response, SrvrError>)
        ensures
            match parse_lines(response@, 0, no_fields()) {
                None => r == Err::<Response, SrvrError>(SrvrError::InvalidZxid),
                Some(f) => match (f.mode, f.version, f.zxid) {
                    (Some(m), Some(v), Some(z)) => {
                        &&& r is Ok
                        &&& r->Ok_0.zk_mode@ == m
                        &&& r->Ok_0.zk_version@ == v
                        &&& r->Ok_0.zk_zxid == z
                        &&& pairs_view(r->Ok_0.zk_extras@) == f.extras
                    },
                    _ => r is Err && r->Err_0 is MissingField && r->Err_0->MissingField_0@ == (
                    if f.mode is None {
                        "zk_mode"@
                    } else if f.version is None {
                        "zk_version"@
                    } else {
                        "zk_zxid"@
                    }),
                },
            },
    {
        let n = response.unicode_len();
        let mut zk_mode: Option<String> = None;
        let mut zk_version: Option<String> = None;
        let mut zk_zxid: Option<i64> = None;
        let mut zk_extras: Vec<(String, String)> = Vec::new();
        let mut pos: usize = 0;
        proof {
            assert(pairs_view(zk_extras@) =~= Seq::empty());
        }
        let mut done = false;
        while !done && pos < n
            invariant
                n == response@.len(),
                pos <= n,
                done ==> parse_lines(response@, 0, no_fields()) == Some(
                    SrvrFields {
                        mode: opt_view(zk_mode),
                        version: opt_view(zk_version),
                        zxid: zk_zxid,
                        extras: pairs_view(zk_extras@),
                    },
                ),
                parse_lines(response@, 0, no_fields()) == parse_lines(
                    response@,
                    pos as int,
                    SrvrFields {
                        mode: opt_view(zk_mode),
                        version: opt_view(zk_version),
                        zxid: zk_zxid,
                        extras: pairs_view(zk_extras@),
                    },
                ),
            decreases n - pos + (if done { 0int } else { 1int }),
        {
            let ghost f = SrvrFields {
                mode: opt_view(zk_mode),
                version: opt_view(zk_version),
                zxid: zk_zxid,
                extras: pairs_view(zk_extras@),
            };
            let e = find_char(response, pos, n, '\n');
            let c = find_char(response, pos, e, ':');
            if c == e {
                done = true;
                continue;
            }
            let key = trimmed(response, pos, c);
            let value = trimmed(response, c + 1, e);
            proof {
                assert(parse_lines(response@, pos as int, f) == match field_step(f, key@, value@) {
                    Some(g) => parse_lines(response@, e + 1, g),
                    None => None,
                });
                if e == n {
                    let g = field_step(f, key@, value@);
                    if g is Some {
                        assert(parse_lines(response@, e + 1, g->Some_0) == Some(g->Some_0));
                        assert(parse_lines(response@, n as int, g->Some_0) == Some(g->Some_0));
                    }
                }
            }
            let mode_key = "Mode".to_owned();
            let zxid_key = "Zxid".to_owned();
            let version_key = "Zookeeper version".to_owned();
            if key == mode_key {
                zk_mode = Some(value);
            } else if key == zxid_key {
                match parse_zxid(value.as_str()) {
                    Some(z) => {
                        zk_zxid = Some(z);
                    },
                    None => {
                        return Err(SrvrError::InvalidZxid);
                    },
                }
            } else if key == version_key {
                zk_version = Some(value);
            } else {
                zk_extras.push((key, value));
                proof {
                    assert(pairs_view(zk_extras@) =~= f.extras.push((key@, value@)));
                }
            }
            pos = if e < n {
                e + 1
            } else {
                n
            };
        }
        let zk_mode = match zk_mode {
            Some(m) => m,
            None => {
                return Err(SrvrError::MissingField("zk_mode".to_owned()));
            },
        };
        let zk_version = match zk_version {
            Some(v) => v,
            None => {
                return Err(SrvrError::MissingField("zk_version".to_owned()));
            },
        };
        let zk_zxid = match zk_zxid {
            Some(z) => z,
            None => {
                return Err(SrvrError::MissingField("zk_zxid".to_owned()));
            },
        };
        Ok(Response { zk_mode, zk_version, zk_zxid, zk_extras })
    }
}

} // verus!
