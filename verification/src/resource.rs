//! Identifiers of WHIP/WHEP resources and the ETags of their ICE sessions.
use vstd::prelude::*;
use vstd::string::StrSliceExecFns;
use vstd::string::StringExecFns;
use crate::idmap::TableKey;
use crate::text::{digit_char, hex_byte, hex_value, is_hex_char};

verus! {

/// Unique identifier of a WHIP/WHEP resource: 16 bytes of a version-4 UUID,
/// written as hyphenated lower-case hex.
#[derive(Clone, Copy, Debug, Eq, Hash)]
pub struct ResourceId([u8; 16]);

impl PartialEq for ResourceId {
    fn eq(&self, other: &Self) -> (r: bool) {
        let mut i: usize = 0;
        while i < 16
            invariant
                i <= 16,
                forall|j: int| 0 <= j < i ==> self.0@[j] == other.0@[j],
            decreases 16 - i,
        {
            if self.0[i] != other.0[i] {
                return false;
            }
            i = i + 1;
        }
        assert(self.0@ =~= other.0@);
        true
    }
}

impl vstd::std_specs::cmp::PartialEqSpecImpl for ResourceId {
    open spec fn obeys_eq_spec() -> bool {
        true
    }

    open spec fn eq_spec(&self, other: &Self) -> bool {
        self.bytes() == other.bytes()
    }
}

/// Whether a resource is a publisher (WHIP), a subscriber (WHEP) or an
/// outgoing relay to a remote WHIP endpoint.
#[derive(Clone, Copy, Debug, PartialEq, Eq, Structural)]
pub enum ResourceKind {
    Whip,
    Whep,
    WhipOut,
}

/// Sixteen random bytes from the operating system, or `None` when the
/// system's random source fails.
///
/// Calls `getrandom::getrandom` on a 16-byte buffer. Nothing is stated of the
/// bytes, nor of when the source fails.
#[verifier::external_body]
pub(crate) fn os_random_bytes() -> (r: Option<[u8; 16]>) {
    let mut b = [0u8; 16];
    match getrandom::getrandom(&mut b) {
        Ok(()) => Some(b),
        Err(_) => None,
    }
}

/// `b` with the version-4 and RFC 4122 variant bits set.
pub open spec fn uuid_v4_bytes(b: Seq<u8>) -> Seq<u8> {
    b.update(6, (b[6] & 0x0f) | 0x40).update(8, (b[8] & 0x3f) | 0x80)
}

/// Lower-case hex of `b[lo..hi]`, two digits per byte.
pub open spec fn hex_run(b: Seq<u8>, lo: int, hi: int) -> Seq<char>
    decreases hi - lo,
{
    if hi <= lo { Seq::empty() } else { hex_run(b, lo, hi - 1) + hex_byte(b[hi - 1]) }
}

/// Whether a hyphen precedes byte `i` in the text of an identifier.
pub open spec fn hyphen_before(i: int) -> bool {
    i == 4 || i == 6 || i == 8 || i == 10
}

/// The text of the first `i` bytes of an identifier.
pub open spec fn id_prefix(b: Seq<u8>, i: int) -> Seq<char>
    decreases i,
{
    if i <= 0 {
        Seq::empty()
    } else {
        id_prefix(b, i - 1) + (if hyphen_before(i - 1) { seq!['-'] } else { Seq::<char>::empty() }) + hex_byte(b[i - 1])
    }
}

/// The text of an identifier: lower-case hex digits in groups of 8-4-4-4-12,
/// joined by hyphens.
pub open spec fn id_text(b: Seq<u8>) -> Seq<char> {
    id_prefix(b, 16)
}

/// `s` without its hyphens.
pub open spec fn strip_hyphens(s: Seq<char>) -> Seq<char>
    decreases s.len(),
{
    if s.len() == 0 {
        s
    } else if s.last() == '-' {
        strip_hyphens(s.drop_last())
    } else {
        strip_hyphens(s.drop_last()).push(s.last())
    }
}

/// Whether `s` is 32 hex digits once its hyphens are removed.
pub open spec fn is_id_text(s: Seq<char>) -> bool {
    let h = strip_hyphens(s);
    h.len() == 32 && forall|i: int| 0 <= i < 32 ==> is_hex_char(#[trigger] h[i])
}

/// The bytes that 32 hex digits stand for.
pub open spec fn bytes_of_hex(h: Seq<char>) -> Seq<u8> {
    Seq::new(16, |i: int| (hex_value(h[2 * i]) * 16 + hex_value(h[2 * i + 1])) as u8)
}

impl ResourceId {
    /// The identifier's bytes.
    pub closed spec fn bytes(&self) -> Seq<u8> {
        self.0@
    }

    /// The identifier made of `raw` with the version and variant bits set.
    pub fn from_random(raw: [u8; 16]) -> (id: ResourceId)
        ensures
            id.bytes() == uuid_v4_bytes(raw@),
    {
        let mut b = raw;
        b[6] = (b[6] & 0x0f) | 0x40;
        b[8] = (b[8] & 0x3f) | 0x80;
        proof {
            assert(b@ =~= uuid_v4_bytes(raw@));
        }
        ResourceId(b)
    }

    /// A fresh random identifier: the bytes of a fresh version-4 UUID;
    /// `None` when the system's random source fails.
    pub fn new() -> (r: Option<ResourceId>)
        ensures
            r matches Some(id) ==> exists|raw: Seq<u8>| raw.len() == 16 && id.bytes() == uuid_v4_bytes(raw),
            r matches Some(id) ==> id.bytes().len() == 16 && id.bytes()[6] / 16 == 4 && id.bytes()[8] / 64 == 2,
    {
        match crate::types::random_uuid_bytes() {
            Some(b) => Some(ResourceId(b)),
            None => None,
        }
    }
}

impl TableKey for ResourceId {
    fn same_key(&self, other: &Self) -> (b: bool) {
        let b = *self == *other;
        proof {
            broadcast use vstd::array::group_array_axioms;
            if self.0@ == other.0@ {
                assert forall|i: int| 0 <= i < 16 implies self.0[i] == other.0[i] by {
                    assert(self.0@[i] == other.0@[i]);
                }
                assert(self.0 =~= other.0);
            }
        }
        b
    }
}

/// The value of a hexadecimal digit.
fn hex_digit_value(c: char) -> (v: u8)
    requires
        is_hex_char(c),
    ensures
        v as nat == hex_value(c),
        v < 16,
{
    if '0' <= c && c <= '9' {
        (c as u32 - '0' as u32) as u8
    } else if 'a' <= c && c <= 'f' {
        (c as u32 - 'a' as u32 + 10) as u8
    } else {
        (c as u32 - 'A' as u32 + 10) as u8
    }
}

/// Whether `c` is a hexadecimal digit.
fn is_hex_digit(c: char) -> (b: bool)
    ensures
        b == is_hex_char(c),
{
    ('0' <= c && c <= '9') || ('a' <= c && c <= 'f') || ('A' <= c && c <= 'F')
}

proof fn lemma_hex_digit_roundtrip(d: nat)
    requires
        d < 16,
    ensures
        is_hex_char(digit_char(d)),
        hex_value(digit_char(d)) == d,
        digit_char(d) != '-',
{
}

proof fn lemma_strip_concat(x: Seq<char>, y: Seq<char>)
    ensures
        strip_hyphens(x + y) == strip_hyphens(x) + strip_hyphens(y),
    decreases y.len(),
{
    if y.len() == 0 {
        assert(x + y =~= x);
        assert(strip_hyphens(x) + strip_hyphens(y) =~= strip_hyphens(x));
    } else {
        lemma_strip_concat(x, y.drop_last());
        assert((x + y).drop_last() =~= x + y.drop_last());
        assert((x + y).last() == y.last());
        if y.last() != '-' {
            assert((strip_hyphens(x) + strip_hyphens(y.drop_last())).push(y.last()) =~= strip_hyphens(x) + strip_hyphens(y.drop_last()).push(y.last()));
        }
    }
}

proof fn lemma_strip_hex_byte(v: u8)
    ensures
        strip_hyphens(hex_byte(v)) == hex_byte(v),
{
    lemma_hex_digit_roundtrip((v / 16) as nat);
    lemma_hex_digit_roundtrip((v % 16) as nat);
    let h = hex_byte(v);
    assert(h[0] != '-' && h[1] != '-');
    assert(h.drop_last() =~= seq![h[0]]);
    assert(seq![h[0]].drop_last() =~= Seq::<char>::empty());
    assert(strip_hyphens(Seq::<char>::empty()) == Seq::<char>::empty());
    assert(Seq::<char>::empty().push(h[0]) =~= seq![h[0]]);
    assert(strip_hyphens(seq![h[0]]) =~= seq![h[0]]);
    assert(seq![h[0]].push(h[1]) =~= h);
}

proof fn lemma_strip_id_prefix(b: Seq<u8>, i: int)
    requires
        0 <= i <= b.len(),
    ensures
        strip_hyphens(id_prefix(b, i)) == hex_run(b, 0, i),
    decreases i,
{
    if i > 0 {
        lemma_strip_id_prefix(b, i - 1);
        let sep: Seq<char> = if hyphen_before(i - 1) { seq!['-'] } else { Seq::<char>::empty() };
        lemma_strip_concat(id_prefix(b, i - 1) + sep, hex_byte(b[i - 1]));
        lemma_strip_concat(id_prefix(b, i - 1), sep);
        lemma_strip_hex_byte(b[i - 1]);
        if hyphen_before(i - 1) {
            assert(seq!['-'].drop_last() =~= Seq::<char>::empty());
            assert(strip_hyphens(Seq::<char>::empty()) == Seq::<char>::empty());
            assert(strip_hyphens(seq!['-']) == Seq::<char>::empty());
            assert(strip_hyphens(sep) =~= Seq::<char>::empty());
        } else {
            assert(strip_hyphens(sep) =~= Seq::<char>::empty());
        }
        assert(strip_hyphens(id_prefix(b, i - 1)) + Seq::<char>::empty() =~= strip_hyphens(id_prefix(b, i - 1)));
    } else {
        assert(id_prefix(b, i) == Seq::<char>::empty());
    }
}

proof fn lemma_hex_run_at(b: Seq<u8>, n: int, k: int)
    requires
        0 <= k < n <= b.len(),
    ensures
        hex_run(b, 0, n).len() == 2 * n,
        hex_run(b, 0, n)[2 * k] == digit_char((b[k] / 16) as nat),
        hex_run(b, 0, n)[2 * k + 1] == digit_char((b[k] % 16) as nat),
    decreases n,
{
    if k < n - 1 {
        lemma_hex_run_at(b, n - 1, k);
    } else {
        if n > 1 {
            lemma_hex_run_at(b, n - 1, 0);
        }
    }
    lemma_hex_run_len(b, n);
}

proof fn lemma_hex_run_len(b: Seq<u8>, n: int)
    requires
        0 <= n <= b.len(),
    ensures
        hex_run(b, 0, n).len() == 2 * n,
    decreases n,
{
    if n > 0 {
        lemma_hex_run_len(b, n - 1);
    }
}

impl ResourceId {
    /// The identifier as text: 8-4-4-4-12 lower-case hex digits.
    pub fn to_string(&self) -> (s: String)
        ensures
            s@ == id_text(self.bytes()),
    {
        let mut s = String::new();
        let mut i: usize = 0;
        while i < 16
            invariant
                i <= 16,
                self.0@.len() == 16,
                s@ == id_prefix(self.0@, i as int),
            decreases 16 - i,
        {
            if i == 4 || i == 6 || i == 8 || i == 10 {
                proof {
                    reveal_strlit("-");
                }
                s.append("-");
            }
            crate::text::push_hex_byte(&mut s, self.0[i]);
            proof {
                let sep: Seq<char> = if hyphen_before(i as int) { seq!['-'] } else { Seq::<char>::empty() };
                assert(s@ =~= id_prefix(self.0@, i as int) + sep + hex_byte(self.0@[i as int]));
            }
            i = i + 1;
        }
        s
    }

    /// Parses the text of an identifier: any hyphens, and 32 hex digits (of
    /// either case) in all.
    pub fn parse(s: &str) -> (r: Result<ResourceId, &'static str>)
        ensures
            is_id_text(s@) ==> (r matches Ok(id) && id.bytes() == bytes_of_hex(strip_hyphens(s@))),
            !is_id_text(s@) ==> (r matches Err(m) && m@ == "invalid resource ID format"@),
    {
        let n = s.unicode_len();
        let mut h: Vec<char> = Vec::new();
        let mut i: usize = 0;
        while i < n
            invariant
                n == s@.len(),
                i <= n,
                h@ == strip_hyphens(s@.take(i as int)),
            decreases n - i,
        {
            let c = s.get_char(i);
            proof {
                assert(s@.take(i + 1).drop_last() =~= s@.take(i as int));
            }
            if c != '-' {
                h.push(c);
            }
            i = i + 1;
        }
        proof {
            assert(s@.take(n as int) =~= s@);
        }
        if h.len() != 32 {
            return Err("invalid resource ID format");
        }
        let mut k: usize = 0;
        while k < 32
            invariant
                h@.len() == 32,
                h@ == strip_hyphens(s@),
                k <= 32,
                forall|j: int| 0 <= j < k ==> is_hex_char(#[trigger] h@[j]),
            decreases 32 - k,
        {
            if !is_hex_digit(h[k]) {
                return Err("invalid resource ID format");
            }
            k = k + 1;
        }
        let mut b = [0u8; 16];
        let mut j: usize = 0;
        while j < 16
            invariant
                h@.len() == 32,
                h@ == strip_hyphens(s@),
                forall|x: int| 0 <= x < 32 ==> is_hex_char(#[trigger] h@[x]),
                j <= 16,
                forall|x: int| 0 <= x < j ==> #[trigger] b@[x] == bytes_of_hex(h@)[x],
            decreases 16 - j,
        {
            let hi = hex_digit_value(h[2 * j]);
            let lo = hex_digit_value(h[2 * j + 1]);
            b[j] = hi * 16 + lo;
            j = j + 1;
        }
        proof {
            assert(b@ =~= bytes_of_hex(h@));
        }
        Ok(ResourceId(b))
    }
}

/// Identifiers with the same bytes are the same identifier.
pub proof fn lemma_bytes_determine(a: ResourceId, b: ResourceId)
    requires
        a.bytes() == b.bytes(),
    ensures
        a == b,
{
    broadcast use vstd::array::group_array_axioms;
    assert forall|i: int| 0 <= i < 16 implies a.0[i] == b.0[i] by {
        assert(a.0@[i] == b.0@[i]);
    }
    assert(a.0 =~= b.0);
}

/// Text of an identifier parses back to the same identifier.
pub proof fn lemma_resource_id_roundtrip(id: ResourceId)
    ensures
        is_id_text(id_text(id.bytes())),
        bytes_of_hex(strip_hyphens(id_text(id.bytes()))) == id.bytes(),
{
    let b = id.bytes();
    assert(b.len() == 16);
    lemma_strip_id_prefix(b, 16);
    let h = hex_run(b, 0, 16);
    lemma_hex_run_len(b, 16);
    assert forall|x: int| 0 <= x < 32 implies is_hex_char(#[trigger] h[x]) by {
        let k = x / 2;
        lemma_hex_run_at(b, 16, k);
        lemma_hex_digit_roundtrip((b[k] / 16) as nat);
        lemma_hex_digit_roundtrip((b[k] % 16) as nat);
        if x % 2 == 0 {
            assert(x == 2 * k);
        } else {
            assert(x == 2 * k + 1);
        }
    }
    assert forall|k: int| 0 <= k < 16 implies #[trigger] bytes_of_hex(h)[k] == b[k] by {
        lemma_hex_run_at(b, 16, k);
        lemma_hex_digit_roundtrip((b[k] / 16) as nat);
        lemma_hex_digit_roundtrip((b[k] % 16) as nat);
    }
    assert(bytes_of_hex(h) =~= b);
}

impl std::str::FromStr for ResourceId {
    type Err = &'static str;

    fn from_str(s: &str) -> (r: Result<ResourceId, &'static str>)
        ensures
            is_id_text(s@) ==> (r matches Ok(id) && id.bytes() == bytes_of_hex(strip_hyphens(s@))),
            !is_id_text(s@) ==> (r matches Err(m) && m@ == "invalid resource ID format"@),
    {
        ResourceId::parse(s)
    }
}

/// The ETag text of 16 bytes: 32 lower-case hex digits (the UUID's simple
/// form).
pub fn etag_of(b: [u8; 16]) -> (etag: String)
    ensures
        etag@ == hex_run(b@, 0, 16),
{
    let mut s = String::new();
    let mut i: usize = 0;
    while i < 16
        invariant
            i <= 16,
            b@.len() == 16,
            s@ == hex_run(b@, 0, i as int),
        decreases 16 - i,
    {
        crate::text::push_hex_byte(&mut s, b[i]);
        i = i + 1;
    }
    s
}

/// A random ETag for an ICE session: a fresh version-4 UUID in simple form;
/// `None` when the system's random source fails.
pub fn generate_etag() -> (r: Option<String>)
    ensures
        r matches Some(etag) ==> etag@.len() == 32,
        r matches Some(etag) ==> forall|i: int| 0 <= i < 32 ==> is_hex_char(#[trigger] etag@[i]),
        r matches Some(etag) ==> exists|b: Seq<u8>| b.len() == 16 && b[6] / 16 == 4 && b[8] / 64 == 2 && etag@ == hex_run(b, 0, 16),
{
    let b = match crate::types::random_uuid_bytes() {
        Some(b) => b,
        None => { return None; },
    };
    let etag = etag_of(b);
    proof {
        lemma_hex_run_len(b@, 16);
        assert forall|x: int| 0 <= x < 32 implies is_hex_char(#[trigger] etag@[x]) by {
            let k = x / 2;
            lemma_hex_run_at(b@, 16, k);
            lemma_hex_digit_roundtrip((b@[k] / 16) as nat);
            lemma_hex_digit_roundtrip((b@[k] % 16) as nat);
            if x % 2 == 0 {
                assert(x == 2 * k);
            } else {
                assert(x == 2 * k + 1);
            }
        }
        assert(b@.len() == 16 && b@[6] / 16 == 4 && b@[8] / 64 == 2 && etag@ == hex_run(b@, 0, 16));
    }
    Some(etag)
}

} // verus!
