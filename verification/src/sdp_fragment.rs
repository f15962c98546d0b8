//! `application/trickle-ice-sdpfrag` SDP fragments: ICE credentials, the
//! media id and candidates, as trickled (PATCH) and as answered to an ICE
//! restart.
use vstd::prelude::*;
use vstd::string::StrSliceExecFns;
use vstd::string::StringExecFns;
use crate::text::{starts_with, strip_prefix, is_prefix};

verus! {

/// Content type for trickle ICE SDP fragments.
pub const TRICKLE_ICE_CONTENT_TYPE: &'static str = "application/trickle-ice-sdpfrag";

/// Parsed ICE candidates and credentials of an SDP fragment.
#[derive(Clone, Debug)]
pub struct SdpFragment {
    pub ice_ufrag: Option<String>,
    pub ice_pwd: Option<String>,
    pub mid: Option<String>,
    pub candidates: Vec<String>,
}

/// What a fragment says, as plain values.
pub struct FragmentSpec {
    pub ice_ufrag: Option<Seq<char>>,
    pub ice_pwd: Option<Seq<char>>,
    pub mid: Option<Seq<char>>,
    pub candidates: Seq<Seq<char>>,
}

/// The plain values of a parsed fragment.
pub open spec fn fragment_view(f: SdpFragment) -> FragmentSpec {
    FragmentSpec {
        ice_ufrag: match f.ice_ufrag { Some(s) => Some(s@), None => None },
        ice_pwd: match f.ice_pwd { Some(s) => Some(s@), None => None },
        mid: match f.mid { Some(s) => Some(s@), None => None },
        candidates: f.candidates@.map_values(|c: String| c@),
    }
}

/// The fragment with nothing in it.
pub open spec fn empty_fragment() -> FragmentSpec {
    FragmentSpec { ice_ufrag: None, ice_pwd: None, mid: None, candidates: Seq::empty() }
}

/// Whether `c` is white space (Unicode `White_Space`, as `char::is_whitespace`).
pub open spec fn is_ws(c: char) -> bool {
    ('\u{9}' <= c && c <= '\u{d}') || c == ' ' || c == '\u{85}' || c == '\u{a0}' || c == '\u{1680}'
        || ('\u{2000}' <= c && c <= '\u{200a}') || c == '\u{2028}' || c == '\u{2029}' || c == '\u{202f}'
        || c == '\u{205f}' || c == '\u{3000}'
}

/// `s` without its leading white space.
pub open spec fn trim_start(s: Seq<char>) -> Seq<char>
    decreases s.len(),
{
    if s.len() > 0 && is_ws(s[0]) { trim_start(s.drop_first()) } else { s }
}

/// `s` without its trailing white space.
pub open spec fn trim_end(s: Seq<char>) -> Seq<char>
    decreases s.len(),
{
    if s.len() > 0 && is_ws(s.last()) { trim_end(s.drop_last()) } else { s }
}

/// `s` without leading and trailing white space.
pub open spec fn trim(s: Seq<char>) -> Seq<char> {
    trim_end(trim_start(s))
}

/// What one (trimmed) line adds to a fragment: the credentials and mid
/// replace earlier ones; a candidate is appended as `candidate:<value>`.
pub open spec fn apply_line(f: FragmentSpec, l: Seq<char>) -> FragmentSpec {
    if is_prefix("a=ice-ufrag:"@, l) {
        FragmentSpec { ice_ufrag: Some(l.skip(12)), ..f }
    } else if is_prefix("a=ice-pwd:"@, l) {
        FragmentSpec { ice_pwd: Some(l.skip(10)), ..f }
    } else if is_prefix("a=mid:"@, l) {
        FragmentSpec { mid: Some(l.skip(6)), ..f }
    } else if is_prefix("a=candidate:"@, l) {
        FragmentSpec { candidates: f.candidates.push("candidate:"@ + l.skip(12)), ..f }
    } else {
        f
    }
}

/// Reading `s` character by character: the fragment of its complete lines
/// and the line in progress.
pub open spec fn scan(s: Seq<char>) -> (FragmentSpec, Seq<char>)
    decreases s.len(),
{
    if s.len() == 0 {
        (empty_fragment(), Seq::empty())
    } else {
        let (f, cur) = scan(s.drop_last());
        if s.last() == '\n' { (apply_line(f, trim(cur)), Seq::empty()) } else { (f, cur.push(s.last())) }
    }
}

/// The fragment that `body` describes: each of its lines, trimmed, applied
/// in order.
pub open spec fn fragment_of(body: Seq<char>) -> FragmentSpec {
    apply_line(scan(body).0, trim(scan(body).1))
}

/// Whether `c` is white space.
pub fn is_whitespace(c: char) -> (b: bool)
    ensures
        b == is_ws(c),
{
    ('\u{9}' <= c && c <= '\u{d}') || c == ' ' || c == '\u{85}' || c == '\u{a0}' || c == '\u{1680}'
        || ('\u{2000}' <= c && c <= '\u{200a}') || c == '\u{2028}' || c == '\u{2029}' || c == '\u{202f}'
        || c == '\u{205f}' || c == '\u{3000}'
}

/// `s` without leading and trailing white space.
pub fn trim_str(s: &str) -> (r: &str)
    ensures
        r@ == trim(s@),
{
    let n = s.unicode_len();
    let mut lo: usize = 0;
    assert(s@.subrange(0, n as int) =~= s@);
    while lo < n && is_whitespace(s.get_char(lo))
        invariant
            n == s@.len(),
            lo <= n,
            trim_start(s@) == trim_start(s@.subrange(lo as int, n as int)),
        decreases n - lo,
    {
        proof {
            let t = s@.subrange(lo as int, n as int);
            assert(t.drop_first() =~= s@.subrange(lo + 1, n as int));
        }
        lo = lo + 1;
    }
    let ghost front = s@.subrange(lo as int, n as int);
    assert(trim_start(s@) == front);
    let mut hi: usize = n;
    while hi > lo && is_whitespace(s.get_char(hi - 1))
        invariant
            n == s@.len(),
            lo <= hi <= n,
            front == s@.subrange(lo as int, n as int),
            trim_end(front) == trim_end(s@.subrange(lo as int, hi as int)),
        decreases hi - lo,
    {
        proof {
            let t = s@.subrange(lo as int, hi as int);
            assert(t.drop_last() =~= s@.subrange(lo as int, hi - 1));
        }
        hi = hi - 1;
    }
    s.substring_char(lo, hi)
}

/// A copy of `s` as a `String`.
fn owned(s: &str) -> (r: String)
    ensures
        r@ == s@,
{
    s.to_owned()
}

/// Applies one trimmed line to a fragment being built.
fn apply_line_exec(frag: &mut SdpFragment, line: &str)
    ensures
        fragment_view(*final(frag)) == apply_line(fragment_view(*old(frag)), line@),
{
    proof {
        reveal_strlit("a=ice-ufrag:");
        reveal_strlit("a=ice-pwd:");
        reveal_strlit("a=mid:");
        reveal_strlit("a=candidate:");
        reveal_strlit("candidate:");
    }
    if let Some(v) = strip_prefix(line, "a=ice-ufrag:") {
        frag.ice_ufrag = Some(owned(v));
    } else if let Some(v) = strip_prefix(line, "a=ice-pwd:") {
        frag.ice_pwd = Some(owned(v));
    } else if let Some(v) = strip_prefix(line, "a=mid:") {
        frag.mid = Some(owned(v));
    } else if let Some(v) = strip_prefix(line, "a=candidate:") {
        let c = "candidate:".to_owned().concat(v);
        let ghost before = frag.candidates@;
        frag.candidates.push(c);
        proof {
            assert(frag.candidates@.map_values(|c: String| c@) =~= before.map_values(|c: String| c@).push(c@));
        }
    }
}

/// Parses an `application/trickle-ice-sdpfrag` body: its `a=ice-ufrag`,
/// `a=ice-pwd`, `a=mid` and `a=candidate` lines.
pub fn parse_sdp_fragment(body: &str) -> (frag: SdpFragment)
    ensures
        fragment_view(frag) == fragment_of(body@),
{
    let mut frag = SdpFragment { ice_ufrag: None, ice_pwd: None, mid: None, candidates: Vec::new() };
    proof {
        assert(frag.candidates@.map_values(|c: String| c@) =~= Seq::<Seq<char>>::empty());
    }
    let n = body.unicode_len();
    let mut start: usize = 0;
    let mut i: usize = 0;
    while i < n
        invariant
            n == body@.len(),
            start <= i <= n,
            fragment_view(frag) == scan(body@.subrange(0, i as int)).0,
            body@.subrange(start as int, i as int) == scan(body@.subrange(0, i as int)).1,
        decreases n - i,
    {
        let c = body.get_char(i);
        proof {
            assert(body@.subrange(0, i + 1).drop_last() =~= body@.subrange(0, i as int));
        }
        if c == '\n' {
            let line = trim_str(body.substring_char(start, i));
            apply_line_exec(&mut frag, line);
            start = i + 1;
        } else {
            proof {
                assert(body@.subrange(start as int, i + 1) =~= body@.subrange(start as int, i as int).push(c));
            }
        }
        i = i + 1;
    }
    let line = trim_str(body.substring_char(start, n));
    apply_line_exec(&mut frag, line);
    proof {
        assert(body@.subrange(0, n as int) =~= body@);
    }
    frag
}

/// The fragment answering an ICE restart: the mid (if any), then the new
/// ICE credentials, one `\r\n`-terminated line each.
pub open spec fn restart_fragment(ice_ufrag: Seq<char>, ice_pwd: Seq<char>, mid: Option<Seq<char>>) -> Seq<char> {
    (match mid { Some(m) => "a=mid:"@ + m + "\r\n"@, None => Seq::empty() })
        + "a=ice-ufrag:"@ + ice_ufrag + "\r\n"@ + "a=ice-pwd:"@ + ice_pwd + "\r\n"@
}

/// Generates the SDP fragment of an ICE restart response.
pub fn generate_ice_restart_fragment(ice_ufrag: &str, ice_pwd: &str, mid: Option<&str>) -> (frag: String)
    ensures
        frag@ == restart_fragment(ice_ufrag@, ice_pwd@, match mid { Some(m) => Some(m@), None => None }),
{
    let mut frag = String::new();
    if let Some(m) = mid {
        frag.append("a=mid:");
        frag.append(m);
        frag.append("\r\n");
    }
    frag.append("a=ice-ufrag:");
    frag.append(ice_ufrag);
    frag.append("\r\n");
    frag.append("a=ice-pwd:");
    frag.append(ice_pwd);
    frag.append("\r\n");
    proof {
        assert(frag@ =~= restart_fragment(ice_ufrag@, ice_pwd@, match mid { Some(m) => Some(m@), None => None }));
    }
    frag
}

/// A credential or mid that a fragment line carries unchanged: no line
/// break in it and no white space at its end.
pub open spec fn line_safe(x: Seq<char>) -> bool {
    &&& forall|i: int| 0 <= i < x.len() ==> x[i] != '\n'
    &&& (x.len() == 0 || !is_ws(x.last()))
}

proof fn lemma_scan_no_newline(s: Seq<char>, y: Seq<char>)
    requires
        forall|i: int| 0 <= i < y.len() ==> y[i] != '\n',
    ensures
        scan(s + y) == (scan(s).0, scan(s).1 + y),
    decreases y.len(),
{
    if y.len() == 0 {
        assert(s + y =~= s);
        assert(scan(s).1 + y =~= scan(s).1);
    } else {
        let y0 = y.drop_last();
        lemma_scan_no_newline(s, y0);
        assert((s + y).drop_last() =~= s + y0);
        assert((s + y).last() == y.last());
        assert(scan(s).1 + y0.push(y.last()) =~= scan(s).1 + y);
        assert(y0.push(y.last()) =~= y);
        assert((scan(s).1 + y0).push(y.last()) =~= scan(s).1 + y);
    }
}

proof fn lemma_scan_line(s: Seq<char>, line: Seq<char>)
    requires
        scan(s).1 == Seq::<char>::empty(),
        forall|i: int| 0 <= i < line.len() ==> line[i] != '\n',
    ensures
        scan(s + line + seq!['\n']) == (apply_line(scan(s).0, trim(line)), Seq::<char>::empty()),
{
    lemma_scan_no_newline(s, line);
    assert(Seq::<char>::empty() + line =~= line);
    assert((s + line + seq!['\n']).drop_last() =~= s + line);
}

proof fn lemma_trim_line(head: Seq<char>, x: Seq<char>)
    requires
        head.len() > 0,
        !is_ws(head[0]),
        !is_ws(head.last()),
        line_safe(x),
    ensures
        trim(head + x + "\r"@) == head + x,
{
    reveal_strlit("\r");
    let l = head + x + "\r"@;
    assert(l[0] == head[0]);
    assert(trim_start(l) == l);
    assert(l.last() == '\r');
    assert(l.drop_last() =~= head + x);
    let hx = head + x;
    assert(hx.last() == (if x.len() == 0 { head.last() } else { x.last() }));
    assert(trim_end(hx) == hx);
}

/// Parsing the fragment of an ICE restart gives back its credentials and
/// mid, and no candidates, when they carry no line break and end in no
/// white space.
pub proof fn lemma_restart_fragment_roundtrip(ice_ufrag: Seq<char>, ice_pwd: Seq<char>, mid: Option<Seq<char>>)
    requires
        line_safe(ice_ufrag),
        line_safe(ice_pwd),
        mid matches Some(m) ==> line_safe(m),
    ensures
        fragment_of(restart_fragment(ice_ufrag, ice_pwd, mid)).ice_ufrag == Some(ice_ufrag),
        fragment_of(restart_fragment(ice_ufrag, ice_pwd, mid)).ice_pwd == Some(ice_pwd),
        fragment_of(restart_fragment(ice_ufrag, ice_pwd, mid)).mid == mid,
        fragment_of(restart_fragment(ice_ufrag, ice_pwd, mid)).candidates == Seq::<Seq<char>>::empty(),
{
    reveal_strlit("a=mid:");
    reveal_strlit("a=ice-ufrag:");
    reveal_strlit("a=ice-pwd:");
    reveal_strlit("a=candidate:");
    reveal_strlit("\r\n");
    reveal_strlit("\r");
    let um = "a=ice-ufrag:"@;
    let pm = "a=ice-pwd:"@;
    let mm = "a=mid:"@;
    let cm = "a=candidate:"@;
    let crlf = "\r\n"@;
    let cr = "\r"@;
    assert(crlf =~= cr + seq!['\n']);
    let start: Seq<char> = match mid { Some(m) => mm + m + crlf, None => Seq::empty() };
    let f0: FragmentSpec = match mid { Some(m) => apply_line(empty_fragment(), mm + m), None => empty_fragment() };
    // The mid line.
    assert(scan(Seq::<char>::empty()) == (empty_fragment(), Seq::<char>::empty()));
    if let Some(m) = mid {
        assert(start =~= Seq::<char>::empty() + (mm + m + cr) + seq!['\n']);
        assert forall|i: int| 0 <= i < (mm + m + cr).len() implies (mm + m + cr)[i] != '\n' by {
            if i >= mm.len() + m.len() {
            } else if i >= mm.len() {
                assert((mm + m + cr)[i] == m[i - mm.len()]);
            }
        }
        lemma_scan_line(Seq::<char>::empty(), mm + m + cr);
        lemma_trim_line(mm, m);
        let l = mm + m;
        assert(l.subrange(0, 6) =~= mm);
        assert(l.skip(6) =~= m);
        assert(!is_prefix(um, l)) by {
            if um.len() <= l.len() {
                assert(l.subrange(0, 12)[2] != um[2]);
            }
        }
        assert(!is_prefix(pm, l)) by {
            if pm.len() <= l.len() {
                assert(l.subrange(0, 10)[2] != pm[2]);
            }
        }
    } else {
        assert(start =~= Seq::<char>::empty());
    }
    assert(scan(start) == (f0, Seq::<char>::empty()));
    // The ufrag line.
    let s1 = start + (um + ice_ufrag + cr) + seq!['\n'];
    assert forall|i: int| 0 <= i < (um + ice_ufrag + cr).len() implies (um + ice_ufrag + cr)[i] != '\n' by {
        if i >= um.len() + ice_ufrag.len() {
        } else if i >= um.len() {
            assert((um + ice_ufrag + cr)[i] == ice_ufrag[i - um.len()]);
        }
    }
    lemma_scan_line(start, um + ice_ufrag + cr);
    lemma_trim_line(um, ice_ufrag);
    let l1 = um + ice_ufrag;
    assert(l1.subrange(0, 12) =~= um);
    assert(l1.skip(12) =~= ice_ufrag);
    let f1 = apply_line(f0, l1);
    assert(scan(s1) == (f1, Seq::<char>::empty()));
    // The pwd line.
    let s2 = s1 + (pm + ice_pwd + cr) + seq!['\n'];
    assert forall|i: int| 0 <= i < (pm + ice_pwd + cr).len() implies (pm + ice_pwd + cr)[i] != '\n' by {
        if i >= pm.len() + ice_pwd.len() {
        } else if i >= pm.len() {
            assert((pm + ice_pwd + cr)[i] == ice_pwd[i - pm.len()]);
        }
    }
    lemma_scan_line(s1, pm + ice_pwd + cr);
    lemma_trim_line(pm, ice_pwd);
    let l2 = pm + ice_pwd;
    assert(l2.subrange(0, 10) =~= pm);
    assert(l2.skip(10) =~= ice_pwd);
    assert(!is_prefix(um, l2)) by {
        if um.len() <= l2.len() {
            assert(l2.subrange(0, 12)[6] != um[6]);
        }
    }
    let f2 = apply_line(f1, l2);
    assert(scan(s2) == (f2, Seq::<char>::empty()));
    assert(restart_fragment(ice_ufrag, ice_pwd, mid) =~= s2);
    assert(trim(Seq::<char>::empty()) =~= Seq::<char>::empty());
    assert(apply_line(f2, Seq::<char>::empty()) == f2);
}

} // verus!
