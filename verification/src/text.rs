//! Verified text utilities: whitespace trimming, exact and
//! case-insensitive matching, zero-terminated buffer decoding, and the
//! module-name classifiers of the telemetry layer.

use vstd::prelude::*;
use vstd::string::StringSliceAdditionalSpecFns;
use vstd::string::StrSliceExecFns;
use vstd::utf8::encode_utf8_decode_utf8;
use crate::ascii::{ascii_lower, spec_ascii_lower};
use crate::bytes::compare_bytes;

verus! {

/// ASCII whitespace, as the trimming here understands it.
pub open spec fn spec_is_space(c: char) -> bool {
    c == ' ' || c == '\t' || c == '\n' || c == '\r'
}

pub open spec fn spec_trim_start(s: Seq<char>) -> Seq<char>
    decreases s.len(),
{
    if s.len() > 0 && spec_is_space(s[0]) {
        spec_trim_start(s.drop_first())
    } else {
        s
    }
}

pub open spec fn spec_trim_end(s: Seq<char>) -> Seq<char>
    decreases s.len(),
{
    if s.len() > 0 && spec_is_space(s.last()) {
        spec_trim_end(s.drop_last())
    } else {
        s
    }
}

/// The string with leading and trailing ASCII whitespace removed.
pub open spec fn spec_trim(s: Seq<char>) -> Seq<char> {
    spec_trim_end(spec_trim_start(s))
}

pub fn is_space_char(c: char) -> (r: bool)
    ensures
        r == spec_is_space(c),
{
    c == ' ' || c == '\t' || c == '\n' || c == '\r'
}

/// Trim leading and trailing ASCII whitespace.
pub fn trim_spaces<'a>(s: &'a str) -> (r: &'a str)
    ensures
        r@ == spec_trim(s@),
{
    let n = s.unicode_len();
    proof {
        assert(s@.skip(0) =~= s@);
    }
    let mut a: usize = 0;
    while a < n && is_space_char(s.get_char(a))
        invariant
            a <= n == s@.len(),
            spec_trim_start(s@) == spec_trim_start(s@.skip(a as int)),
        decreases n - a,
    {
        proof {
            assert(s@.skip(a as int).drop_first() =~= s@.skip(a as int + 1));
        }
        a += 1;
    }
    proof {
        if a == n {
            assert(s@.skip(a as int) =~= Seq::<char>::empty());
        }
        assert(spec_trim_start(s@) == s@.skip(a as int));
    }
    let ghost t = s@.skip(a as int);
    proof {
        assert(t.take(n - a) =~= t);
    }
    let mut b: usize = n;
    while b > a && is_space_char(s.get_char(b - 1))
        invariant
            a <= b <= n == s@.len(),
            t == s@.skip(a as int),
            spec_trim_end(t) == spec_trim_end(t.take(b - a)),
        decreases b,
    {
        proof {
            assert(t.take(b - a).drop_last() =~= t.take(b - a - 1));
        }
        b -= 1;
    }
    proof {
        if b == a {
            assert(t.take(0) =~= Seq::<char>::empty());
        }
        assert(spec_trim_end(t) == t.take(b - a));
        assert(s@.subrange(a as int, b as int) =~= t.take(b - a));
    }
    s.substring_char(a, b)
}

/// Byte-for-byte equality of the UTF-8 encodings decides string
/// equality: UTF-8 decoding inverts encoding.
pub proof fn lemma_bytes_eq_views_eq(a: &str, b: &str)
    requires
        a.spec_bytes() == b.spec_bytes(),
    ensures
        a@ == b@,
{
    encode_utf8_decode_utf8(a@);
    encode_utf8_decode_utf8(b@);
}

/// Exact string equality.
pub fn str_eq(a: &str, b: &str) -> (r: bool)
    ensures
        r == (a@ == b@),
{
    let r = compare_bytes(a.as_bytes(), b.as_bytes());
    proof {
        if r {
            lemma_bytes_eq_views_eq(a, b);
        }
    }
    r
}

/// The byte sequence `h` begins with `p`.
pub open spec fn spec_starts_with(h: Seq<u8>, p: Seq<u8>) -> bool {
    p.len() <= h.len() && h.subrange(0, p.len() as int) == p
}

/// The byte sequence `h` ends with `s`.
pub open spec fn spec_ends_with(h: Seq<u8>, s: Seq<u8>) -> bool {
    s.len() <= h.len() && h.subrange(h.len() - s.len(), h.len() as int) == s
}

/// Whether the string's encoding begins with the prefix's encoding.
pub fn starts_with(h: &str, p: &str) -> (r: bool)
    ensures
        r == spec_starts_with(h.spec_bytes(), p.spec_bytes()),
{
    let hb = h.as_bytes();
    let pb = p.as_bytes();
    if pb.len() > hb.len() {
        return false;
    }
    let mut i: usize = 0;
    while i < pb.len()
        invariant
            hb@ == h.spec_bytes(),
            pb@ == p.spec_bytes(),
            pb.len() <= hb.len(),
            i <= pb.len(),
            forall|k: int| 0 <= k < i ==> hb@[k] == pb@[k],
        decreases pb.len() - i,
    {
        if hb[i] != pb[i] {
            assert(hb@.subrange(0, pb@.len() as int)[i as int] != pb@[i as int]);
            return false;
        }
        i += 1;
    }
    assert(hb@.subrange(0, pb@.len() as int) =~= pb@);
    true
}

/// Whether the string's encoding ends with the suffix's encoding.
pub fn ends_with(h: &str, s: &str) -> (r: bool)
    ensures
        r == spec_ends_with(h.spec_bytes(), s.spec_bytes()),
{
    let hb = h.as_bytes();
    let sb = s.as_bytes();
    if sb.len() > hb.len() {
        return false;
    }
    let off: usize = hb.len() - sb.len();
    let mut i: usize = 0;
    while i < sb.len()
        invariant
            hb@ == h.spec_bytes(),
            sb@ == s.spec_bytes(),
            sb.len() <= hb.len(),
            off == hb@.len() - sb@.len(),
            i <= sb.len(),
            forall|k: int| 0 <= k < i ==> hb@[off + k] == sb@[k],
        decreases sb.len() - i,
    {
        if hb[off + i] != sb[i] {
            assert(hb@.subrange(hb@.len() - sb@.len(), hb@.len() as int)[i as int] != sb@[
                i as int
            ]);
            return false;
        }
        i += 1;
    }
    assert(hb@.subrange(hb@.len() - sb@.len(), hb@.len() as int) =~= sb@);
    true
}

/// The needle occurs in the haystack at `start`, byte for byte.
pub open spec fn spec_occurs_at(h: Seq<u8>, n: Seq<u8>, start: int) -> bool {
    &&& 0 <= start
    &&& start + n.len() <= h.len()
    &&& forall|i: int| 0 <= i < n.len() ==> h[start + i] == #[trigger] n[i]
}

/// The needle occurs somewhere in the haystack, byte for byte.
pub open spec fn spec_occurs(h: Seq<u8>, n: Seq<u8>) -> bool {
    exists|start: int| #[trigger] spec_occurs_at(h, n, start)
}

/// Whether `needle`'s encoding occurs in `haystack`'s, case-sensitively.
pub fn contains_str(haystack: &str, needle: &str) -> (r: bool)
    ensures
        r == spec_occurs(haystack.spec_bytes(), needle.spec_bytes()),
{
    let hay = haystack.as_bytes();
    let nee = needle.as_bytes();
    if nee.len() == 0 {
        proof {
            assert(spec_occurs_at(hay@, nee@, 0));
        }
        return true;
    }
    if nee.len() > hay.len() {
        proof {
            assert(forall|start: int| !spec_occurs_at(hay@, nee@, start));
        }
        return false;
    }
    let mut start: usize = 0;
    while start <= hay.len() - nee.len()
        invariant
            hay@ == haystack.spec_bytes(),
            nee@ == needle.spec_bytes(),
            nee.len() >= 1,
            nee.len() <= hay.len(),
            start <= hay.len(),
            forall|s: int| 0 <= s < start ==> !spec_occurs_at(hay@, nee@, s),
        decreases hay.len() - start,
    {
        let mut i: usize = 0;
        let mut matched: bool = true;
        while i < nee.len() && matched
            invariant
                nee.len() <= hay.len(),
                start + nee.len() <= hay.len(),
                i <= nee.len(),
                matched ==> forall|k: int| 0 <= k < i ==> hay@[start + k] == #[trigger] nee@[k],
                !matched ==> !spec_occurs_at(hay@, nee@, start as int),
            decreases nee.len() - i + (if matched {
                1int
            } else {
                0int
            }),
        {
            if hay[start + i] != nee[i] {
                matched = false;
            } else {
                i += 1;
            }
        }
        if matched {
            proof {
                assert(spec_occurs_at(hay@, nee@, start as int));
            }
            return true;
        }
        start += 1;
    }
    proof {
        assert forall|s: int| !spec_occurs_at(hay@, nee@, s) by {
            if 0 <= s && s + nee@.len() <= hay@.len() {
                assert(s < start);
            }
        }
    }
    false
}

/// The ASCII-lowercased image of a byte sequence.
pub open spec fn spec_lower(s: Seq<u8>) -> Seq<u8> {
    s.map_values(|b: u8| spec_ascii_lower(b))
}

/// Equality of two strings' encodings with ASCII case folded.
pub fn eq_ignore_ascii_case(a: &str, b: &str) -> (r: bool)
    ensures
        r == (spec_lower(a.spec_bytes()) == spec_lower(b.spec_bytes())),
{
    let ab = a.as_bytes();
    let bb = b.as_bytes();
    if ab.len() != bb.len() {
        proof {
            assert(spec_lower(ab@).len() != spec_lower(bb@).len());
        }
        return false;
    }
    let mut i: usize = 0;
    while i < ab.len()
        invariant
            ab@ == a.spec_bytes(),
            bb@ == b.spec_bytes(),
            ab.len() == bb.len(),
            i <= ab.len(),
            forall|k: int|
                0 <= k < i ==> spec_ascii_lower(ab@[k]) == spec_ascii_lower(#[trigger] bb@[k]),
        decreases ab.len() - i,
    {
        if ascii_lower(ab[i]) != ascii_lower(bb[i]) {
            assert(spec_lower(ab@)[i as int] != spec_lower(bb@)[i as int]);
            return false;
        }
        i += 1;
    }
    assert(spec_lower(ab@) =~= spec_lower(bb@));
    true
}

/// Index of the first zero unit of a buffer, or its length.
pub open spec fn spec_nul_len16(s: Seq<u16>, i: int) -> int
    decreases s.len() - i when 0 <= i <= s.len()
{
    if i >= s.len() {
        i
    } else if s[i] == 0 {
        i
    } else {
        spec_nul_len16(s, i + 1)
    }
}

/// What UTF-16 lossy decoding returns; the result depends on the code
/// units alone.
pub uninterp spec fn utf16_lossy(units: Seq<u16>) -> Seq<char>;

/// Relies on String::from_utf16_lossy: decodes UTF-16, replacing
/// invalid data with the replacement character; empty input decodes to
/// the empty string.
#[verifier::external_body]
fn from_utf16_lossy(units: &[u16]) -> (r: String)
    ensures
        r@ == utf16_lossy(units@),
        units@.len() == 0 ==> r@.len() == 0,
{
    String::from_utf16_lossy(units)
}

/// Decode a zero-terminated UTF-16 buffer, up to its first zero unit or
/// its full length.
pub fn utf16z_to_string(buf: &[u16]) -> (r: String)
    ensures
        r@ == utf16_lossy(buf@.take(spec_nul_len16(buf@, 0))),
{
    let mut i: usize = 0;
    while i < buf.len() && buf[i] != 0
        invariant
            i <= buf@.len(),
            spec_nul_len16(buf@, 0) == spec_nul_len16(buf@, i as int),
        decreases buf@.len() - i,
    {
        i += 1;
    }
    let prefix = &buf[0..i];
    assert(prefix@ =~= buf@.take(spec_nul_len16(buf@, 0)));
    from_utf16_lossy(prefix)
}

/// Decode a zero-terminated UTF-16 buffer; identical to
/// `utf16z_to_string`, kept under the name module enumeration uses.
pub fn utf16_to_string(input: &[u16]) -> (r: String)
    ensures
        r@ == utf16_lossy(input@.take(spec_nul_len16(input@, 0))),
{
    utf16z_to_string(input)
}

/// Index of the first zero byte of a buffer, or its length.
pub open spec fn spec_nul_len8(s: Seq<u8>, i: int) -> int
    decreases s.len() - i when 0 <= i <= s.len()
{
    if i >= s.len() {
        i
    } else if s[i] == 0 {
        i
    } else {
        spec_nul_len8(s, i + 1)
    }
}

/// What UTF-8 lossy decoding returns; the result depends on the bytes
/// alone.
pub uninterp spec fn utf8_lossy(bytes: Seq<u8>) -> Seq<char>;

/// Relies on String::from_utf8_lossy: decodes UTF-8, replacing invalid
/// data with the replacement character; empty input decodes to the
/// empty string.
#[verifier::external_body]
fn from_utf8_lossy(bytes: &[u8]) -> (r: String)
    ensures
        r@ == utf8_lossy(bytes@),
        bytes@.len() == 0 ==> r@.len() == 0,
{
    String::from_utf8_lossy(bytes).to_string()
}

/// Render a zero-terminated procedure-name buffer for diagnostics, up
/// to its first zero byte or its full length.
pub fn display_proc(name: &[u8]) -> (r: String)
    ensures
        r@ == utf8_lossy(name@.take(spec_nul_len8(name@, 0))),
{
    let mut i: usize = 0;
    while i < name.len() && name[i] != 0
        invariant
            i <= name@.len(),
            spec_nul_len8(name@, 0) == spec_nul_len8(name@, i as int),
        decreases name@.len() - i,
    {
        i += 1;
    }
    let prefix = &name[0..i];
    assert(prefix@ =~= name@.take(spec_nul_len8(name@, 0)));
    from_utf8_lossy(prefix)
}

/// The module names worth reporting in the loaded-modules snapshot:
/// graphics and COM runtime modules, compared with ASCII case folded,
/// plus every shader-compiler build.
pub open spec fn spec_snapshot_module(name: Seq<u8>) -> bool {
    ||| spec_lower(name) == spec_lower("ddraw.dll".spec_bytes())
    ||| spec_lower(name) == spec_lower("ddrawex.dll".spec_bytes())
    ||| spec_lower(name) == spec_lower("ole32.dll".spec_bytes())
    ||| spec_lower(name) == spec_lower("user32.dll".spec_bytes())
    ||| spec_lower(name) == spec_lower("kernel32.dll".spec_bytes())
    ||| spec_lower(name) == spec_lower("gdi32.dll".spec_bytes())
    ||| spec_lower(name) == spec_lower("opengl32.dll".spec_bytes())
    ||| spec_lower(name) == spec_lower("dxgi.dll".spec_bytes())
    ||| spec_lower(name) == spec_lower("d3d9.dll".spec_bytes())
    ||| spec_lower(name) == spec_lower("d3d11.dll".spec_bytes())
    ||| spec_starts_with(spec_lower(name), spec_lower("d3dcompiler_".spec_bytes()))
}

/// Whether a module belongs in the attach-time snapshot; runtime
/// library-load events still cover everything else.
pub fn should_emit_snapshot_module(name: &str) -> (r: bool)
    ensures
        r == spec_snapshot_module(name.spec_bytes()),
{
    if eq_ignore_ascii_case(name, "ddraw.dll") {
        return true;
    }
    if eq_ignore_ascii_case(name, "ddrawex.dll") {
        return true;
    }
    if eq_ignore_ascii_case(name, "ole32.dll") {
        return true;
    }
    if eq_ignore_ascii_case(name, "user32.dll") {
        return true;
    }
    if eq_ignore_ascii_case(name, "kernel32.dll") {
        return true;
    }
    if eq_ignore_ascii_case(name, "gdi32.dll") {
        return true;
    }
    if eq_ignore_ascii_case(name, "opengl32.dll") {
        return true;
    }
    if eq_ignore_ascii_case(name, "dxgi.dll") {
        return true;
    }
    if eq_ignore_ascii_case(name, "d3d9.dll") {
        return true;
    }
    if eq_ignore_ascii_case(name, "d3d11.dll") {
        return true;
    }
    starts_with_folded(name, "d3dcompiler_")
}

/// Whether the lowered encoding of `h` begins with the lowered
/// encoding of `p`.
fn starts_with_folded(h: &str, p: &str) -> (r: bool)
    ensures
        r == spec_starts_with(spec_lower(h.spec_bytes()), spec_lower(p.spec_bytes())),
{
    let hb = h.as_bytes();
    let pb = p.as_bytes();
    if pb.len() > hb.len() {
        return false;
    }
    let mut i: usize = 0;
    while i < pb.len()
        invariant
            hb@ == h.spec_bytes(),
            pb@ == p.spec_bytes(),
            pb.len() <= hb.len(),
            i <= pb.len(),
            forall|k: int|
                0 <= k < i ==> spec_ascii_lower(hb@[k]) == spec_ascii_lower(#[trigger] pb@[k]),
        decreases pb.len() - i,
    {
        if ascii_lower(hb[i]) != ascii_lower(pb[i]) {
            assert(spec_lower(hb@).subrange(0, spec_lower(pb@).len() as int)[i as int]
                != spec_lower(pb@)[i as int]);
            return false;
        }
        i += 1;
    }
    assert(spec_lower(hb@).subrange(0, spec_lower(pb@).len() as int) =~= spec_lower(pb@));
    true
}

/// A hook source tag that denotes the legacy interface revision.
pub open spec fn spec_legacy_source(source: &str) -> bool {
    ||| source@ == "DirectDrawCreate"@
    ||| spec_ends_with(source.spec_bytes(), "->IDirectDraw".spec_bytes())
    ||| spec_ends_with(source.spec_bytes(), "IDirectDraw::QueryInterface".spec_bytes())
}

/// Whether a hook source tag came from the legacy interface revision,
/// which selects the legacy display-mode operation.
pub fn source_is_directdraw_legacy_interface(source: &str) -> (r: bool)
    ensures
        r == spec_legacy_source(source),
{
    str_eq(source, "DirectDrawCreate") || ends_with(source, "->IDirectDraw") || ends_with(
        source,
        "IDirectDraw::QueryInterface",
    )
}

/// A hook source tag that denotes an extended interface revision.
pub open spec fn spec_extended_source(source: &str) -> bool {
    ||| spec_occurs(source.spec_bytes(), "DirectDrawCreateEx".spec_bytes())
    ||| spec_ends_with(source.spec_bytes(), "->IDirectDraw2".spec_bytes())
    ||| spec_ends_with(source.spec_bytes(), "->IDirectDraw4".spec_bytes())
    ||| spec_ends_with(source.spec_bytes(), "->IDirectDraw7".spec_bytes())
}

/// Whether a hook source tag came from an extended interface revision,
/// which selects the extended display-mode operation.
pub fn source_is_directdraw_extended_interface(source: &str) -> (r: bool)
    ensures
        r == spec_extended_source(source),
{
    contains_str(source, "DirectDrawCreateEx") || ends_with(source, "->IDirectDraw2")
        || ends_with(source, "->IDirectDraw4") || ends_with(source, "->IDirectDraw7")
}

/// A set of strings already seen, used to report each library load once.
pub struct DedupSet {
    keys: Vec<String>,
}

impl DedupSet {
    pub closed spec fn view(&self) -> Seq<Seq<char>> {
        Seq::new(self.keys@.len(), |i: int| self.keys@[i]@)
    }

    pub open spec fn spec_has(&self, key: Seq<char>) -> bool {
        exists|i: int| 0 <= i < self.view().len() && self.view()[i] == key
    }

    pub fn new() -> (s: DedupSet)
        ensures
            s.view().len() == 0,
    {
        DedupSet { keys: Vec::new() }
    }

    /// Record a key; the result says whether it was new. A key already
    /// seen leaves the set unchanged.
    pub fn insert(&mut self, key: String) -> (fresh: bool)
        ensures
            fresh == !old(self).spec_has(key@),
            fresh ==> final(self).view() == old(self).view().push(key@),
            !fresh ==> final(self).view() == old(self).view(),
    {
        let mut i: usize = 0;
        while i < self.keys.len()
            invariant
                i <= self.keys@.len(),
                forall|k: int| 0 <= k < i ==> self.view()[k] != key@,
            decreases self.keys@.len() - i,
        {
            if self.keys[i].eq(&key) {
                assert(self.view()[i as int] == key@);
                return false;
            }
            i += 1;
        }
        assert(forall|k: int| 0 <= k < self.view().len() ==> self.view()[k] != key@);
        self.keys.push(key);
        assert(self.view() =~= old(self).view().push(key@));
        true
    }

    pub fn len(&self) -> (n: usize)
        ensures
            n == self.view().len(),
    {
        self.keys.len()
    }
}

} // verus!
