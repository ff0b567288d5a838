use vstd::prelude::*;
use crate::hex::{all_hex, hex_value, hex_byte, hex_digit, is_hex_digit};

verus! {

/// The identity of a span within a trace, as carried between services.
#[derive(Clone, Copy, Debug, PartialEq, Eq, Structural)]
pub struct TraceContext {
    pub trace_id: u128,
    pub span_id: u64,
    /// Bit 0 is the "sampled" flag; no other bit is kept.
    pub flags: u8,
}

impl TraceContext {
    /// A context is usable as a parent only when both identifiers are non-zero.
    pub open spec fn valid(self) -> bool {
        self.trace_id != 0 && self.span_id != 0
    }

    pub fn is_valid(&self) -> (r: bool)
        ensures
            r == self.valid(),
    {
        self.trace_id != 0 && self.span_id != 0
    }

    pub fn is_sampled(&self) -> (r: bool)
        ensures
            r == (self.flags % 2 == 1),
    {
        self.flags % 2 == 1
    }
}

/// The name of the header that carries a parent context, in lowercase.
pub open spec fn traceparent_key() -> Seq<u8> {
    seq![116u8, 114, 97, 99, 101, 112, 97, 114, 101, 110, 116]
}

pub open spec fn ascii_lower(b: u8) -> u8 {
    if 65 <= b && b <= 90 {
        (b + 32) as u8
    } else {
        b
    }
}

/// `name` equals `key` when ASCII letters are compared without case.
pub open spec fn name_matches(name: Seq<u8>, key: Seq<u8>) -> bool {
    name.len() == key.len() && forall|i: int| 0 <= i < name.len() ==> ascii_lower(#[trigger] name[i]) == ascii_lower(key[i])
}

/// A header value that reads as text: visible ASCII, spaces and tabs.
pub open spec fn visible_ascii(v: Seq<u8>) -> bool {
    forall|i: int| 0 <= i < v.len() ==> (#[trigger] v[i] == 9u8 || (32 <= v[i] && v[i] < 127))
}

/// What `Carrier::get` finds: the first value whose name matches, when it reads as text.
pub open spec fn spec_get(entries: Seq<(Seq<u8>, Seq<u8>)>, key: Seq<u8>) -> Option<Seq<u8>> {
    match first_value(entries, key) {
        Some(v) => if visible_ascii(v) { Some(v) } else { None },
        None => None,
    }
}

/// The value of the first entry whose name matches `key`.
pub open spec fn first_value(entries: Seq<(Seq<u8>, Seq<u8>)>, key: Seq<u8>) -> Option<Seq<u8>>
    decreases entries.len(),
{
    if entries.len() == 0 {
        None
    } else if name_matches(entries[0].0, key) {
        Some(entries[0].1)
    } else {
        first_value(entries.drop_first(), key)
    }
}

/// Header names and values in the order in which they arrived.
pub struct Carrier {
    entries: Vec<(Vec<u8>, Vec<u8>)>,
}

impl View for Carrier {
    type V = Seq<(Seq<u8>, Seq<u8>)>;

    closed spec fn view(&self) -> Seq<(Seq<u8>, Seq<u8>)> {
        self.entries@.map_values(|e: (Vec<u8>, Vec<u8>)| (e.0@, e.1@))
    }
}

impl Carrier {
    pub fn new() -> (r: Carrier)
        ensures
            r@ == Seq::<(Seq<u8>, Seq<u8>)>::empty(),
    {
        let r = Carrier { entries: Vec::new() };
        assert(r@ =~= Seq::<(Seq<u8>, Seq<u8>)>::empty());
        r
    }

    /// Appends a header; earlier entries are kept as they are.
    pub fn insert(&mut self, name: Vec<u8>, value: Vec<u8>)
        ensures
            final(self)@ == old(self)@.push((name@, value@)),
    {
        self.entries.push((name, value));
        assert(final(self)@ =~= old(self)@.push((name@, value@)));
    }

    pub fn len(&self) -> (r: usize)
        ensures
            r == self@.len(),
    {
        self.entries.len()
    }

    /// Index of the first entry whose name matches the lowercase `key`.
    fn position(&self, key: &[u8]) -> (r: Option<usize>)
        ensures
            match r {
                Some(i) => i < self@.len() && first_value(self@, key@) == Some(self@[i as int].1),
                None => first_value(self@, key@) is None,
            },
    {
        let n = self.entries.len();
        let mut i: usize = 0;
        assert(self@.subrange(0, n as int) =~= self@);
        while i < n
            invariant
                n == self@.len(),
                i <= n,
                first_value(self@, key@) == first_value(self@.subrange(i as int, n as int), key@),
            decreases n - i,
        {
            let name = &self.entries[i].0;
            let mut same = name.len() == key.len();
            if same {
                let mut j: usize = 0;
                while j < key.len()
                    invariant
                        i < self@.len(),
                        name@ == self@[i as int].0,
                        name@.len() == key@.len(),
                        j <= key@.len(),
                        same == forall|k: int| 0 <= k < j ==> ascii_lower(#[trigger] name@[k]) == ascii_lower(key@[k]),
                    decreases key@.len() - j,
                {
                    let b = name[j];
                    let lower: u8 = if 65 <= b && b <= 90 { b + 32 } else { b };
                    let k = key[j];
                    let key_lower: u8 = if 65 <= k && k <= 90 { k + 32 } else { k };
                    if lower != key_lower {
                        same = false;
                    }
                    j = j + 1;
                }
            }
            let ghost rest = self@.subrange(i as int, n as int);
            assert(rest[0] == self@[i as int]);
            if same {
                assert(name_matches(rest[0].0, key@));
                return Some(i);
            }
            assert(rest.drop_first() =~= self@.subrange(i + 1, n as int));
            i = i + 1;
        }
        None
    }

    /// The value of the first header named `key`, names compared without
    /// case; `None` when there is none, or when that value does not read as text.
    pub fn get(&self, key: &[u8]) -> (r: Option<&[u8]>)
        ensures
            match r {
                Some(v) => spec_get(self@, key@) == Some(v@),
                None => spec_get(self@, key@) is None,
            },
    {
        match self.position(key) {
            Some(i) => {
                let v = self.entries[i].1.as_slice();
                if is_visible_ascii(v) {
                    Some(v)
                } else {
                    None
                }
            },
            None => None,
        }
    }
}

pub open spec fn version_field(v: Seq<u8>) -> Seq<u8> {
    v.subrange(0, 2)
}

pub open spec fn trace_field(v: Seq<u8>) -> Seq<u8> {
    v.subrange(3, 35)
}

pub open spec fn span_field(v: Seq<u8>) -> Seq<u8> {
    v.subrange(36, 52)
}

pub open spec fn flags_field(v: Seq<u8>) -> Seq<u8> {
    v.subrange(53, 55)
}

/// A header value of exactly the form `vv-<32 hex>-<16 hex>-ff`: version,
/// trace id, span id and flags, all digits lowercase. Both identifiers must be
/// non-zero.
pub open spec fn well_formed_traceparent(v: Seq<u8>) -> bool {
    &&& v.len() == 55
    &&& v[2] == 45u8 && v[35] == 45u8 && v[52] == 45u8
    &&& all_hex(version_field(v)) && all_hex(trace_field(v))
    &&& all_hex(span_field(v)) && all_hex(flags_field(v))
    &&& hex_value(trace_field(v)) != 0
    &&& hex_value(span_field(v)) != 0
}

/// The context that a well-formed header value describes: the decoded
/// identifiers and flags.
pub open spec fn traceparent_context(v: Seq<u8>) -> TraceContext {
    TraceContext {
        trace_id: hex_value(trace_field(v)) as u128,
        span_id: hex_value(span_field(v)) as u64,
        flags: hex_value(flags_field(v)) as u8,
    }
}

pub open spec fn spec_parse_traceparent(v: Seq<u8>) -> Option<TraceContext> {
    if well_formed_traceparent(v) {
        Some(traceparent_context(v))
    } else {
        None
    }
}

/// What `extract` finds in a carrier: a parent context, or none.
pub open spec fn spec_extract(c: Seq<(Seq<u8>, Seq<u8>)>) -> Option<TraceContext> {
    match spec_get(c, traceparent_key()) {
        Some(v) => spec_parse_traceparent(v),
        None => None,
    }
}

/// Relies on opentelemetry's `TraceId::from_hex`, which reads the text as a
/// base-16 `u128`; the bytes are lowercase hex digits, hence valid text.
#[verifier::external_body]
fn trace_id_from_hex(b: &[u8]) -> (r: Option<u128>)
    requires
        all_hex(b@),
        1 <= b@.len() <= 32,
    ensures
        r == Some(hex_value(b@) as u128),
{
    let text = String::from_utf8_lossy(b);
    opentelemetry::trace::TraceId::from_hex(&text).ok().map(|t| u128::from_be_bytes(t.to_bytes()))
}

/// Relies on opentelemetry's `SpanId::from_hex`, which reads the text as a
/// base-16 `u64`; the bytes are lowercase hex digits, hence valid text.
#[verifier::external_body]
fn span_id_from_hex(b: &[u8]) -> (r: Option<u64>)
    requires
        all_hex(b@),
        1 <= b@.len() <= 16,
    ensures
        r == Some(hex_value(b@) as u64),
{
    let text = String::from_utf8_lossy(b);
    opentelemetry::trace::SpanId::from_hex(&text).ok().map(|s| u64::from_be_bytes(s.to_bytes()))
}

/// Whether `v[start..end]` holds only lowercase hex digits.
fn hex_run(v: &[u8], start: usize, end: usize) -> (r: bool)
    requires
        start <= end <= v@.len(),
    ensures
        r == all_hex(v@.subrange(start as int, end as int)),
{
    let mut i: usize = start;
    while i < end
        invariant
            start <= i <= end <= v@.len(),
            all_hex(v@.subrange(start as int, i as int)),
        decreases end - i,
    {
        if hex_digit(v[i]).is_none() {
            assert(!is_hex_digit(v@.subrange(start as int, end as int)[i - start]));
            return false;
        }
        assert(v@.subrange(start as int, i + 1) =~= v@.subrange(start as int, i as int).push(v@[i as int]));
        i = i + 1;
    }
    true
}

/// Whether `v` has the dashes and lowercase hex digits of a `traceparent` value.
fn has_traceparent_shape(v: &[u8]) -> (r: bool)
    ensures
        r == (v@.len() == 55 && v@[2] == 45u8 && v@[35] == 45u8 && v@[52] == 45u8
            && all_hex(version_field(v@)) && all_hex(trace_field(v@))
            && all_hex(span_field(v@)) && all_hex(flags_field(v@))),
{
    if v.len() != 55 || v[2] != 45 || v[35] != 45 || v[52] != 45 {
        return false;
    }
    hex_run(v, 0, 2) && hex_run(v, 3, 35) && hex_run(v, 36, 52) && hex_run(v, 53, 55)
}

/// Whether every byte of `v` is visible ASCII, a space or a tab.
fn is_visible_ascii(v: &[u8]) -> (r: bool)
    ensures
        r == visible_ascii(v@),
{
    let mut i: usize = 0;
    while i < v.len()
        invariant
            i <= v@.len(),
            forall|k: int| 0 <= k < i ==> (#[trigger] v@[k] == 9u8 || (32 <= v@[k] && v@[k] < 127)),
        decreases v@.len() - i,
    {
        let b = v[i];
        if !(b == 9 || (32 <= b && b < 127)) {
            return false;
        }
        i = i + 1;
    }
    true
}

/// Decodes a `traceparent` header value; `None` for anything but a
/// well-formed value naming a valid parent.
pub fn parse_traceparent(v: &[u8]) -> (r: Option<TraceContext>)
    ensures
        r == spec_parse_traceparent(v@),
        r matches Some(c) ==> c.valid(),
{
    if !has_traceparent_shape(v) {
        return None;
    }
    assert(version_field(v@) =~= seq![v@[0], v@[1]]);
    assert(flags_field(v@) =~= seq![v@[53], v@[54]]);
    assert(is_hex_digit(version_field(v@)[0]) && is_hex_digit(version_field(v@)[1]));
    assert(is_hex_digit(flags_field(v@)[0]) && is_hex_digit(flags_field(v@)[1]));
    let flags = match hex_byte(v[53], v[54]) {
        Some(x) => x,
        None => return None,
    };
    let ids = decode_ids(v);
    match ids {
        Some((trace_id, span_id)) => Some(TraceContext { trace_id, span_id, flags }),
        None => None,
    }
}

/// The two identifiers of a value of the right shape, when both are non-zero.
fn decode_ids(v: &[u8]) -> (r: Option<(u128, u64)>)
    requires
        v@.len() >= 55,
        all_hex(trace_field(v@)),
        all_hex(span_field(v@)),
    ensures
        match r {
            Some((t, s)) => hex_value(trace_field(v@)) != 0 && hex_value(span_field(v@)) != 0
                && t as nat == hex_value(trace_field(v@)) && s as nat == hex_value(span_field(v@)),
            None => hex_value(trace_field(v@)) == 0 || hex_value(span_field(v@)) == 0,
        },
{
    let tf = &v[3..35];
    let sf = &v[36..52];
    assert(tf@ =~= trace_field(v@));
    assert(sf@ =~= span_field(v@));
    let trace_id = match trace_id_from_hex(tf) {
        Some(x) => x,
        None => return None,
    };
    let span_id = match span_id_from_hex(sf) {
        Some(x) => x,
        None => return None,
    };
    proof {
        crate::hex::lemma_hex_value_bound(trace_field(v@));
        crate::hex::lemma_hex_value_bound(span_field(v@));
        crate::hex::lemma_pow16_32();
    }
    if trace_id == 0 || span_id == 0 {
        return None;
    }
    Some((trace_id, span_id))
}

/// Reads the parent context that the `traceparent` header of `c` carries.
/// An absent or malformed header gives `None`, which means "start a new trace".
pub fn extract(c: &Carrier) -> (r: Option<TraceContext>)
    ensures
        r == spec_extract(c@),
        r matches Some(p) ==> p.valid(),
{
    let key: [u8; 11] = [116, 114, 97, 99, 101, 112, 97, 114, 101, 110, 116];
    let ks = key.as_slice();
    assert(ks@ =~= traceparent_key());
    match c.get(ks) {
        Some(v) => parse_traceparent(v),
        None => None,
    }
}

} // verus!
