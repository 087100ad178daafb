//! Deterministic assignment of entity identities to slices, and splitting of
//! the slice space into contiguous ranges for parallel projection workers.

use vstd::prelude::*;
use vstd::string::StrSliceExecFns;
use vstd::string::StringExecFns;
use crate::NUMBER_OF_SLICES;

verus! {

/// One step of the polynomial rolling hash: `h * 31 + unit`, wrapped to
/// 32 bits.
pub open spec fn hash_step(h: u32, unit: u32) -> u32 {
    ((31 * (h as int) + (unit as int)) % 0x1_0000_0000) as u32
}

/// Folds one character into the hash. Characters outside the basic
/// multilingual plane contribute their two surrogate code units, so the hash
/// agrees with a hash taken over the UTF-16 encoding of the string.
pub open spec fn hash_char_spec(h: u32, c: char) -> u32 {
    if (c as u32) < 0x1_0000 {
        hash_step(h, c as u32)
    } else {
        let v = (c as u32) - 0x1_0000;
        hash_step(hash_step(h, (0xD800 + v / 0x400) as u32), (0xDC00 + v % 0x400) as u32)
    }
}

/// Folds a whole character sequence into the hash, left to right, starting
/// from accumulator `h`.
pub open spec fn hash_chars(h: u32, s: Seq<char>) -> u32
    decreases s.len(),
{
    if s.len() == 0 {
        h
    } else {
        hash_chars(hash_char_spec(h, s[0]), s.drop_first())
    }
}

/// The 32-bit hash of an identity: the entity type, a literal `|` separator
/// (code unit 124), then the entity id.
pub open spec fn pid_hash(entity_type: Seq<char>, entity_id: Seq<char>) -> u32 {
    hash_chars(hash_step(hash_chars(0, entity_type), 124), entity_id)
}

/// The hash reinterpreted as a signed 32-bit value (two's complement).
pub open spec fn as_signed(h: u32) -> int {
    if h < 0x8000_0000 {
        h as int
    } else {
        h as int - 0x1_0000_0000
    }
}

/// The slice an identity belongs to: the absolute value of the signed hash
/// taken modulo `NUMBER_OF_SLICES`.
pub open spec fn slice_of(entity_type: Seq<char>, entity_id: Seq<char>) -> u32 {
    let h = pid_hash(entity_type, entity_id);
    let m = h % 1024;
    if h >= 0x8000_0000 && m != 0 {
        (1024 - m) as u32
    } else {
        m
    }
}

/// A namespaced entity id given an entity type.
///
/// The canonical string form is `"<type>|<id>"`.
#[derive(Debug, Clone, PartialEq, Eq, PartialOrd, Ord, Hash)]
pub struct PersistenceId {
    pub entity_type: String,
    pub entity_id: String,
}

/// Parsing never fails, but the result type keeps the failure case explicit
/// for callers that treat identities as untrusted input.
#[derive(Debug)]
pub struct PersistenceIdParseError;

/// Index of the first `|` in `s`, or `s.len()` if there is none.
pub open spec fn bar_index(s: Seq<char>) -> int
    decreases s.len(),
{
    if s.len() == 0 {
        0
    } else if s[0] == '|' {
        0
    } else {
        1 + bar_index(s.drop_first())
    }
}

/// The entity type a string parses to: everything before the first `|`, or
/// empty if the string has no separator.
pub open spec fn parse_type(s: Seq<char>) -> Seq<char> {
    if bar_index(s) == s.len() {
        Seq::empty()
    } else {
        s.subrange(0, bar_index(s))
    }
}

/// The entity id a string parses to: everything after the first `|`, or the
/// whole string if it has no separator.
pub open spec fn parse_id(s: Seq<char>) -> Seq<char> {
    if bar_index(s) == s.len() {
        s
    } else {
        s.subrange(bar_index(s) + 1, s.len() as int)
    }
}

/// The canonical string form of an identity: type, `|`, id.
pub open spec fn canonical_view(entity_type: Seq<char>, entity_id: Seq<char>) -> Seq<char> {
    entity_type + seq!['|'] + entity_id
}

proof fn lemma_bar_index(s: Seq<char>)
    ensures
        0 <= bar_index(s) <= s.len(),
        bar_index(s) < s.len() ==> s[bar_index(s)] == '|',
        forall|k: int| 0 <= k < bar_index(s) ==> s[k] != '|',
    decreases s.len(),
{
    if s.len() != 0 && s[0] != '|' {
        lemma_bar_index(s.drop_first());
        assert forall|k: int| 0 <= k < bar_index(s) implies s[k] != '|' by {
            if k > 0 {
                assert(s.drop_first()[k - 1] != '|');
            }
        }
    }
}

/// `bar_index` is pinned down by being a position of `|` that no `|`
/// precedes.
proof fn lemma_bar_index_unique(s: Seq<char>, j: int)
    requires
        0 <= j <= s.len(),
        j < s.len() ==> s[j] == '|',
        forall|k: int| 0 <= k < j ==> s[k] != '|',
        j == s.len() ==> forall|k: int| 0 <= k < s.len() ==> s[k] != '|',
    ensures
        bar_index(s) == j,
{
    lemma_bar_index(s);
    let b = bar_index(s);
    if b < j {
        assert(s[b] == '|');
    } else if j < b {
        assert(s[j] != '|');
    }
}

impl PersistenceId {
    pub fn new(entity_type: String, entity_id: String) -> (r: Self)
        ensures
            r.entity_type == entity_type,
            r.entity_id == entity_id,
    {
        Self { entity_type, entity_id }
    }

    /// The 32-bit hash the slice assignment is derived from. The algorithm is
    /// a hard external contract: producers and consumers sharding the same
    /// identity space must agree on it bit for bit.
    pub fn jdk_string_hash(&self) -> (r: i32)
        ensures
            r as int == as_signed(pid_hash(self.entity_type@, self.entity_id@)),
    {
        let h = self.hash_u32();
        if h <= 0x7FFF_FFFF {
            h as i32
        } else {
            let d: u32 = 0xFFFF_FFFFu32 - h;
            -(d as i32) - 1
        }
    }

    /// The slice this identity is assigned to, always in
    /// `[0, NUMBER_OF_SLICES)` and a function of the identity's characters
    /// alone.
    pub fn slice(&self) -> (r: u32)
        ensures
            r == slice_of(self.entity_type@, self.entity_id@),
            r < NUMBER_OF_SLICES,
    {
        let h = self.hash_u32();
        let m = h % 1024;
        if h >= 0x8000_0000 && m != 0 {
            1024 - m
        } else {
            m
        }
    }

    fn hash_u32(&self) -> (r: u32)
        ensures
            r == pid_hash(self.entity_type@, self.entity_id@),
    {
        let h0 = hash_str(0, self.entity_type.as_str());
        let h1 = hash_unit(h0, 124);
        hash_str(h1, self.entity_id.as_str())
    }

    /// Renders the identity in its canonical `"<type>|<id>"` form.
    pub fn to_string(&self) -> (r: String)
        ensures
            r@ == canonical_view(self.entity_type@, self.entity_id@),
    {
        let mut s = self.entity_type.clone();
        s.append("|");
        s.append(self.entity_id.as_str());
        proof {
            reveal_strlit("|");
            assert(s@ =~= canonical_view(self.entity_type@, self.entity_id@));
        }
        s
    }

    /// Parses the canonical form: the part before the first `|` is the
    /// entity type, the rest the entity id. A bare string with no separator
    /// yields an empty type and the whole string as id. Never fails.
    pub fn from_str(s: &str) -> (r: Result<Self, PersistenceIdParseError>)
        ensures
            r matches Ok(pid) && pid.entity_type@ == parse_type(s@) && pid.entity_id@ == parse_id(
                s@,
            ),
    {
        let n = s.unicode_len();
        let mut i: usize = 0;
        while i < n && s.get_char(i) != '|'
            invariant
                0 <= i <= n,
                n == s@.len(),
                forall|k: int| 0 <= k < i ==> s@[k] != '|',
            decreases n - i,
        {
            i = i + 1;
        }
        proof {
            lemma_bar_index_unique(s@, i as int);
        }
        if i == n {
            Ok(PersistenceId { entity_type: String::new(), entity_id: String::from_str(s) })
        } else {
            let t = s.substring_char(0, i);
            let id = s.substring_char(i + 1, n);
            Ok(PersistenceId { entity_type: String::from_str(t), entity_id: String::from_str(id) })
        }
    }
}

fn hash_unit(h: u32, unit: u32) -> (r: u32)
    ensures
        r == hash_step(h, unit),
{
    (((31u64 * (h as u64)) + (unit as u64)) % 0x1_0000_0000u64) as u32
}

fn hash_char(h: u32, c: char) -> (r: u32)
    ensures
        r == hash_char_spec(h, c),
{
    let u = c as u32;
    if u < 0x1_0000 {
        hash_unit(h, u)
    } else {
        let v = u - 0x1_0000;
        let hi = 0xD800 + v / 0x400;
        let lo = 0xDC00 + v % 0x400;
        hash_unit(hash_unit(h, hi), lo)
    }
}

fn hash_str(h0: u32, s: &str) -> (r: u32)
    ensures
        r == hash_chars(h0, s@),
{
    let n = s.unicode_len();
    let mut h = h0;
    let mut i: usize = 0;
    proof {
        assert(s@.subrange(0, n as int) =~= s@);
    }
    while i < n
        invariant
            0 <= i <= n,
            n == s@.len(),
            hash_chars(h, s@.subrange(i as int, n as int)) == hash_chars(h0, s@),
        decreases n - i,
    {
        let c = s.get_char(i);
        proof {
            let rest = s@.subrange(i as int, n as int);
            assert(rest[0] == s@[i as int]);
            assert(rest.drop_first() =~= s@.subrange(i as int + 1, n as int));
        }
        h = hash_char(h, c);
        i = i + 1;
    }
    proof {
        assert(s@.subrange(n as int, n as int) =~= Seq::<char>::empty());
    }
    h
}

/// Splits the `NUMBER_OF_SLICES` slices into `number_of_ranges` equal
/// contiguous half-open ranges. `number_of_ranges` must be a whole-number
/// divisor of `NUMBER_OF_SLICES`.
pub fn slice_ranges(number_of_ranges: u32) -> (r: Vec<core::ops::Range<u32>>)
    requires
        0 < number_of_ranges,
        NUMBER_OF_SLICES as int % number_of_ranges as int == 0,
    ensures
        r@.len() == number_of_ranges as int,
        forall|k: int|
            0 <= k < number_of_ranges as int ==> (#[trigger] r@[k]).start == k * (
            NUMBER_OF_SLICES as int / number_of_ranges as int),
        forall|k: int|
            0 <= k < number_of_ranges as int ==> (#[trigger] r@[k]).end == (k + 1) * (
            NUMBER_OF_SLICES as int / number_of_ranges as int),
{
    let range_size = NUMBER_OF_SLICES / number_of_ranges;
    proof {
        assert(number_of_ranges * range_size == 1024 && range_size >= 1) by (nonlinear_arith)
            requires
                range_size == 1024 as int / number_of_ranges as int,
                1024 as int % number_of_ranges as int == 0,
                0 < number_of_ranges < 0x1_0000_0000,
        ;
    }
    let mut ranges: Vec<core::ops::Range<u32>> = Vec::with_capacity(number_of_ranges as usize);
    let mut i: u32 = 0;
    while i < number_of_ranges
        invariant
            0 <= i <= number_of_ranges,
            range_size == NUMBER_OF_SLICES as int / number_of_ranges as int,
            number_of_ranges * range_size == 1024,
            ranges@.len() == i as int,
            forall|k: int| 0 <= k < i as int ==> (#[trigger] ranges@[k]).start == k * range_size,
            forall|k: int|
                0 <= k < i as int ==> (#[trigger] ranges@[k]).end == (k + 1) * range_size,
        decreases number_of_ranges - i,
    {
        proof {
            assert((i as int) * (range_size as int) + range_size as int <= 1024) by (nonlinear_arith)
                requires
                    0 <= i as int,
                    i as int + 1 <= number_of_ranges as int,
                    number_of_ranges * range_size == 1024,
            ;
            assert((i as int + 1) * (range_size as int) == (i as int) * (range_size as int)
                + range_size as int) by (nonlinear_arith);
        }
        let start = i * range_size;
        let end = start + range_size;
        ranges.push(core::ops::Range { start, end });
        i = i + 1;
    }
    ranges
}

/// For every slice `s` there is exactly one of the `number_of_ranges` equal
/// ranges that contains it: the ranges partition `[0, NUMBER_OF_SLICES)`
/// with no gaps and no overlaps.
pub proof fn lemma_slice_ranges_partition(number_of_ranges: u32, s: u32)
    requires
        0 < number_of_ranges,
        NUMBER_OF_SLICES as int % number_of_ranges as int == 0,
        s < NUMBER_OF_SLICES,
    ensures
        ({
            let size = NUMBER_OF_SLICES as int / number_of_ranges as int;
            let k = s as int / size;
            &&& 0 <= k < number_of_ranges as int
            &&& k * size <= (s as int) && (s as int) < (k + 1) * size
            &&& forall|j: int|
                0 <= j < number_of_ranges as int && j != k ==> !(#[trigger] (j * size) <= (s as int) && (s as int) < (j + 1)
                    * size)
        }),
{
    let size = NUMBER_OF_SLICES as int / number_of_ranges as int;
    let n = number_of_ranges as int;
    assert(n * size == 1024 && size >= 1) by (nonlinear_arith)
        requires
            size == 1024 as int / n,
            1024 as int % n == 0,
            0 < n < 0x1_0000_0000,
    ;
    let k = s as int / size;
    vstd::arithmetic::div_mod::lemma_fundamental_div_mod(s as int, size);
    let rem = s as int % size;
    vstd::arithmetic::div_mod::lemma_mod_bound(s as int, size);
    assert(k * size <= (s as int) && (s as int) < (k + 1) * size) by (nonlinear_arith)
        requires
            s as int == size * k + rem,
            0 <= rem < size,
    ;
    assert(0 <= k < n) by (nonlinear_arith)
        requires
            s as int == size * k + rem,
            0 <= rem < size,
            0 <= (s as int) && (s as int) < n * size,
            size >= 1,
    ;
    assert forall|j: int| 0 <= j < n && j != k implies !(#[trigger] (j * size) <= (s as int) && (s as int) < (j + 1)
        * size) by {
        if j * size <= (s as int) && (s as int) < (j + 1) * size {
            assert(false) by (nonlinear_arith)
                requires
                    s as int == size * k + rem,
                    0 <= rem < size,
                    j * size <= (s as int) && (s as int) < (j + 1) * size,
                    size >= 1,
                    j != k,
            ;
        }
    }
}

/// Round trip: rendering an identity in canonical form and parsing it back
/// recovers the identity, provided the entity type itself contains no `|`
/// separator.
pub proof fn lemma_parse_round_trip(entity_type: Seq<char>, entity_id: Seq<char>)
    requires
        forall|k: int| 0 <= k < entity_type.len() ==> entity_type[k] != '|',
    ensures
        parse_type(canonical_view(entity_type, entity_id)) == entity_type,
        parse_id(canonical_view(entity_type, entity_id)) == entity_id,
{
    let s = canonical_view(entity_type, entity_id);
    let tl = entity_type.len() as int;
    assert(s[tl] == '|');
    assert(forall|k: int| 0 <= k < tl ==> s[k] == entity_type[k] && s[k] != '|');
    lemma_bar_index_unique(s, tl);
    assert(s.subrange(0, tl) =~= entity_type);
    assert(s.subrange(tl + 1, s.len() as int) =~= entity_id);
}

} // verus!
