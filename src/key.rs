//! Composite keys: a sequence of string components ordered component-wise.
//!
//! Components compare as Rust strings do, by their UTF-8 bytes. Keys compare
//! component by component up to the shorter key's length; a key that is a
//! component-wise prefix of another compares `Equal` to it. Identity is full
//! sequence equality, which is a finer relation than this order.
use vstd::prelude::*;
use vstd::utf8::encode_utf8;
use core::cmp::Ordering;
use crate::error::QuickError;
use crate::float::reverse;

verus! {

/// Byte-wise comparison from position `i` on; a proper prefix is `Less`.
pub open spec fn bytes_cmp_from(x: Seq<u8>, y: Seq<u8>, i: int) -> Ordering
    decreases x.len() - i,
{
    if i < 0 || i >= x.len() {
        if i >= 0 && i < y.len() {
            Ordering::Less
        } else {
            Ordering::Equal
        }
    } else if i >= y.len() {
        Ordering::Greater
    } else if x[i] < y[i] {
        Ordering::Less
    } else if x[i] > y[i] {
        Ordering::Greater
    } else {
        bytes_cmp_from(x, y, i + 1)
    }
}

/// How two strings order, by their UTF-8 encodings.
pub open spec fn str_cmp(s: Seq<char>, t: Seq<char>) -> Ordering {
    bytes_cmp_from(encode_utf8(s), encode_utf8(t), 0)
}

/// Component-wise comparison from component `i` up to the shorter length.
pub open spec fn key_cmp_from(a: Seq<Seq<char>>, b: Seq<Seq<char>>, i: int) -> Ordering
    decreases a.len() - i,
{
    if i < 0 || i >= a.len() || i >= b.len() {
        Ordering::Equal
    } else {
        match str_cmp(a[i], b[i]) {
            Ordering::Equal => key_cmp_from(a, b, i + 1),
            o => o,
        }
    }
}

/// The order of keys.
pub open spec fn key_cmp(a: Seq<Seq<char>>, b: Seq<Seq<char>>) -> Ordering {
    key_cmp_from(a, b, 0)
}

#[derive(Debug, Clone, PartialEq, Eq, Hash)]
pub struct QuickKey {
    pub keys: Vec<String>,
}

impl View for QuickKey {
    type V = Seq<Seq<char>>;

    open spec fn view(&self) -> Seq<Seq<char>> {
        self.keys@.map_values(|s: String| s@)
    }
}

pub(crate) fn compare_text(s: &String, t: &String) -> (r: Ordering)
    ensures
        r == str_cmp(s@, t@),
{
    let x = s.as_str().as_bytes();
    let y = t.as_str().as_bytes();
    let mut i: usize = 0;
    while i < x.len() && i < y.len()
        invariant
            x@ == encode_utf8(s@),
            y@ == encode_utf8(t@),
            0 <= i <= x@.len(),
            i <= y@.len(),
            bytes_cmp_from(x@, y@, 0) == bytes_cmp_from(x@, y@, i as int),
        decreases x@.len() - i,
    {
        if x[i] < y[i] {
            return Ordering::Less;
        } else if x[i] > y[i] {
            return Ordering::Greater;
        }
        i = i + 1;
    }
    if i < y.len() {
        Ordering::Less
    } else if i < x.len() {
        Ordering::Greater
    } else {
        Ordering::Equal
    }
}

impl QuickKey {
    /// Builds a key from its components. Every sequence is accepted,
    /// the empty one included.
    pub fn new(keys: Vec<String>) -> (r: Result<QuickKey, QuickError>)
        ensures
            r matches Ok(k) && k.keys@ == keys@,
    {
        Ok(QuickKey { keys })
    }

    /// The first component.
    pub fn first_key(&self) -> (r: &String)
        requires
            self.keys@.len() > 0,
        ensures
            *r == self.keys@[0],
    {
        &self.keys[0]
    }

    /// The key order: component-wise up to the shorter length.
    pub fn compare(&self, other: &QuickKey) -> (r: Ordering)
        ensures
            r == key_cmp(self@, other@),
    {
        let n: usize = if self.keys.len() < other.keys.len() {
            self.keys.len()
        } else {
            other.keys.len()
        };
        let mut i: usize = 0;
        while i < n
            invariant
                n <= self.keys@.len(),
                n <= other.keys@.len(),
                n == self.keys@.len() || n == other.keys@.len(),
                0 <= i <= n,
                key_cmp(self@, other@) == key_cmp_from(self@, other@, i as int),
            decreases n - i,
        {
            let o = compare_text(&self.keys[i], &other.keys[i]);
            match o {
                Ordering::Equal => {},
                _ => {
                    return o;
                },
            }
            i = i + 1;
        }
        Ordering::Equal
    }
}

/// A key that is a component-wise prefix of another compares `Equal` to it.
pub proof fn lemma_prefix_equal(a: QuickKey, b: QuickKey)
    requires
        a@.len() <= b@.len(),
        a@ == b@.take(a@.len() as int),
    ensures
        key_cmp(a@, b@) == Ordering::Equal,
        key_cmp(b@, a@) == Ordering::Equal,
{
    lemma_prefix_equal_from(a@, b@, 0);
}

proof fn lemma_prefix_equal_from(a: Seq<Seq<char>>, b: Seq<Seq<char>>, i: int)
    requires
        0 <= i,
        a.len() <= b.len(),
        a == b.take(a.len() as int),
    ensures
        key_cmp_from(a, b, i) == Ordering::Equal,
        key_cmp_from(b, a, i) == Ordering::Equal,
    decreases a.len() - i,
{
    if i < a.len() {
        assert(a[i] == b[i]);
        lemma_str_cmp_refl(a[i]);
        lemma_prefix_equal_from(a, b, i + 1);
    }
}

/// Swapping two keys reverses their order.
pub proof fn lemma_key_cmp_antisymmetric(a: QuickKey, b: QuickKey)
    ensures
        key_cmp(b@, a@) == reverse(key_cmp(a@, b@)),
{
    lemma_key_cmp_antisymmetric_from(a@, b@, 0);
}

proof fn lemma_key_cmp_antisymmetric_from(a: Seq<Seq<char>>, b: Seq<Seq<char>>, i: int)
    requires
        0 <= i,
    ensures
        key_cmp_from(b, a, i) == reverse(key_cmp_from(a, b, i)),
    decreases a.len() - i,
{
    if i < a.len() && i < b.len() {
        lemma_bytes_cmp_antisymmetric(encode_utf8(a[i]), encode_utf8(b[i]), 0);
        lemma_key_cmp_antisymmetric_from(a, b, i + 1);
    }
}

proof fn lemma_bytes_cmp_antisymmetric(x: Seq<u8>, y: Seq<u8>, i: int)
    requires
        0 <= i,
    ensures
        bytes_cmp_from(y, x, i) == reverse(bytes_cmp_from(x, y, i)),
    decreases x.len() - i,
{
    if i < x.len() && i < y.len() && x[i] == y[i] {
        lemma_bytes_cmp_antisymmetric(x, y, i + 1);
    }
}

proof fn lemma_bytes_cmp_refl(x: Seq<u8>, i: int)
    requires
        0 <= i,
    ensures
        bytes_cmp_from(x, x, i) == Ordering::Equal,
    decreases x.len() - i,
{
    if i < x.len() {
        lemma_bytes_cmp_refl(x, i + 1);
    }
}

proof fn lemma_str_cmp_refl(s: Seq<char>)
    ensures
        str_cmp(s, s) == Ordering::Equal,
{
    lemma_bytes_cmp_refl(encode_utf8(s), 0);
}

} // verus!
