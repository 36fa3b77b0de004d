//! Names: byte strings that were checked against a length limit.

use core::cmp::Ordering;
use vstd::prelude::*;
use crate::error::Error;

verus! {

/// Whether a byte string of this content respects the limit `max_len`.
pub open spec fn name_fits(bytes: Seq<u8>, max_len: u32) -> bool {
    bytes.len() <= max_len
}

/// The first `k` bytes of `a` and of `b` exist and agree.
pub open spec fn common_prefix(a: Seq<u8>, b: Seq<u8>, k: int) -> bool {
    &&& 0 <= k <= a.len()
    &&& k <= b.len()
    &&& forall|i: int| 0 <= i < k ==> a[i] == b[i]
}

/// `a` and `b` agree on their first `k` bytes, and right after them `a` is
/// the smaller: it either ends there while `b` goes on, or holds the smaller
/// byte.
pub open spec fn precedes_at(a: Seq<u8>, b: Seq<u8>, k: int) -> bool {
    &&& common_prefix(a, b, k)
    &&& if k == a.len() {
        k < b.len()
    } else {
        k < b.len() && a[k] < b[k]
    }
}

/// The strict lexicographic order of byte strings.
pub open spec fn bytes_lt(a: Seq<u8>, b: Seq<u8>) -> bool {
    exists|k: int| precedes_at(a, b, k)
}

/// How `a` stands to `b` in the lexicographic order of byte strings.
pub open spec fn bytes_order(a: Seq<u8>, b: Seq<u8>) -> Ordering {
    if a == b {
        Ordering::Equal
    } else if bytes_lt(a, b) {
        Ordering::Less
    } else {
        Ordering::Greater
    }
}

/// A byte string cannot come before another at one place and after it at
/// another: the two places would contradict each other.
pub proof fn lemma_precedes_excludes(a: Seq<u8>, b: Seq<u8>, k: int, j: int)
    requires
        precedes_at(a, b, k),
    ensures
        !precedes_at(b, a, j),
        a != b,
{
    if precedes_at(b, a, j) {
        if j < k {
            assert(a[j] == b[j]);
        } else if k < j {
            assert(b[k] == a[k]);
        }
    }
}

/// The lexicographic order is strict: nothing precedes itself, and of two
/// byte strings at most one precedes the other.
pub proof fn lemma_bytes_lt_asymmetric(a: Seq<u8>, b: Seq<u8>)
    requires
        bytes_lt(a, b),
    ensures
        !bytes_lt(b, a),
        a != b,
{
    let k = choose|k: int| precedes_at(a, b, k);
    if bytes_lt(b, a) {
        let j = choose|j: int| precedes_at(b, a, j);
        lemma_precedes_excludes(a, b, k, j);
    }
    lemma_precedes_excludes(a, b, k, 0);
}

/// Two byte strings that agree on their first `k` bytes are equal or one
/// precedes the other.
proof fn lemma_total_from(a: Seq<u8>, b: Seq<u8>, k: int)
    requires
        common_prefix(a, b, k),
    ensures
        a == b || bytes_lt(a, b) || bytes_lt(b, a),
    decreases a.len() - k,
{
    if k == a.len() {
        if k == b.len() {
            assert(a =~= b);
        } else {
            assert(precedes_at(a, b, k));
        }
    } else if k == b.len() {
        assert(precedes_at(b, a, k));
    } else if a[k] < b[k] {
        assert(precedes_at(a, b, k));
    } else if b[k] < a[k] {
        assert(precedes_at(b, a, k));
    } else {
        lemma_total_from(a, b, k + 1);
    }
}

/// The lexicographic order is total: two different byte strings are always
/// ordered one way or the other.
pub proof fn lemma_bytes_lt_total(a: Seq<u8>, b: Seq<u8>)
    ensures
        a == b || bytes_lt(a, b) || bytes_lt(b, a),
{
    lemma_total_from(a, b, 0);
}

/// The lexicographic order is transitive.
pub proof fn lemma_bytes_lt_transitive(a: Seq<u8>, b: Seq<u8>, c: Seq<u8>)
    requires
        bytes_lt(a, b),
        bytes_lt(b, c),
    ensures
        bytes_lt(a, c),
{
    let k = choose|k: int| precedes_at(a, b, k);
    let j = choose|j: int| precedes_at(b, c, j);
    let m = if k <= j { k } else { j };
    assert forall|i: int| 0 <= i < m implies a[i] == c[i] by {
        assert(a[i] == b[i]);
        assert(b[i] == c[i]);
    }
    if k < j {
        assert(b[k] == c[k]);
    } else if j < k {
        assert(a[j] == b[j]);
    }
    assert(precedes_at(a, c, m));
}

/// A name: a byte string that passed a length check when it was made.
///
/// A name is made by [`validate_name`], which holds it to a limit, or as the
/// empty name, which respects every limit. It cannot be changed afterwards, so
/// it never grows beyond the limit it was checked against. Names are equal
/// when their bytes are, and are ordered lexicographically by their bytes.
#[derive(Debug, Eq, Ord, Hash)]
pub struct Name {
    bytes: Vec<u8>,
}

impl View for Name {
    type V = Seq<u8>;

    /// The bytes of the name.
    closed spec fn view(&self) -> Seq<u8> {
        self.bytes@
    }
}

/// Accepts `bytes` as a name exactly when there are at most `max_len` of them.
///
/// Nothing is cut off: a byte string over the limit is rejected whole.
pub fn validate_name(bytes: Vec<u8>, max_len: u32) -> (res: Result<Name, Error>)
    ensures
        match res {
            Ok(name) => name_fits(bytes@, max_len) && name@ == bytes@,
            Err(e) => !name_fits(bytes@, max_len) && e == Error::NameTooLong,
        },
{
    if bytes.len() <= max_len as usize {
        Ok(Name { bytes })
    } else {
        Err(Error::NameTooLong)
    }
}

impl Name {
    /// Number of bytes in the name.
    pub fn len(&self) -> (n: usize)
        ensures
            n == self@.len(),
    {
        self.bytes.len()
    }

    /// Whether the name has at most `max_len` bytes.
    pub fn fits(&self, max_len: u32) -> (b: bool)
        ensures
            b == name_fits(self@, max_len),
    {
        self.bytes.len() <= max_len as usize
    }

    /// The bytes of the name.
    pub fn as_slice(&self) -> (bytes: &[u8])
        ensures
            bytes@ == self@,
    {
        self.bytes.as_slice()
    }

    /// Gives up the name for its bytes.
    pub fn into_inner(self) -> (bytes: Vec<u8>)
        ensures
            bytes@ == self@,
    {
        self.bytes
    }
}

impl Default for Name {
    /// The empty name.
    fn default() -> (name: Name)
        ensures
            name@ == Seq::<u8>::empty(),
    {
        Name { bytes: Vec::new() }
    }
}

impl Clone for Name {
    fn clone(&self) -> (name: Name)
        ensures
            name@ == self@,
    {
        let bytes = self.bytes.clone();
        assert(bytes@ =~= self.bytes@);
        Name { bytes }
    }
}

impl PartialEq for Name {
    fn eq(&self, other: &Name) -> (r: bool) {
        let r = self.bytes == other.bytes;
        proof {
            if r {
                assert(self.bytes@ =~= other.bytes@);
            }
        }
        r
    }
}

impl vstd::std_specs::cmp::PartialEqSpecImpl for Name {
    open spec fn obeys_eq_spec() -> bool {
        true
    }

    open spec fn eq_spec(&self, other: &Name) -> bool {
        self@ == other@
    }
}

/// `a` and `b` agree on their first `i` bytes.
spec fn agree_up_to(a: Seq<u8>, b: Seq<u8>, i: usize) -> bool {
    common_prefix(a, b, i as int)
}

/// `a` comes before `b`, as seen right after their first `i` bytes.
spec fn precedes_after(a: Seq<u8>, b: Seq<u8>, i: usize) -> bool {
    precedes_at(a, b, i as int)
}

/// Compares two byte strings lexicographically.
fn order_bytes(a: &Vec<u8>, b: &Vec<u8>) -> (r: Ordering)
    ensures
        r == bytes_order(a@, b@),
{
    let mut i: usize = 0;
    while i < a.len() && i < b.len()
        invariant
            agree_up_to(a@, b@, i),
        decreases a.len() - i,
    {
        if a[i] < b[i] {
            proof {
                assert(precedes_after(a@, b@, i));
                lemma_bytes_lt_asymmetric(a@, b@);
            }
            return Ordering::Less;
        }
        if b[i] < a[i] {
            proof {
                assert(precedes_after(b@, a@, i));
                lemma_bytes_lt_asymmetric(b@, a@);
            }
            return Ordering::Greater;
        }
        i = i + 1;
    }
    if i < b.len() {
        proof {
            assert(precedes_after(a@, b@, i));
            lemma_bytes_lt_asymmetric(a@, b@);
        }
        Ordering::Less
    } else if i < a.len() {
        proof {
            assert(precedes_after(b@, a@, i));
            lemma_bytes_lt_asymmetric(b@, a@);
        }
        Ordering::Greater
    } else {
        assert(a@ =~= b@);
        Ordering::Equal
    }
}

impl PartialOrd for Name {
    fn partial_cmp(&self, other: &Name) -> (r: Option<Ordering>) {
        Some(order_bytes(&self.bytes, &other.bytes))
    }
}

impl vstd::std_specs::cmp::PartialOrdSpecImpl for Name {
    open spec fn obeys_partial_cmp_spec() -> bool {
        true
    }

    open spec fn partial_cmp_spec(&self, other: &Name) -> Option<Ordering> {
        Some(bytes_order(self@, other@))
    }
}

} // verus!
