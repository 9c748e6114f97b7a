use vstd::prelude::*;

verus! {

/// Compares two byte strings.
pub fn bytes_equal(a: &[u8], b: &[u8]) -> (r: bool)
    ensures
        r == (a@ == b@),
{
    if a.len() != b.len() {
        return false;
    }
    let mut i: usize = 0;
    while i < a.len()
        invariant
            i <= a@.len(),
            a@.len() == b@.len(),
            forall|j: int| 0 <= j < i ==> a@[j] == b@[j],
        decreases a@.len() - i,
    {
        if a[i] != b[i] {
            return false;
        }
        i = i + 1;
    }
    assert(a@ =~= b@);
    true
}

/// The storage bytes that recording `key` adds to the set: the key itself.
pub open spec fn record_storage_bytes(key: Seq<u8>) -> nat {
    key.len()
}

/// The fingerprints of the proofs that were already credited. Nothing is
/// ever removed.
pub struct UsedEvents {
    keys: Vec<Vec<u8>>,
}

impl View for UsedEvents {
    type V = Set<Seq<u8>>;

    closed spec fn view(&self) -> Set<Seq<u8>> {
        Set::new(|k: Seq<u8>| exists|i: int| 0 <= i < self.keys@.len() && (#[trigger] self.keys@[i])@ == k)
    }
}

impl UsedEvents {
    /// An empty set.
    pub fn new() -> (r: UsedEvents)
        ensures
            r@ == Set::<Seq<u8>>::empty(),
    {
        let r = UsedEvents { keys: Vec::new() };
        assert(r@ =~= Set::<Seq<u8>>::empty());
        r
    }

    /// A set holding the given keys.
    pub fn from_keys(keys: Vec<Vec<u8>>) -> (r: UsedEvents)
        ensures
            forall|k: Seq<u8>| #[trigger] r@.contains(k) <==> exists|i: int| 0 <= i < keys@.len() && (#[trigger] keys@[i])@ == k,
    {
        UsedEvents { keys }
    }

    /// The recorded keys.
    pub fn into_keys(self) -> (r: Vec<Vec<u8>>)
        ensures
            forall|k: Seq<u8>| #[trigger] self@.contains(k) <==> exists|i: int| 0 <= i < r@.len() && (#[trigger] r@[i])@ == k,
    {
        self.keys
    }

    /// Whether `key` was recorded.
    pub fn contains(&self, key: &[u8]) -> (r: bool)
        ensures
            r == self@.contains(key@),
    {
        let mut i: usize = 0;
        while i < self.keys.len()
            invariant
                i <= self.keys@.len(),
                forall|j: int| 0 <= j < i ==> (#[trigger] self.keys@[j])@ != key@,
            decreases self.keys@.len() - i,
        {
            if bytes_equal(self.keys[i].as_slice(), key) {
                assert(self.keys@[i as int]@ == key@);
                return true;
            }
            i = i + 1;
        }
        false
    }

    /// Measures the storage bytes that recording `key` would add.
    pub fn storage_growth(&self, key: &[u8]) -> (r: u128)
        ensures
            r == record_storage_bytes(key@),
    {
        key.len() as u128
    }

    /// Records `key`.
    pub fn insert(&mut self, key: Vec<u8>)
        ensures
            final(self)@ == old(self)@.insert(key@),
    {
        let ghost k = key@;
        self.keys.push(key);
        assert forall|x: Seq<u8>| #[trigger] self@.contains(x) == old(self)@.insert(k).contains(x) by {
            if old(self)@.contains(x) {
                let i = choose|i: int| 0 <= i < old(self).keys@.len() && (#[trigger] old(self).keys@[i])@ == x;
                assert(self.keys@[i]@ == x);
            }
            if x == k {
                assert(self.keys@[self.keys@.len() - 1]@ == x);
            }
            if self@.contains(x) {
                let i = choose|i: int| 0 <= i < self.keys@.len() && (#[trigger] self.keys@[i])@ == x;
                if i < old(self).keys@.len() {
                    assert(old(self).keys@[i]@ == x);
                }
            }
        }
        assert(self@ =~= old(self)@.insert(k));
    }
}

} // verus!
