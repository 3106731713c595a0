use vstd::prelude::*;

verus! {

/// Outcome of a non-blocking readiness check, either of an inner service or
/// of a stage wrapping one. A stage maps the inner outcome to its own error
/// type and adds nothing else.
#[derive(Debug, PartialEq, Eq)]
pub enum Readiness<E> {
    Ready,
    Pending,
    Failed(E),
}

/// A request as a stage sees it: a header section that the stages read and
/// write, and an opaque body (everything the stages never look at).
pub struct Request<B> {
    pub headers: HeaderMap,
    pub body: B,
}

/// A response as a stage sees it: a status code and headers (the metadata
/// that the aggregation stage preserves) and a body whose representation
/// changes as the response moves through the pipeline.
pub struct Response<B> {
    pub status: u16,
    pub headers: HeaderMap,
    pub body: B,
}

/// An ordered list of header entries, each a (name, value) pair of bytes.
/// Names are kept in their lower-case form, the normal form of the wire
/// representation.
pub struct HeaderMap {
    pub entries: Vec<(Vec<u8>, Vec<u8>)>,
}

/// The mathematical content of a list of header entries.
pub open spec fn entries_view(s: Seq<(Vec<u8>, Vec<u8>)>) -> Seq<(Seq<u8>, Seq<u8>)> {
    Seq::new(s.len(), |i: int| (s[i].0@, s[i].1@))
}

impl View for HeaderMap {
    type V = Seq<(Seq<u8>, Seq<u8>)>;

    open spec fn view(&self) -> Seq<(Seq<u8>, Seq<u8>)> {
        entries_view(self.entries@)
    }
}

/// Whether some entry carries the given name.
pub open spec fn map_has(m: Seq<(Seq<u8>, Seq<u8>)>, name: Seq<u8>) -> bool {
    exists|i: int| 0 <= i < m.len() && (#[trigger] m[i]).0 == name
}

/// The value of the first entry carrying the given name, if any.
pub open spec fn lookup(m: Seq<(Seq<u8>, Seq<u8>)>, name: Seq<u8>) -> Option<Seq<u8>>
    decreases m.len(),
{
    if m.len() == 0 {
        None
    } else if m[0].0 == name {
        Some(m[0].1)
    } else {
        lookup(m.drop_first(), name)
    }
}

/// All entries except those carrying the given name, in their original order.
pub open spec fn map_remove(m: Seq<(Seq<u8>, Seq<u8>)>, name: Seq<u8>) -> Seq<(Seq<u8>, Seq<u8>)> {
    m.filter(|e: (Seq<u8>, Seq<u8>)| e.0 != name)
}

/// Replacing insertion: every entry with the given name is dropped and one
/// entry (name, value) is appended.
pub open spec fn map_insert(
    m: Seq<(Seq<u8>, Seq<u8>)>,
    name: Seq<u8>,
    value: Seq<u8>,
) -> Seq<(Seq<u8>, Seq<u8>)> {
    map_remove(m, name).push((name, value))
}

/// Byte-wise equality of two byte vectors.
pub fn bytes_eq(a: &Vec<u8>, b: &Vec<u8>) -> (r: bool)
    ensures
        r == (a@ == b@),
{
    if a.len() != b.len() {
        assert(a@ != b@);
        return false;
    }
    let mut i: usize = 0;
    while i < a.len()
        invariant
            i <= a.len(),
            a@.len() == b@.len(),
            forall|j: int| 0 <= j < i ==> a@[j] == b@[j],
        decreases a.len() - i,
    {
        if a[i] != b[i] {
            assert(a@[i as int] != b@[i as int]);
            return false;
        }
        i += 1;
    }
    proof {
        assert(a@ =~= b@);
    }
    true
}

/// An exact copy of a byte vector.
pub fn copy_bytes(v: &Vec<u8>) -> (r: Vec<u8>)
    ensures
        r@ == v@,
{
    let mut out: Vec<u8> = Vec::new();
    let mut i: usize = 0;
    while i < v.len()
        invariant
            i <= v.len(),
            out@ =~= v@.take(i as int),
        decreases v.len() - i,
    {
        out.push(v[i]);
        i += 1;
        proof {
            assert(out@ =~= v@.take(i as int));
        }
    }
    proof {
        assert(v@.take(v@.len() as int) =~= v@);
    }
    out
}

/// Appends the bytes of `src` to `dst`.
pub fn append_bytes(dst: &mut Vec<u8>, src: &Vec<u8>)
    ensures
        final(dst)@ == old(dst)@ + src@,
{
    let mut i: usize = 0;
    while i < src.len()
        invariant
            i <= src.len(),
            dst@ =~= old(dst)@ + src@.take(i as int),
        decreases src.len() - i,
    {
        dst.push(src[i]);
        i += 1;
        proof {
            assert(dst@ =~= old(dst)@ + src@.take(i as int));
        }
    }
    proof {
        assert(old(dst)@ + src@.take(src@.len() as int) =~= old(dst)@ + src@);
    }
}

impl HeaderMap {
    /// A header section with no entries.
    pub fn new() -> (r: HeaderMap)
        ensures
            r@ == Seq::<(Seq<u8>, Seq<u8>)>::empty(),
    {
        let r = HeaderMap { entries: Vec::new() };
        proof {
            assert(r@ =~= Seq::<(Seq<u8>, Seq<u8>)>::empty());
        }
        r
    }

    /// Appends one entry at the end, keeping everything already present.
    pub fn append_entry(&mut self, name: Vec<u8>, value: Vec<u8>)
        ensures
            final(self)@ == old(self)@.push((name@, value@)),
    {
        let ghost n = name@;
        let ghost v = value@;
        self.entries.push((name, value));
        proof {
            assert(self@ =~= old(self)@.push((n, v)));
        }
    }

    /// Whether any entry carries the given name.
    pub fn contains_name(&self, name: &Vec<u8>) -> (r: bool)
        ensures
            r == map_has(self@, name@),
    {
        let mut i: usize = 0;
        while i < self.entries.len()
            invariant
                i <= self.entries.len(),
                forall|j: int| 0 <= j < i ==> (#[trigger] self@[j]).0 != name@,
            decreases self.entries.len() - i,
        {
            let e = &self.entries[i];
            if bytes_eq(&e.0, name) {
                assert(self@[i as int].0 == name@);
                return true;
            }
            assert(self@[i as int].0 != name@);
            i += 1;
        }
        false
    }

    /// The value of the first entry carrying the given name.
    pub fn get_value(&self, name: &Vec<u8>) -> (r: Option<&Vec<u8>>)
        ensures
            match r {
                Some(v) => lookup(self@, name@) == Some(v@),
                None => lookup(self@, name@) is None,
            },
    {
        let mut i: usize = 0;
        proof {
            assert(self@.skip(0) =~= self@);
        }
        while i < self.entries.len()
            invariant
                i <= self.entries.len(),
                lookup(self@, name@) == lookup(self@.skip(i as int), name@),
            decreases self.entries.len() - i,
        {
            let e = &self.entries[i];
            proof {
                assert(self@.skip(i as int).len() > 0);
                assert(self@.skip(i as int)[0] == self@[i as int]);
            }
            if bytes_eq(&e.0, name) {
                assert(lookup(self@.skip(i as int), name@) == Some(self@[i as int].1));
                return Some(&e.1);
            }
            proof {
                assert(self@.skip(i as int).drop_first() =~= self@.skip(i as int + 1));
            }
            i += 1;
        }
        proof {
            assert(self@.skip(self@.len() as int).len() == 0);
        }
        None
    }

    /// Replacing insertion: drops every entry with this name and appends
    /// (name, value) at the end.
    pub fn insert(&mut self, name: Vec<u8>, value: Vec<u8>)
        ensures
            final(self)@ == map_insert(old(self)@, name@, value@),
    {
        let ghost m = old(self)@;
        let ghost n = name@;
        let mut kept: Vec<(Vec<u8>, Vec<u8>)> = Vec::new();
        let mut i: usize = 0;
        proof {
            assert(m.take(0) =~= Seq::<(Seq<u8>, Seq<u8>)>::empty());
            reveal(Seq::filter);
            assert(entries_view(kept@) =~= map_remove(m.take(0), n));
        }
        while i < self.entries.len()
            invariant
                i <= self.entries.len(),
                self@ == m,
                n == name@,
                entries_view(kept@) =~= map_remove(m.take(i as int), n),
            decreases self.entries.len() - i,
        {
            let e = &self.entries[i];
            let keep = !bytes_eq(&e.0, &name);
            proof {
                assert(m.take(i as int + 1).drop_last() =~= m.take(i as int));
                assert(m.take(i as int + 1).last() == m[i as int]);
                reveal(Seq::filter);
            }
            if keep {
                kept.push((copy_bytes(&e.0), copy_bytes(&e.1)));
                proof {
                    assert(entries_view(kept@) =~= map_remove(m.take(i as int), n).push(
                        m[i as int],
                    ));
                    assert(entries_view(kept@) =~= map_remove(m.take(i as int + 1), n));
                }
            } else {
                proof {
                    assert(entries_view(kept@) =~= map_remove(m.take(i as int + 1), n));
                }
            }
            i += 1;
        }
        proof {
            assert(m.take(m.len() as int) =~= m);
        }
        kept.push((name, value));
        self.entries = kept;
        proof {
            assert(self@ =~= map_insert(m, n, value@));
        }
    }
}

/// After a replacing insertion, the first (and only) entry with the inserted
/// name carries exactly the inserted value.
pub proof fn lemma_lookup_insert(m: Seq<(Seq<u8>, Seq<u8>)>, name: Seq<u8>, value: Seq<u8>)
    ensures
        lookup(map_insert(m, name, value), name) == Some(value),
{
    broadcast use vstd::seq_lib::group_filter_ensures;

    let removed = map_remove(m, name);
    assert(forall|i: int| 0 <= i < removed.len() ==> (#[trigger] removed[i]).0 != name);
    lemma_lookup_push_absent(removed, name, value);
}

/// Pushing (name, value) onto a list with no entry named `name` makes the
/// lookup of `name` find exactly `value`.
proof fn lemma_lookup_push_absent(m: Seq<(Seq<u8>, Seq<u8>)>, name: Seq<u8>, value: Seq<u8>)
    requires
        forall|i: int| 0 <= i < m.len() ==> (#[trigger] m[i]).0 != name,
    ensures
        lookup(m.push((name, value)), name) == Some(value),
    decreases m.len(),
{
    if m.len() == 0 {
        assert(m.push((name, value))[0] == (name, value));
    } else {
        assert(m.push((name, value))[0] == m[0]);
        assert(m.push((name, value)).drop_first() =~= m.drop_first().push((name, value)));
        lemma_lookup_push_absent(m.drop_first(), name, value);
    }
}

/// The digits, most significant first, of a number written in decimal.
pub open spec fn dec_of(n: nat) -> Seq<u8>
    decreases n,
{
    if n < 10 {
        seq![(48 + n) as u8]
    } else {
        dec_of(n / 10).push((48 + n % 10) as u8)
    }
}

/// Writes the decimal digits of `n` after whatever `out` already holds.
fn push_dec(n: u64, out: &mut Vec<u8>)
    ensures
        final(out)@ == old(out)@ + dec_of(n as nat),
    decreases n,
{
    if n < 10 {
        out.push(48 + n as u8);
        proof {
            assert(out@ =~= old(out)@ + dec_of(n as nat));
        }
    } else {
        push_dec(n / 10, out);
        out.push(48 + (n % 10) as u8);
        proof {
            assert(out@ =~= old(out)@ + dec_of(n as nat));
        }
    }
}

/// The decimal rendering of `n`, one ASCII digit per byte.
pub fn decimal_bytes(n: u64) -> (r: Vec<u8>)
    ensures
        r@ == dec_of(n as nat),
{
    let mut out: Vec<u8> = Vec::new();
    push_dec(n, &mut out);
    proof {
        assert(out@ =~= dec_of(n as nat));
    }
    out
}

} // verus!
