//! The wallet store: a name-keyed collection of wallet records with
//! last-write-wins `put`, `get`, and `list`, and the path a record is kept
//! under on a storage medium. The store itself is medium-agnostic; binding
//! its contents to files is left to the program around the library.

use vstd::prelude::*;
use vstd::string::StringExecFns;
use crate::errors::WalletError;
use crate::hexstr;
use crate::keypair::KeyPair;
use crate::record;
use crate::record::WalletRecord;

verus! {

/// The record stored under a name, scanning entries front to back:
/// the views of its two hex fields, or `None` when the name is absent.
pub open spec fn lookup(s: Seq<(String, WalletRecord)>, name: Seq<char>) -> Option<
    (Seq<char>, Seq<char>),
>
    decreases s.len(),
{
    if s.len() == 0 {
        None
    } else if s[0].0@ == name {
        Some((s[0].1.public_hex@, s[0].1.secret_hex@))
    } else {
        lookup(s.drop_first(), name)
    }
}

/// A store of wallet records, one per name.
pub struct WalletStore {
    entries: Vec<(String, WalletRecord)>,
}

impl WalletStore {
    /// The stored names, in storage order.
    pub closed spec fn names(self) -> Seq<Seq<char>> {
        self.entries@.map_values(|e: (String, WalletRecord)| e.0@)
    }

    /// One record per name: all stored names are distinct.
    pub closed spec fn wf(self) -> bool {
        forall|i: int, j: int|
            0 <= i < j < self.names().len() ==> self.names()[i] != self.names()[j]
    }

    /// What `get` returns for a name, as a view.
    pub closed spec fn spec_get(self, name: Seq<char>) -> Option<(Seq<char>, Seq<char>)> {
        lookup(self.entries@, name)
    }

    /// An empty store: no names, and `get` finds nothing.
    pub fn new() -> (r: WalletStore)
        ensures
            r.wf(),
            r.names().len() == 0,
            forall|name: Seq<char>| r.spec_get(name) is None,
    {
        WalletStore { entries: Vec::new() }
    }

    /// Stores `rec` under `name`, creating the entry or silently
    /// overwriting the one already there: afterwards `name` maps to `rec`,
    /// and every other name maps to what it mapped to before.
    pub fn put(&mut self, name: &str, rec: WalletRecord)
        requires
            old(self).wf(),
        ensures
            final(self).wf(),
            final(self).spec_get(name@) == Some((rec.public_hex@, rec.secret_hex@)),
            forall|other: Seq<char>|
                other != name@ ==> final(self).spec_get(other) == old(self).spec_get(other),
    {
        let key: String = name.to_owned();
        let ghost s0 = old(self).entries@;
        let n = self.entries.len();
        let mut i: usize = 0;
        while i < n
            invariant
                i <= n,
                n == s0.len(),
                s0 == old(self).entries@,
                self.entries@ == s0,
                old(self).wf(),
                key@ == name@,
                forall|j: int| 0 <= j < i ==> s0[j].0@ != name@,
            decreases n - i,
        {
            let matches_here = self.entries[i].0 == key;
            if matches_here {
                let entry = (key, rec);
                proof {
                    lemma_lookup_replace(s0, i as int, entry, name@);
                    assert forall|other: Seq<char>| other != name@ implies lookup(
                        s0.update(i as int, entry),
                        other,
                    ) == lookup(s0, other) by {
                        lemma_lookup_replace_other(s0, i as int, entry, other);
                    }
                }
                self.entries[i] = entry;
                proof {
                    assert(self.entries@ == s0.update(i as int, entry));
                    assert forall|k: int| 0 <= k < self.names().len() implies self.names()[k]
                        == old(self).names()[k] by {
                        assert(self.entries@[k].0@ == s0[k].0@);
                    }
                    assert forall|a: int, b: int|
                        0 <= a < b < self.names().len() implies self.names()[a]
                        != self.names()[b] by {
                        assert(self.names()[a] == old(self).names()[a]);
                        assert(self.names()[b] == old(self).names()[b]);
                        assert(old(self).names()[a] != old(self).names()[b]);
                    }
                    assert(self.wf());
                }
                return ;
            }
            i = i + 1;
        }
        let entry = (key, rec);
        proof {
            lemma_lookup_push(s0, entry, name@);
            assert forall|other: Seq<char>| other != name@ implies lookup(s0.push(entry), other)
                == lookup(s0, other) by {
                lemma_lookup_push_other(s0, entry, other);
            }
        }
        self.entries.push(entry);
        proof {
            assert(self.names() =~= old(self).names().push(name@));
        }
    }

    /// Returns the record stored under `name`, or `NotFound` when no record
    /// exists for it.
    pub fn get(&self, name: &str) -> (r: Result<WalletRecord, WalletError>)
        ensures
            r matches Ok(rec) ==> self.spec_get(name@) == Some(
                (rec.public_hex@, rec.secret_hex@),
            ),
            r is Err <==> self.spec_get(name@) is None,
            r matches Err(e) ==> e == WalletError::NotFound,
    {
        let key: String = name.to_owned();
        let n = self.entries.len();
        let mut i: usize = 0;
        proof {
            assert(self.entries@.skip(0) =~= self.entries@);
        }
        while i < n
            invariant
                i <= n,
                n == self.entries@.len(),
                key@ == name@,
                lookup(self.entries@, name@) == lookup(self.entries@.skip(i as int), name@),
            decreases n - i,
        {
            let entry = &self.entries[i];
            proof {
                assert(self.entries@.skip(i as int)[0] == self.entries@[i as int]);
            }
            if entry.0 == key {
                return Ok(
                    WalletRecord {
                        public_hex: entry.1.public_hex.clone(),
                        secret_hex: entry.1.secret_hex.clone(),
                    },
                );
            }
            proof {
                assert(self.entries@.skip(i as int).drop_first() =~= self.entries@.skip(
                    i as int + 1,
                ));
            }
            i = i + 1;
        }
        proof {
            assert(self.entries@.skip(n as int) =~= Seq::<(String, WalletRecord)>::empty());
        }
        Err(WalletError::NotFound)
    }

    /// All stored names, in storage order; empty for an empty store.
    pub fn list(&self) -> (r: Vec<String>)
        ensures
            r@.len() == self.names().len(),
            forall|i: int| 0 <= i < r@.len() ==> r@[i]@ == self.names()[i],
    {
        let mut out: Vec<String> = Vec::new();
        let n = self.entries.len();
        let mut i: usize = 0;
        while i < n
            invariant
                i <= n,
                n == self.entries@.len(),
                out@.len() == i,
                forall|j: int| 0 <= j < i ==> out@[j]@ == self.entries@[j].0@,
            decreases n - i,
        {
            let entry = &self.entries[i];
            out.push(entry.0.clone());
            i = i + 1;
        }
        out
    }
}

/// Law: a record just stored is found again and decodes to the keypair it
/// came from. After `put(name, encode(kp))` the store maps `name` to the
/// encoded fields — which `put`'s contract states — and decoding those
/// fields yields exactly `kp`'s public and secret bytes.
pub proof fn lemma_put_get_round_trip(st: WalletStore, name: Seq<char>, kp: KeyPair)
    requires
        kp.wf(),
        st.spec_get(name) == Some(
            (hexstr::hex_of(kp.public@), hexstr::hex_of(kp.secret@)),
        ),
    ensures
        record::spec_decode(st.spec_get(name)->Some_0.0, st.spec_get(name)->Some_0.1) == Ok::<
            (Seq<u8>, Seq<u8>),
            WalletError,
        >((kp.public@, kp.secret@)),
{
    record::lemma_encode_decode(kp);
}

/// The file a wallet name is kept under: the fixed storage root, the name
/// verbatim, and the document suffix.
pub fn wallet_path(name: &str) -> (r: String)
    ensures
        r@ == "wallets/"@ + name@ + ".json"@,
{
    let mut p: String = "wallets/".to_owned();
    p.append(name);
    p.append(".json");
    p
}

proof fn lemma_lookup_replace(
    s: Seq<(String, WalletRecord)>,
    i: int,
    entry: (String, WalletRecord),
    name: Seq<char>,
)
    requires
        0 <= i < s.len(),
        entry.0@ == name,
        s[i].0@ == name,
        forall|j: int| 0 <= j < i ==> s[j].0@ != name,
    ensures
        lookup(s.update(i, entry), name) == Some((entry.1.public_hex@, entry.1.secret_hex@)),
    decreases i,
{
    let s2 = s.update(i, entry);
    if i == 0 {
        assert(s2[0] == entry);
    } else {
        assert(s2[0] == s[0]);
        assert(s2.drop_first() =~= s.drop_first().update(i - 1, entry));
        lemma_lookup_replace(s.drop_first(), i - 1, entry, name);
    }
}

proof fn lemma_lookup_replace_other(
    s: Seq<(String, WalletRecord)>,
    i: int,
    entry: (String, WalletRecord),
    other: Seq<char>,
)
    requires
        0 <= i < s.len(),
        s[i].0@ != other,
        entry.0@ != other,
    ensures
        lookup(s.update(i, entry), other) == lookup(s, other),
    decreases s.len(),
{
    let s2 = s.update(i, entry);
    if i == 0 {
        assert(s2[0] == entry);
        assert(s2.drop_first() =~= s.drop_first());
    } else {
        assert(s2[0] == s[0]);
        if s[0].0@ != other {
            assert(s2.drop_first() =~= s.drop_first().update(i - 1, entry));
            lemma_lookup_replace_other(s.drop_first(), i - 1, entry, other);
        }
    }
}

proof fn lemma_lookup_push(
    s: Seq<(String, WalletRecord)>,
    entry: (String, WalletRecord),
    name: Seq<char>,
)
    requires
        entry.0@ == name,
        forall|j: int| 0 <= j < s.len() ==> s[j].0@ != name,
    ensures
        lookup(s.push(entry), name) == Some((entry.1.public_hex@, entry.1.secret_hex@)),
    decreases s.len(),
{
    let s2 = s.push(entry);
    if s.len() == 0 {
        assert(s2[0] == entry);
    } else {
        assert(s2[0] == s[0]);
        assert(s2.drop_first() =~= s.drop_first().push(entry));
        lemma_lookup_push(s.drop_first(), entry, name);
    }
}

proof fn lemma_lookup_push_other(
    s: Seq<(String, WalletRecord)>,
    entry: (String, WalletRecord),
    other: Seq<char>,
)
    requires
        entry.0@ != other,
    ensures
        lookup(s.push(entry), other) == lookup(s, other),
    decreases s.len(),
{
    let s2 = s.push(entry);
    if s.len() == 0 {
        assert(s2[0] == entry);
        assert(s2.drop_first() =~= Seq::<(String, WalletRecord)>::empty());
        assert(lookup(Seq::<(String, WalletRecord)>::empty(), other) is None);
    } else {
        assert(s2[0] == s[0]);
        if s[0].0@ != other {
            assert(s2.drop_first() =~= s.drop_first().push(entry));
            lemma_lookup_push_other(s.drop_first(), entry, other);
        }
    }
}

} // verus!
